use arris_status::downstream::{
    parse_downstream_row, parse_tables_rf_parameters_downstream_table,
};
use arris_status::interfaces::{parse_interface_row, parse_tables_interface_parameters_table};
use arris_status::status::parse_tables_status_table;
use arris_status::upstream::{parse_tables_rf_parameters_upstream_table, parse_upstream_row};
use arris_status::{ParseError, Table, TableRow};

fn row(cells: &[&str]) -> TableRow {
    TableRow { cells: cells.iter().map(|cell| cell.to_string()).collect() }
}

fn table(rows: &[&[&str]]) -> Table {
    Table { rows: rows.iter().map(|cells| row(cells)).collect() }
}

const DOWN_HEADER: &[&str] = &[
    "", "DCID", "Freq", "Power", "SNR", "Modulation", "Octets", "Correcteds", "Uncorrectables",
];

#[test]
fn table_row_cell_by_position() {
    let r = row(&["a", "b"]);
    assert_eq!(r.len(), 2);
    assert_eq!(r.cell(0), Ok("a"));
    assert_eq!(r.cell(1), Ok("b"));
    assert_eq!(r.cell(2), Err(ParseError::Structure));
    assert_eq!(r.last_cell(), Ok("b"));
    assert_eq!(row(&[]).last_cell(), Err(ParseError::Structure));
}

#[test]
fn table_rows_behind_skipped_rows() {
    let t = table(&[&["h"], &["x"], &["y"]]);
    assert_eq!(t.count_after(0), 3);
    assert_eq!(t.count_after(1), 2);
    assert_eq!(t.count_after(3), 0);
    assert_eq!(t.count_after(4), 0);
    assert_eq!(t.row_after(1, 0).unwrap().cells, vec!["x".to_string()]);
    assert_eq!(t.row_after(1, 1).unwrap().cells, vec!["y".to_string()]);
    assert_eq!(t.row_after(1, 2).err(), Some(ParseError::Structure));
    assert_eq!(t.row_after(4, 0).err(), Some(ParseError::Structure));
    assert_eq!(t.row_after(usize::MAX, usize::MAX).err(), Some(ParseError::Structure));
}

#[test]
fn downstream_row_maps_cells_to_fields() {
    let p = parse_downstream_row(&row(&[
        "Downstream 1", "1", "549000000 Hz", "0.5 dBmV", "38 dB", "QAM256", "305419896", "4", "2",
    ]))
    .unwrap();
    assert_eq!(p.id, 1);
    assert_eq!(p.channel_id, 1);
    assert_eq!(p.freq, "549000000 Hz");
    assert_eq!(p.power, "0.5 dBmV");
    assert_eq!(p.snr, "38 dB");
    assert_eq!(p.modulation, "QAM256");
    assert_eq!(p.octets, 305419896);
    assert_eq!(p.correcteds, 4);
    assert_eq!(p.uncorrectables, 2);
}

#[test]
fn downstream_table_gives_one_record_per_data_row_in_order() {
    let rows: Vec<Vec<String>> = (1..=5)
        .map(|i| {
            vec![
                format!("Downstream {}", i),
                format!("{}", 10 + i),
                format!("{} Hz", i),
                "p".to_string(),
                "s".to_string(),
                "m".to_string(),
                format!("{}", 1000 * i),
                "0".to_string(),
                "0".to_string(),
            ]
        })
        .collect();
    let mut t = table(&[DOWN_HEADER]);
    for cells in rows {
        t.rows.push(TableRow { cells });
    }
    let list = parse_tables_rf_parameters_downstream_table(&t).unwrap();
    assert_eq!(list.len(), 5);
    for (k, p) in list.iter().enumerate() {
        assert_eq!(p.id as usize, k + 1);
        assert_eq!(p.channel_id as usize, k + 11);
        assert_eq!(p.freq, format!("{} Hz", k + 1));
        assert_eq!(p.octets, 1000 * (k + 1));
    }
}

#[test]
fn downstream_table_without_data_rows_is_empty() {
    assert_eq!(parse_tables_rf_parameters_downstream_table(&table(&[DOWN_HEADER])), Ok(vec![]));
    assert_eq!(parse_tables_rf_parameters_downstream_table(&table(&[])), Ok(vec![]));
}

#[test]
fn downstream_header_row_is_not_read() {
    let t = table(&[&["not", "a", "record"], &["Downstream 2", "2", "f", "p", "s", "m", "1", "0", "0"]]);
    let list = parse_tables_rf_parameters_downstream_table(&t).unwrap();
    assert_eq!(list.len(), 1);
    assert_eq!(list[0].id, 2);
}

#[test]
fn downstream_non_numeric_id_is_a_coercion_failure() {
    let t = table(&[DOWN_HEADER, &["Downstream x", "1", "f", "p", "s", "m", "1", "0", "0"]]);
    assert_eq!(parse_tables_rf_parameters_downstream_table(&t), Err(ParseError::Coercion));
    let t = table(&[DOWN_HEADER, &["Downstream 1 ", "1", "f", "p", "s", "m", "1", "0", "0"]]);
    assert_eq!(parse_tables_rf_parameters_downstream_table(&t), Err(ParseError::Coercion));
    let t = table(&[DOWN_HEADER, &["Downstream 256", "1", "f", "p", "s", "m", "1", "0", "0"]]);
    assert_eq!(parse_tables_rf_parameters_downstream_table(&t), Err(ParseError::Coercion));
}

#[test]
fn downstream_non_numeric_octets_read_as_zero() {
    let t = table(&[DOWN_HEADER, &["Downstream 1", "1", "f", "p", "s", "m", "many", "0", "0"]]);
    let list = parse_tables_rf_parameters_downstream_table(&t).unwrap();
    assert_eq!(list.len(), 1);
    assert_eq!(list[0].octets, 0);
    assert_eq!(list[0].id, 1);
}

#[test]
fn downstream_tolerant_fields_read_as_zero() {
    let p = parse_downstream_row(&row(&["7", "?", "f", "p", "s", "m", "", "-1", "256"])).unwrap();
    assert_eq!(p.id, 7);
    assert_eq!(p.channel_id, 0);
    assert_eq!(p.octets, 0);
    assert_eq!(p.correcteds, 0);
    assert_eq!(p.uncorrectables, 0);
}

#[test]
fn downstream_missing_cells_are_a_structure_failure() {
    assert_eq!(parse_downstream_row(&row(&[])), Err(ParseError::Structure));
    assert_eq!(
        parse_downstream_row(&row(&["Downstream 1", "1", "f", "p", "s", "m", "1", "0"])),
        Err(ParseError::Structure)
    );
}

#[test]
fn downstream_first_failing_cell_decides() {
    assert_eq!(parse_downstream_row(&row(&["Downstream x"])), Err(ParseError::Coercion));
    assert_eq!(parse_downstream_row(&row(&["Downstream 1"])), Err(ParseError::Structure));
}

#[test]
fn downstream_first_failing_row_decides() {
    let good: &[&str] = &["Downstream 1", "1", "f", "p", "s", "m", "1", "0", "0"];
    let short: &[&str] = &["Downstream 2", "2"];
    let bad: &[&str] = &["Downstream x", "3", "f", "p", "s", "m", "1", "0", "0"];
    assert_eq!(
        parse_tables_rf_parameters_downstream_table(&table(&[DOWN_HEADER, good, short, bad])),
        Err(ParseError::Structure)
    );
    assert_eq!(
        parse_tables_rf_parameters_downstream_table(&table(&[DOWN_HEADER, good, bad, short])),
        Err(ParseError::Coercion)
    );
}

#[test]
fn downstream_extra_cells_are_ignored() {
    let p = parse_downstream_row(&row(&["1", "1", "f", "p", "s", "m", "1", "0", "0", "extra"]))
        .unwrap();
    assert_eq!(p.uncorrectables, 0);
    assert_eq!(p.modulation, "m");
}

#[test]
fn upstream_id_is_last_word_of_label() {
    let p = parse_upstream_row(&row(&[
        "Channel ID 3", "5", "36500000 Hz", "45.00 dBmV", "DOCSIS2.0 (ATDMA)", "5120 kSym/s",
        "64QAM",
    ]))
    .unwrap();
    assert_eq!(p.id, "3");
    assert_eq!(p.channel_id, 5);
    assert_eq!(p.frequency, "36500000 Hz");
    assert_eq!(p.power, "45.00 dBmV");
    assert_eq!(p.channel_type, "DOCSIS2.0 (ATDMA)");
    assert_eq!(p.symbol_rate, "5120 kSym/s");
    assert_eq!(p.modulation, "64QAM");
}

#[test]
fn upstream_id_is_kept_as_text() {
    let p = parse_upstream_row(&row(&["Upstream A", "x", "f", "p", "t", "r", "m"])).unwrap();
    assert_eq!(p.id, "A");
    assert_eq!(p.channel_id, 0);
}

#[test]
fn upstream_reads_first_data_row_only() {
    let t = table(&[
        &["header"],
        &["Upstream 1", "1", "f1", "p1", "t1", "r1", "m1"],
        &["Upstream 2", "2", "f2", "p2", "t2", "r2", "m2"],
        &["short"],
    ]);
    let list = parse_tables_rf_parameters_upstream_table(&t).unwrap();
    assert_eq!(list.len(), 1);
    assert_eq!(list[0].id, "1");
    assert_eq!(list[0].frequency, "f1");
}

#[test]
fn upstream_without_data_row_is_a_structure_failure() {
    assert_eq!(
        parse_tables_rf_parameters_upstream_table(&table(&[&["header"]])),
        Err(ParseError::Structure)
    );
    assert_eq!(parse_tables_rf_parameters_upstream_table(&table(&[])), Err(ParseError::Structure));
}

#[test]
fn upstream_missing_cells_are_a_structure_failure() {
    let t = table(&[&["header"], &["Upstream 1", "1", "f", "p", "t", "r"]]);
    assert_eq!(parse_tables_rf_parameters_upstream_table(&t), Err(ParseError::Structure));
}

#[test]
fn status_takes_last_cell_of_each_row() {
    let t = table(&[
        &["System Uptime: ", " 0 d:  1 h: 02 m "],
        &["Computers Detected:", "  staticCPE(1), dynamicCPE(1) \n"],
        &["CM Status:", " OPERATIONAL "],
        &["Time and Date:", " Sat 2020-01-04 10:00:00 "],
    ]);
    let s = parse_tables_status_table(&t).unwrap();
    assert_eq!(s.uptime, " 0 d:  1 h: 02 m ");
    assert_eq!(s.computers_detected, "staticCPE(1), dynamicCPE(1)");
    assert_eq!(s.cm_status, " OPERATIONAL ");
    assert_eq!(s.current_datetime, " Sat 2020-01-04 10:00:00 ");
}

#[test]
fn status_rows_of_one_cell_and_rows_beyond_the_fourth() {
    let t = table(&[&["up"], &[" 2 "], &["ok"], &["now"], &["ignored", "row"]]);
    let s = parse_tables_status_table(&t).unwrap();
    assert_eq!(s.uptime, "up");
    assert_eq!(s.computers_detected, "2");
    assert_eq!(s.cm_status, "ok");
    assert_eq!(s.current_datetime, "now");
}

#[test]
fn status_missing_row_or_cell_is_a_structure_failure() {
    let t = table(&[&["a", "1"], &["b", "2"], &["c", "3"]]);
    assert_eq!(parse_tables_status_table(&t), Err(ParseError::Structure));
    let t = table(&[&["a", "1"], &["b", "2"], &[], &["d", "4"]]);
    assert_eq!(parse_tables_status_table(&t), Err(ParseError::Structure));
    assert_eq!(parse_tables_status_table(&table(&[])), Err(ParseError::Structure));
}

#[test]
fn interface_rows_map_five_cells() {
    let t = table(&[
        &["Interface Name", "Provisioned", "State", "Speed", "MAC address"],
        &["LAN Port 1", "Enabled", "Up", "1000(Full)", "00:11:22:33:44:55"],
        &["CABLE", "Enabled", "Up", "-----", "00:11:22:33:44:56"],
    ]);
    let list = parse_tables_interface_parameters_table(&t).unwrap();
    assert_eq!(list.len(), 2);
    assert_eq!(list[0].name, "LAN Port 1");
    assert_eq!(list[0].provisioned, "Enabled");
    assert_eq!(list[0].state, "Up");
    assert_eq!(list[0].speed, "1000(Full)");
    assert_eq!(list[0].mac_address, "00:11:22:33:44:55");
    assert_eq!(list[1].name, "CABLE");
    assert_eq!(list[1].speed, "-----");
}

#[test]
fn interface_table_without_data_rows_is_empty() {
    assert_eq!(parse_tables_interface_parameters_table(&table(&[&["h"]])), Ok(vec![]));
    assert_eq!(parse_tables_interface_parameters_table(&table(&[])), Ok(vec![]));
}

#[test]
fn interface_missing_cells_are_a_structure_failure() {
    assert_eq!(parse_interface_row(&row(&["a", "b", "c", "d"])), Err(ParseError::Structure));
    let t = table(&[&["h"], &["a", "b", "c", "d", "e"], &["a"]]);
    assert_eq!(parse_tables_interface_parameters_table(&t), Err(ParseError::Structure));
}
