//! The upstream channel: one record, read from the first data row of its
//! table.

use vstd::prelude::*;
use crate::coerce::{coerce_u8_or_zero, tolerant_u8};
use crate::error::ParseError;
use crate::model::{UpstreamParameter, UpstreamParameterView};
use crate::table::{rows_after, RowView, Table, TableRow, TableView};
use crate::text::{last_token, split_last_token};

verus! {

/// The number of columns that the upstream row is read from.
pub const UPSTREAM_COLUMNS: usize = 7;

/// The record of the upstream row. The identifier is the last word of the
/// first cell, kept as text; the channel index reads as zero where its cell
/// holds no number. A row with fewer cells than columns is a failure of
/// structure.
pub open spec fn upstream_row(cells: RowView) -> Result<UpstreamParameterView, ParseError> {
    if cells.len() < UPSTREAM_COLUMNS {
        Err(ParseError::Structure)
    } else {
        Ok(
            UpstreamParameterView {
                id: last_token(cells[0]),
                channel_id: tolerant_u8(cells[1]),
                frequency: cells[2],
                power: cells[3],
                channel_type: cells[4],
                symbol_rate: cells[5],
                modulation: cells[6],
            },
        )
    }
}

/// The records of an upstream table: the one of the first row behind the
/// header row. Further rows are not read. A table without that row is a
/// failure of structure.
pub open spec fn upstream_table(table: TableView) -> Result<Seq<UpstreamParameterView>, ParseError> {
    if rows_after(table, 1).len() < 1 {
        Err(ParseError::Structure)
    } else {
        match upstream_row(rows_after(table, 1)[0]) {
            Ok(record) => Ok(seq![record]),
            Err(e) => Err(e),
        }
    }
}

/// The views of a list of upstream records.
pub open spec fn upstream_views(list: Seq<UpstreamParameter>) -> Seq<UpstreamParameterView> {
    list.map_values(|p: UpstreamParameter| p@)
}

/// Reads the upstream row.
pub fn parse_upstream_row(row: &TableRow) -> (record: Result<UpstreamParameter, ParseError>)
    ensures
        match record {
            Ok(p) => upstream_row(row@) == Ok::<UpstreamParameterView, ParseError>(p@),
            Err(e) => upstream_row(row@) == Err::<UpstreamParameterView, ParseError>(e),
        },
{
    let id = split_last_token(row.cell(0)?).to_owned();
    let channel_id = coerce_u8_or_zero(row.cell(1)?);
    let frequency = row.cell(2)?.to_owned();
    let power = row.cell(3)?.to_owned();
    let channel_type = row.cell(4)?.to_owned();
    let symbol_rate = row.cell(5)?.to_owned();
    let modulation = row.cell(6)?.to_owned();
    Ok(UpstreamParameter { id, channel_id, frequency, power, channel_type, symbol_rate, modulation })
}

/// Reads the upstream table: the first row is the header and is passed
/// over, the row behind it gives the one record, and any further rows are
/// ignored.
pub fn parse_tables_rf_parameters_upstream_table(table: &Table) -> (records: Result<
    Vec<UpstreamParameter>,
    ParseError,
>)
    ensures
        match records {
            Ok(list) => upstream_table(table@) == Ok::<Seq<UpstreamParameterView>, ParseError>(
                upstream_views(list@),
            ),
            Err(e) => upstream_table(table@) == Err::<Seq<UpstreamParameterView>, ParseError>(e),
        },
        records matches Ok(list) ==> list@.len() == 1,
{
    let row = table.row_after(1, 0)?;
    let record = parse_upstream_row(row)?;
    let mut list: Vec<UpstreamParameter> = Vec::new();
    list.push(record);
    assert(upstream_views(list@) =~= seq![record@]);
    Ok(list)
}

} // verus!
