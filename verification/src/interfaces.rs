//! The network interfaces: one record for each data row of their table.

use vstd::prelude::*;
use crate::error::ParseError;
use crate::model::{InterfaceInformation, InterfaceInformationView};
use crate::outcome::{all_or_first_failure, lemma_all_succeed, lemma_first_failure_decides};
use crate::table::{rows_after, RowView, Table, TableRow, TableView};

verus! {

/// The number of columns that an interface row is read from.
pub const INTERFACE_COLUMNS: usize = 5;

/// The record of one interface row: its first five cells, each kept as it
/// is. A row with fewer cells is a failure of structure.
pub open spec fn interface_row(cells: RowView) -> Result<InterfaceInformationView, ParseError> {
    if cells.len() < INTERFACE_COLUMNS {
        Err(ParseError::Structure)
    } else {
        Ok(
            InterfaceInformationView {
                name: cells[0],
                provisioned: cells[1],
                state: cells[2],
                speed: cells[3],
                mac_address: cells[4],
            },
        )
    }
}

/// The outcome of each row behind the header row.
pub open spec fn interface_outcomes(table: TableView) -> Seq<
    Result<InterfaceInformationView, ParseError>,
> {
    rows_after(table, 1).map_values(|cells: RowView| interface_row(cells))
}

/// The records of an interface table: one for each row behind the header
/// row, in the order of the rows, or the failure of the first row that
/// fails.
pub open spec fn interface_table(table: TableView) -> Result<
    Seq<InterfaceInformationView>,
    ParseError,
> {
    all_or_first_failure(interface_outcomes(table))
}

/// The views of a list of interface records.
pub open spec fn interface_views(list: Seq<InterfaceInformation>) -> Seq<InterfaceInformationView> {
    list.map_values(|i: InterfaceInformation| i@)
}

/// Reads one interface row.
pub fn parse_interface_row(row: &TableRow) -> (record: Result<InterfaceInformation, ParseError>)
    ensures
        match record {
            Ok(i) => interface_row(row@) == Ok::<InterfaceInformationView, ParseError>(i@),
            Err(e) => interface_row(row@) == Err::<InterfaceInformationView, ParseError>(e),
        },
        record matches Err(e) ==> e == ParseError::Structure,
{
    let name = row.cell(0)?.to_owned();
    let provisioned = row.cell(1)?.to_owned();
    let state = row.cell(2)?.to_owned();
    let speed = row.cell(3)?.to_owned();
    let mac_address = row.cell(4)?.to_owned();
    Ok(InterfaceInformation { name, provisioned, state, speed, mac_address })
}

/// Reads the interface table: the first row is the header and is passed
/// over, every further row gives one record. A table without data rows
/// gives no records.
pub fn parse_tables_interface_parameters_table(table: &Table) -> (records: Result<
    Vec<InterfaceInformation>,
    ParseError,
>)
    ensures
        match records {
            Ok(list) => interface_table(table@) == Ok::<Seq<InterfaceInformationView>, ParseError>(
                interface_views(list@),
            ),
            Err(e) => interface_table(table@) == Err::<Seq<InterfaceInformationView>, ParseError>(
                e,
            ),
        },
        records matches Ok(list) ==> {
            &&& list@.len() == rows_after(table@, 1).len()
            &&& forall|i: int|
                0 <= i < list@.len() ==> interface_row(#[trigger] rows_after(table@, 1)[i]) == Ok::<
                    InterfaceInformationView,
                    ParseError,
                >(list@[i]@)
        },
        records matches Err(e) ==> e == ParseError::Structure,
{
    let ghost outcomes = interface_outcomes(table@);
    let count = table.count_after(1);
    let mut list: Vec<InterfaceInformation> = Vec::new();
    let mut i: usize = 0;
    while i < count
        invariant
            i <= count,
            count == rows_after(table@, 1).len(),
            outcomes == interface_outcomes(table@),
            list@.len() == i,
            forall|k: int|
                0 <= k < i ==> #[trigger] outcomes[k] == Ok::<InterfaceInformationView, ParseError>(
                    list@[k]@,
                ),
        decreases count - i,
    {
        let row = match table.row_after(1, i) {
            Ok(row) => row,
            Err(e) => {
                return Err(e);
            },
        };
        match parse_interface_row(row) {
            Ok(record) => {
                list.push(record);
            },
            Err(e) => {
                proof {
                    lemma_first_failure_decides(outcomes, i as int);
                }
                return Err(e);
            },
        }
        i += 1;
    }
    proof {
        lemma_all_succeed(outcomes, interface_views(list@));
        assert forall|k: int| 0 <= k < list@.len() implies interface_row(
            #[trigger] rows_after(table@, 1)[k],
        ) == Ok::<InterfaceInformationView, ParseError>(list@[k]@) by {
            assert(outcomes[k] == interface_row(rows_after(table@, 1)[k]));
        }
    }
    Ok(list)
}

} // verus!
