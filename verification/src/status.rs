//! The modem's overall state: four fields, each the last cell of one of the
//! first four rows of the status table.

use vstd::prelude::*;
use crate::error::ParseError;
use crate::model::{StatusParameter, StatusParameterView};
use crate::table::{rows_after, Table, TableView};
use crate::text::{trim_whitespace, trimmed};

verus! {

/// The row that holds the uptime.
pub const UPTIME_ROW: usize = 0;

/// The row that holds the number of computers detected.
pub const COMPUTERS_DETECTED_ROW: usize = 1;

/// The row that holds the modem's status text.
pub const CM_STATUS_ROW: usize = 2;

/// The row that holds the current date and time.
pub const CURRENT_DATETIME_ROW: usize = 3;

/// The number of rows that the status is read from.
pub const STATUS_ROWS: usize = 4;

/// Whether a table has the four status rows, each with at least one cell.
pub open spec fn has_status_rows(table: TableView) -> bool {
    &&& table.len() >= STATUS_ROWS
    &&& forall|i: int| 0 <= i < STATUS_ROWS ==> (#[trigger] table[i]).len() > 0
}

/// The state that a status table shows. No row is passed over. Of each row
/// only the last cell counts: a label may stand before the value. The
/// number of computers is stripped of the whitespace around it; the other
/// three texts are kept as they are. A table that lacks one of the rows, or
/// a cell in one of them, is a failure of structure.
pub open spec fn status_table(table: TableView) -> Result<StatusParameterView, ParseError> {
    if has_status_rows(table) {
        Ok(
            StatusParameterView {
                uptime: table[UPTIME_ROW as int].last(),
                computers_detected: trimmed(table[COMPUTERS_DETECTED_ROW as int].last()),
                cm_status: table[CM_STATUS_ROW as int].last(),
                current_datetime: table[CURRENT_DATETIME_ROW as int].last(),
            },
        )
    } else {
        Err(ParseError::Structure)
    }
}

/// Reads the status table.
pub fn parse_tables_status_table(table: &Table) -> (status: Result<StatusParameter, ParseError>)
    ensures
        match status {
            Ok(s) => status_table(table@) == Ok::<StatusParameterView, ParseError>(s@),
            Err(e) => status_table(table@) == Err::<StatusParameterView, ParseError>(e),
        },
        status matches Err(e) ==> e == ParseError::Structure,
{
    assert(rows_after(table@, 0) =~= table@);
    let uptime = table.row_after(0, UPTIME_ROW)?.last_cell()?.to_owned();
    let computers_detected = trim_whitespace(
        table.row_after(0, COMPUTERS_DETECTED_ROW)?.last_cell()?,
    ).to_owned();
    let cm_status = table.row_after(0, CM_STATUS_ROW)?.last_cell()?.to_owned();
    let current_datetime = table.row_after(0, CURRENT_DATETIME_ROW)?.last_cell()?.to_owned();
    Ok(StatusParameter { uptime, computers_detected, cm_status, current_datetime })
}

} // verus!
