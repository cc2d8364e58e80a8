//! The downstream channels: one record for each data row of their table.

use vstd::prelude::*;
use crate::coerce::{
    coerce_u8_or_zero,
    coerce_u8_strict,
    coerce_usize_or_zero,
    decimal_u8,
    decimal_usize,
    tolerant_u8,
    tolerant_usize,
};
use crate::error::ParseError;
use crate::model::{DownstreamParameter, DownstreamParameterView};
use crate::outcome::{all_or_first_failure, lemma_all_succeed, lemma_first_failure_decides};
use crate::table::{rows_after, RowView, Table, TableRow, TableView};
use crate::text::{last_token, split_last_token};

verus! {

/// The number of columns that a downstream row is read from.
pub const DOWNSTREAM_COLUMNS: usize = 9;

/// The record of one downstream row, its cells read from left to right:
/// the first cell that is missing or cannot be coerced decides the failure.
/// The identifier is the last word of the first cell and must be a number;
/// the other numbers read as zero where the cell holds none.
pub open spec fn downstream_row(cells: RowView) -> Result<DownstreamParameterView, ParseError> {
    if cells.len() < 1 {
        Err(ParseError::Structure)
    } else if decimal_u8(last_token(cells[0])) is None {
        Err(ParseError::Coercion)
    } else if cells.len() < DOWNSTREAM_COLUMNS {
        Err(ParseError::Structure)
    } else {
        Ok(
            DownstreamParameterView {
                id: decimal_u8(last_token(cells[0]))->Some_0,
                channel_id: tolerant_u8(cells[1]),
                freq: cells[2],
                power: cells[3],
                snr: cells[4],
                modulation: cells[5],
                octets: tolerant_usize(cells[6]),
                correcteds: tolerant_u8(cells[7]),
                uncorrectables: tolerant_u8(cells[8]),
            },
        )
    }
}

/// The outcome of each row behind the header row.
pub open spec fn downstream_outcomes(table: TableView) -> Seq<
    Result<DownstreamParameterView, ParseError>,
> {
    rows_after(table, 1).map_values(|cells: RowView| downstream_row(cells))
}

/// The records of a downstream table: one for each row behind the header
/// row, in the order of the rows, or the failure of the first row that
/// fails.
pub open spec fn downstream_table(table: TableView) -> Result<
    Seq<DownstreamParameterView>,
    ParseError,
> {
    all_or_first_failure(downstream_outcomes(table))
}

/// The views of a list of downstream records.
pub open spec fn downstream_views(list: Seq<DownstreamParameter>) -> Seq<DownstreamParameterView> {
    list.map_values(|p: DownstreamParameter| p@)
}

/// An identifier that is no number fails its row with a coercion failure,
/// whatever the other cells of the row hold.
pub proof fn lemma_identifier_must_be_numeric(cells: RowView)
    requires
        cells.len() >= 1,
        decimal_u8(last_token(cells[0])) is None,
    ensures
        downstream_row(cells) == Err::<DownstreamParameterView, ParseError>(ParseError::Coercion),
{
}

/// An octet count that is no number does not fail its row: the count reads
/// as zero.
pub proof fn lemma_octets_read_as_zero(cells: RowView)
    requires
        cells.len() >= DOWNSTREAM_COLUMNS,
        decimal_u8(last_token(cells[0])) is Some,
        decimal_usize(cells[6]) is None,
    ensures
        downstream_row(cells) is Ok,
        downstream_row(cells)->Ok_0.octets == 0,
{
}

/// The tolerant cells of a row never decide whether the row is read: a row
/// with all its cells and a numeric identifier gives a record.
pub proof fn lemma_only_identifier_is_strict(cells: RowView)
    requires
        cells.len() >= DOWNSTREAM_COLUMNS,
    ensures
        downstream_row(cells) is Ok <==> decimal_u8(last_token(cells[0])) is Some,
{
}

/// A table that is read gives exactly one record for each row behind the
/// header row, in the order of the rows.
pub proof fn lemma_one_record_per_row(table: TableView, records: Seq<DownstreamParameterView>)
    requires
        downstream_table(table) == Ok::<Seq<DownstreamParameterView>, ParseError>(records),
    ensures
        records.len() == rows_after(table, 1).len(),
        forall|i: int|
            0 <= i < records.len() ==> downstream_row(#[trigger] rows_after(table, 1)[i]) == Ok::<
                DownstreamParameterView,
                ParseError,
            >(records[i]),
{
    let outcomes = downstream_outcomes(table);
    assert forall|i: int| 0 <= i < records.len() implies downstream_row(
        #[trigger] rows_after(table, 1)[i],
    ) == Ok::<DownstreamParameterView, ParseError>(records[i]) by {
        assert(outcomes[i] is Ok);
        assert(outcomes[i] == downstream_row(rows_after(table, 1)[i]));
    }
}

/// A row whose identifier is no number, behind rows that are all read,
/// fails the table with a coercion failure.
pub proof fn lemma_first_bad_identifier_fails_table(table: TableView, at: int)
    requires
        0 <= at < rows_after(table, 1).len(),
        forall|j: int| 0 <= j < at ==> downstream_row(#[trigger] rows_after(table, 1)[j]) is Ok,
        rows_after(table, 1)[at].len() >= 1,
        decimal_u8(last_token(rows_after(table, 1)[at][0])) is None,
    ensures
        downstream_table(table) == Err::<Seq<DownstreamParameterView>, ParseError>(
            ParseError::Coercion,
        ),
{
    let outcomes = downstream_outcomes(table);
    assert forall|j: int| 0 <= j < at implies outcomes[j] is Ok by {
        assert(outcomes[j] == downstream_row(rows_after(table, 1)[j]));
    }
    lemma_first_failure_decides(outcomes, at);
}

/// Reads one downstream row.
pub fn parse_downstream_row(row: &TableRow) -> (record: Result<DownstreamParameter, ParseError>)
    ensures
        match record {
            Ok(p) => downstream_row(row@) == Ok::<DownstreamParameterView, ParseError>(p@),
            Err(e) => downstream_row(row@) == Err::<DownstreamParameterView, ParseError>(e),
        },
{
    let id = coerce_u8_strict(split_last_token(row.cell(0)?))?;
    let channel_id = coerce_u8_or_zero(row.cell(1)?);
    let freq = row.cell(2)?.to_owned();
    let power = row.cell(3)?.to_owned();
    let snr = row.cell(4)?.to_owned();
    let modulation = row.cell(5)?.to_owned();
    let octets = coerce_usize_or_zero(row.cell(6)?);
    let correcteds = coerce_u8_or_zero(row.cell(7)?);
    let uncorrectables = coerce_u8_or_zero(row.cell(8)?);
    Ok(
        DownstreamParameter {
            id,
            channel_id,
            freq,
            power,
            snr,
            modulation,
            octets,
            correcteds,
            uncorrectables,
        },
    )
}

/// Reads the downstream table: the first row is the header and is passed
/// over, every further row gives one record. A table without data rows
/// gives no records.
pub fn parse_tables_rf_parameters_downstream_table(table: &Table) -> (records: Result<
    Vec<DownstreamParameter>,
    ParseError,
>)
    ensures
        match records {
            Ok(list) => downstream_table(table@) == Ok::<Seq<DownstreamParameterView>, ParseError>(
                downstream_views(list@),
            ),
            Err(e) => downstream_table(table@) == Err::<Seq<DownstreamParameterView>, ParseError>(
                e,
            ),
        },
        records matches Ok(list) ==> {
            &&& list@.len() == rows_after(table@, 1).len()
            &&& forall|i: int|
                0 <= i < list@.len() ==> downstream_row(#[trigger] rows_after(table@, 1)[i]) == Ok::<
                    DownstreamParameterView,
                    ParseError,
                >(list@[i]@)
        },
{
    let ghost outcomes = downstream_outcomes(table@);
    let count = table.count_after(1);
    let mut list: Vec<DownstreamParameter> = Vec::new();
    let mut i: usize = 0;
    while i < count
        invariant
            i <= count,
            count == rows_after(table@, 1).len(),
            outcomes == downstream_outcomes(table@),
            list@.len() == i,
            forall|k: int|
                0 <= k < i ==> #[trigger] outcomes[k] == Ok::<DownstreamParameterView, ParseError>(
                    list@[k]@,
                ),
        decreases count - i,
    {
        let row = match table.row_after(1, i) {
            Ok(row) => row,
            Err(e) => {
                return Err(e);
            },
        };
        match parse_downstream_row(row) {
            Ok(record) => {
                list.push(record);
            },
            Err(e) => {
                proof {
                    lemma_first_failure_decides(outcomes, i as int);
                }
                return Err(e);
            },
        }
        i += 1;
    }
    proof {
        lemma_all_succeed(outcomes, downstream_views(list@));
        assert forall|k: int| 0 <= k < list@.len() implies downstream_row(
            #[trigger] rows_after(table@, 1)[k],
        ) == Ok::<DownstreamParameterView, ParseError>(list@[k]@) by {
            assert(outcomes[k] == downstream_row(rows_after(table@, 1)[k]));
        }
    }
    Ok(list)
}

} // verus!
