//! The whole page: its tables are taken by position and handed to the
//! section that each stands for.
//!
//! The page carries no identifiers, so a table is known by its place alone.
//! Every second table holds what is extracted; the tables between them are
//! passed over. The positions are named here and nowhere else.

use vstd::prelude::*;
use crate::coerce::decimal_u8;
use crate::downstream::{
    downstream_row,
    downstream_table,
    lemma_first_bad_identifier_fails_table,
    lemma_one_record_per_row,
    parse_tables_rf_parameters_downstream_table,
};
use crate::error::ParseError;
use crate::interfaces::{interface_table, parse_tables_interface_parameters_table};
use crate::model::{
    ArrisStatus,
    ArrisStatusView,
    DownstreamParameterView,
    RFParameters,
    RFParametersView,
};
use crate::page::{is_readable, page_tables, read_tables, table_views};
use crate::status::{parse_tables_status_table, status_table};
use crate::table::{rows_after, Table, TableView};
use crate::text::last_token;
use crate::upstream::{parse_tables_rf_parameters_upstream_table, upstream_table};

verus! {

/// The position of the table of downstream channels.
pub const DOWNSTREAM_TABLE: usize = 1;

/// The position of the table of the upstream channel.
pub const UPSTREAM_TABLE: usize = 3;

/// The position of the status table.
pub const STATUS_TABLE: usize = 5;

/// The position of the table of interfaces.
pub const INTERFACE_TABLE: usize = 7;

/// The number of tables that a page must hold at least.
pub const EXPECTED_TABLES: usize = 8;

/// The table at a position of a page with the expected number of tables.
/// A page with fewer tables has none at any position.
pub open spec fn located(page: Seq<TableView>, position: int) -> Result<TableView, ParseError> {
    if page.len() >= EXPECTED_TABLES && 0 <= position < page.len() {
        Ok(page[position])
    } else {
        Err(ParseError::Structure)
    }
}

/// The record of a page. A page with fewer than eight tables is a failure
/// of structure, whatever its tables hold. Else the sections are read in
/// the order downstream, upstream, status, interfaces, and the first that
/// fails decides the failure: there is no partial record.
pub open spec fn assembled(page: Seq<TableView>) -> Result<ArrisStatusView, ParseError> {
    if page.len() < EXPECTED_TABLES {
        Err(ParseError::Structure)
    } else {
        match downstream_table(page[DOWNSTREAM_TABLE as int]) {
            Err(e) => Err(e),
            Ok(downstream) => match upstream_table(page[UPSTREAM_TABLE as int]) {
                Err(e) => Err(e),
                Ok(upstream) => match status_table(page[STATUS_TABLE as int]) {
                    Err(e) => Err(e),
                    Ok(status) => match interface_table(page[INTERFACE_TABLE as int]) {
                        Err(e) => Err(e),
                        Ok(interfaces) => Ok(
                            ArrisStatusView {
                                rf_parameters: RFParametersView {
                                    downstream_parameters: downstream,
                                    upstream_parameters: upstream,
                                },
                                status,
                                interfaces,
                            },
                        ),
                    },
                },
            },
        }
    }
}

/// The record of a page given as text. A text that is too long to be
/// parsed, or a selector that does not compile, leaves no table to be found,
/// which is a failure of structure.
pub open spec fn request_outcome(html: Seq<char>) -> Result<ArrisStatusView, ParseError> {
    match page_tables(html) {
        Some(page) => assembled(page),
        None => Err(ParseError::Structure),
    }
}

/// Whether an outcome of the extraction is the given outcome over views.
pub open spec fn is_outcome(
    outcome: Result<ArrisStatus, ParseError>,
    expected: Result<ArrisStatusView, ParseError>,
) -> bool {
    match outcome {
        Ok(record) => expected == Ok::<ArrisStatusView, ParseError>(record@),
        Err(e) => expected == Err::<ArrisStatusView, ParseError>(e),
    }
}

/// A page with fewer than eight tables gives a failure of structure and no
/// record, whatever its tables hold.
pub proof fn lemma_too_few_tables(page: Seq<TableView>)
    requires
        page.len() < EXPECTED_TABLES,
    ensures
        assembled(page) == Err::<ArrisStatusView, ParseError>(ParseError::Structure),
{
}

/// A record holds exactly one downstream channel for each data row of the
/// downstream table, in the order of the rows, and exactly one upstream
/// channel.
pub proof fn lemma_record_follows_rows(page: Seq<TableView>, record: ArrisStatusView)
    requires
        assembled(page) == Ok::<ArrisStatusView, ParseError>(record),
    ensures
        page.len() >= EXPECTED_TABLES,
        record.rf_parameters.downstream_parameters.len() == rows_after(
            page[DOWNSTREAM_TABLE as int],
            1,
        ).len(),
        forall|i: int|
            0 <= i < record.rf_parameters.downstream_parameters.len() ==> downstream_row(
                #[trigger] rows_after(page[DOWNSTREAM_TABLE as int], 1)[i],
            ) == Ok::<DownstreamParameterView, ParseError>(
                record.rf_parameters.downstream_parameters[i],
            ),
        record.rf_parameters.upstream_parameters.len() == 1,
        record.interfaces.len() == rows_after(page[INTERFACE_TABLE as int], 1).len(),
{
    lemma_one_record_per_row(
        page[DOWNSTREAM_TABLE as int],
        record.rf_parameters.downstream_parameters,
    );
    assert(interface_table(page[INTERFACE_TABLE as int]) is Ok);
}

/// On a page with the expected tables, a downstream identifier that is no
/// number, behind rows that are all read, fails the extraction with a
/// coercion failure.
pub proof fn lemma_bad_identifier_fails_page(page: Seq<TableView>, at: int)
    requires
        page.len() >= EXPECTED_TABLES,
        0 <= at < rows_after(page[DOWNSTREAM_TABLE as int], 1).len(),
        forall|j: int|
            0 <= j < at ==> downstream_row(
                #[trigger] rows_after(page[DOWNSTREAM_TABLE as int], 1)[j],
            ) is Ok,
        rows_after(page[DOWNSTREAM_TABLE as int], 1)[at].len() >= 1,
        decimal_u8(last_token(rows_after(page[DOWNSTREAM_TABLE as int], 1)[at][0])) is None,
    ensures
        assembled(page) == Err::<ArrisStatusView, ParseError>(ParseError::Coercion),
{
    lemma_first_bad_identifier_fails_table(page[DOWNSTREAM_TABLE as int], at);
}

/// Finds the table at a position. The table is found exactly where the
/// page holds the expected number of tables and the position lies in it.
pub fn locate_table(page: &Vec<Table>, position: usize) -> (table: Result<&Table, ParseError>)
    ensures
        match table {
            Ok(t) => located(table_views(page@), position as int) == Ok::<TableView, ParseError>(
                t@,
            ),
            Err(e) => located(table_views(page@), position as int) == Err::<
                TableView,
                ParseError,
            >(e),
        },
{
    if page.len() >= EXPECTED_TABLES && position < page.len() {
        Ok(&page[position])
    } else {
        Err(ParseError::Structure)
    }
}

/// Assembles the record from the tables of a page.
pub fn assemble(page: &Vec<Table>) -> (outcome: Result<ArrisStatus, ParseError>)
    ensures
        is_outcome(outcome, assembled(table_views(page@))),
        page@.len() < EXPECTED_TABLES ==> outcome == Err::<ArrisStatus, ParseError>(
            ParseError::Structure,
        ),
{
    let downstream_parameters = parse_tables_rf_parameters_downstream_table(
        locate_table(page, DOWNSTREAM_TABLE)?,
    )?;
    let upstream_parameters = parse_tables_rf_parameters_upstream_table(
        locate_table(page, UPSTREAM_TABLE)?,
    )?;
    let status = parse_tables_status_table(locate_table(page, STATUS_TABLE)?)?;
    let interfaces = parse_tables_interface_parameters_table(
        locate_table(page, INTERFACE_TABLE)?,
    )?;
    let rf_parameters = RFParameters { downstream_parameters, upstream_parameters };
    Ok(ArrisStatus { rf_parameters, status, interfaces })
}

/// Extracts the record from the text of a page. A text of more than
/// `MAX_DOCUMENT_BYTES` bytes is not parsed and is a failure of structure.
pub fn parse_request(html: &str) -> (outcome: Result<ArrisStatus, ParseError>)
    ensures
        is_outcome(outcome, request_outcome(html@)),
        !is_readable(html@) ==> outcome == Err::<ArrisStatus, ParseError>(ParseError::Structure),
        page_tables(html@) matches Some(page) && page.len() < EXPECTED_TABLES ==> outcome == Err::<
            ArrisStatus,
            ParseError,
        >(ParseError::Structure),
{
    match read_tables(html) {
        Some(page) => assemble(&page),
        None => Err(ParseError::Structure),
    }
}

} // verus!
