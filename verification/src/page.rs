//! Reading a page into tables of plain text.
//!
//! The page's text is parsed into a tree, the tables are selected from the
//! tree, the rows from each table, the cells from each row, and the text
//! from each cell. Which elements a selection yields is decided by the HTML
//! engine; what is done with them is decided here.
//!
//! A text that is longer than the engine can take is not parsed: it is a
//! page from which no table can be read.

use vstd::prelude::*;
use vstd::utf8::encode_utf8;
use crate::dom::{
    MAX_DOCUMENT_BYTES,
    compiled_selector,
    document_matches,
    element_matches,
    element_text,
    parsed_document,
    select_in_document,
    select_in_element,
    text_in_element,
};
use crate::table::{RowView, Table, TableRow, TableView};
use crate::text::{join_text, joined};

verus! {

/// The selector by which the tables of a page are found.
pub const TABLE_SELECTOR: &'static str = "table";

/// The selector by which the rows of a table are found.
pub const ROW_SELECTOR: &'static str = "tr";

/// The selector by which the cells of a row are found.
pub const CELL_SELECTOR: &'static str = "td";

/// The text of a cell: every text node below it, nested elements included,
/// concatenated in order.
pub open spec fn cell_view(cell: scraper::ElementRef) -> Seq<char> {
    joined(element_text(cell))
}

/// A row as the texts of the cells that are selected from it.
pub open spec fn row_view(row: scraper::ElementRef, cells: scraper::Selector) -> RowView {
    element_matches(row, cells).map_values(|cell: scraper::ElementRef| cell_view(cell))
}

/// A table as the rows that are selected from it.
pub open spec fn table_view(
    table: scraper::ElementRef,
    rows: scraper::Selector,
    cells: scraper::Selector,
) -> TableView {
    element_matches(table, rows).map_values(|row: scraper::ElementRef| row_view(row, cells))
}

/// The views of a list of tables.
pub open spec fn table_views(tables: Seq<Table>) -> Seq<TableView> {
    tables.map_values(|table: Table| table@)
}

/// Whether a text is short enough to be parsed: its length in bytes is at
/// most `MAX_DOCUMENT_BYTES`.
pub open spec fn is_readable(html: Seq<char>) -> bool {
    encode_utf8(html).len() <= MAX_DOCUMENT_BYTES
}

/// Whether each of the three selectors compiles.
pub open spec fn selectors_compile() -> bool {
    &&& compiled_selector(TABLE_SELECTOR@) is Some
    &&& compiled_selector(ROW_SELECTOR@) is Some
    &&& compiled_selector(CELL_SELECTOR@) is Some
}

/// The tables of a page, in the order in which they are selected from its
/// tree. There are none to be had, `None`, where the text is too long to be
/// parsed or one of the three selectors does not compile.
pub open spec fn page_tables(html: Seq<char>) -> Option<Seq<TableView>> {
    if is_readable(html) && selectors_compile() {
        Some(
            document_matches(
                &parsed_document(html),
                compiled_selector(TABLE_SELECTOR@)->Some_0,
            ).map_values(
                |table: scraper::ElementRef|
                    table_view(
                        table,
                        compiled_selector(ROW_SELECTOR@)->Some_0,
                        compiled_selector(CELL_SELECTOR@)->Some_0,
                    ),
            ),
        )
    } else {
        None
    }
}

/// Reads the text of one cell.
pub fn read_cell(cell: &scraper::ElementRef) -> (text: String)
    ensures
        text@ == cell_view(*cell),
{
    let parts = text_in_element(cell);
    join_text(&parts)
}

/// Reads one row: the text of each of its cells, left to right.
pub fn read_row(row: &scraper::ElementRef, cells: &scraper::Selector) -> (read: TableRow)
    ensures
        read@ == row_view(*row, *cells),
{
    let found = select_in_element(row, cells);
    let mut texts: Vec<String> = Vec::new();
    let mut i: usize = 0;
    while i < found.len()
        invariant
            i <= found.len(),
            texts@.len() == i,
            forall|k: int| 0 <= k < i ==> (#[trigger] texts@[k])@ == cell_view(found@[k]),
        decreases found.len() - i,
    {
        texts.push(read_cell(&found[i]));
        i += 1;
    }
    let read = TableRow { cells: texts };
    assert(read@ =~= row_view(*row, *cells));
    read
}

/// Reads one table: each of its rows, top to bottom.
pub fn read_table(
    table: &scraper::ElementRef,
    rows: &scraper::Selector,
    cells: &scraper::Selector,
) -> (read: Table)
    ensures
        read@ == table_view(*table, *rows, *cells),
{
    let found = select_in_element(table, rows);
    let mut list: Vec<TableRow> = Vec::new();
    let mut i: usize = 0;
    while i < found.len()
        invariant
            i <= found.len(),
            list@.len() == i,
            forall|k: int| 0 <= k < i ==> (#[trigger] list@[k])@ == row_view(found@[k], *cells),
        decreases found.len() - i,
    {
        list.push(read_row(&found[i], cells));
        i += 1;
    }
    let read = Table { rows: list };
    assert(read@ =~= table_view(*table, *rows, *cells));
    read
}

/// Reads every table of a page, in the order in which the tables are
/// selected from its tree. A page without tables gives the empty list. The
/// result is `None` exactly where the text is longer than
/// `MAX_DOCUMENT_BYTES` bytes, in which case it is not parsed, or a selector
/// does not compile.
pub fn read_tables(html: &str) -> (page: Option<Vec<Table>>)
    ensures
        match page {
            Some(tables) => page_tables(html@) == Some(table_views(tables@)),
            None => page_tables(html@) is None,
        },
        page is None <==> !is_readable(html@) || !selectors_compile(),
{
    if html.as_bytes().len() > MAX_DOCUMENT_BYTES {
        return None;
    }
    let tables = match scraper::Selector::parse(TABLE_SELECTOR) {
        Ok(selector) => selector,
        Err(_) => {
            return None;
        },
    };
    let rows = match scraper::Selector::parse(ROW_SELECTOR) {
        Ok(selector) => selector,
        Err(_) => {
            return None;
        },
    };
    let cells = match scraper::Selector::parse(CELL_SELECTOR) {
        Ok(selector) => selector,
        Err(_) => {
            return None;
        },
    };
    let doc = scraper::Html::parse_document(html);
    let found = select_in_document(&doc, &tables);
    let mut list: Vec<Table> = Vec::new();
    let mut i: usize = 0;
    while i < found.len()
        invariant
            i <= found.len(),
            list@.len() == i,
            forall|k: int|
                0 <= k < i ==> (#[trigger] list@[k])@ == table_view(found@[k], rows, cells),
        decreases found.len() - i,
    {
        list.push(read_table(&found[i], &rows, &cells));
        i += 1;
    }
    assert(table_views(list@) =~= page_tables(html@)->Some_0);
    Some(list)
}

} // verus!
