//! A table of the page as plain text, and the walk over its rows.
//!
//! A table is the list of its rows, a row the list of the texts of its
//! cells. Rows and cells are found by position alone. A row or a cell that
//! is asked for and is not there is a failure of structure: it shows that
//! the page no longer has the expected shape.

use vstd::prelude::*;
use crate::error::ParseError;

verus! {

/// A row as the texts of its cells, left to right.
pub type RowView = Seq<Seq<char>>;

/// A table as its rows, top to bottom.
pub type TableView = Seq<RowView>;

/// One row of a table: the text of each cell, left to right.
#[derive(Debug, PartialEq, Eq)]
pub struct TableRow {
    pub cells: Vec<String>,
}

/// One table of the page: its rows, top to bottom.
#[derive(Debug, PartialEq, Eq)]
pub struct Table {
    pub rows: Vec<TableRow>,
}

impl View for TableRow {
    type V = RowView;

    open spec fn view(&self) -> RowView {
        self.cells@.map_values(|cell: String| cell@)
    }
}

impl View for Table {
    type V = TableView;

    open spec fn view(&self) -> TableView {
        self.rows@.map_values(|row: TableRow| row@)
    }
}

/// The rows that are left when the first `skip` rows are passed over. A
/// table with no more rows than that leaves none.
pub open spec fn rows_after(rows: TableView, skip: nat) -> TableView {
    if skip <= rows.len() {
        rows.subrange(skip as int, rows.len() as int)
    } else {
        Seq::empty()
    }
}

impl TableRow {
    /// The number of cells in the row.
    pub fn len(&self) -> (n: usize)
        ensures
            n == self@.len(),
    {
        self.cells.len()
    }

    /// The text of the cell at a position, counted from the left and from
    /// zero. A row with no cell there is a failure of structure.
    pub fn cell(&self, index: usize) -> (text: Result<&str, ParseError>)
        ensures
            match text {
                Ok(text) => index < self@.len() && text@ == self@[index as int],
                Err(e) => e == ParseError::Structure && index >= self@.len(),
            },
    {
        if index < self.cells.len() {
            Ok(self.cells[index].as_str())
        } else {
            Err(ParseError::Structure)
        }
    }

    /// The text of the rightmost cell. A row without cells is a failure of
    /// structure.
    pub fn last_cell(&self) -> (text: Result<&str, ParseError>)
        ensures
            match text {
                Ok(text) => self@.len() > 0 && text@ == self@.last(),
                Err(e) => e == ParseError::Structure && self@.len() == 0,
            },
    {
        let n = self.cells.len();
        if n > 0 {
            Ok(self.cells[n - 1].as_str())
        } else {
            Err(ParseError::Structure)
        }
    }
}

impl Table {
    /// The number of rows that are left behind the first `skip` rows.
    pub fn count_after(&self, skip: usize) -> (n: usize)
        ensures
            n == rows_after(self@, skip as nat).len(),
    {
        if skip <= self.rows.len() {
            self.rows.len() - skip
        } else {
            0
        }
    }

    /// The row at a position among those behind the first `skip` rows,
    /// counted from zero. A table with no row there is a failure of
    /// structure.
    pub fn row_after(&self, skip: usize, index: usize) -> (row: Result<&TableRow, ParseError>)
        ensures
            match row {
                Ok(row) => index < rows_after(self@, skip as nat).len() && row@ == rows_after(
                    self@,
                    skip as nat,
                )[index as int],
                Err(e) => e == ParseError::Structure && index >= rows_after(
                    self@,
                    skip as nat,
                ).len(),
            },
    {
        if skip <= self.rows.len() && index < self.rows.len() - skip {
            Ok(&self.rows[skip + index])
        } else {
            Err(ParseError::Structure)
        }
    }
}

} // verus!
