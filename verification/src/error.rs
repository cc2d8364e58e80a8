//! The two ways in which the extraction of a page can fail.

use vstd::prelude::*;

verus! {

/// Why a page could not be turned into a record.
///
/// Either failure aborts the whole extraction: no partial record is produced.
#[derive(Debug, Clone, Copy, PartialEq, Eq, Structural)]
pub enum ParseError {
    /// A table, a row or a cell that the layout calls for is absent.
    Structure,
    /// A field that must be numeric holds text that is no number.
    Coercion,
}

/// What is said of a failure of structure.
pub const STRUCTURE_MESSAGE: &'static str =
    "the page lacks a table, a row or a cell that its layout calls for";

/// What is said of a failure of coercion.
pub const COERCION_MESSAGE: &'static str = "the id of a downstream channel is no number";

impl ParseError {
    /// A sentence that says what failed.
    pub fn message(&self) -> (text: &'static str)
        ensures
            text@ == match *self {
                ParseError::Structure => STRUCTURE_MESSAGE@,
                ParseError::Coercion => COERCION_MESSAGE@,
            },
    {
        match self {
            ParseError::Structure => STRUCTURE_MESSAGE,
            ParseError::Coercion => COERCION_MESSAGE,
        }
    }
}

} // verus!
