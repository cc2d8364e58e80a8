//! Extraction of a cable modem's status page into typed records.
//!
//! The page is a fixed sequence of HTML tables without stable identifiers.
//! The tables are located by position, their rows and cells are read into
//! plain text, and each cell is coerced into the field it stands for.

pub mod error;
pub mod dom;
pub mod text;
pub mod coerce;
pub mod model;
pub mod table;
pub mod outcome;
pub mod downstream;
pub mod upstream;
pub mod status;
pub mod interfaces;
pub mod page;
pub mod document;

pub use document::{assemble, parse_request};
pub use error::ParseError;
pub use model::{
    ArrisStatus,
    DownstreamParameter,
    InterfaceInformation,
    RFParameters,
    StatusParameter,
    UpstreamParameter,
};
pub use table::{Table, TableRow};
