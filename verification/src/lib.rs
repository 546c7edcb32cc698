//! Parser for a three-level activity log: date headings, category headings,
//! and itemized action/URL entries, flattened into one record per item.

pub mod labels;
pub mod parse;
pub mod record;
pub mod text;

pub use parse::{parse, parse_item};
pub use record::{error, error_lnr};
