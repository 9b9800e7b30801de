//! A small entity-mapping library around a title record: a value object with
//! a mandatory identifier and optional descriptive attributes, built either
//! from an in-memory field mapping or from a narrow row-source capability,
//! together with the verified string utilities the mapping rests on.

pub mod fields;
pub mod parse;
pub mod record;
pub mod search;
pub mod text;

pub use fields::FieldMap;
pub use parse::parse_i32;
pub use record::{DbRow, MapRow, TitleBasics};
pub use search::{return_match, return_match_borrow, search_pattern_for, search_pattern_iter, transpose};

pub use text::str_contains;
pub use text::str_eq;
