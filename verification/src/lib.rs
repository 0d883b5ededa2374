//! A schema-less record of named fields, with default-returning accessors and
//! a right-biased merge.

pub mod document;
pub mod field_map;
pub mod field_value;
pub mod item;
pub mod laws;
