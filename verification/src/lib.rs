//! Turns the dependency table of a Cargo manifest into the rows of a Markdown
//! table: one row per dependency, with the comments written next to it.

pub mod args;
pub mod dependency;
pub mod manifest;
pub mod parse_manifest;
pub mod table;
pub mod text;
