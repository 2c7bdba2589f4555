//! Typed initialisation of domain objects from configuration tables, and
//! composable textual summaries of those objects.
//!
//! A configuration text is loaded into a table (`toml_parse::load_toml`), a
//! named sub-table of it is bound to an argument record
//! (`toml_parse::FromConfig`), and the target is derived from the record
//! (`initialize::TargetFromArgs`). Independently, an object describes itself by
//! a `summarize::Summary`, which combines with others and renders to text.

pub mod initialize;
pub mod summarize;
pub mod toml_parse;
