//! Heuristic detection of date/datetime string columns in a table.
//!
//! The library classifies the text-valued columns of a tabular dataset:
//! for each column whose declared storage type is the generic/untyped text
//! tag, it decides whether every non-missing, non-blank value is plausibly
//! a date or timestamp string. The verdict is all-or-nothing: a single
//! non-string value, or a single non-blank string that no pattern and no
//! fallback parser accepts, disqualifies the whole column.

pub mod catalog;
pub mod classify;
pub mod evaluate;
pub mod parsing;
pub mod text;

pub use catalog::Catalog;
pub use catalog::load_patterns;
pub use classify::is_potential_datetime_str;
pub use evaluate::CellValue;
pub use evaluate::Column;
pub use evaluate::DeclaredType;
pub use evaluate::analyze_dataframe;
pub use evaluate::evaluate_column;
pub use text::trim;
