//! Evidence scoring for biomarker records.
//!
//! A biomarker record is scored by a weighted formula over its unique pieces
//! of evidence, its condition and its LOINC codes; the result can then be
//! adjusted by a list of prioritised rules. All arithmetic is exact decimal
//! arithmetic on fixed-point numbers.

pub mod decimal;
pub mod defaults;
pub mod error;
pub mod text;
pub mod text_set;
pub mod models;
pub mod prelude;
pub mod rules;
pub mod scores;
