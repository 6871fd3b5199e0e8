//! Scoring a biomarker record.

pub mod calculate;
pub mod evidence;
pub mod map;
