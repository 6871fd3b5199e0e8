//! The weights that apply where none is supplied.

use vstd::prelude::*;

verus! {

/// The weight of clinical use. The formula does not consult it.
pub const CLINICAL_USE: i32 = 5;

/// The weight of the first PubMed item.
pub const FIRST_PMID: i32 = 1;

/// The weight of each further PubMed item: 0.2, in millionths.
pub const OTHER_PMID: i64 = 200_000;

/// How many distinct PubMed items count.
pub const PMID_LIMIT: usize = 10;

/// The weight of the first item from another source.
pub const FIRST_SOURCE: i32 = 1;

/// The weight of each further item from another source: 0.1, in millionths.
pub const OTHER_SOURCE: i64 = 100_000;

/// The weight of a LOINC code.
pub const LOINC: i32 = 1;

/// The weight of a generic condition.
pub const GENERIC_CONDITION_PEN: i32 = -4;

/// The identifiers of the generic conditions.
pub const GENERIC_CONDITIONS: [&'static str; 1] = ["DOID:162"];

} // verus!
