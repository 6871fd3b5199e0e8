//! The ways in which scoring fails.

use vstd::prelude::*;

verus! {

#[derive(Clone, Copy, Debug, PartialEq, Eq, Structural)]
pub enum ScoreError {
    /// A rule asks for a match against source databases on a field that
    /// holds none.
    DisallowedField,
    /// A rule that fired divides the score by zero.
    DivisionByZero,
    /// A number is too large for a decimal.
    OutOfRange,
}

impl ScoreError {
    /// The failure in words.
    pub fn message(&self) -> (r: &'static str)
        ensures
            r@ == match *self {
                ScoreError::DisallowedField => "NonPubmedEvidenceSourceMatch can only be used with ComponentEvidenceSourceDatabase or TopEvidenceSourceDatabase fields"@,
                ScoreError::DivisionByZero => "DivideScore cannot divide by zero"@,
                ScoreError::OutOfRange => "a score is out of the range of a decimal"@,
            },
    {
        match self {
            ScoreError::DisallowedField => "NonPubmedEvidenceSourceMatch can only be used with ComponentEvidenceSourceDatabase or TopEvidenceSourceDatabase fields",
            ScoreError::DivisionByZero => "DivideScore cannot divide by zero",
            ScoreError::OutOfRange => "a score is out of the range of a decimal",
        }
    }
}

} // verus!
