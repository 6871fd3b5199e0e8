//! The form of a rule.

use vstd::prelude::*;
use crate::decimal::Decimal;

verus! {

/// The rules to apply to a score.
#[derive(Debug)]
pub struct CustomRules {
    /// The rules, in listing order.
    pub rules: Vec<Rule>,
}

/// A single rule.
#[derive(Debug)]
pub struct Rule {
    /// A short description of the rule.
    pub name: String,
    /// When the rule fires.
    pub condition: Condition,
    /// What the rule does to the score when it fires.
    pub action: Action,
    /// Rules of lower priority come first; rules of the same priority keep
    /// their listing order.
    pub priority: i32,
}

/// When a rule fires. A condition speaks of the values that a field of the
/// record holds.
#[derive(Debug)]
#[allow(inconsistent_fields)]
pub enum Condition {
    /// Some source database is not PubMed, and each of those is `value`,
    /// whatever the case of the letters.
    NonPubmedEvidenceSourceMatch { field: Field, value: String },
    /// Every value is `value`.
    FieldEquals { field: Field, value: String },
    /// There is a value, and `value` stands in every one.
    FieldAllContains { field: Field, value: String },
    /// `value` stands in one of the values.
    FieldSomeContains { field: Field, value: String },
    /// There are more than `value` values.
    FieldLenGreaterThan { field: Field, value: Decimal },
    /// There are fewer than `value` values.
    FieldLenLessThan { field: Field, value: Decimal },
    /// There are exactly `value` values.
    FieldLenEqual { field: Field, value: Decimal },
    /// Every one of the conditions holds.
    And { conditions: Vec<Condition> },
    /// One of the conditions holds.
    Or { conditions: Vec<Condition> },
}

/// The fields of a record that a condition can speak of.
#[derive(Clone, Copy, Debug, PartialEq, Eq, Structural)]
pub enum Field {
    BiomarkerID,
    ComponentEvidenceSourceDatabase,
    ConditionID,
    TopEvidenceSourceDatabase,
    LoincCode,
}

impl Field {
    /// Where the field lies in a record.
    pub open spec fn path(self) -> Seq<char> {
        match self {
            Field::BiomarkerID => "biomarker_id"@,
            Field::ComponentEvidenceSourceDatabase => "biomarker_component.evidence_source.database"@,
            Field::ConditionID => "condition.id"@,
            Field::TopEvidenceSourceDatabase => "evidence_source.database"@,
            Field::LoincCode => "biomarker_component.specimen.loinc_code"@,
        }
    }

    /// The field's name.
    pub open spec fn name_text(self) -> Seq<char> {
        match self {
            Field::BiomarkerID => "BiomarkerID"@,
            Field::ComponentEvidenceSourceDatabase => "ComponentEvidenceSourceDatabase"@,
            Field::ConditionID => "ConditionID"@,
            Field::TopEvidenceSourceDatabase => "TopEvidenceSourceDatabase"@,
            Field::LoincCode => "LoincCode"@,
        }
    }

    /// The field's name.
    pub fn name(&self) -> (r: &'static str)
        ensures
            r@ == self.name_text(),
    {
        match self {
            Field::BiomarkerID => "BiomarkerID",
            Field::ComponentEvidenceSourceDatabase => "ComponentEvidenceSourceDatabase",
            Field::ConditionID => "ConditionID",
            Field::TopEvidenceSourceDatabase => "TopEvidenceSourceDatabase",
            Field::LoincCode => "LoincCode",
        }
    }

    /// Whether the field holds the names of source databases.
    pub open spec fn holds_sources(self) -> bool {
        self == Field::ComponentEvidenceSourceDatabase || self == Field::TopEvidenceSourceDatabase
    }

    /// Where the field lies in a record.
    pub fn as_str(&self) -> (r: &'static str)
        ensures
            r@ == self.path(),
    {
        match self {
            Field::BiomarkerID => "biomarker_id",
            Field::ComponentEvidenceSourceDatabase => "biomarker_component.evidence_source.database",
            Field::ConditionID => "condition.id",
            Field::TopEvidenceSourceDatabase => "evidence_source.database",
            Field::LoincCode => "biomarker_component.specimen.loinc_code",
        }
    }
}

/// What a rule does to the score.
#[derive(Clone, Copy, Debug, PartialEq, Eq, Structural)]
pub enum Action {
    /// Replaces the score.
    SetScore(Decimal),
    /// Adds a value to the score.
    AddToScore(Decimal),
    /// Multiplies the score by a value.
    MultiplyScore(Decimal),
    /// Subtracts a value from the score.
    SubtractScore(Decimal),
    /// Divides the score by a value.
    DivideScore(Decimal),
}

} // verus!
