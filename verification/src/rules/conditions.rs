//! When a record meets a condition, and which conditions can be evaluated.

use vstd::prelude::*;
use crate::decimal::SCALE;
use crate::error::ScoreError;
use crate::models::traits::{BiomarkerData, BiomarkerModel};
use crate::rules::projection::{match_field, project};
use crate::rules::schema::{Condition, CustomRules, Field, Rule};
use crate::text::{
    contains, eq_ignore_ascii_case, lowercased, occurs_in, same_ignoring_ascii_case, same_text,
    texts,
};

verus! {

/// The name of a source database with its lower-case form.
#[derive(Debug, PartialEq, Eq)]
pub struct SourceName {
    pub name: String,
    pub lowered: String,
}

/// A source name as plain values.
pub struct SourceNameModel {
    pub name: Seq<char>,
    pub lowered: Seq<char>,
}

impl SourceNameModel {
    /// Whether the name means PubMed, whatever the case of its letters.
    pub open spec fn is_pubmed(self) -> bool {
        self.lowered == "pubmed"@
    }
}

impl View for SourceName {
    type V = SourceNameModel;

    open spec fn view(&self) -> SourceNameModel {
        SourceNameModel { name: self.name@, lowered: self.lowered@ }
    }
}

/// The source names as plain values.
pub open spec fn source_models(sources: Seq<SourceName>) -> Seq<SourceNameModel> {
    sources.map_values(|s: SourceName| s@)
}

/// Each name with its lower-case form.
pub open spec fn with_lowered(names: Seq<Seq<char>>) -> Seq<SourceNameModel> {
    names.map_values(|n: Seq<char>| SourceNameModel { name: n, lowered: lowercased(n) })
}

/// Whether some source is not PubMed and each of those is `value`, whatever
/// the case of the ASCII letters.
pub open spec fn other_sources_match(sources: Seq<SourceNameModel>, value: Seq<char>) -> bool {
    &&& exists|i: int| 0 <= i < sources.len() && !(#[trigger] sources[i]).is_pubmed()
    &&& forall|i: int|
        0 <= i < sources.len() && !(#[trigger] sources[i]).is_pubmed()
            ==> same_ignoring_ascii_case(sources[i].name, value)
}

/// Whether every value is `value`. It is so where there is no value.
pub open spec fn all_equal(values: Seq<Seq<char>>, value: Seq<char>) -> bool {
    forall|i: int| 0 <= i < values.len() ==> #[trigger] values[i] == value
}

/// Whether there is a value and `value` stands in every one.
pub open spec fn all_contain(values: Seq<Seq<char>>, value: Seq<char>) -> bool {
    &&& values.len() > 0
    &&& forall|i: int| 0 <= i < values.len() ==> occurs_in(value, #[trigger] values[i])
}

/// Whether `value` stands in one of the values.
pub open spec fn some_contain(values: Seq<Seq<char>>, value: Seq<char>) -> bool {
    exists|i: int| 0 <= i < values.len() && occurs_in(value, #[trigger] values[i])
}

/// Whether a record meets a condition.
pub open spec fn condition_holds(record: BiomarkerModel, condition: Condition) -> bool
    decreases condition,
{
    match condition {
        Condition::NonPubmedEvidenceSourceMatch { field, value } => other_sources_match(
            with_lowered(project(record, field)),
            value@,
        ),
        Condition::FieldEquals { field, value } => all_equal(project(record, field), value@),
        Condition::FieldAllContains { field, value } => all_contain(
            project(record, field),
            value@,
        ),
        Condition::FieldSomeContains { field, value } => some_contain(
            project(record, field),
            value@,
        ),
        Condition::FieldLenGreaterThan { field, value } => project(record, field).len() * SCALE
            > value.units,
        Condition::FieldLenLessThan { field, value } => project(record, field).len() * SCALE
            < value.units,
        Condition::FieldLenEqual { field, value } => project(record, field).len() * SCALE
            == value.units,
        Condition::And { conditions } => forall|i: int|
            0 <= i < conditions@.len() ==> condition_holds(record, #[trigger] conditions@[i]),
        Condition::Or { conditions } => exists|i: int|
            0 <= i < conditions@.len() && condition_holds(record, #[trigger] conditions@[i]),
    }
}

/// Gives each name its lower-case form.
pub fn lower_sources(names: &Vec<String>) -> (r: Vec<SourceName>)
    ensures
        source_models(r@) == with_lowered(texts(names@)),
{
    let ghost wanted = with_lowered(texts(names@));
    let mut sources: Vec<SourceName> = Vec::new();
    let mut i: usize = 0;
    while i < names.len()
        invariant
            i <= names.len(),
            wanted == with_lowered(texts(names@)),
            sources.len() == i,
            forall|k: int| 0 <= k < i ==> (#[trigger] sources[k])@ == wanted[k],
        decreases names.len() - i,
    {
        let lowered: String = names[i].as_str().to_lowercase();
        let name: String = names[i].clone();
        sources.push(SourceName { name, lowered });
        i += 1;
    }
    sources
}

/// Whether some source is not PubMed and each of those is `value`, whatever
/// the case of the ASCII letters.
pub fn non_pubmed_sources_match(sources: &Vec<SourceName>, value: &str) -> (r: bool)
    ensures
        r == other_sources_match(source_models(sources@), value@),
{
    let ghost models = source_models(sources@);
    let mut found: bool = false;
    let mut i: usize = 0;
    while i < sources.len()
        invariant
            i <= sources.len(),
            models == source_models(sources@),
            found == exists|k: int| 0 <= k < i && !(#[trigger] models[k]).is_pubmed(),
            forall|k: int|
                0 <= k < i && !(#[trigger] models[k]).is_pubmed() ==> same_ignoring_ascii_case(
                    models[k].name,
                    value@,
                ),
        decreases sources.len() - i,
    {
        if !same_text(sources[i].lowered.as_str(), "pubmed") {
            assert(!models[i as int].is_pubmed());
            if !eq_ignore_ascii_case(sources[i].name.as_str(), value) {
                return false;
            }
            found = true;
        }
        i += 1;
    }
    found
}

fn all_equal_exec(values: &Vec<String>, value: &String) -> (r: bool)
    ensures
        r == all_equal(texts(values@), value@),
{
    let mut i: usize = 0;
    while i < values.len()
        invariant
            i <= values.len(),
            forall|k: int| 0 <= k < i ==> #[trigger] texts(values@)[k] == value@,
        decreases values.len() - i,
    {
        if values[i] != *value {
            assert(texts(values@)[i as int] != value@);
            return false;
        }
        i += 1;
    }
    true
}

fn all_contain_exec(values: &Vec<String>, value: &String) -> (r: bool)
    ensures
        r == all_contain(texts(values@), value@),
{
    let mut i: usize = 0;
    while i < values.len()
        invariant
            i <= values.len(),
            forall|k: int| 0 <= k < i ==> occurs_in(value@, #[trigger] texts(values@)[k]),
        decreases values.len() - i,
    {
        if !contains(values[i].as_str(), value.as_str()) {
            assert(!occurs_in(value@, texts(values@)[i as int]));
            return false;
        }
        i += 1;
    }
    values.len() > 0
}

fn some_contain_exec(values: &Vec<String>, value: &String) -> (r: bool)
    ensures
        r == some_contain(texts(values@), value@),
{
    let mut i: usize = 0;
    while i < values.len()
        invariant
            i <= values.len(),
            forall|k: int| 0 <= k < i ==> !occurs_in(value@, #[trigger] texts(values@)[k]),
        decreases values.len() - i,
    {
        if contains(values[i].as_str(), value.as_str()) {
            assert(occurs_in(value@, texts(values@)[i as int]));
            return true;
        }
        i += 1;
    }
    false
}

/// The number of values, in millionths.
fn scaled_len(values: &Vec<String>) -> (r: i128)
    ensures
        r == values@.len() * SCALE,
{
    (values.len() as i128) * (SCALE as i128)
}

/// Whether a record meets a condition.
#[verifier::loop_isolation(false)]
pub fn evaluate_condition<B: BiomarkerData>(biomarker: &B, condition: &Condition) -> (r: bool)
    ensures
        r == condition_holds(biomarker@, *condition),
    decreases condition,
{
    match condition {
        Condition::NonPubmedEvidenceSourceMatch { field, value } => {
            let sources = lower_sources(&match_field(biomarker, field));
            non_pubmed_sources_match(&sources, value.as_str())
        },
        Condition::FieldEquals { field, value } => all_equal_exec(
            &match_field(biomarker, field),
            value,
        ),
        Condition::FieldAllContains { field, value } => all_contain_exec(
            &match_field(biomarker, field),
            value,
        ),
        Condition::FieldSomeContains { field, value } => some_contain_exec(
            &match_field(biomarker, field),
            value,
        ),
        Condition::FieldLenGreaterThan { field, value } => scaled_len(
            &match_field(biomarker, field),
        ) > value.units as i128,
        Condition::FieldLenLessThan { field, value } => scaled_len(&match_field(biomarker, field))
            < value.units as i128,
        Condition::FieldLenEqual { field, value } => scaled_len(&match_field(biomarker, field))
            == value.units as i128,
        Condition::And { conditions } => {
            let mut all: bool = true;
            let mut i: usize = 0;
            while i < conditions.len()
                invariant
                    i <= conditions.len(),
                    all == forall|k: int|
                        0 <= k < i ==> condition_holds(biomarker@, #[trigger] conditions@[k]),
                decreases conditions.len() - i,
            {
                if !evaluate_condition(biomarker, &conditions[i]) {
                    all = false;
                }
                i += 1;
            }
            all
        },
        Condition::Or { conditions } => {
            let mut any: bool = false;
            let mut i: usize = 0;
            while i < conditions.len()
                invariant
                    i <= conditions.len(),
                    any == exists|k: int|
                        0 <= k < i && condition_holds(biomarker@, #[trigger] conditions@[k]),
                decreases conditions.len() - i,
            {
                if evaluate_condition(biomarker, &conditions[i]) {
                    any = true;
                }
                i += 1;
            }
            any
        },
    }
}

/// Whether a condition is one that can be evaluated: a match against source
/// databases, wherever it stands in the condition, is on a field that holds
/// them.
pub open spec fn condition_valid(condition: Condition) -> bool
    decreases condition,
{
    match condition {
        Condition::NonPubmedEvidenceSourceMatch { field, value } => field.holds_sources(),
        Condition::And { conditions } => forall|i: int|
            0 <= i < conditions@.len() ==> condition_valid(#[trigger] conditions@[i]),
        Condition::Or { conditions } => forall|i: int|
            0 <= i < conditions@.len() ==> condition_valid(#[trigger] conditions@[i]),
        _ => true,
    }
}

/// Whether each of the conditions can be evaluated.
pub open spec fn conditions_valid(conditions: Seq<Condition>) -> bool {
    forall|i: int| 0 <= i < conditions.len() ==> condition_valid(#[trigger] conditions[i])
}

/// Whether the condition of each rule can be evaluated.
pub open spec fn rules_valid(rules: Seq<Rule>) -> bool {
    forall|i: int| 0 <= i < rules.len() ==> condition_valid((#[trigger] rules[i]).condition)
}

/// Checks that a condition can be evaluated.
pub fn validate_condition(condition: &Condition) -> (r: Result<(), ScoreError>)
    ensures
        r is Ok <==> condition_valid(*condition),
        r is Err ==> r == Err::<(), ScoreError>(ScoreError::DisallowedField),
    decreases condition,
{
    match condition {
        Condition::NonPubmedEvidenceSourceMatch { field, value: _ } => match field {
            Field::ComponentEvidenceSourceDatabase | Field::TopEvidenceSourceDatabase => Ok(()),
            _ => Err(ScoreError::DisallowedField),
        },
        Condition::And { conditions } => preprocess_conditions(conditions),
        Condition::Or { conditions } => preprocess_conditions(conditions),
        _ => Ok(()),
    }
}

/// Checks that each of the conditions can be evaluated.
pub fn preprocess_conditions(conditions: &Vec<Condition>) -> (r: Result<(), ScoreError>)
    ensures
        r is Ok <==> conditions_valid(conditions@),
        r is Err ==> r == Err::<(), ScoreError>(ScoreError::DisallowedField),
    decreases conditions,
{
    let mut i: usize = 0;
    while i < conditions.len()
        invariant
            i <= conditions.len(),
            forall|k: int| 0 <= k < i ==> condition_valid(#[trigger] conditions@[k]),
        decreases conditions.len() - i,
    {
        if validate_condition(&conditions[i]).is_err() {
            return Err(ScoreError::DisallowedField);
        }
        i += 1;
    }
    Ok(())
}

/// Checks that the condition of each rule can be evaluated.
pub fn validate_rules(rules: &CustomRules) -> (r: Result<(), ScoreError>)
    ensures
        r is Ok <==> rules_valid(rules.rules@),
        r is Err ==> r == Err::<(), ScoreError>(ScoreError::DisallowedField),
{
    let mut i: usize = 0;
    while i < rules.rules.len()
        invariant
            i <= rules.rules.len(),
            forall|k: int| 0 <= k < i ==> condition_valid((#[trigger] rules.rules@[k]).condition),
        decreases rules.rules.len() - i,
    {
        if validate_condition(&rules.rules[i].condition).is_err() {
            return Err(ScoreError::DisallowedField);
        }
        i += 1;
    }
    Ok(())
}

} // verus!
