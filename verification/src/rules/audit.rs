//! The record of the rules that fired.

use vstd::prelude::*;
use vstd::string::StringExecFns;
use crate::decimal::{decimal_text, Decimal};
use crate::models::{CustomCondition, CustomRuleApplication};
use crate::rules::schema::{Action, Condition, Field, Rule};
use crate::text::{quote, quoted};

verus! {

/// A rule that fired: its place in the listing and what its action
/// contributed to the score.
pub struct Firing {
    pub rule: int,
    pub effect: Decimal,
}

/// Whether `entry` records that `rule` fired and contributed `effect`.
pub open spec fn records(entry: CustomRuleApplication, rule: Rule, effect: Decimal) -> bool {
    &&& entry.rule_name@ == rule.name@
    &&& describes(entry.condition, rule.condition)
    &&& entry.action@ == action_text(rule.action)
    &&& entry.effect == effect
}

/// Whether `entry` records the firing of a rule of the listing.
pub open spec fn in_listing(entry: CustomRuleApplication, rules: Seq<Rule>, firing: Firing) -> bool {
    &&& 0 <= firing.rule < rules.len()
    &&& records(entry, rules[firing.rule], firing.effect)
}

/// Whether `audit` records the rules that fired, one entry each, in the
/// order in which they fired.
pub open spec fn audit_of(
    audit: Seq<CustomRuleApplication>,
    rules: Seq<Rule>,
    fired: Seq<Firing>,
) -> bool {
    &&& audit.len() == fired.len()
    &&& forall|k: int| 0 <= k < audit.len() ==> in_listing(#[trigger] audit[k], rules, fired[k])
}

/// A condition on a field in words: its kind, the field's name and the value
/// that it compares with.
pub open spec fn field_condition_text(kind: Seq<char>, field: Field, value: Seq<char>) -> Seq<
    char,
> {
    kind + " { field: "@ + field.name_text() + ", value: "@ + value + " }"@
}

/// A condition in words, where it is neither a conjunction nor a
/// disjunction. A text that it compares with stands quoted, a number as a
/// decimal.
pub open spec fn simple_condition_text(condition: Condition) -> Seq<char> {
    match condition {
        Condition::NonPubmedEvidenceSourceMatch { field, value } => field_condition_text(
            "NonPubmedEvidenceSourceMatch"@,
            field,
            quoted(value@),
        ),
        Condition::FieldEquals { field, value } => field_condition_text(
            "FieldEquals"@,
            field,
            quoted(value@),
        ),
        Condition::FieldAllContains { field, value } => field_condition_text(
            "FieldAllContains"@,
            field,
            quoted(value@),
        ),
        Condition::FieldSomeContains { field, value } => field_condition_text(
            "FieldSomeContains"@,
            field,
            quoted(value@),
        ),
        Condition::FieldLenGreaterThan { field, value } => field_condition_text(
            "FieldLenGreaterThan"@,
            field,
            decimal_text(value.units as int),
        ),
        Condition::FieldLenLessThan { field, value } => field_condition_text(
            "FieldLenLessThan"@,
            field,
            decimal_text(value.units as int),
        ),
        Condition::FieldLenEqual { field, value } => field_condition_text(
            "FieldLenEqual"@,
            field,
            decimal_text(value.units as int),
        ),
        Condition::And { conditions } => Seq::empty(),
        Condition::Or { conditions } => Seq::empty(),
    }
}

/// An action in words: its name and, in brackets, its value.
pub open spec fn action_text(action: Action) -> Seq<char> {
    match action {
        Action::SetScore(v) => "SetScore("@ + decimal_text(v.units as int) + ")"@,
        Action::AddToScore(v) => "AddToScore("@ + decimal_text(v.units as int) + ")"@,
        Action::MultiplyScore(v) => "MultiplyScore("@ + decimal_text(v.units as int) + ")"@,
        Action::SubtractScore(v) => "SubtractScore("@ + decimal_text(v.units as int) + ")"@,
        Action::DivideScore(v) => "DivideScore("@ + decimal_text(v.units as int) + ")"@,
    }
}

/// Whether `summary` is `condition` in words: a conjunction or disjunction of
/// the summaries of its parts, in their order, or else the one text of the
/// condition.
pub open spec fn describes(summary: CustomCondition, condition: Condition) -> bool
    decreases condition,
{
    match condition {
        Condition::And { conditions } => {
            &&& summary matches CustomCondition::And(parts)
            &&& parts@.len() == conditions@.len()
            &&& forall|i: int|
                0 <= i < conditions@.len() ==> describes(parts@[i], #[trigger] conditions@[i])
        },
        Condition::Or { conditions } => {
            &&& summary matches CustomCondition::Or(parts)
            &&& parts@.len() == conditions@.len()
            &&& forall|i: int|
                0 <= i < conditions@.len() ==> describes(parts@[i], #[trigger] conditions@[i])
        },
        _ => {
            &&& summary matches CustomCondition::Simple(text)
            &&& text@ == simple_condition_text(condition)
        },
    }
}

fn field_condition_string(kind: &str, field: &Field, value: &str) -> (r: String)
    ensures
        r@ == field_condition_text(kind@, *field, value@),
{
    let mut text: String = kind.to_owned();
    text.append(" { field: ");
    text.append(field.name());
    text.append(", value: ");
    text.append(value);
    text.append(" }");
    text
}

fn valued_action_string(name: &str, value: &Decimal) -> (r: String)
    ensures
        r@ == name@ + decimal_text(value.units as int) + ")"@,
{
    let mut text: String = name.to_owned();
    text.append(value.to_text().as_str());
    text.append(")");
    text
}

/// An action in words.
pub fn action_to_string(action: &Action) -> (r: String)
    ensures
        r@ == action_text(*action),
{
    match action {
        Action::SetScore(v) => valued_action_string("SetScore(", v),
        Action::AddToScore(v) => valued_action_string("AddToScore(", v),
        Action::MultiplyScore(v) => valued_action_string("MultiplyScore(", v),
        Action::SubtractScore(v) => valued_action_string("SubtractScore(", v),
        Action::DivideScore(v) => valued_action_string("DivideScore(", v),
    }
}

/// A condition in words.
#[verifier::loop_isolation(false)]
pub fn condition_to_custom_condition(condition: &Condition) -> (r: CustomCondition)
    ensures
        describes(r, *condition),
    decreases condition,
{
    match condition {
        Condition::And { conditions } => {
            let mut parts: Vec<CustomCondition> = Vec::new();
            let mut i: usize = 0;
            while i < conditions.len()
                invariant
                    i <= conditions.len(),
                    parts.len() == i,
                    forall|k: int| 0 <= k < i ==> describes(parts@[k], #[trigger] conditions@[k]),
                decreases conditions.len() - i,
            {
                parts.push(condition_to_custom_condition(&conditions[i]));
                i += 1;
            }
            CustomCondition::And(parts)
        },
        Condition::Or { conditions } => {
            let mut parts: Vec<CustomCondition> = Vec::new();
            let mut i: usize = 0;
            while i < conditions.len()
                invariant
                    i <= conditions.len(),
                    parts.len() == i,
                    forall|k: int| 0 <= k < i ==> describes(parts@[k], #[trigger] conditions@[k]),
                decreases conditions.len() - i,
            {
                parts.push(condition_to_custom_condition(&conditions[i]));
                i += 1;
            }
            CustomCondition::Or(parts)
        },
        Condition::NonPubmedEvidenceSourceMatch { field, value } => CustomCondition::Simple(
            field_condition_string(
                "NonPubmedEvidenceSourceMatch",
                field,
                quote(value.as_str()).as_str(),
            ),
        ),
        Condition::FieldEquals { field, value } => CustomCondition::Simple(
            field_condition_string("FieldEquals", field, quote(value.as_str()).as_str()),
        ),
        Condition::FieldAllContains { field, value } => CustomCondition::Simple(
            field_condition_string("FieldAllContains", field, quote(value.as_str()).as_str()),
        ),
        Condition::FieldSomeContains { field, value } => CustomCondition::Simple(
            field_condition_string("FieldSomeContains", field, quote(value.as_str()).as_str()),
        ),
        Condition::FieldLenGreaterThan { field, value } => CustomCondition::Simple(
            field_condition_string("FieldLenGreaterThan", field, value.to_text().as_str()),
        ),
        Condition::FieldLenLessThan { field, value } => CustomCondition::Simple(
            field_condition_string("FieldLenLessThan", field, value.to_text().as_str()),
        ),
        Condition::FieldLenEqual { field, value } => CustomCondition::Simple(
            field_condition_string("FieldLenEqual", field, value.to_text().as_str()),
        ),
    }
}

/// Whether two summaries read the same.
pub open spec fn same_words(a: CustomCondition, b: CustomCondition) -> bool
    decreases a,
{
    match a {
        CustomCondition::Simple(text) => b matches CustomCondition::Simple(other) && text@
            == other@,
        CustomCondition::And(parts) => {
            &&& b matches CustomCondition::And(others)
            &&& parts@.len() == others@.len()
            &&& forall|i: int| 0 <= i < parts@.len() ==> same_words(#[trigger] parts@[i], others@[i])
        },
        CustomCondition::Or(parts) => {
            &&& b matches CustomCondition::Or(others)
            &&& parts@.len() == others@.len()
            &&& forall|i: int| 0 <= i < parts@.len() ==> same_words(#[trigger] parts@[i], others@[i])
        },
    }
}

/// A condition has one summary: two summaries of the same condition read
/// the same.
pub proof fn lemma_one_summary(a: CustomCondition, b: CustomCondition, condition: Condition)
    requires
        describes(a, condition),
        describes(b, condition),
    ensures
        same_words(a, b),
    decreases condition,
{
    match condition {
        Condition::And { conditions } => {
            let parts = a->And_0;
            let others = b->And_0;
            assert forall|i: int| 0 <= i < parts@.len() implies same_words(
                #[trigger] parts@[i],
                others@[i],
            ) by {
                lemma_one_summary(parts@[i], others@[i], conditions@[i]);
            }
        },
        Condition::Or { conditions } => {
            let parts = a->Or_0;
            let others = b->Or_0;
            assert forall|i: int| 0 <= i < parts@.len() implies same_words(
                #[trigger] parts@[i],
                others@[i],
            ) by {
                lemma_one_summary(parts@[i], others@[i], conditions@[i]);
            }
        },
        _ => {},
    }
}

/// Whether two audits read the same, entry by entry.
pub open spec fn same_audit(a: Seq<CustomRuleApplication>, b: Seq<CustomRuleApplication>) -> bool {
    &&& a.len() == b.len()
    &&& forall|k: int| 0 <= k < a.len() ==> same_entry(#[trigger] a[k], b[k])
}

/// Whether two audit entries read the same.
pub open spec fn same_entry(a: CustomRuleApplication, b: CustomRuleApplication) -> bool {
    &&& a.rule_name@ == b.rule_name@
    &&& same_words(a.condition, b.condition)
    &&& a.action@ == b.action@
    &&& a.effect == b.effect
}

/// The rules that fired have one audit: two audits of the same firings read
/// the same.
pub proof fn lemma_one_audit(
    a: Seq<CustomRuleApplication>,
    b: Seq<CustomRuleApplication>,
    rules: Seq<Rule>,
    fired: Seq<Firing>,
)
    requires
        audit_of(a, rules, fired),
        audit_of(b, rules, fired),
    ensures
        same_audit(a, b),
{
    assert forall|k: int| 0 <= k < a.len() implies same_entry(#[trigger] a[k], b[k]) by {
        lemma_one_summary(a[k].condition, b[k].condition, rules[fired[k].rule].condition);
    }
}

} // verus!
