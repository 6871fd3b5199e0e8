//! Applying rules to a record and its score.

use vstd::prelude::*;
use crate::decimal::Decimal;
use crate::error::ScoreError;
use crate::models::traits::{BiomarkerData, BiomarkerModel};
use crate::models::CustomRuleApplication;
use crate::rules::actions::{action_result, apply_action};
use crate::rules::audit::{
    action_to_string, audit_of, condition_to_custom_condition, Firing,
};
use crate::rules::conditions::{condition_holds, evaluate_condition, rules_valid, validate_rules};
use crate::rules::order::{
    evaluation_order, is_evaluation_order, places, priorities, sorted_order,
};
use crate::rules::schema::{CustomRules, Rule};

verus! {

/// What comes of evaluating the rules at the places `order`, in that order,
/// on a record and a starting score: the final score and the rules that
/// fired, or the first error met. A rule fires where the record meets its
/// condition; its action then works on the score that the rules before it
/// have left.
pub open spec fn run_rules(
    record: BiomarkerModel,
    rules: Seq<Rule>,
    order: Seq<int>,
    start: Decimal,
) -> Result<(Decimal, Seq<Firing>), ScoreError>
    decreases order.len(),
{
    if order.len() == 0 {
        Ok((start, Seq::empty()))
    } else {
        match run_rules(record, rules, order.drop_last(), start) {
            Err(e) => Err(e),
            Ok((score, fired)) => {
                let rule = rules[order.last()];
                if condition_holds(record, rule.condition) {
                    match action_result(score, rule.action) {
                        Err(e) => Err(e),
                        Ok((next, effect)) => Ok(
                            (next, fired.push(Firing { rule: order.last(), effect })),
                        ),
                    }
                } else {
                    Ok((score, fired))
                }
            },
        }
    }
}

/// What comes of applying rules to a record and a score. Rules of which one
/// cannot be evaluated are refused as a whole; the others are evaluated in
/// their evaluation order.
pub open spec fn rules_outcome(record: BiomarkerModel, rules: Seq<Rule>, start: Decimal) -> Result<
    (Decimal, Seq<Firing>),
    ScoreError,
> {
    if rules_valid(rules) {
        run_rules(record, rules, evaluation_order(priorities(rules)), start)
    } else {
        Err(ScoreError::DisallowedField)
    }
}

/// An error met on the way stays the outcome, whatever rules follow.
proof fn lemma_error_stays(
    record: BiomarkerModel,
    rules: Seq<Rule>,
    order: Seq<int>,
    start: Decimal,
    upto: int,
)
    requires
        0 <= upto <= order.len(),
        run_rules(record, rules, order.take(upto), start) is Err,
    ensures
        run_rules(record, rules, order, start) == run_rules(record, rules, order.take(upto), start),
    decreases order.len() - upto,
{
    if upto == order.len() {
        assert(order.take(upto) =~= order);
    } else {
        assert(order.take(upto + 1).drop_last() =~= order.take(upto));
        lemma_error_stays(record, rules, order, start, upto + 1);
    }
}

/// Evaluates rules of which each one can be evaluated.
fn run_valid_rules<B: BiomarkerData>(biomarker: &B, rules: &CustomRules, current_score: Decimal) -> (r:
    Result<(Decimal, Vec<CustomRuleApplication>), ScoreError>)
    requires
        rules_valid(rules.rules@),
    ensures
        match (r, rules_outcome(biomarker@, rules.rules@, current_score)) {
            (Ok((score, audit)), Ok((expected, fired))) => {
                &&& score == expected
                &&& audit_of(audit@, rules.rules@, fired)
            },
            (Err(e), Err(expected)) => e == expected,
            _ => false,
        },
{
    let order = sorted_order(&rules.rules);
    let ghost places = places(order@);
    let mut score = current_score;
    let mut applied_rules: Vec<CustomRuleApplication> = Vec::new();
    let ghost mut fired: Seq<Firing> = Seq::empty();
    let mut k: usize = 0;
    while k < order.len()
        invariant
            k <= order.len(),
            places == crate::rules::order::places(order@),
            is_evaluation_order(priorities(rules.rules@), places),
            places == evaluation_order(priorities(rules.rules@)),
            rules_valid(rules.rules@),
            run_rules(biomarker@, rules.rules@, places.take(k as int), current_score) == Ok::<
                (Decimal, Seq<Firing>),
                ScoreError,
            >((score, fired)),
            audit_of(applied_rules@, rules.rules@, fired),
        decreases order.len() - k,
    {
        assert(places.take(k + 1).drop_last() =~= places.take(k as int));
        assert(0 <= places[k as int] < rules.rules.len());
        let rule = &rules.rules[order[k]];
        if evaluate_condition(biomarker, &rule.condition) {
            match apply_action(score, &rule.action) {
                Err(e) => {
                    proof {
                        lemma_error_stays(
                            biomarker@,
                            rules.rules@,
                            places,
                            current_score,
                            k + 1,
                        );
                    }
                    return Err(e);
                },
                Ok((new_score, effect)) => {
                    score = new_score;
                    let entry = CustomRuleApplication {
                        rule_name: rule.name.clone(),
                        condition: condition_to_custom_condition(&rule.condition),
                        action: action_to_string(&rule.action),
                        effect,
                    };
                    proof {
                        let firing = Firing { rule: order[k as int] as int, effect };
                        fired = fired.push(firing);
                    }
                    applied_rules.push(entry);
                },
            }
        }
        k += 1;
    }
    assert(places.take(k as int) =~= places);
    Ok((score, applied_rules))
}

/// Applies the rules to a record and its score: in their evaluation order,
/// each rule whose condition the record meets works its action on the score.
/// Gives the final score, which may be negative, and a record of each rule
/// that fired. Rules of which one cannot be evaluated are refused before any
/// is applied.
pub fn apply_custom_rules<B: BiomarkerData>(
    biomarker: &B,
    rules: &CustomRules,
    current_score: Decimal,
) -> (r: Result<(Decimal, Vec<CustomRuleApplication>), ScoreError>)
    ensures
        match (r, rules_outcome(biomarker@, rules.rules@, current_score)) {
            (Ok((score, audit)), Ok((expected, fired))) => {
                &&& score == expected
                &&& audit_of(audit@, rules.rules@, fired)
            },
            (Err(e), Err(expected)) => e == expected,
            _ => false,
        },
{
    if validate_rules(rules).is_err() {
        return Err(ScoreError::DisallowedField);
    }
    run_valid_rules(biomarker, rules, current_score)
}

} // verus!
