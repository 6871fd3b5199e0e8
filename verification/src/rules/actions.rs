//! What an action makes of a score.

use vstd::prelude::*;
use crate::decimal::{
    fit, lemma_round_ratio_shift, product_units, quotient_units,
    round_ratio, Decimal, SCALE,
};
use crate::error::ScoreError;
use crate::rules::schema::Action;

verus! {

/// The score that an action makes of `score`, in millionths. A product or a
/// quotient is rounded to the nearest millionth. A division is by a value
/// other than zero.
pub open spec fn new_units(score: Decimal, action: Action) -> int {
    match action {
        Action::SetScore(v) => v.units as int,
        Action::AddToScore(v) => score.units + v.units,
        Action::SubtractScore(v) => score.units - v.units,
        Action::MultiplyScore(v) => product_units(score.units as int, v.units as int),
        Action::DivideScore(v) => quotient_units(score.units as int, v.units as int),
    }
}

/// What an action contributes to `score`, in millionths: for `SetScore` the
/// new score less the old one, for `AddToScore` the value, for
/// `SubtractScore` the value negated, for `MultiplyScore` the score times
/// (value - 1), for `DivideScore` the score times (1 / value - 1). A division
/// is by a value other than zero.
pub open spec fn effect_units(score: Decimal, action: Action) -> int {
    match action {
        Action::SetScore(v) => v.units - score.units,
        Action::AddToScore(v) => v.units as int,
        Action::SubtractScore(v) => -v.units,
        Action::MultiplyScore(v) => product_units(score.units as int, v.units - SCALE),
        Action::DivideScore(v) => round_ratio(score.units * (SCALE - v.units), v.units as int),
    }
}

/// What an action makes of a score: the new score and what the action
/// contributed. A division by zero is an error, and so is a new score or a
/// contribution that is too large for a decimal.
pub open spec fn action_result(score: Decimal, action: Action) -> Result<
    (Decimal, Decimal),
    ScoreError,
> {
    if action matches Action::DivideScore(v) && v.units == 0 {
        Err(ScoreError::DivisionByZero)
    } else {
        match (fit(new_units(score, action)), fit(effect_units(score, action))) {
            (Some(next), Some(effect)) => Ok((next, effect)),
            _ => Err(ScoreError::OutOfRange),
        }
    }
}

/// An action contributes what it changes: the new score is the old one plus
/// the contribution.
pub proof fn lemma_effect_is_change(score: Decimal, action: Action)
    requires
        !(action matches Action::DivideScore(v) && v.units == 0),
    ensures
        new_units(score, action) == score.units + effect_units(score, action),
{
    let s = score.units as int;
    match action {
        Action::MultiplyScore(v) => {
            assert(s * (v.units - SCALE) == s * v.units + (-s) * SCALE) by (nonlinear_arith);
        },
        Action::DivideScore(v) => {
            assert(s * (SCALE - v.units) == s * SCALE + (-s) * v.units) by (nonlinear_arith);
            lemma_round_ratio_shift(s * SCALE, v.units as int, -s);
        },
        _ => {},
    }
}

/// Applies an action to a score. Gives the new score and what the action
/// contributed.
pub fn apply_action(score: Decimal, action: &Action) -> (r: Result<(Decimal, Decimal), ScoreError>)
    ensures
        r == action_result(score, *action),
{
    proof {
        if !(*action matches Action::DivideScore(v) && v.units == 0) {
            lemma_effect_is_change(score, *action);
        }
    }
    let next = match action {
        Action::SetScore(v) => Some(*v),
        Action::AddToScore(v) => score.checked_add(*v),
        Action::SubtractScore(v) => score.checked_sub(*v),
        Action::MultiplyScore(v) => score.checked_mul(*v),
        Action::DivideScore(v) => {
            if v.units == 0 {
                return Err(ScoreError::DivisionByZero);
            }
            score.checked_div(*v)
        },
    };
    match next {
        None => Err(ScoreError::OutOfRange),
        Some(next) => match next.checked_sub(score) {
            None => Err(ScoreError::OutOfRange),
            Some(effect) => Ok((next, effect)),
        },
    }
}

} // verus!
