//! Scoring the records of a file.

use vstd::prelude::*;
use crate::decimal::Decimal;
use crate::error::ScoreError;
use crate::models::traits::BiomarkerData;
use crate::models::{BiomarkerScore, ScoreInfo, Weights};
use crate::rules::schema::CustomRules;
use crate::scores::calculate::{calculate_score, is_outcome, listing_of, score_outcome};

verus! {

/// Scores each record, in order. Stops at the first record that cannot be
/// scored and gives its error.
pub fn score_biomarkers<B: BiomarkerData>(
    biomarkers: &Vec<B>,
    weights: &Weights,
    custom_rules: Option<&CustomRules>,
) -> (r: Result<Vec<BiomarkerScore>, ScoreError>)
    ensures
        match r {
            Ok(scores) => {
                &&& scores.len() == biomarkers.len()
                &&& forall|i: int|
                    0 <= i < scores.len() ==> is_outcome(
                        Ok::<(Decimal, ScoreInfo), ScoreError>(
                            ((#[trigger] scores[i]).score, scores[i].score_info),
                        ),
                        biomarkers[i]@,
                        weights@,
                        listing_of(custom_rules),
                    )
            },
            Err(e) => exists|i: int|
                {
                    &&& 0 <= i < biomarkers.len()
                    &&& score_outcome(
                        (#[trigger] biomarkers[i])@,
                        weights@,
                        listing_of(custom_rules),
                    ) == Err::<(Decimal, Option<Seq<crate::rules::audit::Firing>>), ScoreError>(e)
                    &&& forall|j: int|
                        0 <= j < i ==> score_outcome(
                            (#[trigger] biomarkers[j])@,
                            weights@,
                            listing_of(custom_rules),
                        ) is Ok
                },
        },
{
    let mut scores: Vec<BiomarkerScore> = Vec::new();
    let mut i: usize = 0;
    while i < biomarkers.len()
        invariant
            i <= biomarkers.len(),
            scores.len() == i,
            forall|k: int|
                0 <= k < i ==> is_outcome(
                    Ok::<(Decimal, ScoreInfo), ScoreError>(
                        ((#[trigger] scores[k]).score, scores[k].score_info),
                    ),
                    biomarkers[k]@,
                    weights@,
                    listing_of(custom_rules),
                ),
            forall|j: int|
                0 <= j < i ==> score_outcome(
                    (#[trigger] biomarkers[j])@,
                    weights@,
                    listing_of(custom_rules),
                ) is Ok,
        decreases biomarkers.len() - i,
    {
        match calculate_score(&biomarkers[i], weights, custom_rules) {
            Ok((score, score_info)) => {
                scores.push(BiomarkerScore { score, score_info });
            },
            Err(e) => {
                return Err(e);
            },
        }
        i += 1;
    }
    Ok(scores)
}

} // verus!
