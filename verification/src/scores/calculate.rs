//! The weighted evidence formula.

use vstd::prelude::*;
use crate::decimal::{cents_units, fit, round_div, Decimal, CENT};
use crate::defaults::{
    FIRST_PMID, FIRST_SOURCE, GENERIC_CONDITION_PEN, LOINC, OTHER_PMID, OTHER_SOURCE, PMID_LIMIT,
};
use crate::error::ScoreError;
use crate::models::traits::{BiomarkerData, BiomarkerModel, ComponentData, SpecimenData};
use crate::models::{
    ContributionModel, CustomRuleApplication, ScoreContribution, ScoreInfo, Weights, WeightsModel,
};
use crate::rules::audit::{audit_of, lemma_one_audit, same_audit, Firing};
use crate::rules::conditions::{rules_valid, validate_rules};
use crate::rules::engine::{apply_custom_rules, rules_outcome};
use crate::rules::schema::{CustomRules, Rule};
use crate::scores::evidence::{
    citation_models, citations_of, evidence_stream, first_count, later_count, later_count_within,
    lemma_unique_ids_are_those_met, tally_evidence, unique_ids, Citation, CitationModel,
};

verus! {

/// The contributions as plain values.
pub open spec fn contribution_models(contributions: Seq<ScoreContribution>) -> Seq<
    ContributionModel,
> {
    contributions.map_values(|c: ScoreContribution| c@)
}

/// 1 where the flag is set, else 0.
pub open spec fn once_if(flag: bool) -> nat {
    if flag {
        1
    } else {
        0
    }
}

/// The breakdown of a score: for each category of the formula its weight and
/// how often it fired on the stream. `generic` says whether the record's
/// condition is a generic one, `loinc` whether the record has a LOINC code.
pub open spec fn contributions_of(
    stream: Seq<CitationModel>,
    generic: bool,
    loinc: bool,
    weights: WeightsModel,
) -> Seq<ContributionModel> {
    let pmids = unique_ids(stream, true).len();
    let sources = unique_ids(stream, false).len();
    seq![
        ContributionModel {
            c: "first_pmid"@,
            w: weights.first_pmid_weight(),
            f: first_count(pmids),
        },
        ContributionModel {
            c: "other_pmid"@,
            w: weights.other_pmid_weight(),
            f: later_count_within(pmids, weights.pmid_limit_value()),
        },
        ContributionModel {
            c: "first_source"@,
            w: weights.first_source_weight(),
            f: first_count(sources),
        },
        ContributionModel {
            c: "other_source"@,
            w: weights.other_source_weight(),
            f: later_count(sources),
        },
        ContributionModel {
            c: "generic_condition_pen"@,
            w: weights.generic_condition_weight(),
            f: once_if(generic),
        },
        ContributionModel { c: "loinc"@, w: weights.loinc_weight(), f: once_if(loinc) },
    ]
}

/// The sum of weight times frequency over the contributions, in millionths.
pub open spec fn weighted_sum(contributions: Seq<ContributionModel>) -> int
    decreases contributions.len(),
{
    if contributions.len() == 0 {
        0
    } else {
        weighted_sum(contributions.drop_last()) + contributions.last().w.units
            * contributions.last().f
    }
}

/// The score that a weighted sum gives, in millionths: a negative sum counts
/// as zero, and the result is rounded to two fractional digits.
pub open spec fn base_units(sum: int) -> int {
    if sum > 0 {
        cents_units(sum)
    } else {
        0
    }
}

/// The weighted sum of six contributions, written out.
proof fn lemma_weighted_sum_of_six(c: Seq<ContributionModel>)
    requires
        c.len() == 6,
    ensures
        weighted_sum(c) == c[0].w.units * c[0].f + c[1].w.units * c[1].f + c[2].w.units * c[2].f
            + c[3].w.units * c[3].f + c[4].w.units * c[4].f + c[5].w.units * c[5].f,
{
    let c5 = c.drop_last();
    let c4 = c5.drop_last();
    let c3 = c4.drop_last();
    let c2 = c3.drop_last();
    let c1 = c2.drop_last();
    let c0 = c1.drop_last();
    assert(weighted_sum(c0) == 0);
    assert(weighted_sum(c1) == c[0].w.units * c[0].f);
    assert(weighted_sum(c2) == weighted_sum(c1) + c[1].w.units * c[1].f);
    assert(weighted_sum(c3) == weighted_sum(c2) + c[2].w.units * c[2].f);
    assert(weighted_sum(c4) == weighted_sum(c3) + c[3].w.units * c[3].f);
    assert(weighted_sum(c5) == weighted_sum(c4) + c[4].w.units * c[4].f);
}

/// The product of a weight and a frequency, in millionths.
fn weighted(weight: Decimal, frequency: usize) -> (r: i128)
    ensures
        r == weight.units * frequency,
{
    assert(-0x8000_0000_0000_0000 * 0xffff_ffff_ffff_ffff <= weight.units * frequency
        <= 0x8000_0000_0000_0000 * 0xffff_ffff_ffff_ffff) by (nonlinear_arith)
        requires
            -0x8000_0000_0000_0000 <= weight.units <= 0x8000_0000_0000_0000,
            0 <= frequency <= 0xffff_ffff_ffff_ffff,
    ;
    (weight.units as i128) * (frequency as i128)
}

/// The product of a weight and a frequency of at most one, in millionths.
fn weighted_once(weight: Decimal, frequency: usize) -> (r: i128)
    requires
        frequency <= 1,
    ensures
        r == weight.units * frequency,
        r == 0 || r == weight.units,
{
    if frequency == 1 {
        weight.units as i128
    } else {
        0
    }
}

/// The base score of a classified evidence stream with its breakdown.
/// `generic` says whether the record's condition is a generic one, `loinc`
/// whether the record has a LOINC code. The score is never negative. It
/// fails only where the score is too large for a decimal.
pub fn base_score(stream: &Vec<Citation>, generic: bool, loinc: bool, weights: &Weights) -> (r:
    Result<(Decimal, Vec<ScoreContribution>), ScoreError>)
    ensures
        match r {
            Ok((score, contributions)) => {
                &&& contribution_models(contributions@) == contributions_of(
                    citation_models(stream@),
                    generic,
                    loinc,
                    weights@,
                )
                &&& fit(base_units(weighted_sum(contribution_models(contributions@)))) == Some(
                    score,
                )
                &&& score.units >= 0
            },
            Err(e) => {
                &&& e == ScoreError::OutOfRange
                &&& fit(
                    base_units(
                        weighted_sum(
                            contributions_of(citation_models(stream@), generic, loinc, weights@),
                        ),
                    ),
                ) is None
            },
        },
{
    let first_pmid = Decimal::from_int(weights.first_pmid.unwrap_or(FIRST_PMID));
    let other_pmid = weights.other_pmid.unwrap_or(Decimal { units: OTHER_PMID });
    let first_source = Decimal::from_int(weights.first_source.unwrap_or(FIRST_SOURCE));
    let other_source = weights.other_source.unwrap_or(Decimal { units: OTHER_SOURCE });
    let penalty = Decimal::from_int(weights.generic_condition_pen.unwrap_or(GENERIC_CONDITION_PEN));
    let loinc_weight = Decimal::from_int(weights.loinc.unwrap_or(LOINC));
    let tally = tally_evidence(stream, weights.pmid_limit.unwrap_or(PMID_LIMIT));
    let generic_count: usize = if generic { 1 } else { 0 };
    let loinc_count: usize = if loinc { 1 } else { 0 };

    let mut contributions: Vec<ScoreContribution> = Vec::new();
    contributions.push(
        ScoreContribution { c: "first_pmid".to_owned(), w: first_pmid, f: tally.first_pmid },
    );
    contributions.push(
        ScoreContribution { c: "other_pmid".to_owned(), w: other_pmid, f: tally.other_pmid },
    );
    contributions.push(
        ScoreContribution { c: "first_source".to_owned(), w: first_source, f: tally.first_source },
    );
    contributions.push(
        ScoreContribution { c: "other_source".to_owned(), w: other_source, f: tally.other_source },
    );
    contributions.push(
        ScoreContribution { c: "generic_condition_pen".to_owned(), w: penalty, f: generic_count },
    );
    contributions.push(ScoreContribution { c: "loinc".to_owned(), w: loinc_weight, f: loinc_count });
    let ghost models = contribution_models(contributions@);
    assert(models =~= contributions_of(citation_models(stream@), generic, loinc, weights@));

    let small: i128 = weighted_once(first_pmid, tally.first_pmid) + weighted_once(
        first_source,
        tally.first_source,
    ) + weighted_once(penalty, generic_count) + weighted_once(loinc_weight, loinc_count);
    let a: i128 = weighted(other_pmid, tally.other_pmid);
    let b: i128 = weighted(other_source, tally.other_source);
    assert(-0x8000_0000_0000_0000 * 0xffff_ffff_ffff_ffff <= a + b <= 0x8000_0000_0000_0000
        * 0xffff_ffff_ffff_ffff) by (nonlinear_arith)
        requires
            a == other_pmid.units * tally.other_pmid,
            b == other_source.units * tally.other_source,
            -0x8000_0000_0000_0000 <= other_pmid.units <= 0x8000_0000_0000_0000,
            -0x8000_0000_0000_0000 <= other_source.units <= 0x8000_0000_0000_0000,
            0 <= tally.other_pmid,
            0 <= tally.other_source,
            tally.other_pmid + tally.other_source <= 0xffff_ffff_ffff_ffff,
    ;
    let sum: i128 = a + b + small;
    proof {
        lemma_weighted_sum_of_six(models);
    }
    if sum <= 0 {
        return Ok((Decimal { units: 0 }, contributions));
    }
    if sum > 0x7fff_ffff_ffff_ffff {
        return Err(ScoreError::OutOfRange);
    }
    match (Decimal { units: sum as i64 }).round_to_cents() {
        Some(score) => Ok((score, contributions)),
        None => Err(ScoreError::OutOfRange),
    }
}

/// Whether a specimen of one of the record's components has a LOINC code.
pub fn has_loinc<B: BiomarkerData>(biomarker: &B) -> (r: bool)
    ensures
        r == biomarker@.has_loinc(),
{
    let components = biomarker.biomarker_components();
    let mut i: usize = 0;
    while i < components.len()
        invariant
            i <= components.len(),
            components@.len() == biomarker@.components.len(),
            forall|k: int|
                0 <= k < components@.len() ==> (#[trigger] components@[k])@
                    == biomarker@.components[k],
            forall|k: int| 0 <= k < i ==> !(#[trigger] biomarker@.components[k]).has_loinc(),
        decreases components.len() - i,
    {
        let specimens = components[i].specimen();
        let ghost model = biomarker@.components[i as int];
        let mut j: usize = 0;
        while j < specimens.len()
            invariant
                j <= specimens.len(),
                i < components.len(),
                components@.len() == biomarker@.components.len(),
                model == biomarker@.components[i as int],
                specimens@.len() == model.specimen.len(),
                forall|k: int|
                    0 <= k < specimens@.len() ==> (#[trigger] specimens@[k])@ == model.specimen[k],
                forall|k: int| 0 <= k < j ==> (#[trigger] model.specimen[k]).loinc_code.len() == 0,
            decreases specimens.len() - j,
        {
            if !specimens[j].loinc_code().is_empty() {
                return true;
            }
            j += 1;
        }
        i += 1;
    }
    false
}

/// The breakdown of a record's base score.
pub open spec fn base_contributions(record: BiomarkerModel, weights: WeightsModel) -> Seq<
    ContributionModel,
> {
    contributions_of(
        citations_of(record.evidence_stream()),
        weights.is_generic(record.condition_id),
        record.has_loinc(),
        weights,
    )
}

/// The base score of a record, where it is not too large for a decimal: the
/// weighted sum of its breakdown, a negative sum counted as zero, rounded to
/// two fractional digits.
pub open spec fn base_score_of(record: BiomarkerModel, weights: WeightsModel) -> Option<Decimal> {
    fit(base_units(weighted_sum(base_contributions(record, weights))))
}

/// What comes of scoring a record: the score and, where rules were given,
/// the rules that fired; or the error that stopped it. Rules of which one
/// cannot be evaluated are refused before anything is computed. The rules
/// work on the base score, and what they make of it is not rounded or kept
/// above zero.
pub open spec fn score_outcome(
    record: BiomarkerModel,
    weights: WeightsModel,
    rules: Option<Seq<Rule>>,
) -> Result<(Decimal, Option<Seq<Firing>>), ScoreError> {
    if rules matches Some(listing) && !rules_valid(listing) {
        Err(ScoreError::DisallowedField)
    } else {
        match base_score_of(record, weights) {
            None => Err(ScoreError::OutOfRange),
            Some(base) => match rules {
                None => Ok((base, None)),
                Some(listing) => match rules_outcome(record, listing, base) {
                    Ok((score, fired)) => Ok((score, Some(fired))),
                    Err(e) => Err(e),
                },
            },
        }
    }
}

/// Whether `info` explains a score with the given breakdown: it holds the
/// breakdown, the formula and the meaning of the formula's letters.
pub open spec fn explains(info: ScoreInfo, contributions: Seq<ContributionModel>) -> bool {
    &&& contribution_models(info.contributions@) == contributions
    &&& info.formula@ == "sum(w*f)"@
    &&& info.variables@.len() == 3
    &&& info.variables@[0].0@ == "c"@
    &&& info.variables@[0].1@ == "condition"@
    &&& info.variables@[1].0@ == "w"@
    &&& info.variables@[1].1@ == "weight"@
    &&& info.variables@[2].0@ == "f"@
    &&& info.variables@[2].1@ == "frequency"@
}

/// Whether `audit` is the record of the rules that fired, or `None` where
/// no rules were given.
pub open spec fn audit_matches(
    audit: Option<Vec<CustomRuleApplication>>,
    rules: Option<Seq<Rule>>,
    fired: Option<Seq<Firing>>,
) -> bool {
    match (audit, rules, fired) {
        (None, None, None) => true,
        (Some(entries), Some(listing), Some(firings)) => audit_of(entries@, listing, firings),
        _ => false,
    }
}

/// The rules as a listing.
pub open spec fn listing_of(custom_rules: Option<&CustomRules>) -> Option<Seq<Rule>> {
    match custom_rules {
        Some(rules) => Some(rules.rules@),
        None => None,
    }
}

/// Whether `result` is what comes of scoring a record: the score with its
/// explanation, or the error.
pub open spec fn is_outcome(
    result: Result<(Decimal, ScoreInfo), ScoreError>,
    record: BiomarkerModel,
    weights: WeightsModel,
    rules: Option<Seq<Rule>>,
) -> bool {
    match (result, score_outcome(record, weights, rules)) {
        (Ok((score, info)), Ok((expected, fired))) => {
            &&& score == expected
            &&& explains(info, base_contributions(record, weights))
            &&& audit_matches(info.custom_rules, rules, fired)
        },
        (Err(e), Err(expected)) => e == expected,
        _ => false,
    }
}

/// Whether two results of scoring read the same: the same error, or the same
/// score with the same explanation.
pub open spec fn same_result(
    a: Result<(Decimal, ScoreInfo), ScoreError>,
    b: Result<(Decimal, ScoreInfo), ScoreError>,
) -> bool {
    match (a, b) {
        (Ok((score, info)), Ok((other_score, other_info))) => {
            &&& score == other_score
            &&& contribution_models(info.contributions@) == contribution_models(
                other_info.contributions@,
            )
            &&& info.formula@ == other_info.formula@
            &&& info.variables@.len() == other_info.variables@.len()
            &&& forall|i: int|
                0 <= i < info.variables@.len() ==> (#[trigger] info.variables@[i]).0@
                    == other_info.variables@[i].0@ && info.variables@[i].1@
                    == other_info.variables@[i].1@
            &&& match (info.custom_rules, other_info.custom_rules) {
                (None, None) => true,
                (Some(audit), Some(other_audit)) => same_audit(audit@, other_audit@),
                _ => false,
            }
        },
        (Err(e), Err(other)) => e == other,
        _ => false,
    }
}

/// Scoring is a function of its inputs: two results for the same record,
/// weights and rules read the same.
pub proof fn lemma_score_is_determined(
    a: Result<(Decimal, ScoreInfo), ScoreError>,
    b: Result<(Decimal, ScoreInfo), ScoreError>,
    record: BiomarkerModel,
    weights: WeightsModel,
    rules: Option<Seq<Rule>>,
)
    requires
        is_outcome(a, record, weights, rules),
        is_outcome(b, record, weights, rules),
    ensures
        same_result(a, b),
{
    match (a, b, score_outcome(record, weights, rules)) {
        (Ok((_, info)), Ok((_, other_info)), Ok((_, Some(fired)))) => {
            lemma_one_audit(
                info.custom_rules->Some_0@,
                other_info.custom_rules->Some_0@,
                rules->Some_0,
                fired,
            );
        },
        _ => {},
    }
}

/// A base score is never negative, however negative the weights.
pub proof fn lemma_base_score_is_never_negative(sum: int)
    ensures
        base_units(sum) >= 0,
{
    if sum > 0 {
        let q = round_div(sum, CENT as int);
        assert(q >= 0) by (nonlinear_arith)
            requires
                -CENT < 2 * (q * CENT - sum),
                sum > 0,
                CENT == 10_000,
        ;
        assert(q * CENT >= 0) by (nonlinear_arith)
            requires
                q >= 0,
                CENT == 10_000,
        ;
    }
}

/// Scores a record: the base score from the weighted formula and then, where
/// rules are given, what the rules make of it. Without rules the score is
/// never negative.
pub fn calculate_score<B: BiomarkerData>(
    biomarker: &B,
    weights: &Weights,
    custom_rules: Option<&CustomRules>,
) -> (r: Result<(Decimal, ScoreInfo), ScoreError>)
    ensures
        is_outcome(r, biomarker@, weights@, listing_of(custom_rules)),
        custom_rules is None ==> (r matches Ok((score, info)) ==> score.units >= 0),
{
    if let Some(rules) = custom_rules {
        if validate_rules(rules).is_err() {
            return Err(ScoreError::DisallowedField);
        }
    }
    let stream = evidence_stream(biomarker);
    let generic = weights.is_generic(biomarker.condition_id());
    let loinc = has_loinc(biomarker);
    let (base, contributions) = match base_score(&stream, generic, loinc, weights) {
        Ok(scored) => scored,
        Err(e) => {
            return Err(e);
        },
    };
    let (score, audit) = match custom_rules {
        None => (base, None),
        Some(rules) => match apply_custom_rules(biomarker, rules, base) {
            Ok((score, applied)) => (score, Some(applied)),
            Err(e) => {
                return Err(e);
            },
        },
    };
    let mut variables: Vec<(String, String)> = Vec::new();
    variables.push(("c".to_owned(), "condition".to_owned()));
    variables.push(("w".to_owned(), "weight".to_owned()));
    variables.push(("f".to_owned(), "frequency".to_owned()));
    let info = ScoreInfo {
        contributions,
        formula: "sum(w*f)".to_owned(),
        variables,
        custom_rules: audit,
    };
    Ok((score, info))
}

/// Evidence counts once: two streams in which the same items occur, however
/// often and wherever, have the same breakdown.
pub proof fn lemma_evidence_counts_once(
    stream: Seq<CitationModel>,
    other: Seq<CitationModel>,
    generic: bool,
    loinc: bool,
    weights: WeightsModel,
)
    requires
        forall|item: CitationModel| stream.contains(item) <==> other.contains(item),
    ensures
        unique_ids(stream, true) == unique_ids(other, true),
        unique_ids(stream, false) == unique_ids(other, false),
        contributions_of(stream, generic, loinc, weights) == contributions_of(
            other,
            generic,
            loinc,
            weights,
        ),
{
    lemma_unique_ids_are_those_met(stream, true);
    lemma_unique_ids_are_those_met(other, true);
    lemma_unique_ids_are_those_met(stream, false);
    lemma_unique_ids_are_those_met(other, false);
}

} // verus!
