//! The data that scoring works on and what it reports.

use vstd::prelude::*;
use crate::decimal::{whole, Decimal};
use crate::defaults::{
    CLINICAL_USE, FIRST_PMID, FIRST_SOURCE, GENERIC_CONDITIONS, GENERIC_CONDITION_PEN, LOINC,
    OTHER_PMID, OTHER_SOURCE, PMID_LIMIT,
};
use crate::text::{clone_texts, contains_text, texts};

pub mod minimum_models;
pub mod traits;

verus! {

/// The weights of the scoring formula. A field that is `None` stands for its
/// default.
#[derive(Debug, PartialEq, Eq)]
pub struct Weights {
    pub clinical_use: Option<i32>,
    pub first_pmid: Option<i32>,
    pub other_pmid: Option<Decimal>,
    pub pmid_limit: Option<usize>,
    pub first_source: Option<i32>,
    pub other_source: Option<Decimal>,
    pub loinc: Option<i32>,
    pub generic_condition_pen: Option<i32>,
    /// The identifiers of the generic conditions. Order and repetition carry
    /// no meaning.
    pub generic_conditions: Option<Vec<String>>,
}

/// How often one category of the formula fired, and at what weight.
#[derive(Debug, PartialEq, Eq)]
pub struct ScoreContribution {
    /// The category's name.
    pub c: String,
    /// Its weight.
    pub w: Decimal,
    /// How many times it fired.
    pub f: usize,
}

/// A contribution as plain values.
pub struct ContributionModel {
    pub c: Seq<char>,
    pub w: Decimal,
    pub f: nat,
}

impl View for ScoreContribution {
    type V = ContributionModel;

    open spec fn view(&self) -> ContributionModel {
        ContributionModel { c: self.c@, w: self.w, f: self.f as nat }
    }
}

/// How a score came about.
#[derive(Debug, PartialEq, Eq)]
pub struct ScoreInfo {
    /// One entry for each category of the formula.
    pub contributions: Vec<ScoreContribution>,
    pub formula: String,
    /// What each letter of the formula stands for.
    pub variables: Vec<(String, String)>,
    /// The rules that fired, in the order in which they did; `None` where no
    /// rules were given.
    pub custom_rules: Option<Vec<CustomRuleApplication>>,
}

/// A score with its explanation.
#[derive(Debug, PartialEq, Eq)]
pub struct BiomarkerScore {
    pub score: Decimal,
    pub score_info: ScoreInfo,
}

/// The record of one rule that fired.
#[derive(Debug, PartialEq, Eq)]
pub struct CustomRuleApplication {
    pub rule_name: String,
    /// The rule's condition, in words.
    pub condition: CustomCondition,
    /// The rule's action, in words.
    pub action: String,
    /// What the action added to the score.
    pub effect: Decimal,
}

/// A condition in words: a conjunction or disjunction keeps its shape, any
/// other condition is one text.
#[derive(Debug, PartialEq, Eq)]
pub enum CustomCondition {
    Simple(String),
    And(Vec<CustomCondition>),
    Or(Vec<CustomCondition>),
}

/// The weights as plain values.
pub struct WeightsModel {
    pub clinical_use: Option<i32>,
    pub first_pmid: Option<i32>,
    pub other_pmid: Option<Decimal>,
    pub pmid_limit: Option<usize>,
    pub first_source: Option<i32>,
    pub other_source: Option<Decimal>,
    pub loinc: Option<i32>,
    pub generic_condition_pen: Option<i32>,
    pub generic_conditions: Option<Seq<Seq<char>>>,
}

/// The supplied value where there is one, else the default.
pub open spec fn or_default<T>(supplied: Option<T>, default: T) -> T {
    match supplied {
        Some(value) => value,
        None => default,
    }
}

impl WeightsModel {
    /// The identifiers that count as generic conditions by default.
    pub open spec fn default_generic_conditions() -> Seq<Seq<char>> {
        seq!["DOID:162"@]
    }

    /// The weights in which every field holds its default.
    pub open spec fn defaults() -> WeightsModel {
        WeightsModel {
            clinical_use: Some(CLINICAL_USE),
            first_pmid: Some(FIRST_PMID),
            other_pmid: Some(Decimal { units: OTHER_PMID }),
            pmid_limit: Some(PMID_LIMIT),
            first_source: Some(FIRST_SOURCE),
            other_source: Some(Decimal { units: OTHER_SOURCE }),
            loinc: Some(LOINC),
            generic_condition_pen: Some(GENERIC_CONDITION_PEN),
            generic_conditions: Some(Self::default_generic_conditions()),
        }
    }

    /// The weight of the first PubMed item.
    pub open spec fn first_pmid_weight(self) -> Decimal {
        whole(or_default(self.first_pmid, FIRST_PMID))
    }

    /// The weight of each further PubMed item.
    pub open spec fn other_pmid_weight(self) -> Decimal {
        or_default(self.other_pmid, Decimal { units: OTHER_PMID })
    }

    /// How many distinct PubMed items count at all.
    pub open spec fn pmid_limit_value(self) -> nat {
        or_default(self.pmid_limit, PMID_LIMIT) as nat
    }

    /// The weight of the first item from another source.
    pub open spec fn first_source_weight(self) -> Decimal {
        whole(or_default(self.first_source, FIRST_SOURCE))
    }

    /// The weight of each further item from another source.
    pub open spec fn other_source_weight(self) -> Decimal {
        or_default(self.other_source, Decimal { units: OTHER_SOURCE })
    }

    /// The weight of a LOINC code.
    pub open spec fn loinc_weight(self) -> Decimal {
        whole(or_default(self.loinc, LOINC))
    }

    /// The weight of a generic condition.
    pub open spec fn generic_condition_weight(self) -> Decimal {
        whole(or_default(self.generic_condition_pen, GENERIC_CONDITION_PEN))
    }

    /// Whether `condition_id` names a generic condition.
    pub open spec fn is_generic(self, condition_id: Seq<char>) -> bool {
        or_default(self.generic_conditions, Self::default_generic_conditions()).contains(
            condition_id,
        )
    }

    /// The defaults, each replaced by the value that `overrides` supplies for
    /// it, if any.
    pub open spec fn merged(overrides: Option<WeightsModel>) -> WeightsModel {
        match overrides {
            None => Self::defaults(),
            Some(o) => WeightsModel {
                clinical_use: Some(or_default(o.clinical_use, CLINICAL_USE)),
                first_pmid: Some(or_default(o.first_pmid, FIRST_PMID)),
                other_pmid: Some(or_default(o.other_pmid, Decimal { units: OTHER_PMID })),
                pmid_limit: Some(or_default(o.pmid_limit, PMID_LIMIT)),
                first_source: Some(or_default(o.first_source, FIRST_SOURCE)),
                other_source: Some(or_default(o.other_source, Decimal { units: OTHER_SOURCE })),
                loinc: Some(or_default(o.loinc, LOINC)),
                generic_condition_pen: Some(
                    or_default(o.generic_condition_pen, GENERIC_CONDITION_PEN),
                ),
                generic_conditions: Some(
                    or_default(o.generic_conditions, Self::default_generic_conditions()),
                ),
            },
        }
    }
}

/// Merging goes field by field: a field that the overrides set holds their
/// value, every other field holds its default; without overrides every
/// field holds its default.
pub proof fn lemma_merge_is_field_by_field(overrides: WeightsModel)
    ensures
        WeightsModel::merged(None) == WeightsModel::defaults(),
        ({
            let merged = WeightsModel::merged(Some(overrides));
            let defaults = WeightsModel::defaults();
            &&& merged.clinical_use == if overrides.clinical_use is Some {
                overrides.clinical_use
            } else {
                defaults.clinical_use
            }
            &&& merged.first_pmid == if overrides.first_pmid is Some {
                overrides.first_pmid
            } else {
                defaults.first_pmid
            }
            &&& merged.other_pmid == if overrides.other_pmid is Some {
                overrides.other_pmid
            } else {
                defaults.other_pmid
            }
            &&& merged.pmid_limit == if overrides.pmid_limit is Some {
                overrides.pmid_limit
            } else {
                defaults.pmid_limit
            }
            &&& merged.first_source == if overrides.first_source is Some {
                overrides.first_source
            } else {
                defaults.first_source
            }
            &&& merged.other_source == if overrides.other_source is Some {
                overrides.other_source
            } else {
                defaults.other_source
            }
            &&& merged.loinc == if overrides.loinc is Some {
                overrides.loinc
            } else {
                defaults.loinc
            }
            &&& merged.generic_condition_pen == if overrides.generic_condition_pen is Some {
                overrides.generic_condition_pen
            } else {
                defaults.generic_condition_pen
            }
            &&& merged.generic_conditions == if overrides.generic_conditions is Some {
                overrides.generic_conditions
            } else {
                defaults.generic_conditions
            }
        }),
{
}

impl View for Weights {
    type V = WeightsModel;

    open spec fn view(&self) -> WeightsModel {
        WeightsModel {
            clinical_use: self.clinical_use,
            first_pmid: self.first_pmid,
            other_pmid: self.other_pmid,
            pmid_limit: self.pmid_limit,
            first_source: self.first_source,
            other_source: self.other_source,
            loinc: self.loinc,
            generic_condition_pen: self.generic_condition_pen,
            generic_conditions: match self.generic_conditions {
                Some(ids) => Some(texts(ids@)),
                None => None,
            },
        }
    }
}

/// The generic conditions that apply where none is supplied.
pub fn default_generic_conditions() -> (r: Vec<String>)
    ensures
        texts(r@) == WeightsModel::default_generic_conditions(),
{
    let mut ids: Vec<String> = Vec::new();
    ids.push(GENERIC_CONDITIONS[0].to_owned());
    ids
}

impl Default for Weights {
    fn default() -> (r: Weights)
        ensures
            r@ == WeightsModel::defaults(),
    {
        Weights {
            clinical_use: Some(CLINICAL_USE),
            first_pmid: Some(FIRST_PMID),
            other_pmid: Some(Decimal { units: OTHER_PMID }),
            pmid_limit: Some(PMID_LIMIT),
            first_source: Some(FIRST_SOURCE),
            other_source: Some(Decimal { units: OTHER_SOURCE }),
            loinc: Some(LOINC),
            generic_condition_pen: Some(GENERIC_CONDITION_PEN),
            generic_conditions: Some(default_generic_conditions()),
        }
    }
}

impl Weights {
    /// Whether `condition_id` names a generic condition.
    pub fn is_generic(&self, condition_id: &str) -> (r: bool)
        ensures
            r == self@.is_generic(condition_id@),
    {
        match &self.generic_conditions {
            Some(ids) => contains_text(ids, condition_id),
            None => {
                let ids = default_generic_conditions();
                contains_text(&ids, condition_id)
            },
        }
    }

    /// Merges the overrides with the defaults, field by field.
    pub fn with_defaults(overrides: Option<&Weights>) -> (r: Weights)
        ensures
            r@ == WeightsModel::merged(
                match overrides {
                    Some(o) => Some(o@),
                    None => None,
                },
            ),
    {
        match overrides {
            None => Weights::default(),
            Some(o) => Weights {
                clinical_use: Some(o.clinical_use.unwrap_or(CLINICAL_USE)),
                first_pmid: Some(o.first_pmid.unwrap_or(FIRST_PMID)),
                other_pmid: Some(o.other_pmid.unwrap_or(Decimal { units: OTHER_PMID })),
                pmid_limit: Some(o.pmid_limit.unwrap_or(PMID_LIMIT)),
                first_source: Some(o.first_source.unwrap_or(FIRST_SOURCE)),
                other_source: Some(o.other_source.unwrap_or(Decimal { units: OTHER_SOURCE })),
                loinc: Some(o.loinc.unwrap_or(LOINC)),
                generic_condition_pen: Some(
                    o.generic_condition_pen.unwrap_or(GENERIC_CONDITION_PEN),
                ),
                generic_conditions: Some(
                    match &o.generic_conditions {
                        Some(ids) => clone_texts(ids),
                        None => default_generic_conditions(),
                    },
                ),
            },
        }
    }
}

} // verus!
