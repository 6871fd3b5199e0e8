//! What most callers need, in one place.

pub use crate::decimal::Decimal;
pub use crate::defaults::{
    CLINICAL_USE, FIRST_PMID, FIRST_SOURCE, GENERIC_CONDITIONS, GENERIC_CONDITION_PEN, LOINC,
    OTHER_PMID, OTHER_SOURCE, PMID_LIMIT,
};
pub use crate::error::ScoreError;
pub use crate::models::minimum_models::Biomarker as MinBiomarker;
pub use crate::models::minimum_models::{Component, Condition, Evidence, Specimen};
pub use crate::models::{
    BiomarkerScore, CustomCondition, CustomRuleApplication, ScoreContribution, ScoreInfo, Weights,
};
pub use crate::rules::conditions::validate_rules;
pub use crate::rules::engine::apply_custom_rules;
pub use crate::rules::schema::{Action, CustomRules, Field, Rule};
pub use crate::scores::calculate::calculate_score;
pub use crate::scores::map::score_biomarkers;
