use biomarker_score_calculator::decimal::Decimal;
use biomarker_score_calculator::defaults::{
    CLINICAL_USE, FIRST_PMID, FIRST_SOURCE, GENERIC_CONDITIONS, GENERIC_CONDITION_PEN, LOINC,
    OTHER_PMID, OTHER_SOURCE, PMID_LIMIT,
};
use biomarker_score_calculator::models::{default_generic_conditions, Weights};

fn no_overrides() -> Weights {
    Weights {
        clinical_use: None,
        first_pmid: None,
        other_pmid: None,
        pmid_limit: None,
        first_source: None,
        other_source: None,
        loinc: None,
        generic_condition_pen: None,
        generic_conditions: None,
    }
}

fn assert_defaults(w: &Weights) {
    assert_eq!(w.clinical_use, Some(5));
    assert_eq!(w.first_pmid, Some(1));
    assert_eq!(w.other_pmid, Some(Decimal { units: 200_000 }));
    assert_eq!(w.pmid_limit, Some(10));
    assert_eq!(w.first_source, Some(1));
    assert_eq!(w.other_source, Some(Decimal { units: 100_000 }));
    assert_eq!(w.loinc, Some(1));
    assert_eq!(w.generic_condition_pen, Some(-4));
    assert_eq!(w.generic_conditions, Some(vec!["DOID:162".to_string()]));
}

#[test]
fn default_constants_have_their_values() {
    assert_eq!(CLINICAL_USE, 5);
    assert_eq!(FIRST_PMID, 1);
    assert_eq!(OTHER_PMID, 200_000);
    assert_eq!(PMID_LIMIT, 10);
    assert_eq!(FIRST_SOURCE, 1);
    assert_eq!(OTHER_SOURCE, 100_000);
    assert_eq!(LOINC, 1);
    assert_eq!(GENERIC_CONDITION_PEN, -4);
    assert_eq!(GENERIC_CONDITIONS, ["DOID:162"]);
    assert_eq!(default_generic_conditions(), vec!["DOID:162".to_string()]);
}

#[test]
fn default_weights_are_the_defaults() {
    assert_defaults(&Weights::default());
}

#[test]
fn merge_without_overrides_gives_the_defaults() {
    assert_defaults(&Weights::with_defaults(None));
}

#[test]
fn merge_with_nothing_set_gives_the_defaults() {
    assert_defaults(&Weights::with_defaults(Some(&no_overrides())));
}

#[test]
fn merge_takes_each_supplied_field_and_the_default_for_the_rest() {
    let mut o = no_overrides();
    o.first_pmid = Some(7);
    o.other_source = Some(Decimal { units: 450_000 });
    o.pmid_limit = Some(2);
    let w = Weights::with_defaults(Some(&o));
    assert_eq!(w.first_pmid, Some(7));
    assert_eq!(w.other_source, Some(Decimal { units: 450_000 }));
    assert_eq!(w.pmid_limit, Some(2));
    assert_eq!(w.clinical_use, Some(5));
    assert_eq!(w.other_pmid, Some(Decimal { units: 200_000 }));
    assert_eq!(w.first_source, Some(1));
    assert_eq!(w.loinc, Some(1));
    assert_eq!(w.generic_condition_pen, Some(-4));
    assert_eq!(w.generic_conditions, Some(vec!["DOID:162".to_string()]));
}

#[test]
fn merge_takes_every_field_when_all_are_supplied() {
    let o = Weights {
        clinical_use: Some(9),
        first_pmid: Some(-1),
        other_pmid: Some(Decimal { units: -5 }),
        pmid_limit: Some(0),
        first_source: Some(0),
        other_source: Some(Decimal { units: 0 }),
        loinc: Some(i32::MAX),
        generic_condition_pen: Some(i32::MIN),
        generic_conditions: Some(vec!["A".to_string(), "B".to_string()]),
    };
    let w = Weights::with_defaults(Some(&o));
    assert_eq!(w.clinical_use, Some(9));
    assert_eq!(w.first_pmid, Some(-1));
    assert_eq!(w.other_pmid, Some(Decimal { units: -5 }));
    assert_eq!(w.pmid_limit, Some(0));
    assert_eq!(w.first_source, Some(0));
    assert_eq!(w.other_source, Some(Decimal { units: 0 }));
    assert_eq!(w.loinc, Some(i32::MAX));
    assert_eq!(w.generic_condition_pen, Some(i32::MIN));
    assert_eq!(w.generic_conditions, Some(vec!["A".to_string(), "B".to_string()]));
}

#[test]
fn merge_keeps_an_empty_set_of_generic_conditions() {
    let mut o = no_overrides();
    o.generic_conditions = Some(Vec::new());
    let w = Weights::with_defaults(Some(&o));
    assert_eq!(w.generic_conditions, Some(Vec::new()));
    assert!(!w.is_generic("DOID:162"));
}

#[test]
fn is_generic_knows_the_supplied_set_or_the_default_one() {
    let w = Weights::with_defaults(None);
    assert!(w.is_generic("DOID:162"));
    assert!(!w.is_generic("doid:162"));
    assert!(!w.is_generic("DOID:1620"));
    assert!(no_overrides().is_generic("DOID:162"));
    let mut o = no_overrides();
    o.generic_conditions = Some(vec!["X".to_string(), "Y".to_string(), "X".to_string()]);
    assert!(o.is_generic("Y"));
    assert!(o.is_generic("X"));
    assert!(!o.is_generic("DOID:162"));
    assert!(!o.is_generic(""));
}
