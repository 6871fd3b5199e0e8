use biomarker_score_calculator::decimal::Decimal;
use biomarker_score_calculator::error::ScoreError;
use biomarker_score_calculator::models::minimum_models::{
    Biomarker, Component, Condition, Evidence, Specimen,
};
use biomarker_score_calculator::models::{ScoreContribution, ScoreInfo, Weights};
use biomarker_score_calculator::scores::calculate::{base_score, calculate_score, has_loinc};
use biomarker_score_calculator::scores::evidence::{
    evidence_stream, is_pubmed_database, tally_evidence, Citation, EvidenceTally,
};
use biomarker_score_calculator::scores::map::score_biomarkers;

fn dec(units: i64) -> Decimal {
    Decimal { units }
}

fn evidence(id: &str, database: &str) -> Evidence {
    Evidence { id: id.to_string(), database: database.to_string() }
}

fn specimen(loinc_code: &str) -> Specimen {
    Specimen { id: "UBERON:0000178".to_string(), loinc_code: loinc_code.to_string() }
}

fn record(condition: &str, top: Vec<Evidence>, components: Vec<Component>) -> Biomarker {
    Biomarker {
        biomarker_id: "AN1234-5".to_string(),
        biomarker_component: components,
        condition: Condition { id: condition.to_string() },
        evidence_source: top,
    }
}

fn cite(pubmed: bool, id: &str) -> Citation {
    Citation { pubmed, id: id.to_string() }
}

fn frequencies(info: &ScoreInfo) -> Vec<usize> {
    info.contributions.iter().map(|c| c.f).collect()
}

fn weights_with(change: fn(&mut Weights)) -> Weights {
    let mut w = Weights::with_defaults(None);
    change(&mut w);
    w
}

#[test]
fn one_pubmed_evidence_and_a_loinc_code_score_two() {
    let b = record(
        "DOID:1612",
        vec![evidence("pm-1", "PubMed")],
        vec![Component { specimen: vec![specimen("12345-6")], evidence_source: vec![] }],
    );
    let (score, info) = calculate_score(&b, &Weights::with_defaults(None), None).unwrap();
    assert_eq!(score, dec(2_000_000));
    assert_eq!(score.to_text(), "2.0");
    assert_eq!(frequencies(&info), vec![1, 0, 0, 0, 0, 1]);
    assert_eq!(info.custom_rules, None);
}

#[test]
fn a_generic_condition_takes_the_score_down_to_zero() {
    let b = record(
        "DOID:162",
        vec![evidence("pm-1", "PubMed")],
        vec![Component { specimen: vec![specimen("12345-6")], evidence_source: vec![] }],
    );
    let (score, info) = calculate_score(&b, &Weights::with_defaults(None), None).unwrap();
    assert_eq!(score, dec(0));
    assert_eq!(frequencies(&info), vec![1, 0, 0, 0, 1, 1]);
}

#[test]
fn the_same_pubmed_id_at_top_level_and_in_a_component_counts_once() {
    let b = record(
        "DOID:1612",
        vec![evidence("pm-1", "PubMed")],
        vec![Component { specimen: vec![], evidence_source: vec![evidence("pm-1", "PubMed")] }],
    );
    let (score, info) = calculate_score(&b, &Weights::with_defaults(None), None).unwrap();
    assert_eq!(score, dec(1_000_000));
    assert_eq!(frequencies(&info), vec![1, 0, 0, 0, 0, 0]);
}

#[test]
fn the_same_id_in_both_categories_counts_in_each() {
    let b = record(
        "DOID:1612",
        vec![evidence("X", "PubMed"), evidence("X", "OMIM"), evidence("X", "omim")],
        vec![],
    );
    let (score, info) = calculate_score(&b, &Weights::with_defaults(None), None).unwrap();
    assert_eq!(score, dec(2_000_000));
    assert_eq!(frequencies(&info), vec![1, 0, 1, 0, 0, 0]);
}

#[test]
fn ids_that_differ_in_case_are_distinct() {
    let b = record("c", vec![evidence("pm-1", "PubMed"), evidence("PM-1", "PubMed")], vec![]);
    let (score, info) = calculate_score(&b, &Weights::with_defaults(None), None).unwrap();
    assert_eq!(score, dec(1_200_000));
    assert_eq!(frequencies(&info), vec![1, 1, 0, 0, 0, 0]);
}

#[test]
fn other_pmid_stops_once_the_limit_is_passed() {
    let w = weights_with(|w| w.pmid_limit = Some(2));
    let b = record(
        "c",
        vec![evidence("pm-1", "PubMed"), evidence("pm-2", "PubMed"), evidence("pm-3", "PubMed")],
        vec![],
    );
    let (score, info) = calculate_score(&b, &w, None).unwrap();
    assert_eq!(score, dec(1_200_000));
    assert_eq!(frequencies(&info), vec![1, 1, 0, 0, 0, 0]);
}

#[test]
fn counting_goes_on_past_the_limit() {
    // the fourth distinct id is past the limit too, and a repeat of the first stays a repeat
    let stream = vec![
        cite(true, "pm-1"),
        cite(true, "pm-2"),
        cite(true, "pm-3"),
        cite(true, "pm-4"),
        cite(true, "pm-1"),
    ];
    let t = tally_evidence(&stream, 3);
    assert_eq!(t, EvidenceTally { first_pmid: 1, other_pmid: 2, first_source: 0, other_source: 0 });
}

#[test]
fn a_limit_of_zero_or_one_leaves_only_the_first_pmid() {
    let stream = vec![cite(true, "pm-1"), cite(true, "pm-2"), cite(true, "pm-3")];
    let none = EvidenceTally { first_pmid: 1, other_pmid: 0, first_source: 0, other_source: 0 };
    assert_eq!(tally_evidence(&stream, 0), none);
    assert_eq!(tally_evidence(&stream, 1), none);
    assert_eq!(
        tally_evidence(&stream, usize::MAX),
        EvidenceTally { first_pmid: 1, other_pmid: 2, first_source: 0, other_source: 0 }
    );
}

#[test]
fn other_sources_have_no_limit() {
    let w = weights_with(|w| w.pmid_limit = Some(1));
    let top: Vec<Evidence> = (0..15).map(|i| evidence(&format!("src-{}", i), "OMIM")).collect();
    let (score, info) = calculate_score(&record("c", top, vec![]), &w, None).unwrap();
    // 1 + 14 * 0.1
    assert_eq!(score, dec(2_400_000));
    assert_eq!(frequencies(&info), vec![0, 0, 1, 14, 0, 0]);
}

#[test]
fn default_limit_counts_ten_distinct_pmids() {
    let top: Vec<Evidence> = (0..12).map(|i| evidence(&format!("pm-{}", i), "pubmed")).collect();
    let (score, info) =
        calculate_score(&record("c", top, vec![]), &Weights::with_defaults(None), None).unwrap();
    // 1 + 9 * 0.2
    assert_eq!(score, dec(2_800_000));
    assert_eq!(frequencies(&info), vec![1, 9, 0, 0, 0, 0]);
}

#[test]
fn tally_of_an_empty_stream_is_zero() {
    assert_eq!(
        tally_evidence(&Vec::new(), 10),
        EvidenceTally { first_pmid: 0, other_pmid: 0, first_source: 0, other_source: 0 }
    );
}

#[test]
fn a_record_without_evidence_scores_zero_plus_condition_and_loinc() {
    let w = Weights::with_defaults(None);
    let bare = record("DOID:1612", vec![], vec![]);
    let (score, info) = calculate_score(&bare, &w, None).unwrap();
    assert_eq!(score, dec(0));
    assert_eq!(frequencies(&info), vec![0, 0, 0, 0, 0, 0]);
    let with_loinc = record(
        "DOID:1612",
        vec![],
        vec![Component { specimen: vec![specimen("1-2")], evidence_source: vec![] }],
    );
    assert_eq!(calculate_score(&with_loinc, &w, None).unwrap().0, dec(1_000_000));
    let generic = record("DOID:162", vec![], vec![]);
    assert_eq!(calculate_score(&generic, &w, None).unwrap().0, dec(0));
}

#[test]
fn the_score_is_never_negative_without_rules() {
    let w = weights_with(|w| {
        w.first_pmid = Some(-3);
        w.other_pmid = Some(Decimal { units: -2_500_000 });
        w.generic_condition_pen = Some(i32::MIN);
    });
    let b = record("DOID:162", vec![evidence("a", "pubmed"), evidence("b", "pubmed")], vec![]);
    let (score, info) = calculate_score(&b, &w, None).unwrap();
    assert_eq!(score, dec(0));
    assert_eq!(frequencies(&info), vec![1, 1, 0, 0, 1, 0]);
}

#[test]
fn the_score_is_rounded_to_two_fractional_digits() {
    let w = weights_with(|w| {
        w.first_pmid = Some(0);
        w.other_pmid = Some(Decimal { units: 123_456 });
    });
    let two = record("c", vec![evidence("a", "pubmed"), evidence("b", "pubmed")], vec![]);
    assert_eq!(calculate_score(&two, &w, None).unwrap().0, dec(120_000));
    let three = record(
        "c",
        vec![evidence("a", "pubmed"), evidence("b", "pubmed"), evidence("c", "pubmed")],
        vec![],
    );
    // 2 * 0.123456 = 0.246912
    assert_eq!(calculate_score(&three, &w, None).unwrap().0, dec(250_000));
    let half = weights_with(|w| {
        w.first_pmid = Some(0);
        w.other_pmid = Some(Decimal { units: 125_000 });
    });
    // 0.125 lies halfway and goes up
    assert_eq!(calculate_score(&two, &half, None).unwrap().0, dec(130_000));
}

#[test]
fn a_tenth_and_two_tenths_round_to_thirty_hundredths() {
    let w = weights_with(|w| {
        w.first_pmid = Some(0);
        w.first_source = Some(0);
        w.other_pmid = Some(Decimal { units: 200_000 });
        w.other_source = Some(Decimal { units: 100_000 });
    });
    let b = record(
        "c",
        vec![
            evidence("a", "pubmed"),
            evidence("b", "pubmed"),
            evidence("a", "omim"),
            evidence("b", "omim"),
        ],
        vec![],
    );
    let (score, _) = calculate_score(&b, &w, None).unwrap();
    assert_eq!(score, dec(300_000));
    assert_eq!(score.to_text(), "0.3");
}

#[test]
fn clinical_use_plays_no_part() {
    let b = record("c", vec![evidence("a", "pubmed")], vec![]);
    let plain = calculate_score(&b, &Weights::with_defaults(None), None).unwrap();
    let heavy = weights_with(|w| w.clinical_use = Some(1000));
    let with_clinical = calculate_score(&b, &heavy, None).unwrap();
    assert_eq!(plain, with_clinical);
    assert_eq!(plain.0, dec(1_000_000));
}

#[test]
fn weights_left_unset_stand_for_their_defaults() {
    let unset = Weights {
        clinical_use: None,
        first_pmid: None,
        other_pmid: None,
        pmid_limit: None,
        first_source: None,
        other_source: None,
        loinc: None,
        generic_condition_pen: None,
        generic_conditions: None,
    };
    let b = record(
        "DOID:162",
        vec![evidence("a", "pubmed"), evidence("b", "pubmed"), evidence("c", "x"), evidence("d", "x")],
        vec![Component { specimen: vec![specimen("1-2")], evidence_source: vec![] }],
    );
    let with_unset = calculate_score(&b, &unset, None).unwrap();
    let with_defaults = calculate_score(&b, &Weights::with_defaults(None), None).unwrap();
    assert_eq!(with_unset, with_defaults);
    // 1 + 0.2 + 1 + 0.1 - 4 + 1 is negative
    assert_eq!(with_unset.0, dec(0));
}

#[test]
fn the_breakdown_names_each_category_with_its_weight() {
    let b = record("c", vec![evidence("a", "pubmed")], vec![]);
    let (_, info) = calculate_score(&b, &Weights::with_defaults(None), None).unwrap();
    let expected = vec![
        ScoreContribution { c: "first_pmid".to_string(), w: dec(1_000_000), f: 1 },
        ScoreContribution { c: "other_pmid".to_string(), w: dec(200_000), f: 0 },
        ScoreContribution { c: "first_source".to_string(), w: dec(1_000_000), f: 0 },
        ScoreContribution { c: "other_source".to_string(), w: dec(100_000), f: 0 },
        ScoreContribution { c: "generic_condition_pen".to_string(), w: dec(-4_000_000), f: 0 },
        ScoreContribution { c: "loinc".to_string(), w: dec(1_000_000), f: 0 },
    ];
    assert_eq!(info.contributions, expected);
    assert_eq!(info.formula, "sum(w*f)");
    assert_eq!(
        info.variables,
        vec![
            ("c".to_string(), "condition".to_string()),
            ("w".to_string(), "weight".to_string()),
            ("f".to_string(), "frequency".to_string()),
        ]
    );
}

#[test]
fn a_database_is_pubmed_whatever_its_case_and_the_space_around_it() {
    assert!(is_pubmed_database("pubmed"));
    assert!(is_pubmed_database("PubMed"));
    assert!(is_pubmed_database("PUBMED"));
    assert!(is_pubmed_database("  pubmed\t"));
    assert!(is_pubmed_database("\n PubMed \u{a0}"));
    assert!(!is_pubmed_database("pub med"));
    assert!(!is_pubmed_database("pubmed central"));
    assert!(!is_pubmed_database(""));
    assert!(!is_pubmed_database("OMIM"));
}

#[test]
fn the_evidence_stream_takes_top_level_first_and_then_each_component() {
    let b = record(
        "c",
        vec![evidence("t1", "PubMed"), evidence("t2", "OMIM")],
        vec![
            Component { specimen: vec![], evidence_source: vec![evidence("a1", " pubmed ")] },
            Component { specimen: vec![], evidence_source: vec![] },
            Component {
                specimen: vec![],
                evidence_source: vec![evidence("b1", "UniProt"), evidence("b2", "PUBMED")],
            },
        ],
    );
    assert_eq!(
        evidence_stream(&b),
        vec![
            cite(true, "t1"),
            cite(false, "t2"),
            cite(true, "a1"),
            cite(false, "b1"),
            cite(true, "b2"),
        ]
    );
    assert_eq!(evidence_stream(&record("c", vec![], vec![])), Vec::<Citation>::new());
}

#[test]
fn has_loinc_wants_one_code_that_is_not_empty() {
    assert!(!has_loinc(&record("c", vec![], vec![])));
    let empty_codes = record(
        "c",
        vec![],
        vec![
            Component { specimen: vec![specimen(""), specimen("")], evidence_source: vec![] },
            Component { specimen: vec![], evidence_source: vec![] },
        ],
    );
    assert!(!has_loinc(&empty_codes));
    let one_code = record(
        "c",
        vec![],
        vec![
            Component { specimen: vec![specimen("")], evidence_source: vec![] },
            Component { specimen: vec![specimen(""), specimen("9-9")], evidence_source: vec![] },
        ],
    );
    assert!(has_loinc(&one_code));
}

#[test]
fn the_loinc_weight_is_added_once_however_many_codes() {
    let b = record(
        "c",
        vec![],
        vec![
            Component { specimen: vec![specimen("1-1"), specimen("2-2")], evidence_source: vec![] },
            Component { specimen: vec![specimen("3-3")], evidence_source: vec![] },
        ],
    );
    let (score, info) = calculate_score(&b, &Weights::with_defaults(None), None).unwrap();
    assert_eq!(score, dec(1_000_000));
    assert_eq!(frequencies(&info), vec![0, 0, 0, 0, 0, 1]);
}

#[test]
fn base_score_works_on_a_classified_stream() {
    let stream = vec![cite(true, "pm-1"), cite(false, "src-1"), cite(false, "src-2"), cite(false, "src-1")];
    let w = Weights::with_defaults(None);
    let (score, contributions) = base_score(&stream, false, true, &w).unwrap();
    // 1 + 1 + 0.1 + 1
    assert_eq!(score, dec(3_100_000));
    assert_eq!(contributions.iter().map(|c| c.f).collect::<Vec<usize>>(), vec![1, 0, 1, 1, 0, 1]);
    let (penalised, _) = base_score(&stream, true, true, &w).unwrap();
    assert_eq!(penalised, dec(0));
}

#[test]
fn a_score_too_large_for_a_decimal_is_an_error() {
    let w = weights_with(|w| {
        w.other_pmid = Some(Decimal { units: i64::MAX });
        w.pmid_limit = Some(usize::MAX);
    });
    let top: Vec<Evidence> = (0..3).map(|i| evidence(&format!("pm-{}", i), "pubmed")).collect();
    let b = record("c", top, vec![]);
    assert_eq!(calculate_score(&b, &w, None), Err(ScoreError::OutOfRange));
    // at the edge of the range rounding to hundredths still fits or not
    let edge = weights_with(|w| {
        w.first_pmid = Some(0);
        w.other_pmid = Some(Decimal { units: i64::MAX });
    });
    let two = record("c", vec![evidence("a", "pubmed"), evidence("b", "pubmed")], vec![]);
    assert_eq!(calculate_score(&two, &edge, None), Err(ScoreError::OutOfRange));
    let below = weights_with(|w| {
        w.first_pmid = Some(0);
        w.other_pmid = Some(Decimal { units: 9_223_372_036_854_770_000 });
    });
    assert_eq!(
        calculate_score(&two, &below, None).unwrap().0,
        dec(9_223_372_036_854_770_000)
    );
}

#[test]
fn scoring_twice_gives_the_same_result() {
    let b = record(
        "DOID:162",
        vec![evidence("pm-1", "PubMed"), evidence("src-1", "OMIM"), evidence("pm-2", "pubmed")],
        vec![Component {
            specimen: vec![specimen("12345-6")],
            evidence_source: vec![evidence("pm-1", "PubMed"), evidence("src-2", "OMIM")],
        }],
    );
    let w = weights_with(|w| w.generic_condition_pen = Some(-1));
    let first = calculate_score(&b, &w, None);
    let second = calculate_score(&b, &w, None);
    assert_eq!(first, second);
    // 1 + 0.2 + 1 + 0.1 - 1 + 1
    assert_eq!(first.unwrap().0, dec(2_300_000));
}

#[test]
fn score_biomarkers_scores_each_record_in_order() {
    let records = vec![
        record("c", vec![evidence("a", "pubmed")], vec![]),
        record("DOID:162", vec![], vec![]),
        record("c", vec![evidence("a", "pubmed"), evidence("b", "omim")], vec![]),
    ];
    let scores = score_biomarkers(&records, &Weights::with_defaults(None), None).unwrap();
    assert_eq!(
        scores.iter().map(|s| s.score).collect::<Vec<Decimal>>(),
        vec![dec(1_000_000), dec(0), dec(2_000_000)]
    );
    assert_eq!(frequencies(&scores[2].score_info), vec![1, 0, 1, 0, 0, 0]);
    let none: Vec<Biomarker> = Vec::new();
    assert_eq!(score_biomarkers(&none, &Weights::with_defaults(None), None), Ok(Vec::new()));
}

#[test]
fn score_biomarkers_stops_at_the_first_error() {
    let w = weights_with(|w| w.first_pmid = Some(i32::MAX));
    let huge = weights_with(|w| {
        w.first_pmid = Some(i32::MAX);
        w.other_pmid = Some(Decimal { units: i64::MAX });
    });
    let records = vec![
        record("c", vec![evidence("a", "pubmed")], vec![]),
        record("c", vec![evidence("a", "pubmed"), evidence("b", "pubmed")], vec![]),
    ];
    assert!(score_biomarkers(&records, &w, None).is_ok());
    assert_eq!(score_biomarkers(&records, &huge, None), Err(ScoreError::OutOfRange));
}
