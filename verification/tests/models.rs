use biomarker_score_calculator::models::minimum_models::{
    Biomarker, Component, Condition, Evidence, Specimen,
};
use biomarker_score_calculator::models::traits::{
    BiomarkerData, ComponentData, EvidenceData, SpecimenData,
};
use biomarker_score_calculator::prelude::{calculate_score, Decimal, MinBiomarker, Weights};

fn lean_record() -> Biomarker {
    Biomarker {
        biomarker_id: "AN6628-4".to_string(),
        biomarker_component: vec![
            Component {
                specimen: vec![Specimen {
                    id: "UBERON:0000178".to_string(),
                    loinc_code: "2857-1".to_string(),
                }],
                evidence_source: vec![Evidence {
                    id: "25326806".to_string(),
                    database: "PubMed".to_string(),
                }],
            },
            Component { specimen: vec![], evidence_source: vec![] },
        ],
        condition: Condition { id: "DOID:10283".to_string() },
        evidence_source: vec![
            Evidence { id: "601518".to_string(), database: "OMIM".to_string() },
            Evidence { id: "25326806".to_string(), database: "PubMed".to_string() },
        ],
    }
}

#[test]
fn a_record_gives_its_identifier_and_its_condition() {
    let b = lean_record();
    assert_eq!(b.biomarker_id(), "AN6628-4");
    assert_eq!(b.condition_id(), "DOID:10283");
}

#[test]
fn a_record_gives_its_evidence_and_components_in_order() {
    let b = lean_record();
    let top = b.evidence_sources();
    assert_eq!(top.len(), 2);
    assert_eq!(top[0].id(), "601518");
    assert_eq!(top[0].database(), "OMIM");
    assert_eq!(top[1].id(), "25326806");
    assert_eq!(top[1].database(), "PubMed");
    let components = b.biomarker_components();
    assert_eq!(components.len(), 2);
    assert_eq!(components[0].evidence_source().len(), 1);
    assert_eq!(components[0].evidence_source()[0].id(), "25326806");
    assert_eq!(components[0].specimen().len(), 1);
    assert_eq!(components[0].specimen()[0].loinc_code(), "2857-1");
    assert!(components[1].evidence_source().is_empty());
    assert!(components[1].specimen().is_empty());
}

#[test]
fn the_prelude_is_enough_to_score_a_record() {
    let b: MinBiomarker = lean_record();
    let (score, info) = calculate_score(&b, &Weights::with_defaults(None), None).unwrap();
    // one pubmed id, one other id and a loinc code
    assert_eq!(score, Decimal { units: 3_000_000 });
    assert_eq!(info.contributions.len(), 6);
}
