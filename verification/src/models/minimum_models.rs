//! The lean record types: exactly the fields that scoring reads.

use vstd::prelude::*;
use super::traits::{
    BiomarkerData, BiomarkerModel, ComponentData, ComponentModel, EvidenceData, EvidenceModel,
    SpecimenData, SpecimenModel,
};

verus! {

/// A biomarker record.
#[derive(Debug)]
pub struct Biomarker {
    pub biomarker_id: String,
    pub biomarker_component: Vec<Component>,
    pub condition: Condition,
    pub evidence_source: Vec<Evidence>,
}

/// A component of a record, with its specimens and its own evidence.
#[derive(Debug)]
pub struct Component {
    pub specimen: Vec<Specimen>,
    pub evidence_source: Vec<Evidence>,
}

/// The condition that a record is a marker of.
#[derive(Debug)]
pub struct Condition {
    pub id: String,
}

/// A citation: an identifier within a source database.
#[derive(Debug)]
pub struct Evidence {
    pub id: String,
    pub database: String,
}

/// A specimen. An empty LOINC code means that there is none.
#[derive(Debug)]
pub struct Specimen {
    pub id: String,
    pub loinc_code: String,
}

impl View for Evidence {
    type V = EvidenceModel;

    open spec fn view(&self) -> EvidenceModel {
        EvidenceModel { id: self.id@, database: self.database@ }
    }
}

impl View for Specimen {
    type V = SpecimenModel;

    open spec fn view(&self) -> SpecimenModel {
        SpecimenModel { loinc_code: self.loinc_code@ }
    }
}

impl View for Component {
    type V = ComponentModel;

    open spec fn view(&self) -> ComponentModel {
        ComponentModel {
            specimen: self.specimen@.map_values(|s: Specimen| s@),
            evidence_source: self.evidence_source@.map_values(|e: Evidence| e@),
        }
    }
}

impl View for Biomarker {
    type V = BiomarkerModel;

    open spec fn view(&self) -> BiomarkerModel {
        BiomarkerModel {
            biomarker_id: self.biomarker_id@,
            components: self.biomarker_component@.map_values(|c: Component| c@),
            condition_id: self.condition.id@,
            evidence_source: self.evidence_source@.map_values(|e: Evidence| e@),
        }
    }
}

impl BiomarkerData for Biomarker {
    type Component = Component;

    type Evidence = Evidence;

    fn biomarker_id(&self) -> (r: &str) {
        self.biomarker_id.as_str()
    }

    fn biomarker_components(&self) -> (r: &[Component]) {
        self.biomarker_component.as_slice()
    }

    fn condition_id(&self) -> (r: &str) {
        self.condition.id.as_str()
    }

    fn evidence_sources(&self) -> (r: &[Evidence]) {
        self.evidence_source.as_slice()
    }
}

impl ComponentData for Component {
    type Evidence = Evidence;

    type Specimen = Specimen;

    fn evidence_source(&self) -> (r: &[Evidence]) {
        self.evidence_source.as_slice()
    }

    fn specimen(&self) -> (r: &[Specimen]) {
        self.specimen.as_slice()
    }
}

impl EvidenceData for Evidence {
    fn id(&self) -> (r: &str) {
        self.id.as_str()
    }

    fn database(&self) -> (r: &str) {
        self.database.as_str()
    }
}

impl SpecimenData for Specimen {
    fn loinc_code(&self) -> (r: &str) {
        self.loinc_code.as_str()
    }
}

} // verus!
