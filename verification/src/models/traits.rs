//! What scoring reads of a biomarker record, whatever its shape.

use vstd::prelude::*;

verus! {

/// A citation: its identifier and the name of the database it comes from.
pub struct EvidenceModel {
    pub id: Seq<char>,
    pub database: Seq<char>,
}

/// A specimen, of which only the LOINC code counts. An empty code means that
/// there is none.
pub struct SpecimenModel {
    pub loinc_code: Seq<char>,
}

/// A component: its specimens and its own evidence, each in listing order.
pub struct ComponentModel {
    pub specimen: Seq<SpecimenModel>,
    pub evidence_source: Seq<EvidenceModel>,
}

/// A biomarker record as scoring sees it.
pub struct BiomarkerModel {
    pub biomarker_id: Seq<char>,
    pub components: Seq<ComponentModel>,
    pub condition_id: Seq<char>,
    pub evidence_source: Seq<EvidenceModel>,
}

/// The evidence of every component, the components taken in listing order
/// and each one's evidence in its own order.
pub open spec fn component_evidence(components: Seq<ComponentModel>) -> Seq<EvidenceModel>
    decreases components.len(),
{
    if components.len() == 0 {
        Seq::empty()
    } else {
        component_evidence(components.drop_last()) + components.last().evidence_source
    }
}

/// The specimens of every component, the components taken in listing order
/// and each one's specimens in their own order.
pub open spec fn component_specimens(components: Seq<ComponentModel>) -> Seq<SpecimenModel>
    decreases components.len(),
{
    if components.len() == 0 {
        Seq::empty()
    } else {
        component_specimens(components.drop_last()) + components.last().specimen
    }
}

impl ComponentModel {
    /// Whether one of the specimens has a LOINC code.
    pub open spec fn has_loinc(self) -> bool {
        exists|j: int| 0 <= j < self.specimen.len() && (#[trigger] self.specimen[j]).loinc_code.len() > 0
    }
}

impl BiomarkerModel {
    /// All the evidence of the record: its own first, then that of its
    /// components.
    pub open spec fn evidence_stream(self) -> Seq<EvidenceModel> {
        self.evidence_source + component_evidence(self.components)
    }

    /// Whether a specimen of one of the components has a LOINC code.
    pub open spec fn has_loinc(self) -> bool {
        exists|i: int| 0 <= i < self.components.len() && (#[trigger] self.components[i]).has_loinc()
    }
}

/// A biomarker record, whatever else it holds.
pub trait BiomarkerData: View<V = BiomarkerModel> {
    type Component: ComponentData<Evidence = Self::Evidence>;

    type Evidence: EvidenceData;

    /// The record's identifier.
    fn biomarker_id(&self) -> (r: &str)
        ensures
            r@ == self@.biomarker_id,
    ;

    /// The record's components, in listing order.
    fn biomarker_components(&self) -> (r: &[Self::Component])
        ensures
            r@.len() == self@.components.len(),
            forall|i: int| 0 <= i < r@.len() ==> (#[trigger] r@[i])@ == self@.components[i],
    ;

    /// The identifier of the record's condition.
    fn condition_id(&self) -> (r: &str)
        ensures
            r@ == self@.condition_id,
    ;

    /// The record's own evidence, in listing order.
    fn evidence_sources(&self) -> (r: &[Self::Evidence])
        ensures
            r@.len() == self@.evidence_source.len(),
            forall|i: int| 0 <= i < r@.len() ==> (#[trigger] r@[i])@ == self@.evidence_source[i],
    ;
}

/// A component of a biomarker record.
pub trait ComponentData: View<V = ComponentModel> {
    type Evidence: EvidenceData;

    type Specimen: SpecimenData;

    /// The component's evidence, in listing order.
    fn evidence_source(&self) -> (r: &[Self::Evidence])
        ensures
            r@.len() == self@.evidence_source.len(),
            forall|i: int| 0 <= i < r@.len() ==> (#[trigger] r@[i])@ == self@.evidence_source[i],
    ;

    /// The component's specimens, in listing order.
    fn specimen(&self) -> (r: &[Self::Specimen])
        ensures
            r@.len() == self@.specimen.len(),
            forall|i: int| 0 <= i < r@.len() ==> (#[trigger] r@[i])@ == self@.specimen[i],
    ;
}

/// A citation.
pub trait EvidenceData: View<V = EvidenceModel> {
    /// The citation's identifier.
    fn id(&self) -> (r: &str)
        ensures
            r@ == self@.id,
    ;

    /// The name of the database that the citation comes from.
    fn database(&self) -> (r: &str)
        ensures
            r@ == self@.database,
    ;
}

/// A specimen.
pub trait SpecimenData: View<V = SpecimenModel> {
    /// The specimen's LOINC code; empty where it has none.
    fn loinc_code(&self) -> (r: &str)
        ensures
            r@ == self@.loinc_code,
    ;
}

} // verus!
