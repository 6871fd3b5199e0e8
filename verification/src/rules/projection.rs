//! The values that a field of a record holds.

use vstd::prelude::*;
use crate::models::traits::{
    component_evidence, component_specimens, BiomarkerData, BiomarkerModel, ComponentData,
    EvidenceData, EvidenceModel, SpecimenData, SpecimenModel,
};
use crate::rules::schema::Field;
use crate::text::texts;

verus! {

/// The values that a field of a record holds, in the record's order. Nothing
/// is left out, neither a value that occurs twice nor an empty one.
pub open spec fn project(record: BiomarkerModel, field: Field) -> Seq<Seq<char>> {
    match field {
        Field::BiomarkerID => seq![record.biomarker_id],
        Field::ComponentEvidenceSourceDatabase => component_evidence(
            record.components,
        ).map_values(|e: EvidenceModel| e.database),
        Field::ConditionID => seq![record.condition_id],
        Field::TopEvidenceSourceDatabase => record.evidence_source.map_values(
            |e: EvidenceModel| e.database,
        ),
        Field::LoincCode => component_specimens(record.components).map_values(
            |s: SpecimenModel| s.loinc_code,
        ),
    }
}

/// Appends the database name of each piece of evidence.
fn push_databases<E: EvidenceData>(evidence: &[E], names: &mut Vec<String>)
    ensures
        texts(final(names)@) == texts(old(names)@) + Seq::new(
            evidence@.len(),
            |i: int| evidence@[i]@.database,
        ),
{
    let ghost before = texts(names@);
    let mut i: usize = 0;
    while i < evidence.len()
        invariant
            i <= evidence.len(),
            texts(names@) == before + Seq::new(i as nat, |k: int| evidence@[k]@.database),
        decreases evidence.len() - i,
    {
        let ghost so_far = texts(names@);
        let name: String = evidence[i].database().to_owned();
        names.push(name);
        assert(so_far.push(evidence@[i as int]@.database) =~= before + Seq::new(
            (i + 1) as nat,
            |k: int| evidence@[k]@.database,
        ));
        i += 1;
    }
}

/// Appends the LOINC code of each specimen.
fn push_loinc_codes<S: SpecimenData>(specimens: &[S], codes: &mut Vec<String>)
    ensures
        texts(final(codes)@) == texts(old(codes)@) + Seq::new(
            specimens@.len(),
            |i: int| specimens@[i]@.loinc_code,
        ),
{
    let ghost before = texts(codes@);
    let mut i: usize = 0;
    while i < specimens.len()
        invariant
            i <= specimens.len(),
            texts(codes@) == before + Seq::new(i as nat, |k: int| specimens@[k]@.loinc_code),
        decreases specimens.len() - i,
    {
        let ghost so_far = texts(codes@);
        let code: String = specimens[i].loinc_code().to_owned();
        codes.push(code);
        assert(so_far.push(specimens@[i as int]@.loinc_code) =~= before + Seq::new(
            (i + 1) as nat,
            |k: int| specimens@[k]@.loinc_code,
        ));
        i += 1;
    }
}

/// The values that a field of a record holds.
pub fn match_field<B: BiomarkerData>(biomarker: &B, field: &Field) -> (r: Vec<String>)
    ensures
        texts(r@) == project(biomarker@, *field),
{
    let mut values: Vec<String> = Vec::new();
    match field {
        Field::BiomarkerID => {
            values.push(biomarker.biomarker_id().to_owned());
        },
        Field::ConditionID => {
            values.push(biomarker.condition_id().to_owned());
        },
        Field::TopEvidenceSourceDatabase => {
            push_databases(biomarker.evidence_sources(), &mut values);
        },
        Field::ComponentEvidenceSourceDatabase => {
            let components = biomarker.biomarker_components();
            let mut i: usize = 0;
            while i < components.len()
                invariant
                    i <= components.len(),
                    components@.len() == biomarker@.components.len(),
                    forall|k: int|
                        0 <= k < components@.len() ==> (#[trigger] components@[k])@
                            == biomarker@.components[k],
                    texts(values@) == component_evidence(
                        biomarker@.components.take(i as int),
                    ).map_values(|e: EvidenceModel| e.database),
                decreases components.len() - i,
            {
                let own = components[i].evidence_source();
                push_databases(own, &mut values);
                assert(biomarker@.components.take(i + 1).drop_last() =~= biomarker@.components.take(
                    i as int,
                ));
                i += 1;
            }
            assert(biomarker@.components.take(i as int) =~= biomarker@.components);
        },
        Field::LoincCode => {
            let components = biomarker.biomarker_components();
            let mut i: usize = 0;
            while i < components.len()
                invariant
                    i <= components.len(),
                    components@.len() == biomarker@.components.len(),
                    forall|k: int|
                        0 <= k < components@.len() ==> (#[trigger] components@[k])@
                            == biomarker@.components[k],
                    texts(values@) == component_specimens(
                        biomarker@.components.take(i as int),
                    ).map_values(|s: SpecimenModel| s.loinc_code),
                decreases components.len() - i,
            {
                let own = components[i].specimen();
                push_loinc_codes(own, &mut values);
                assert(biomarker@.components.take(i + 1).drop_last() =~= biomarker@.components.take(
                    i as int,
                ));
                i += 1;
            }
            assert(biomarker@.components.take(i as int) =~= biomarker@.components);
        },
    }
    values
}

} // verus!
