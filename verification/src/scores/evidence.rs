//! The evidence of a record, classified and counted.

use vstd::prelude::*;
use crate::models::traits::{
    component_evidence, BiomarkerData, ComponentData, EvidenceData, EvidenceModel,
};
use crate::text::{lowercased, same_text, trimmed};
use crate::text_set::TextSet;

verus! {

/// An item of the evidence stream, classified.
#[derive(Debug, PartialEq, Eq)]
pub struct Citation {
    /// Whether it comes from PubMed.
    pub pubmed: bool,
    /// Its identifier.
    pub id: String,
}

/// A classified item as plain values.
pub struct CitationModel {
    pub pubmed: bool,
    pub id: Seq<char>,
}

impl View for Citation {
    type V = CitationModel;

    open spec fn view(&self) -> CitationModel {
        CitationModel { pubmed: self.pubmed, id: self.id@ }
    }
}

/// The items as plain values.
pub open spec fn citation_models(stream: Seq<Citation>) -> Seq<CitationModel> {
    stream.map_values(|c: Citation| c@)
}

/// Whether a database name means PubMed: lower-cased and trimmed, it reads
/// `pubmed`.
pub open spec fn is_pubmed(database: Seq<char>) -> bool {
    trimmed(lowercased(database)) == "pubmed"@
}

/// The classified form of a piece of evidence.
pub open spec fn citation_of(evidence: EvidenceModel) -> CitationModel {
    CitationModel { pubmed: is_pubmed(evidence.database), id: evidence.id }
}

/// The classified form of each piece of evidence.
pub open spec fn citations_of(evidence: Seq<EvidenceModel>) -> Seq<CitationModel> {
    evidence.map_values(|e: EvidenceModel| citation_of(e))
}

/// The identifiers that occur in the stream among the PubMed items
/// (`pubmed`) or among the others (`!pubmed`).
pub open spec fn unique_ids(stream: Seq<CitationModel>, pubmed: bool) -> Set<Seq<char>>
    decreases stream.len(),
{
    if stream.len() == 0 {
        Set::empty()
    } else if stream.last().pubmed == pubmed {
        unique_ids(stream.drop_last(), pubmed).insert(stream.last().id)
    } else {
        unique_ids(stream.drop_last(), pubmed)
    }
}

/// The identifiers of a category are those of its items in the stream.
pub proof fn lemma_unique_ids_are_those_met(stream: Seq<CitationModel>, pubmed: bool)
    ensures
        unique_ids(stream, pubmed).finite(),
        forall|id: Seq<char>|
            unique_ids(stream, pubmed).contains(id) <==> stream.contains(
                CitationModel { pubmed, id },
            ),
    decreases stream.len(),
{
    if stream.len() > 0 {
        let rest = stream.drop_last();
        lemma_unique_ids_are_those_met(rest, pubmed);
        assert forall|id: Seq<char>|
            unique_ids(stream, pubmed).contains(id) <==> stream.contains(
                CitationModel { pubmed, id },
            ) by {
            let item = CitationModel { pubmed, id };
            if rest.contains(item) {
                let i = choose|i: int| 0 <= i < rest.len() && rest[i] == item;
            }
            if stream.contains(item) {
                let i = choose|i: int| 0 <= i < stream.len() && stream[i] == item;
                if i < rest.len() {
                    assert(rest[i] == item);
                }
            }
        }
    }
}

/// How often the weight of a first item fires among `unique` distinct ones.
pub open spec fn first_count(unique: nat) -> nat {
    if unique >= 1 {
        1
    } else {
        0
    }
}

/// How often the weight of a later item fires among `unique` distinct ones:
/// once for each but the first.
pub open spec fn later_count(unique: nat) -> nat {
    if unique >= 1 {
        (unique - 1) as nat
    } else {
        0
    }
}

/// How often the weight of a later item fires among `unique` distinct ones
/// where only the first `limit` of them count.
pub open spec fn later_count_within(unique: nat, limit: nat) -> nat {
    if unique <= limit {
        later_count(unique)
    } else {
        later_count(limit)
    }
}

/// Past the limit a further distinct PubMed item fires nothing; up to the
/// limit each one but the first fires once.
pub proof fn lemma_limit_stops_other_pmid(unique: nat, limit: nat)
    ensures
        unique >= limit ==> later_count_within(unique + 1, limit) == later_count_within(
            unique,
            limit,
        ),
        1 <= unique < limit ==> later_count_within(unique + 1, limit) == later_count_within(
            unique,
            limit,
        ) + 1,
        later_count_within(unique, limit) <= later_count(limit),
{
}

/// How often each evidence weight fired.
#[derive(Clone, Copy, Debug, PartialEq, Eq, Structural)]
pub struct EvidenceTally {
    pub first_pmid: usize,
    pub other_pmid: usize,
    pub first_source: usize,
    pub other_source: usize,
}

impl EvidenceTally {
    /// Whether this is the tally of `stream` under the limit `pmid_limit`.
    pub open spec fn counts(self, stream: Seq<CitationModel>, pmid_limit: nat) -> bool {
        let pmids = unique_ids(stream, true).len();
        let sources = unique_ids(stream, false).len();
        &&& self.first_pmid == first_count(pmids)
        &&& self.other_pmid == later_count_within(pmids, pmid_limit)
        &&& self.first_source == first_count(sources)
        &&& self.other_source == later_count(sources)
    }
}

/// Whether a database name means PubMed.
pub fn is_pubmed_database(database: &str) -> (r: bool)
    ensures
        r == is_pubmed(database@),
{
    let lowered: String = database.to_lowercase();
    same_text(lowered.as_str().trim(), "pubmed")
}

/// Appends the classified form of each piece of evidence to the stream.
fn classify_into<E: EvidenceData>(evidence: &[E], stream: &mut Vec<Citation>)
    ensures
        citation_models(final(stream)@) == citation_models(old(stream)@) + Seq::new(
            evidence@.len(),
            |i: int| citation_of(evidence@[i]@),
        ),
{
    let ghost before = citation_models(stream@);
    let mut i: usize = 0;
    while i < evidence.len()
        invariant
            i <= evidence.len(),
            citation_models(stream@) == before + Seq::new(
                i as nat,
                |k: int| citation_of(evidence@[k]@),
            ),
        decreases evidence.len() - i,
    {
        let ghost so_far = citation_models(stream@);
        let item = &evidence[i];
        let citation = Citation {
            pubmed: is_pubmed_database(item.database()),
            id: item.id().to_owned(),
        };
        stream.push(citation);
        assert(so_far.push(citation_of(item@)) =~= before + Seq::new(
            (i + 1) as nat,
            |k: int| citation_of(evidence@[k]@),
        ));
        i += 1;
    }
}

/// The evidence stream of a record, classified: the record's own evidence
/// first, then that of each component.
pub fn evidence_stream<B: BiomarkerData>(biomarker: &B) -> (r: Vec<Citation>)
    ensures
        citation_models(r@) == citations_of(biomarker@.evidence_stream()),
{
    let mut stream: Vec<Citation> = Vec::new();
    let top = biomarker.evidence_sources();
    classify_into(top, &mut stream);
    let components = biomarker.biomarker_components();
    let mut i: usize = 0;
    while i < components.len()
        invariant
            i <= components.len(),
            components@.len() == biomarker@.components.len(),
            forall|k: int|
                0 <= k < components@.len() ==> (#[trigger] components@[k])@
                    == biomarker@.components[k],
            citation_models(stream@) == citations_of(
                biomarker@.evidence_source + component_evidence(
                    biomarker@.components.take(i as int),
                ),
            ),
        decreases components.len() - i,
    {
        let own = components[i].evidence_source();
        classify_into(own, &mut stream);
        assert(biomarker@.components.take(i + 1).drop_last() =~= biomarker@.components.take(
            i as int,
        ));
        i += 1;
    }
    assert(biomarker@.components.take(i as int) =~= biomarker@.components);
    stream
}

/// Counts how often each evidence weight fires on a stream. An identifier
/// that was met before in its own category fires nothing. Among the PubMed
/// items the first new one fires `first_pmid` and each later new one
/// `other_pmid`, as long as no more than `pmid_limit` distinct ones have been
/// met; among the others the first new one fires `first_source` and each
/// later new one `other_source`.
pub fn tally_evidence(stream: &Vec<Citation>, pmid_limit: usize) -> (r: EvidenceTally)
    ensures
        r.counts(citation_models(stream@), pmid_limit as nat),
        r.other_pmid + r.other_source <= stream.len(),
{
    let ghost models = citation_models(stream@);
    let mut pmids = TextSet::new();
    let mut sources = TextSet::new();
    let mut tally = EvidenceTally { first_pmid: 0, other_pmid: 0, first_source: 0, other_source: 0 };
    let mut i: usize = 0;
    while i < stream.len()
        invariant
            i <= stream.len(),
            models == citation_models(stream@),
            pmids@ == unique_ids(models.take(i as int), true),
            sources@ == unique_ids(models.take(i as int), false),
            pmids@.finite(),
            sources@.finite(),
            pmids@.len() + sources@.len() <= i,
            tally.counts(models.take(i as int), pmid_limit as nat),
        decreases stream.len() - i,
    {
        assert(models.take(i + 1).drop_last() =~= models.take(i as int));
        let item = &stream[i];
        if item.pubmed {
            if pmids.insert(item.id.clone()) {
                let met: usize = pmids.len();
                if met == 1 {
                    tally.first_pmid = 1;
                } else if met <= pmid_limit {
                    tally.other_pmid = tally.other_pmid + 1;
                }
            }
        } else {
            if sources.insert(item.id.clone()) {
                let met: usize = sources.len();
                if met == 1 {
                    tally.first_source = 1;
                } else {
                    tally.other_source = tally.other_source + 1;
                }
            }
        }
        i += 1;
    }
    assert(models.take(i as int) =~= models);
    tally
}

} // verus!
