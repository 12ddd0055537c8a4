//! The study registry.
//!
//! Records study submissions and enforces at most one submission per
//! `(contributor, cycle_timestamp)` pair. Records are created only by
//! `register_study` and never mutated or deleted; identifiers are assigned
//! from a counter, so they are unique across all cycles and contributors.

use vstd::prelude::*;

use crate::errors::Error;
use crate::ids::lemma_study_id_seq_injective;
use crate::ids::make_study_id;
use crate::ids::study_id_seq;

verus! {

/// One study submission as stored by the registry.
pub struct StudyRecord {
    /// The registry-generated unique key of this record.
    pub study_id: String,
    /// Opaque account identifier of the submitting contributor.
    pub contributor: String,
    /// Opaque proof blob; carried, never validated here.
    pub zk_proof: String,
    /// Opaque attestation descriptor; carried, never validated here.
    pub attestation: String,
    /// Content hash of the underlying data.
    pub dataset_hash: String,
    /// The reporting cycle this submission belongs to.
    pub cycle_timestamp: i64,
}

/// The mathematical image of a stored study record.
pub struct StudyRecordView {
    pub study_id: Seq<char>,
    pub contributor: Seq<char>,
    pub zk_proof: Seq<char>,
    pub attestation: Seq<char>,
    pub dataset_hash: Seq<char>,
    pub cycle_timestamp: int,
}

impl View for StudyRecord {
    type V = StudyRecordView;

    open spec fn view(&self) -> StudyRecordView {
        StudyRecordView {
            study_id: self.study_id@,
            contributor: self.contributor@,
            zk_proof: self.zk_proof@,
            attestation: self.attestation@,
            dataset_hash: self.dataset_hash@,
            cycle_timestamp: self.cycle_timestamp as int,
        }
    }
}

/// Some record in `s` already carries this `(contributor, cycle)` pair.
pub open spec fn has_pair(s: Seq<StudyRecordView>, contributor: Seq<char>, cycle: int) -> bool {
    exists|i: int|
        0 <= i < s.len() && #[trigger] s[i].contributor == contributor && s[i].cycle_timestamp
            == cycle
}

/// Some record in `s` carries this study identifier.
pub open spec fn contains_study(s: Seq<StudyRecordView>, study_id: Seq<char>) -> bool {
    exists|i: int| 0 <= i < s.len() && #[trigger] s[i].study_id == study_id
}

/// Records are numbered in registration order: the `i`-th record carries the
/// canonical identifier of counter `i + 1`.
pub open spec fn ids_canonical(s: Seq<StudyRecordView>) -> bool {
    forall|i: int| 0 <= i < s.len() ==> #[trigger] s[i].study_id == study_id_seq((i + 1) as nat)
}

/// No two records share a `(contributor, cycle_timestamp)` pair.
pub open spec fn pairs_distinct(s: Seq<StudyRecordView>) -> bool {
    forall|i: int, j: int|
        0 <= i < j < s.len() ==> !(#[trigger] s[i].contributor == #[trigger] s[j].contributor
            && s[i].cycle_timestamp == s[j].cycle_timestamp)
}

/// The registry's invariant over its mathematical image.
pub open spec fn wf_registry(s: Seq<StudyRecordView>) -> bool {
    ids_canonical(s) && pairs_distinct(s)
}

/// In a well-formed registry any two records have distinct identifiers:
/// identifier generation is collision-free.
pub proof fn lemma_registry_ids_distinct(s: Seq<StudyRecordView>, i: int, j: int)
    requires
        wf_registry(s),
        0 <= i < s.len(),
        0 <= j < s.len(),
        i != j,
    ensures
        s[i].study_id != s[j].study_id,
{
    if s[i].study_id == s[j].study_id {
        lemma_study_id_seq_injective((i + 1) as nat, (j + 1) as nat);
    }
}

/// A freshly appended record with the next canonical identifier is
/// retrievable: its identifier resolves in the extended registry, and every
/// record carrying that identifier is the new record itself.
pub proof fn lemma_fresh_study_retrievable(s: Seq<StudyRecordView>, rec: StudyRecordView)
    requires
        wf_registry(s),
        rec.study_id == study_id_seq((s.len() + 1) as nat),
    ensures
        contains_study(s.push(rec), rec.study_id),
        forall|i: int|
            0 <= i < s.push(rec).len() && #[trigger] s.push(rec)[i].study_id == rec.study_id
                ==> s.push(rec)[i] == rec,
{
    let t = s.push(rec);
    assert(t[s.len() as int] == rec);
    assert forall|i: int|
        0 <= i < t.len() && #[trigger] t[i].study_id == rec.study_id implies t[i] == rec by {
        if i < s.len() {
            assert(t[i] == s[i]);
            lemma_study_id_seq_injective((i + 1) as nat, (s.len() + 1) as nat);
        }
    }
}

/// The study registry: an append-only table of study records.
pub struct StudyRegistry {
    studies: Vec<StudyRecord>,
}

impl View for StudyRegistry {
    type V = Seq<StudyRecordView>;

    closed spec fn view(&self) -> Seq<StudyRecordView> {
        self.studies@.map(|i: int, r: StudyRecord| r@)
    }
}

impl StudyRegistry {
    /// An empty registry.
    pub fn new() -> (r: StudyRegistry)
        ensures
            r@ =~= Seq::<StudyRecordView>::empty(),
            wf_registry(r@),
    {
        StudyRegistry { studies: Vec::new() }
    }

    /// How many studies are registered.
    pub fn len(&self) -> (n: usize)
        ensures
            n == self@.len(),
    {
        self.studies.len()
    }

    /// Records a study submission.
    ///
    /// If some record already carries the same `(contributor, cycle_timestamp)`
    /// pair the call fails with `DuplicateCycleSubmission` and writes nothing;
    /// otherwise exactly one new record is appended, under a fresh generated
    /// identifier which the call returns.
    pub fn register_study(
        &mut self,
        contributor: String,
        zk_proof: String,
        attestation: String,
        dataset_hash: String,
        cycle_timestamp: i64,
    ) -> (r: Result<String, Error>)
        requires
            wf_registry(old(self)@),
            old(self)@.len() < u64::MAX,
        ensures
            wf_registry(final(self)@),
            match r {
                Ok(id) => !has_pair(old(self)@, contributor@, cycle_timestamp as int) && id@
                    == study_id_seq((old(self)@.len() + 1) as nat) && final(self)@ =~= old(
                    self,
                )@.push(
                    StudyRecordView {
                        study_id: id@,
                        contributor: contributor@,
                        zk_proof: zk_proof@,
                        attestation: attestation@,
                        dataset_hash: dataset_hash@,
                        cycle_timestamp: cycle_timestamp as int,
                    },
                ),
                Err(e) => e == Error::DuplicateCycleSubmission && has_pair(
                    old(self)@,
                    contributor@,
                    cycle_timestamp as int,
                ) && *final(self) == *old(self),
            },
    {
        let n = self.studies.len();
        let mut i: usize = 0;
        while i < n
            invariant
                *self == *old(self),
                wf_registry(self@),
                n == self.studies.len(),
                i <= n,
                self@ == self.studies@.map(|k: int, r: StudyRecord| r@),
                forall|j: int|
                    0 <= j < i ==> !(#[trigger] self@[j].contributor == contributor@
                        && self@[j].cycle_timestamp == cycle_timestamp as int),
            decreases n - i,
        {
            let rec = &self.studies[i];
            if rec.contributor.eq(&contributor) && rec.cycle_timestamp == cycle_timestamp {
                assert(self@[i as int].contributor == contributor@);
                return Err(Error::DuplicateCycleSubmission);
            }
            i += 1;
        }
        assert(!has_pair(self@, contributor@, cycle_timestamp as int));
        let counter = n as u64 + 1;
        let id = make_study_id(counter);
        let stored_id = id.clone();
        let record = StudyRecord {
            study_id: stored_id,
            contributor,
            zk_proof,
            attestation,
            dataset_hash,
            cycle_timestamp,
        };
        let ghost prior = self@;
        let ghost rec_view = record@;
        self.studies.push(record);
        proof {
            assert(self@ =~= prior.push(rec_view));
            assert(ids_canonical(self@));
            assert(pairs_distinct(self@));
        }
        Ok(id)
    }

    /// Looks a study up by its identifier.
    ///
    /// Returns a copy of the one record carrying `study_id`, or `NotFound`
    /// when no record does.
    pub fn get_study(&self, study_id: &String) -> (r: Result<StudyRecord, Error>)
        ensures
            match r {
                Ok(rec) => contains_study(self@, study_id@) && rec@.study_id == study_id@ && exists|
                    i: int,
                |
                    0 <= i < self@.len() && #[trigger] self@[i] == rec@,
                Err(e) => e == Error::NotFound && !contains_study(self@, study_id@),
            },
    {
        let n = self.studies.len();
        let mut i: usize = 0;
        while i < n
            invariant
                n == self.studies.len(),
                i <= n,
                self@ == self.studies@.map(|k: int, r: StudyRecord| r@),
                forall|j: int| 0 <= j < i ==> #[trigger] self@[j].study_id != study_id@,
            decreases n - i,
        {
            let rec = &self.studies[i];
            if rec.study_id.eq(study_id) {
                assert(self@[i as int].study_id == study_id@);
                let copy = StudyRecord {
                    study_id: rec.study_id.clone(),
                    contributor: rec.contributor.clone(),
                    zk_proof: rec.zk_proof.clone(),
                    attestation: rec.attestation.clone(),
                    dataset_hash: rec.dataset_hash.clone(),
                    cycle_timestamp: rec.cycle_timestamp,
                };
                assert(copy@ == self@[i as int]);
                return Ok(copy);
            }
            i += 1;
        }
        Err(Error::NotFound)
    }
}

} // verus!
