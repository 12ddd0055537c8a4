//! The dataset marketplace.
//!
//! Registers a dataset as an ordered, non-empty list of study references plus
//! a price, and validates every reference against the study registry at
//! registration time. Dataset records are immutable once written.

use vstd::prelude::*;

use crate::errors::Error;
use crate::registry::contains_study;
use crate::registry::StudyRecordView;
use crate::registry::StudyRegistry;

verus! {

/// One dataset as stored by the marketplace.
pub struct DatasetRecord {
    /// The caller-chosen unique key of this dataset.
    pub dataset_id: String,
    /// The studies bundled into this dataset, in order; never empty.
    pub study_ids: Vec<String>,
    /// Sale price, a non-negative integer with two implied decimal places.
    pub price: i128,
}

/// The mathematical image of a stored dataset record.
pub struct DatasetRecordView {
    pub dataset_id: Seq<char>,
    pub study_ids: Seq<Seq<char>>,
    pub price: int,
}

impl View for DatasetRecord {
    type V = DatasetRecordView;

    open spec fn view(&self) -> DatasetRecordView {
        DatasetRecordView {
            dataset_id: self.dataset_id@,
            study_ids: self.study_ids.deep_view(),
            price: self.price as int,
        }
    }
}

/// Some record in `s` already carries this dataset identifier.
pub open spec fn contains_dataset(s: Seq<DatasetRecordView>, dataset_id: Seq<char>) -> bool {
    exists|i: int| 0 <= i < s.len() && #[trigger] s[i].dataset_id == dataset_id
}

/// Every study reference resolves in the registry image `reg`.
pub open spec fn all_resolve(reg: Seq<StudyRecordView>, refs: Seq<Seq<char>>) -> bool {
    forall|i: int| 0 <= i < refs.len() ==> contains_study(reg, #[trigger] refs[i])
}

/// What `register_dataset` returns, given the images of the marketplace, the
/// registry and the arguments. The checks run in this order: duplicate
/// identifier, empty reference list, negative price, unresolved reference.
pub open spec fn register_dataset_outcome(
    datasets: Seq<DatasetRecordView>,
    reg: Seq<StudyRecordView>,
    dataset_id: Seq<char>,
    refs: Seq<Seq<char>>,
    price: int,
) -> Result<(), Error> {
    if contains_dataset(datasets, dataset_id) {
        Err(Error::DuplicateDataset)
    } else if refs.len() == 0 {
        Err(Error::EmptyStudyList)
    } else if price < 0 {
        Err(Error::InvalidPrice)
    } else if !all_resolve(reg, refs) {
        Err(Error::UnknownStudyReference)
    } else {
        Ok(())
    }
}

/// The marketplace's invariant: identifiers unique, reference lists non-empty,
/// prices non-negative.
pub open spec fn wf_marketplace(s: Seq<DatasetRecordView>) -> bool {
    &&& forall|i: int, j: int|
        0 <= i < j < s.len() ==> #[trigger] s[i].dataset_id != #[trigger] s[j].dataset_id
    &&& forall|i: int| 0 <= i < s.len() ==> #[trigger] s[i].study_ids.len() > 0
    &&& forall|i: int| 0 <= i < s.len() ==> #[trigger] s[i].price >= 0
}

/// An exact owned copy of a vector of strings.
fn clone_string_vec(v: &Vec<String>) -> (r: Vec<String>)
    ensures
        r@ =~= v@,
{
    let mut r: Vec<String> = Vec::new();
    let n = v.len();
    let mut i: usize = 0;
    while i < n
        invariant
            n == v.len(),
            i <= n,
            r@.len() == i,
            forall|j: int| 0 <= j < i ==> #[trigger] r@[j] == v@[j],
        decreases n - i,
    {
        r.push(v[i].clone());
        i += 1;
    }
    r
}

/// The dataset marketplace: an append-only table of dataset records.
pub struct DatasetMarketplace {
    datasets: Vec<DatasetRecord>,
}

impl View for DatasetMarketplace {
    type V = Seq<DatasetRecordView>;

    closed spec fn view(&self) -> Seq<DatasetRecordView> {
        self.datasets@.map(|i: int, r: DatasetRecord| r@)
    }
}

impl DatasetMarketplace {
    /// An empty marketplace.
    pub fn new() -> (r: DatasetMarketplace)
        ensures
            r@ =~= Seq::<DatasetRecordView>::empty(),
            wf_marketplace(r@),
    {
        DatasetMarketplace { datasets: Vec::new() }
    }

    /// How many datasets are registered.
    pub fn len(&self) -> (n: usize)
        ensures
            n == self@.len(),
    {
        self.datasets.len()
    }

    /// Registers a dataset.
    ///
    /// The dataset identifier must be fresh, the study reference list
    /// non-empty, the price non-negative, and every reference must resolve in
    /// `registry`; the first failed check decides the error and nothing is
    /// written. On success exactly one new record is appended.
    pub fn register_dataset(
        &mut self,
        registry: &StudyRegistry,
        dataset_id: String,
        study_ids: Vec<String>,
        price: i128,
    ) -> (r: Result<(), Error>)
        requires
            wf_marketplace(old(self)@),
        ensures
            wf_marketplace(final(self)@),
            r == register_dataset_outcome(
                old(self)@,
                registry@,
                dataset_id@,
                study_ids.deep_view(),
                price as int,
            ),
            r is Ok ==> final(self)@ =~= old(self)@.push(
                DatasetRecordView {
                    dataset_id: dataset_id@,
                    study_ids: study_ids.deep_view(),
                    price: price as int,
                },
            ),
            r is Err ==> *final(self) == *old(self),
    {
        let n = self.datasets.len();
        let mut i: usize = 0;
        while i < n
            invariant
                *self == *old(self),
                wf_marketplace(self@),
                n == self.datasets.len(),
                i <= n,
                self@ == self.datasets@.map(|k: int, r: DatasetRecord| r@),
                forall|j: int| 0 <= j < i ==> #[trigger] self@[j].dataset_id != dataset_id@,
            decreases n - i,
        {
            if self.datasets[i].dataset_id.eq(&dataset_id) {
                assert(self@[i as int].dataset_id == dataset_id@);
                return Err(Error::DuplicateDataset);
            }
            i += 1;
        }
        assert(!contains_dataset(self@, dataset_id@));
        if study_ids.len() == 0 {
            return Err(Error::EmptyStudyList);
        }
        if price < 0 {
            return Err(Error::InvalidPrice);
        }
        let m = study_ids.len();
        let mut k: usize = 0;
        while k < m
            invariant
                *self == *old(self),
                wf_marketplace(self@),
                !contains_dataset(self@, dataset_id@),
                m == study_ids.len(),
                m > 0,
                price >= 0,
                k <= m,
                forall|j: int|
                    0 <= j < k ==> contains_study(registry@, #[trigger] study_ids.deep_view()[j]),
            decreases m - k,
        {
            match registry.get_study(&study_ids[k]) {
                Ok(_) => {
                    assert(study_ids.deep_view()[k as int] == study_ids@[k as int]@);
                },
                Err(_) => {
                    assert(!contains_study(registry@, study_ids.deep_view()[k as int]));
                    return Err(Error::UnknownStudyReference);
                },
            }
            k += 1;
        }
        assert(all_resolve(registry@, study_ids.deep_view()));
        let record = DatasetRecord { dataset_id, study_ids, price };
        let ghost prior = self@;
        let ghost rec_view = record@;
        self.datasets.push(record);
        proof {
            assert(self@ =~= prior.push(rec_view));
        }
        Ok(())
    }

    /// Looks a dataset up by its identifier.
    ///
    /// Returns a copy of the one record carrying `dataset_id`, or `NotFound`
    /// when no record does.
    pub fn get_dataset(&self, dataset_id: &String) -> (r: Result<DatasetRecord, Error>)
        ensures
            match r {
                Ok(rec) => contains_dataset(self@, dataset_id@) && rec@.dataset_id == dataset_id@
                    && exists|i: int| 0 <= i < self@.len() && #[trigger] self@[i] == rec@,
                Err(e) => e == Error::NotFound && !contains_dataset(self@, dataset_id@),
            },
    {
        let n = self.datasets.len();
        let mut i: usize = 0;
        while i < n
            invariant
                n == self.datasets.len(),
                i <= n,
                self@ == self.datasets@.map(|k: int, r: DatasetRecord| r@),
                forall|j: int| 0 <= j < i ==> #[trigger] self@[j].dataset_id != dataset_id@,
            decreases n - i,
        {
            let rec = &self.datasets[i];
            if rec.dataset_id.eq(dataset_id) {
                assert(self@[i as int].dataset_id == dataset_id@);
                let copy = DatasetRecord {
                    dataset_id: rec.dataset_id.clone(),
                    study_ids: clone_string_vec(&rec.study_ids),
                    price: rec.price,
                };
                assert(copy@ == self@[i as int]);
                return Ok(copy);
            }
            i += 1;
        }
        Err(Error::NotFound)
    }
}

} // verus!
