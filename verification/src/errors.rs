//! The error kinds shared by the registry, the marketplace and the splitter.
//!
//! Every fallible operation returns an explicit `Result` with one of these
//! kinds; a precondition violation aborts the whole invocation with no state
//! mutation and no emitted signals.

use vstd::prelude::*;

verus! {

/// Why an invocation was rejected.
#[derive(Clone, Copy, Debug, PartialEq, Eq, Structural)]
pub enum Error {
    /// No record carries the requested identifier.
    NotFound,
    /// The contributor already submitted a study in this cycle.
    DuplicateCycleSubmission,
    /// A dataset with this identifier is already registered.
    DuplicateDataset,
    /// A dataset must bundle at least one study reference.
    EmptyStudyList,
    /// A dataset price must be non-negative.
    InvalidPrice,
    /// A bundled study reference does not resolve in the registry.
    UnknownStudyReference,
    /// Revenue cannot be split before a treasury is configured.
    TreasuryNotConfigured,
    /// Revenue cannot be split over an empty list of study references.
    EmptyContributorList,
}

} // verus!
