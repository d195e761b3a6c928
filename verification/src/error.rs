//! Error taxonomy of the workflow core.
//!
//! Malformed identity or date fields are rejected at submission with a
//! [`ValidationError`] before anything enters the store. Adding a stage
//! correlation whose prerequisite stage is missing is an
//! [`InternalConsistencyFault`]: a bug in the caller, never silently
//! repaired. A notification for a job this core does not track is not an
//! error at all; the dispatcher ignores it.

use vstd::prelude::*;

verus! {

/// A submitted value failed validation and was rejected before entering
/// the store.
#[derive(Clone, Copy, Debug, PartialEq, Eq, Structural)]
pub enum ValidationError {
    /// The accession number is empty.
    EmptyAccessionNumber,
    /// The date is not eight digits after normalization.
    MalformedDicomDate,
}

/// A later-stage job correlation was requested while the prerequisite
/// stage's correlation is missing, or a retrieve job completed for a study
/// the store never recorded.
#[derive(Clone, Copy, Debug, PartialEq, Eq, Structural)]
pub struct InternalConsistencyFault;

/// The host is not configured with the collaborator the next step needs.
#[derive(Clone, Copy, Debug, PartialEq, Eq, Structural)]
pub enum ConfigurationError {
    /// No remote modality is configured, so nothing can be queried.
    NoModalities,
    /// No peer is configured, so nothing can be pushed.
    NoPeers,
}

} // verus!
