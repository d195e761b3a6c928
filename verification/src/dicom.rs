//! DICOM resource detail responses from the imaging server, generic over
//! the set of requested tags.

use crate::ids::{InstanceId, PatientId, SeriesId, StudyId};
use vstd::prelude::*;

verus! {

/// A type standing for the requested-tags field of a resource detail
/// response: it names the DICOM tags the host must ask the server for.
pub trait RequestedTags {
    /// DICOM tag names of this type.
    fn names() -> Vec<&'static str>;
}

/// Patient detail response.
pub struct Patient<T> {
    pub id: PatientId,
    pub requested_tags: T,
}

/// Study detail response.
pub struct Study<T> {
    pub id: StudyId,
    pub requested_tags: T,
}

/// Series completion status.
#[derive(Clone, Copy, Debug, PartialEq, Eq, Structural, Hash)]
pub enum SeriesStatus {
    Unknown,
    Missing,
    Inconsistent,
    Complete,
}

/// Series detail response.
pub struct Series<T> {
    pub expected_number_of_instances: Option<usize>,
    pub id: SeriesId,
    pub instances: Vec<InstanceId>,
    pub is_stable: bool,
    pub labels: Vec<String>,
    pub last_update: String,
    pub parent_study: StudyId,
    pub status: SeriesStatus,
    pub requested_tags: T,
}

/// Instance detail response.
pub struct Instance<T> {
    pub id: InstanceId,
    pub requested_tags: T,
}

/// Marker trait for DICOM resources stored by the imaging server.
pub trait DicomResource<T> {

}

impl<T> DicomResource<T> for Patient<T> {

}

impl<T> DicomResource<T> for Study<T> {

}

impl<T> DicomResource<T> for Series<T> {

}

impl<T> DicomResource<T> for Instance<T> {

}

} // verus!
