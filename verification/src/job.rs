//! Job detail data reported by the imaging server when a job is looked up.

use crate::ids::{JobId, PatientId, SeriesId, StudyId};
use vstd::prelude::*;

verus! {

/// State of an asynchronous job.
#[derive(Clone, Copy, Debug, PartialEq, Eq, Structural, Hash)]
pub enum JobState {
    /// The job is waiting to be executed.
    Pending,
    /// The job is being executed.
    Running,
    /// The job has finished with success.
    Success,
    /// The job has finished with failure.
    Failure,
    /// The job has been paused.
    Paused,
    /// The job has failed internally and is scheduled for re-submission.
    Retry,
}

/// DICOM level of a query or retrieve operation.
#[derive(Clone, Copy, Debug, PartialEq, Eq, Structural, Hash)]
pub enum QueryRetrieveLevel {
    Study,
    Series,
    Image,
}

/// The query of a MOVE-SCU (retrieve) job, one entry per requested level.
pub enum MoveScuJobQuery {
    Series {
        patient_id: String,
        accession_number: String,
        study_instance_uid: String,
        series_instance_uid: String,
    },
    Study { patient_id: String, accession_number: String, study_instance_uid: String },
    Patient { patient_id: String },
}

impl MoveScuJobQuery {
    /// The study instance identifier named by this query entry, if any.
    pub open spec fn spec_study_instance_uid(&self) -> Option<Seq<char>> {
        match self {
            MoveScuJobQuery::Series { study_instance_uid, .. } => Some(study_instance_uid@),
            MoveScuJobQuery::Study { study_instance_uid, .. } => Some(study_instance_uid@),
            MoveScuJobQuery::Patient { .. } => None,
        }
    }

    /// Get the study instance identifier, present on study- and
    /// series-level queries only.
    pub fn study_instance_uid(&self) -> (r: Option<&str>)
        ensures
            match r {
                Some(s) => self.spec_study_instance_uid() == Some(s@),
                None => self.spec_study_instance_uid() is None,
            },
    {
        match self {
            MoveScuJobQuery::Series { study_instance_uid, .. } => Some(study_instance_uid.as_str()),
            MoveScuJobQuery::Study { study_instance_uid, .. } => Some(study_instance_uid.as_str()),
            MoveScuJobQuery::Patient { .. } => None,
        }
    }
}

/// Same data as [`MoveScuJobQuery`] but as a struct with optional fields
/// instead of an enum.
pub struct MoveScuJobQueryAny {
    pub patient_id: String,
    pub accession_number: Option<String>,
    pub study_instance_uid: Option<String>,
    pub series_instance_uid: Option<String>,
}

impl From<MoveScuJobQuery> for MoveScuJobQueryAny {
    fn from(value: MoveScuJobQuery) -> (r: Self) {
        match value {
            MoveScuJobQuery::Series {
                patient_id,
                accession_number,
                study_instance_uid,
                series_instance_uid,
            } => Self {
                patient_id,
                accession_number: Some(accession_number),
                study_instance_uid: Some(study_instance_uid),
                series_instance_uid: Some(series_instance_uid),
            },
            MoveScuJobQuery::Study { patient_id, accession_number, study_instance_uid } => Self {
                patient_id,
                accession_number: Some(accession_number),
                study_instance_uid: Some(study_instance_uid),
                series_instance_uid: None,
            },
            MoveScuJobQuery::Patient { patient_id } => Self {
                patient_id,
                accession_number: None,
                study_instance_uid: None,
                series_instance_uid: None,
            },
        }
    }
}

impl vstd::std_specs::convert::FromSpecImpl<MoveScuJobQuery> for MoveScuJobQueryAny {
    open spec fn obeys_from_spec() -> bool {
        true
    }

    open spec fn from_spec(value: MoveScuJobQuery) -> Self {
        match value {
            MoveScuJobQuery::Series {
                patient_id,
                accession_number,
                study_instance_uid,
                series_instance_uid,
            } => MoveScuJobQueryAny {
                patient_id,
                accession_number: Some(accession_number),
                study_instance_uid: Some(study_instance_uid),
                series_instance_uid: Some(series_instance_uid),
            },
            MoveScuJobQuery::Study { patient_id, accession_number, study_instance_uid } => {
                MoveScuJobQueryAny {
                    patient_id,
                    accession_number: Some(accession_number),
                    study_instance_uid: Some(study_instance_uid),
                    series_instance_uid: None,
                }
            },
            MoveScuJobQuery::Patient { patient_id } => MoveScuJobQueryAny {
                patient_id,
                accession_number: None,
                study_instance_uid: None,
                series_instance_uid: None,
            },
        }
    }
}

/// Generic resource-modification job content, reported when an
/// anonymization (or other modification) job is looked up.
pub struct ResourceModification<I> {
    pub description: String,
    pub failed_instances_count: usize,
    pub id: I,
    pub instances_count: usize,
    pub is_anonymization: bool,
    pub parent_resources: Vec<I>,
    pub path: String,
    pub patient_id: PatientId,
}

/// Resource-modification job content, by the level of the modified
/// resource.
pub enum ResourceModificationContent {
    Patient(ResourceModification<PatientId>),
    Study(ResourceModification<StudyId>),
    Series(ResourceModification<SeriesId>),
}

/// The content of a job, by job type. Only the kinds this workflow reacts
/// to carry data.
pub enum JobContent {
    /// DICOM MOVE-SCU (retrieve) job.
    DicomMoveScu {
        description: String,
        local_aet: String,
        query: Vec<MoveScuJobQuery>,
        remote_aet: String,
        target_aet: String,
    },
    DicomModalityStore {},
    /// Push of local resources to a peer, with per-instance failure counts.
    OrthancPeerStore {
        failed_instances_count: usize,
        parent_resources: Vec<String>,
        peer: Vec<String>,
    },
    ResourceModification(ResourceModificationContent),
    MergeStudy {},
    SplitStudy {},
    StorageCommitmentScp {},
}

/// Job detail response from the jobs API of the imaging server.
pub struct JobInfo {
    pub completion_time: String,
    pub content: JobContent,
    pub creation_time: String,
    pub error_code: i32,
    pub error_description: String,
    pub error_details: String,
    pub id: JobId,
    pub priority: i32,
    pub progress: u8,
    pub state: JobState,
    pub timestamp: String,
}

} // verus!
