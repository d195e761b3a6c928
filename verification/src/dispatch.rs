//! The event dispatcher: the decision core of the workflow state machine.
//!
//! The host delivers change events one at a time, on a single consumer,
//! so no two stage transitions overlap. For each job-success notification
//! the host looks the job up and hands its detail here;
//! [`dispatch_job_success`] decides, purely from the store and the job
//! content, what the next stage is. The host performs the returned
//! requests and records the identifiers they come back with through
//! [`crate::database::BltDatabase`].

use crate::anonymize::build_anonymization_request;
use crate::anonymize::AnonymizeRequest;
use crate::clients::{ApiPost, DicomClient, PeersClient, StoreRequest};
use crate::database::BltDatabase;
use crate::error::{ConfigurationError, InternalConsistencyFault};
use crate::ids::{JobId, SeriesId, StudyId};
use crate::job::{JobContent, JobInfo, JobState, ResourceModificationContent};
use crate::models::AccessionNumber;
use vstd::prelude::*;
use vstd::string::StringExecFns;

verus! {

/// The kind of change the host was notified of.
#[derive(Clone, Copy, Debug, PartialEq, Eq, Structural, Hash)]
pub enum ChangeType {
    CompletedSeries,
    Deleted,
    NewChildInstance,
    NewInstance,
    NewPatient,
    NewSeries,
    NewStudy,
    StablePatient,
    StableSeries,
    StableStudy,
    OrthancStarted,
    OrthancStopped,
    UpdatedAttachment,
    UpdatedMetadata,
    UpdatedPeers,
    UpdatedModalities,
    JobSubmitted,
    JobSuccess,
    JobFailure,
}

/// The level of the resource a change concerns.
#[derive(Clone, Copy, Debug, PartialEq, Eq, Structural, Hash)]
pub enum ResourceKind {
    Patient,
    Study,
    Series,
    Instance,
    Other,
}

/// One change event as delivered by the host.
pub struct OnChangeEvent {
    pub change_type: ChangeType,
    pub resource_type: ResourceKind,
    pub resource_id: Option<String>,
}

/// What to do with a change event.
pub enum ChangeDecision {
    /// A job succeeded: look it up and dispatch on its content.
    HandleJob(JobId),
    /// A job-success event arrived without an identifier; report it and
    /// do nothing.
    MissingResourceId,
    /// Not an event this workflow reacts to.
    Ignore,
}

/// Decide what to do with a change event: only job-success events with a
/// job identifier are handled.
pub fn on_change(event: OnChangeEvent) -> (r: ChangeDecision)
    ensures
        match r {
            ChangeDecision::HandleJob(id) => event.change_type == ChangeType::JobSuccess && (match
                event.resource_id {
                Some(s) => id@ == s@,
                None => false,
            }),
            ChangeDecision::MissingResourceId => event.change_type == ChangeType::JobSuccess
                && event.resource_id is None,
            ChangeDecision::Ignore => event.change_type != ChangeType::JobSuccess,
        },
{
    if event.change_type == ChangeType::JobSuccess {
        match event.resource_id {
            Some(id) => ChangeDecision::HandleJob(JobId::new(id)),
            None => ChangeDecision::MissingResourceId,
        }
    } else {
        ChangeDecision::Ignore
    }
}

/// The next stage for one completed job, decided from the store and the
/// job's content alone.
pub enum JobDecision {
    /// Not a job this workflow tracks, or a content kind it does not
    /// react to: do nothing.
    Ignore,
    /// A tracked retrieve finished: fetch the study named by this study
    /// instance identifier, filter its series, and anonymize it.
    FetchStudy { study_instance_uid: String },
    /// A tracked retrieve finished but its query names no study: an
    /// error to report; the instance stays where it is.
    MissingStudyUid,
    /// A tracked anonymization finished: push the modified study to the
    /// peer and record the push job for this accession number.
    IssuePush { study: StudyId, accession_number: AccessionNumber },
    /// A push finished with failures: report the peer and the affected
    /// resources, abort, no cleanup.
    AbortPartialPush {
        failed_instances_count: usize,
        parent_resources: Vec<String>,
        peer: Vec<String>,
    },
    /// A push finished cleanly: delete the local copy of every pushed
    /// study.
    CleanUp { studies: Vec<StudyId> },
}

/// Decide the next stage for a completed job.
///
/// Each stage is handled only if the job's identifier is recorded in
/// that stage's table: the next step is derived purely from which table
/// the completed identifier is found in. A job known to no table is
/// ignored silently: it belongs to a workflow this core does not own.
pub fn dispatch_job_success(db: &BltDatabase, job: &JobInfo) -> (r: JobDecision)
    requires
        db.wf(),
        job.state == JobState::Success,
    ensures
        match job.content {
            JobContent::DicomMoveScu { query, .. } => {
                if !db.retrieve_map().contains_key(job.id@) {
                    r == JobDecision::Ignore
                } else if query.len() == 0 {
                    r == JobDecision::MissingStudyUid
                } else {
                    match query[0].spec_study_instance_uid() {
                        Some(uid) => r matches JobDecision::FetchStudy { study_instance_uid }
                            && study_instance_uid@ == uid,
                        None => r == JobDecision::MissingStudyUid,
                    }
                }
            },
            JobContent::ResourceModification(content) => {
                if !db.anonymize_map().contains_key(job.id@) {
                    r == JobDecision::Ignore
                } else {
                    match content {
                        ResourceModificationContent::Study(m) => r matches JobDecision::IssuePush {
                            study,
                            accession_number,
                        } && study == m.id && accession_number@ == db.anonymize_map()[job.id@],
                        _ => r == JobDecision::Ignore,
                    }
                }
            },
            JobContent::OrthancPeerStore { failed_instances_count, parent_resources, peer } => {
                if !db.push_map().contains_key(job.id@) {
                    r == JobDecision::Ignore
                } else if failed_instances_count > 0 {
                    r matches JobDecision::AbortPartialPush {
                        failed_instances_count: fc,
                        parent_resources: pr,
                        peer: pe,
                    } && fc == failed_instances_count && pr@ == parent_resources@ && pe@ == peer@
                } else {
                    r matches JobDecision::CleanUp { studies } && studies@.len()
                        == parent_resources@.len() && (forall|i: int|
                        0 <= i < studies@.len() ==> (#[trigger] studies@[i])@
                            == parent_resources@[i]@)
                }
            },
            _ => r == JobDecision::Ignore,
        },
        !db.retrieve_map().contains_key(job.id@) && !db.anonymize_map().contains_key(job.id@)
            && !db.push_map().contains_key(job.id@) ==> r == JobDecision::Ignore,
{
    match &job.content {
        JobContent::DicomMoveScu { query, .. } => {
            if !db.has_retrieve(&job.id) {
                return JobDecision::Ignore;
            }
            if query.len() == 0 {
                return JobDecision::MissingStudyUid;
            }
            match query[0].study_instance_uid() {
                Some(uid) => JobDecision::FetchStudy { study_instance_uid: uid.to_owned() },
                None => JobDecision::MissingStudyUid,
            }
        },
        JobContent::ResourceModification(content) => {
            let accession_number = match db.get_accession_number_of_anonymization(&job.id) {
                Some(a) => a,
                None => {
                    return JobDecision::Ignore;
                },
            };
            match content {
                ResourceModificationContent::Study(m) => JobDecision::IssuePush {
                    study: m.id.clone(),
                    accession_number,
                },
                _ => JobDecision::Ignore,
            }
        },
        JobContent::OrthancPeerStore { failed_instances_count, parent_resources, peer } => {
            if !db.has_push(&job.id) {
                return JobDecision::Ignore;
            }
            if *failed_instances_count > 0 {
                let parents = parent_resources.clone();
                let peer_names = peer.clone();
                proof {
                    assert(parents@ =~= parent_resources@);
                    assert(peer_names@ =~= peer@);
                }
                return JobDecision::AbortPartialPush {
                    failed_instances_count: *failed_instances_count,
                    parent_resources: parents,
                    peer: peer_names,
                };
            }
            let mut studies: Vec<StudyId> = Vec::new();
            let n = parent_resources.len();
            let mut i: usize = 0;
            while i < n
                invariant
                    n == parent_resources@.len(),
                    0 <= i <= n,
                    studies@.len() == i,
                    forall|j: int|
                        0 <= j < i ==> (#[trigger] studies@[j])@ == parent_resources@[j]@,
                decreases n - i,
            {
                studies.push(StudyId::new(parent_resources[i].clone()));
                i = i + 1;
            }
            JobDecision::CleanUp { studies }
        },
        _ => JobDecision::Ignore,
    }
}

/// The study list a retrieve job brings back from the find call: the
/// study and its series.
pub struct SeriesOfStudy {
    pub id: StudyId,
    pub series: Vec<SeriesId>,
}

/// Build the anonymization request for a retrieved study whose series
/// survived the filter: the accession number read back from the study
/// must name a recorded instance. If it does not, the retrieve was
/// started for an instance this store never saw — an internal fault; the
/// instance is aborted and nothing is issued.
pub fn prepare_anonymization(db: &BltDatabase, study: &StudyId, accession_number: &AccessionNumber)
    -> (r: Result<ApiPost<AnonymizeRequest>, InternalConsistencyFault>)
    requires
        db.wf(),
    ensures
        r is Ok <==> db.studies_map().contains_key(accession_number@),
        r matches Ok(p) ==> {
            let instance = db.studies_map()[accession_number@];
            &&& p.uri@ == "/studies/"@ + study@ + "/anonymize"@
            &&& p.body.asynchronous
            &&& !p.body.keep_source
            &&& p.body.force
            &&& p.body.replace.patient_id == instance.anon_patient_id
            &&& p.body.replace.patient_name == instance.anon_patient_name
            &&& p.body.replace.patient_birth_date@ == instance.anon_patient_birth_date@
            &&& p.body.replace.accession_number == instance.anon_accession_number
            &&& p.body.keep@.len() == 2
            &&& p.body.keep@[0]@ == "StudyDescription"@
            &&& p.body.keep@[1]@ == "SeriesDescription"@
        },
{
    let client = DicomClient::new();
    match db.get(accession_number) {
        Some(instance) => {
            let request = build_anonymization_request(instance);
            Ok(client.anonymize(study, request))
        },
        None => Err(InternalConsistencyFault),
    }
}

/// Build the push of an anonymized study to the first configured peer,
/// compressed and asynchronous. Without a peer nothing can be pushed.
pub fn push_to_peer(peers: &Vec<String>, study: &StudyId) -> (r: Result<
    ApiPost<StoreRequest>,
    ConfigurationError,
>)
    ensures
        r is Ok <==> peers@.len() > 0,
        r is Err ==> r == Err::<ApiPost<StoreRequest>, ConfigurationError>(
            ConfigurationError::NoPeers,
        ),
        r matches Ok(p) ==> {
            &&& p.uri@ == "/peers/"@ + peers@[0]@ + "/store"@
            &&& p.body.asynchronous
            &&& p.body.compress
            &&& p.body.resources@.len() == 1
            &&& p.body.resources@[0]@ == study@
        },
{
    if peers.len() == 0 {
        return Err(ConfigurationError::NoPeers);
    }
    let client = PeersClient::new();
    let mut resources: Vec<String> = Vec::new();
    resources.push(String::from_str(study.as_str()));
    let request = StoreRequest { asynchronous: true, compress: true, resources };
    Ok(client.store(peers[0].as_str(), request))
}

} // verus!
