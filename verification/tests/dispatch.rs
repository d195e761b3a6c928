//! The dispatcher, driven end to end through one whole workflow.

use blt::api::{
    first_modality, plan_submission_query, route_http_request, submission_after_answers, Method,
    RouteDecision, SubmissionStep,
};
use blt::clients::{DicomClient, GeneralClient, MaybeQueryId, Query};
use blt::database::BltDatabase;
use blt::dicom_date::DicomDate;
use blt::dispatch::{
    dispatch_job_success, on_change, push_to_peer, ChangeDecision, ChangeType, JobDecision,
    OnChangeEvent, ResourceKind,
};
use blt::dispatch::prepare_anonymization;
use blt::filter::{filter_received_series, is_fully_filtered};
use blt::ids::{JobId, PatientId, QueryId, StudyId};
use blt::job::{
    JobContent, JobInfo, JobState, MoveScuJobQuery, ResourceModification,
    ResourceModificationContent,
};
use blt::models::{AccessionNumber, BltStudy};
use blt::response::{Possibly, PostJsonResponse, ResponseBody, RestResponse};

fn study_request(accession: &str) -> BltStudy {
    BltStudy {
        patient_id: "1449c1d".to_string(),
        anon_patient_id: "anon-patient".to_string(),
        patient_name: "DOE^JANE".to_string(),
        anon_patient_name: "anonymized".to_string(),
        patient_birth_date: DicomDate::try_new("19890102").unwrap(),
        accession_number: AccessionNumber::try_new(accession.to_string()).unwrap(),
        anon_accession_number: "ANON1".to_string(),
        anon_patient_birth_date: DicomDate::try_new("19000101").unwrap(),
    }
}


fn series_fixture(id: &str, modality: &str) -> blt::dicom::Series<blt::filter::SeriesDetails> {
    blt::dicom::Series {
        expected_number_of_instances: None,
        id: blt::ids::SeriesId::new(id.to_string()),
        instances: Vec::new(),
        is_stable: true,
        labels: Vec::new(),
        last_update: "20250704T010750".to_string(),
        parent_study: StudyId::new("local-study".to_string()),
        status: blt::dicom::SeriesStatus::Unknown,
        requested_tags: blt::filter::SeriesDetails {
            series_description: "desc".to_string(),
            series_instance_uid: format!("1.2.3.{id}"),
            modality: modality.to_string(),
        },
    }
}

fn job_info(id: &str, content: JobContent) -> JobInfo {
    JobInfo {
        completion_time: "20250703T002648".to_string(),
        content,
        creation_time: "20250703T002645".to_string(),
        error_code: 0,
        error_description: "Success".to_string(),
        error_details: String::new(),
        id: JobId::new(id.to_string()),
        priority: 0,
        progress: 100,
        state: JobState::Success,
        timestamp: "20250703T002655".to_string(),
    }
}

fn retrieve_content(uid: &str) -> JobContent {
    JobContent::DicomMoveScu {
        description: "REST API".to_string(),
        local_aet: "DEV".to_string(),
        query: vec![MoveScuJobQuery::Study {
            patient_id: "1449c1d".to_string(),
            accession_number: "ACC1".to_string(),
            study_instance_uid: uid.to_string(),
        }],
        remote_aet: "PACS".to_string(),
        target_aet: "DEV".to_string(),
    }
}

fn modification_content(modified: &str) -> JobContent {
    JobContent::ResourceModification(ResourceModificationContent::Study(ResourceModification {
        description: "REST API".to_string(),
        failed_instances_count: 0,
        id: StudyId::new(modified.to_string()),
        instances_count: 61,
        is_anonymization: true,
        parent_resources: vec![StudyId::new("local-study".to_string())],
        path: format!("/studies/{modified}"),
        patient_id: PatientId::new("patient-1".to_string()),
    }))
}

fn peer_store_content(failed: usize, parents: &[&str]) -> JobContent {
    JobContent::OrthancPeerStore {
        failed_instances_count: failed,
        parent_resources: parents.iter().map(|p| p.to_string()).collect(),
        peer: vec!["http://peer.example".to_string(), "peer1".to_string()],
    }
}

/// One full pass of the protocol: submit, retrieve, filter, anonymize,
/// push, clean up.
#[test]
fn whole_workflow_runs_to_cleanup() {
    let mut db = BltDatabase::with_capacity(100);

    // Submission: route the POST, pick the modality, query, retrieve.
    let decision = route_http_request(Method::Post, Some(study_request("ACC1")));
    let submitted = match decision {
        RouteDecision::Submit(s) => s,
        _ => panic!("a POST with a body must submit"),
    };
    let modalities = vec!["PACS".to_string()];
    let modality = first_modality(&modalities).unwrap();
    let query_plan = plan_submission_query(modality, &submitted);
    assert_eq!(&query_plan.uri, "/modalities/PACS/query");
    assert_eq!(&query_plan.body.accession_number, "ACC1");

    // The server answers the query with an identifier and a path.
    let response = PostJsonResponse::new(
        query_plan.uri.clone(),
        Ok(RestResponse::new(
            query_plan.uri.clone(),
            0,
            ResponseBody::Data(Possibly::Typed(MaybeQueryId {
                id: Some("Q1".to_string()),
                path: Some("/queries/Q1".to_string()),
            })),
        )),
    );
    let query = Query::try_new(response).unwrap();
    assert_eq!(query.id, QueryId::new("Q1".to_string()));

    // One answer: request the retrieve job and record the instance.
    let step = submission_after_answers(&query, 1);
    match step {
        SubmissionStep::Retrieve(p) => assert_eq!(&p.uri, "/queries/Q1/retrieve"),
        SubmissionStep::NoMatch => panic!("an answered query must retrieve"),
    }
    let overwrote = db.add_study(submitted, query.id.clone(), JobId::new("J1".to_string()));
    assert!(!overwrote);

    // The retrieve job completes.
    let event = OnChangeEvent {
        change_type: ChangeType::JobSuccess,
        resource_type: ResourceKind::Other,
        resource_id: Some("J1".to_string()),
    };
    let handled = match on_change(event) {
        ChangeDecision::HandleJob(id) => id,
        _ => panic!("a job success with an identifier must be handled"),
    };
    assert_eq!(handled, JobId::new("J1".to_string()));
    let uid = match dispatch_job_success(&db, &job_info("J1", retrieve_content("1.2.3.4"))) {
        JobDecision::FetchStudy { study_instance_uid } => study_instance_uid,
        _ => panic!("a tracked retrieve must fetch its study"),
    };
    assert_eq!(&uid, "1.2.3.4");

    // The host finds the study and its two series; none is filtered.
    let client = DicomClient::new();
    let find = client.find(uid);
    assert_eq!(&find.uri, "/tools/find");
    let study_id = StudyId::new("local-study".to_string());
    let series = vec![series_fixture("se1", "MR"), series_fixture("se2", "CT")];
    let plan = filter_received_series(&series);
    assert!(plan.is_empty());
    assert!(!is_fully_filtered(&series, &plan));

    // The accession number reads back as the recorded one; anonymize.
    let accession = AccessionNumber::try_new("ACC1".to_string()).unwrap();
    let anonymize = prepare_anonymization(&db, &study_id, &accession).unwrap();
    assert_eq!(&anonymize.uri, "/studies/local-study/anonymize");
    assert!(anonymize.body.asynchronous);
    assert_eq!(&anonymize.body.replace.accession_number, "ANON1");
    assert_eq!(db.add_anonymization(JobId::new("J2".to_string()), accession.clone()), Ok(()));

    // The anonymization job completes; push the modified study.
    let decision = dispatch_job_success(&db, &job_info("J2", modification_content("anon-study")));
    let (modified, accession_back) = match decision {
        JobDecision::IssuePush { study, accession_number } => (study, accession_number),
        _ => panic!("a tracked anonymization must push"),
    };
    assert_eq!(modified, StudyId::new("anon-study".to_string()));
    assert_eq!(accession_back.as_str(), "ACC1");
    let peers = vec!["peer1".to_string()];
    let push = push_to_peer(&peers, &modified).unwrap();
    assert_eq!(&push.uri, "/peers/peer1/store");
    assert_eq!(push.body.resources, vec!["anon-study".to_string()]);
    assert_eq!(db.add_push(JobId::new("J3".to_string()), accession_back), Ok(()));

    // The push completes with no failures; exactly one study is deleted.
    let decision = dispatch_job_success(&db, &job_info("J3", peer_store_content(0, &["anon-study"])));
    let cleaned = match decision {
        JobDecision::CleanUp { studies } => studies,
        _ => panic!("a clean push must clean up"),
    };
    assert_eq!(cleaned.len(), 1);
    let delete = GeneralClient::new().delete_study(&cleaned[0]);
    assert_eq!(&delete.uri, "/studies/anon-study");
}

#[test]
fn unknown_job_is_ignored() {
    let mut db = BltDatabase::with_capacity(10);
    db.add_study(
        study_request("ACC1"),
        QueryId::new("Q1".to_string()),
        JobId::new("J1".to_string()),
    );
    let before = db.list_studies().len();
    for content in [
        retrieve_content("1.2.3.4"),
        modification_content("anon-study"),
        peer_store_content(0, &["anon-study"]),
    ] {
        let decision = dispatch_job_success(&db, &job_info("unknown-id", content));
        assert!(matches!(decision, JobDecision::Ignore));
    }
    assert_eq!(db.list_studies().len(), before);
    assert!(!db.has_retrieve(&JobId::new("unknown-id".to_string())));
}

#[test]
fn failed_push_aborts_without_cleanup() {
    let mut db = BltDatabase::with_capacity(10);
    db.add_study(
        study_request("ACC1"),
        QueryId::new("Q1".to_string()),
        JobId::new("J1".to_string()),
    );
    let accession = AccessionNumber::try_new("ACC1".to_string()).unwrap();
    db.add_anonymization(JobId::new("J2".to_string()), accession.clone()).unwrap();
    db.add_push(JobId::new("J3".to_string()), accession).unwrap();
    let decision = dispatch_job_success(&db, &job_info("J3", peer_store_content(2, &["anon-study"])));
    match decision {
        JobDecision::AbortPartialPush { failed_instances_count, parent_resources, peer } => {
            assert_eq!(failed_instances_count, 2);
            assert_eq!(parent_resources, vec!["anon-study".to_string()]);
            assert_eq!(peer[1], "peer1");
        },
        _ => panic!("a failed push must abort"),
    }
}

#[test]
fn retrieve_without_study_uid_is_an_error() {
    let mut db = BltDatabase::with_capacity(10);
    db.add_study(
        study_request("ACC1"),
        QueryId::new("Q1".to_string()),
        JobId::new("J1".to_string()),
    );
    let content = JobContent::DicomMoveScu {
        description: "REST API".to_string(),
        local_aet: "DEV".to_string(),
        query: vec![MoveScuJobQuery::Patient { patient_id: "1449c1d".to_string() }],
        remote_aet: "PACS".to_string(),
        target_aet: "DEV".to_string(),
    };
    let decision = dispatch_job_success(&db, &job_info("J1", content));
    assert!(matches!(decision, JobDecision::MissingStudyUid));
}

#[test]
fn anonymization_for_an_unrecorded_study_is_a_fault() {
    let db = BltDatabase::with_capacity(10);
    let accession = AccessionNumber::try_new("ACC1".to_string()).unwrap();
    let r = prepare_anonymization(&db, &StudyId::new("local-study".to_string()), &accession);
    assert!(r.is_err());
}

#[test]
fn events_other_than_job_success_are_ignored() {
    let event = OnChangeEvent {
        change_type: ChangeType::StableStudy,
        resource_type: ResourceKind::Study,
        resource_id: Some("x".to_string()),
    };
    assert!(matches!(on_change(event), ChangeDecision::Ignore));
    let event = OnChangeEvent {
        change_type: ChangeType::JobSuccess,
        resource_type: ResourceKind::Other,
        resource_id: None,
    };
    assert!(matches!(on_change(event), ChangeDecision::MissingResourceId));
}
