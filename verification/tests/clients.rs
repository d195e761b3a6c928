//! The requests the clients plan against the built-in API.

use blt::anonymize::build_anonymization_request;
use blt::api::first_modality;
use blt::clients::{DicomClient, GeneralClient, JobsClient, ModalitiesClient, PeersClient};
use blt::dicom_date::DicomDate;
use blt::dispatch::push_to_peer;
use blt::error::ConfigurationError;
use blt::ids::{JobId, SeriesId, StudyId};
use blt::models::{AccessionNumber, BltStudy};

fn study() -> BltStudy {
    BltStudy {
        patient_id: "1449c1d".to_string(),
        anon_patient_id: "anon-patient".to_string(),
        patient_name: "DOE^JANE".to_string(),
        anon_patient_name: "anonymized".to_string(),
        patient_birth_date: DicomDate::try_new("19890102").unwrap(),
        accession_number: AccessionNumber::try_new("ACC1".to_string()).unwrap(),
        anon_accession_number: "ANON1".to_string(),
        anon_patient_birth_date: DicomDate::try_new("19000101").unwrap(),
    }
}

#[test]
fn series_details_request_names_the_filter_tags() {
    let r = DicomClient::new().get_series_details(&SeriesId::new("se1".to_string()));
    assert_eq!(
        &r.uri,
        "/series/se1?requested-tags=Modality;SeriesDescription;SeriesInstanceUID"
    );
}

#[test]
fn study_accession_request_names_the_tag() {
    let r = DicomClient::new().get_study_accession(&StudyId::new("s1".to_string()));
    assert_eq!(&r.uri, "/studies/s1?requested-tags=AccessionNumber");
}

#[test]
fn find_request_searches_by_study_instance_uid() {
    let r = DicomClient::new().find("1.2.3.4".to_string());
    assert_eq!(&r.uri, "/tools/find");
    assert_eq!(r.body.level, "Study");
    assert_eq!(r.body.response_content, "Children");
    assert!(r.body.expand);
    assert!(!r.body.case_sensitive);
    assert_eq!(&r.body.study_instance_uid, "1.2.3.4");
}

#[test]
fn anonymize_request_replaces_the_identifying_tags() {
    let request = build_anonymization_request(&study());
    assert!(!request.keep_source);
    assert!(request.force);
    assert!(request.asynchronous);
    assert_eq!(&request.replace.patient_id, "anon-patient");
    assert_eq!(&request.replace.patient_name, "anonymized");
    assert_eq!(&request.replace.patient_birth_date, "19000101");
    assert_eq!(&request.replace.accession_number, "ANON1");
    assert_eq!(request.keep, vec!["StudyDescription", "SeriesDescription"]);
    let post = DicomClient::new().anonymize(&StudyId::new("s1".to_string()), request);
    assert_eq!(&post.uri, "/studies/s1/anonymize");
    assert!(post.body.asynchronous);
}

#[test]
fn job_and_deletion_requests_use_the_resource_paths() {
    let general = GeneralClient::new();
    assert_eq!(&general.get_job(&JobId::new("j1".to_string())).uri, "/jobs/j1");
    assert_eq!(&general.delete_series(&SeriesId::new("se1".to_string())).uri, "/series/se1");
    assert_eq!(&general.delete_study(&StudyId::new("s1".to_string())).uri, "/studies/s1");
    assert_eq!(&JobsClient::new().get(&JobId::new("j1".to_string())).uri, "/jobs/j1");
}

#[test]
fn modality_requests_name_the_modality() {
    let client = ModalitiesClient::new();
    assert_eq!(&client.list_modalities().uri, "/modalities");
    let q = client.query_study("PACS", "ACC1".to_string());
    assert_eq!(&q.uri, "/modalities/PACS/query");
    assert_eq!(q.body.level, "Study");
    assert_eq!(&q.body.accession_number, "ACC1");
    let m = client.c_move_studies("PACS", vec!["1.2.3".to_string()]);
    assert_eq!(&m.uri, "/modalities/PACS/move");
    assert!(m.body.asynchronous);
    assert_eq!(m.body.level, "Study");
    assert_eq!(m.body.study_instance_uids, vec!["1.2.3".to_string()]);
}

#[test]
fn peer_requests_name_the_peer() {
    assert_eq!(&PeersClient::new().list().uri, "/peers");
    let push = push_to_peer(&vec!["peer1".to_string()], &StudyId::new("s1".to_string())).unwrap();
    assert_eq!(&push.uri, "/peers/peer1/store");
    assert!(push.body.asynchronous);
    assert!(push.body.compress);
    assert_eq!(push.body.resources, vec!["s1".to_string()]);
}

#[test]
fn missing_configuration_is_reported() {
    let no_peers: Vec<String> = Vec::new();
    assert_eq!(
        push_to_peer(&no_peers, &StudyId::new("s1".to_string())).err(),
        Some(ConfigurationError::NoPeers)
    );
    let no_modalities: Vec<String> = Vec::new();
    assert_eq!(
        first_modality(&no_modalities).err(),
        Some(ConfigurationError::NoModalities)
    );
}
