//! The workflow store: correlations, overwrites, stage prerequisites.

use blt::database::BltDatabase;
use blt::dicom_date::DicomDate;
use blt::error::InternalConsistencyFault;
use blt::ids::{JobId, QueryId};
use blt::models::{AccessionNumber, BltStudy};

fn study(accession: &str) -> BltStudy {
    BltStudy {
        patient_id: "1449c1d".to_string(),
        anon_patient_id: "anon-patient".to_string(),
        patient_name: "DOE^JANE".to_string(),
        anon_patient_name: "anonymized".to_string(),
        patient_birth_date: DicomDate::try_new("19890102").unwrap(),
        accession_number: AccessionNumber::try_new(accession.to_string()).unwrap(),
        anon_accession_number: "ANON1".to_string(),
        anon_patient_birth_date: DicomDate::try_new("19000101").unwrap(),
    }
}

fn job(id: &str) -> JobId {
    JobId::new(id.to_string())
}

fn accession(text: &str) -> AccessionNumber {
    AccessionNumber::try_new(text.to_string()).unwrap()
}

#[test]
fn add_study_records_the_retrieve_job() {
    let mut db = BltDatabase::with_capacity(10);
    db.add_study(study("ACC1"), QueryId::new("Q1".to_string()), job("J1"));
    assert!(db.has_retrieve(&job("J1")));
    assert!(!db.has_retrieve(&job("J2")));
}

#[test]
fn anonymization_without_retrieve_is_a_fault() {
    let mut db = BltDatabase::with_capacity(10);
    let r = db.add_anonymization(job("J2"), accession("ACC1"));
    assert_eq!(r, Err(InternalConsistencyFault));
    // Nothing was recorded by the failed call.
    assert!(db.get_accession_number_of_anonymization(&job("J2")).is_none());
}

#[test]
fn push_without_anonymization_is_a_fault() {
    let mut db = BltDatabase::with_capacity(10);
    db.add_study(study("ACC1"), QueryId::new("Q1".to_string()), job("J1"));
    let r = db.add_push(job("J3"), accession("ACC1"));
    assert_eq!(r, Err(InternalConsistencyFault));
}

#[test]
fn stages_in_order_are_accepted() {
    let mut db = BltDatabase::with_capacity(10);
    db.add_study(study("ACC1"), QueryId::new("Q1".to_string()), job("J1"));
    assert_eq!(db.add_anonymization(job("J2"), accession("ACC1")), Ok(()));
    assert_eq!(
        db.get_accession_number_of_anonymization(&job("J2")).map(|a| a.as_str().to_string()),
        Some("ACC1".to_string())
    );
    assert_eq!(db.add_push(job("J3"), accession("ACC1")), Ok(()));
    assert!(db.has_push(&job("J3")));
}

#[test]
fn duplicate_submission_overwrites_and_keeps_later_stages() {
    let mut db = BltDatabase::with_capacity(10);
    let first = db.add_study(study("ACC1"), QueryId::new("Q1".to_string()), job("J1"));
    assert!(!first);
    assert_eq!(db.add_anonymization(job("J2"), accession("ACC1")), Ok(()));
    assert_eq!(db.add_push(job("J3"), accession("ACC1")), Ok(()));

    // The same accession number is submitted again with fresh identifiers.
    let mut resubmitted = study("ACC1");
    resubmitted.patient_name = "DOE^JOHN".to_string();
    let overwrote = db.add_study(resubmitted, QueryId::new("Q9".to_string()), job("J9"));
    assert!(overwrote);

    // The instance was replaced, not duplicated.
    let listed = db.list_studies();
    assert_eq!(listed.len(), 1);
    assert_eq!(listed[0].info.patient_name, "DOE^JOHN");

    // The query and retrieve correlations now carry the new identifiers;
    // the anonymize and push tables keep their existing entries.
    assert_eq!(listed[0].query_id, QueryId::new("Q9".to_string()));
    assert_eq!(listed[0].retrieve_job_id, job("J9"));
    assert!(db.has_retrieve(&job("J9")));
    assert!(!db.has_retrieve(&job("J1")));
    assert_eq!(listed[0].anonymization_job_id, Some(job("J2")));
    assert_eq!(listed[0].push_job_id, Some(job("J3")));
}

#[test]
fn list_studies_reports_missing_later_stages_as_absent() {
    let mut db = BltDatabase::with_capacity(10);
    db.add_study(study("ACC1"), QueryId::new("Q1".to_string()), job("J1"));
    let listed = db.list_studies();
    assert_eq!(listed.len(), 1);
    assert_eq!(listed[0].query_id, QueryId::new("Q1".to_string()));
    assert_eq!(listed[0].retrieve_job_id, job("J1"));
    assert_eq!(listed[0].anonymization_job_id, None);
    assert_eq!(listed[0].push_job_id, None);
}

#[test]
fn stage_lookups_name_the_recorded_accession() {
    let mut db = BltDatabase::with_capacity(10);
    db.add_study(study("ACC1"), QueryId::new("Q1".to_string()), job("J1"));
    assert_eq!(
        db.get_accession_number_of_query(&QueryId::new("Q1".to_string()))
            .map(|a| a.as_str().to_string()),
        Some("ACC1".to_string())
    );
    assert_eq!(
        db.get_accession_number_of_retrieve(&job("J1")).map(|a| a.as_str().to_string()),
        Some("ACC1".to_string())
    );
    assert!(db.get_accession_number_of_query(&QueryId::new("Q2".to_string())).is_none());
    assert!(db.get_accession_number_of_retrieve(&job("J2")).is_none());
}

#[test]
fn get_returns_the_recorded_instance() {
    let mut db = BltDatabase::with_capacity(10);
    db.add_study(study("ACC1"), QueryId::new("Q1".to_string()), job("J1"));
    assert!(db.get(&accession("ACC1")).is_some());
    assert!(db.get(&accession("ACC2")).is_none());
}
