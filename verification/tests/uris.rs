//! Resource paths under the built-in API.

use blt::ids::{InstanceId, JobId, PatientId, QueryId, SeriesId, StudyId};

#[test]
fn test_uri_by_value() {
    let id = SeriesId::new("aa8e0a3c-8ddd1186-76a07503-f1b36dbe-c009f45d".to_string());
    let actual = id.uri();
    assert_eq!(&actual, "/series/aa8e0a3c-8ddd1186-76a07503-f1b36dbe-c009f45d");
}

#[test]
fn test_uri_by_reference() {
    let id = SeriesId::new("aa8e0a3c-8ddd1186-76a07503-f1b36dbe-c009f45d".to_string());
    let actual = (&id).uri();
    assert_eq!(&actual, "/series/aa8e0a3c-8ddd1186-76a07503-f1b36dbe-c009f45d");
}

#[test]
fn every_resource_kind_has_its_prefix() {
    assert_eq!(&QueryId::new("q".to_string()).uri(), "/queries/q");
    assert_eq!(&JobId::new("j".to_string()).uri(), "/jobs/j");
    assert_eq!(&PatientId::new("p".to_string()).uri(), "/patients/p");
    assert_eq!(&StudyId::new("s".to_string()).uri(), "/studies/s");
    assert_eq!(&InstanceId::new("i".to_string()).uri(), "/instances/i");
}
