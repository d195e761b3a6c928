//! The series filter.

use blt::dicom::{Series, SeriesStatus};
use blt::filter::{filter_received_series, is_fully_filtered, SeriesDetails};
use blt::ids::{SeriesId, StudyId};

fn series(id: &str, modality: &str, description: &str) -> Series<SeriesDetails> {
    Series {
        expected_number_of_instances: None,
        id: SeriesId::new(id.to_string()),
        instances: Vec::new(),
        is_stable: true,
        labels: Vec::new(),
        last_update: "20250704T010750".to_string(),
        parent_study: StudyId::new("study-1".to_string()),
        status: SeriesStatus::Unknown,
        requested_tags: SeriesDetails {
            series_description: description.to_string(),
            series_instance_uid: format!("1.2.3.{id}"),
            modality: modality.to_string(),
        },
    }
}

#[test]
fn one_matching_series_of_three_is_discarded() {
    let all = vec![
        series("se1", "MR", "SAG MPRAGE 220 FOV"),
        series("se2", "US", "ultrasound sweep"),
        series("se3", "CT", "chest"),
    ];
    let plan = filter_received_series(&all);
    assert_eq!(plan.len(), 1);
    assert_eq!(plan[0].id, SeriesId::new("se2".to_string()));
    assert_eq!(plan[0].tag, "Modality");
    assert_eq!(plan[0].value, "US");
    assert_eq!(plan[0].reason, "ultrasound images should not be uploaded to BLT");
    assert!(!is_fully_filtered(&all, &plan));
}

#[test]
fn all_matching_series_signal_fully_filtered() {
    let all = vec![series("se1", "US", "a"), series("se2", "US", "b")];
    let plan = filter_received_series(&all);
    assert_eq!(plan.len(), 2);
    assert!(is_fully_filtered(&all, &plan));
}

#[test]
fn nothing_is_discarded_without_a_match() {
    let all = vec![series("se1", "MR", "a"), series("se2", "CT", "b")];
    let plan = filter_received_series(&all);
    assert!(plan.is_empty());
    assert!(!is_fully_filtered(&all, &plan));
}
