//! Validation of the identity and date value types.

use blt::dicom_date::DicomDate;
use blt::error::ValidationError;
use blt::models::AccessionNumber;

#[test]
fn empty_accession_number_fails() {
    let r = AccessionNumber::try_new(String::new());
    assert_eq!(r.err(), Some(ValidationError::EmptyAccessionNumber));
}

#[test]
fn nonempty_accession_number_succeeds() {
    let r = AccessionNumber::try_new(String::from("A123"));
    assert!(r.is_ok());
    assert_eq!(r.unwrap().as_str(), "A123");
}

#[test]
fn test_valid() {
    let cases = [
        ("1/2/1989", "19890102"),
        ("10/3/1989", "19891003"),
        ("11/24/1989", "19891124"),
        ("19891124", "19891124"),
    ];
    for (input, expected) in cases {
        let actual = DicomDate::try_new(input);
        assert_eq!(actual.map(|d| d.into_inner()).as_deref(), Ok(expected));
    }
}

#[test]
fn test_invalid() {
    for input in ["", "1234567", "text"] {
        let r = DicomDate::try_new(input);
        assert_eq!(r.err(), Some(ValidationError::MalformedDicomDate));
    }
}
