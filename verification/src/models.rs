//! Identity and value types of a workflow instance.

use crate::dicom_date::DicomDate;
use crate::error::ValidationError;
use vstd::prelude::*;

verus! {

/// A DICOM accession number: the external identifier correlating a workflow
/// instance with a study on the source system. Never empty.
#[derive(Debug, PartialEq, Eq, Hash)]
pub struct AccessionNumber {
    text: String,
}

impl View for AccessionNumber {
    type V = Seq<char>;

    closed spec fn view(&self) -> Seq<char> {
        self.text@
    }
}

impl Clone for AccessionNumber {
    fn clone(&self) -> (r: Self)
        ensures
            r == *self,
    {
        AccessionNumber { text: self.text.clone() }
    }
}

impl AccessionNumber {
    /// Every value of this type is non-empty.
    pub open spec fn wf(&self) -> bool {
        self@.len() > 0
    }

    /// Accept any non-empty string; reject the empty one.
    pub fn try_new(s: String) -> (r: Result<AccessionNumber, ValidationError>)
        ensures
            r is Ok <==> s@.len() > 0,
            r matches Ok(a) ==> a@ == s@ && a.wf(),
            r is Err ==> r == Err::<AccessionNumber, ValidationError>(
                ValidationError::EmptyAccessionNumber,
            ),
    {
        if s.as_str().is_empty() {
            Err(ValidationError::EmptyAccessionNumber)
        } else {
            Ok(AccessionNumber { text: s })
        }
    }

    pub fn as_str(&self) -> (r: &str)
        ensures
            r@ == self@,
    {
        self.text.as_str()
    }

    pub fn into_inner(self) -> (r: String)
        ensures
            r@ == self@,
    {
        self.text
    }
}

/// One workflow instance: the identifying fields of the requested study and
/// their de-identified replacements. Immutable once validated.
#[derive(Debug)]
pub struct BltStudy {
    pub patient_id: String,
    pub anon_patient_id: String,
    pub patient_name: String,
    pub anon_patient_name: String,
    pub patient_birth_date: DicomDate,
    pub accession_number: AccessionNumber,
    pub anon_accession_number: String,
    pub anon_patient_birth_date: DicomDate,
}

impl Clone for BltStudy {
    fn clone(&self) -> (r: Self)
        ensures
            r == *self,
    {
        BltStudy {
            patient_id: self.patient_id.clone(),
            anon_patient_id: self.anon_patient_id.clone(),
            patient_name: self.patient_name.clone(),
            anon_patient_name: self.anon_patient_name.clone(),
            patient_birth_date: self.patient_birth_date.clone(),
            accession_number: self.accession_number.clone(),
            anon_accession_number: self.anon_accession_number.clone(),
            anon_patient_birth_date: self.anon_patient_birth_date.clone(),
        }
    }
}

impl BltStudy {
    /// The validated fields are well-formed.
    pub open spec fn wf(&self) -> bool {
        &&& self.accession_number.wf()
        &&& self.patient_birth_date.wf()
        &&& self.anon_patient_birth_date.wf()
    }
}

} // verus!
