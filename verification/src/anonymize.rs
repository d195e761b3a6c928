//! The anonymization request builder: a pure function from a workflow
//! instance to the request the host posts to the imaging server.
//!
//! The request never keeps the original copy, force-overwrites protected
//! fields (required to replace the patient identifier), replaces the four
//! identifying tags with the instance's de-identified values, keeps the
//! descriptive tags verbatim, and is always executed asynchronously.

use crate::models::BltStudy;
use vstd::prelude::*;

verus! {

/// The explicit tag replacements of an anonymization request.
pub struct AnonymizeReplacements {
    pub patient_id: String,
    pub patient_name: String,
    pub patient_birth_date: String,
    pub accession_number: String,
}

/// An anonymization request for one study.
pub struct AnonymizeRequest {
    /// Never keep the original (unanonymized) copy.
    pub keep_source: bool,
    /// Force-overwrite protected fields such as the patient identifier.
    pub force: bool,
    /// Execute as an asynchronous job.
    pub asynchronous: bool,
    /// De-identified values for the identifying tags.
    pub replace: AnonymizeReplacements,
    /// Non-identifying descriptive tags retained verbatim.
    pub keep: Vec<&'static str>,
}

/// Build the anonymization request for a recorded workflow instance.
pub fn build_anonymization_request(study: &BltStudy) -> (r: AnonymizeRequest)
    ensures
        !r.keep_source,
        r.force,
        r.asynchronous,
        r.replace.patient_id == study.anon_patient_id,
        r.replace.patient_name == study.anon_patient_name,
        r.replace.patient_birth_date@ == study.anon_patient_birth_date@,
        r.replace.accession_number == study.anon_accession_number,
        r.keep@.len() == 2,
        r.keep@[0]@ == "StudyDescription"@,
        r.keep@[1]@ == "SeriesDescription"@,
{
    let mut keep: Vec<&'static str> = Vec::new();
    keep.push("StudyDescription");
    keep.push("SeriesDescription");
    AnonymizeRequest {
        keep_source: false,
        force: true,
        asynchronous: true,
        replace: AnonymizeReplacements {
            patient_id: study.anon_patient_id.clone(),
            patient_name: study.anon_patient_name.clone(),
            patient_birth_date: study.anon_patient_birth_date.clone().into_inner(),
            accession_number: study.anon_accession_number.clone(),
        },
        keep,
    }
}

} // verus!
