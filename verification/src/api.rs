//! The submission path: routing of the host's HTTP endpoint and the
//! query-and-retrieve plan for a submitted study request.
//!
//! A `GET` lists the recorded instances; a `POST` carries a study request
//! which, once validated, is searched for on the first configured remote
//! modality. When the query finds the study, its answers are retrieved as
//! an asynchronous job, and the instance is recorded in the store with
//! the query and retrieve identifiers.

use crate::clients::{ApiPost, ModalitiesClient, ModalityQueryRequest, Query, RetrieveRequest};
use crate::error::ConfigurationError;
use crate::models::BltStudy;
use vstd::prelude::*;
use vstd::string::StringExecFns;

verus! {

/// HTTP method of a request to the host's endpoint.
#[derive(Clone, Copy, Debug, PartialEq, Eq, Structural, Hash)]
pub enum Method {
    Get,
    Post,
    Put,
    Delete,
}

/// What to do with a request to the endpoint.
pub enum RouteDecision {
    /// Report every recorded instance.
    ListStudies,
    /// Submit this study request.
    Submit(BltStudy),
    /// A POST without a body is rejected.
    BadRequest,
    /// Only GET and POST are served.
    MethodNotAllowed,
}

/// Route a request: GET lists, POST with a body submits.
pub fn route_http_request(method: Method, body: Option<BltStudy>) -> (r: RouteDecision)
    ensures
        method == Method::Get ==> r == RouteDecision::ListStudies,
        method == Method::Post ==> match body {
            Some(study) => r == RouteDecision::Submit(study),
            None => r == RouteDecision::BadRequest,
        },
        method == Method::Put || method == Method::Delete ==> r == RouteDecision::MethodNotAllowed,
{
    match method {
        Method::Get => RouteDecision::ListStudies,
        Method::Post => match body {
            Some(study) => RouteDecision::Submit(study),
            None => RouteDecision::BadRequest,
        },
        Method::Put => RouteDecision::MethodNotAllowed,
        Method::Delete => RouteDecision::MethodNotAllowed,
    }
}

/// The modality to query: the first one the host is configured with.
/// Without one, no submission can be served.
pub fn first_modality(modalities: &Vec<String>) -> (r: Result<&String, ConfigurationError>)
    ensures
        r is Ok <==> modalities@.len() > 0,
        r matches Ok(m) ==> *m == modalities@[0],
        r is Err ==> r == Err::<&String, ConfigurationError>(ConfigurationError::NoModalities),
{
    if modalities.len() == 0 {
        Err(ConfigurationError::NoModalities)
    } else {
        Ok(&modalities[0])
    }
}

/// The query posted to search the modality for the submitted study by
/// its accession number.
pub fn plan_submission_query(modality: &str, study: &BltStudy) -> (r: ApiPost<
    ModalityQueryRequest,
>)
    ensures
        r.uri@ == "/modalities/"@ + modality@ + "/query"@,
        r.body.level@ == "Study"@,
        r.body.accession_number@ == study.accession_number@,
{
    let client = ModalitiesClient::new();
    client.query_study(modality, String::from_str(study.accession_number.as_str()))
}

/// The step after the query's answers arrived.
pub enum SubmissionStep {
    /// The source system has no matching study; the submission reports
    /// no content and nothing is recorded.
    NoMatch,
    /// Retrieve the answers as an asynchronous job, then record the
    /// instance with the query and retrieve identifiers.
    Retrieve(ApiPost<RetrieveRequest>),
}

/// Decide the step after the query answered: no answers means no match,
/// otherwise the retrieve job is requested.
pub fn submission_after_answers(query: &Query, answer_count: usize) -> (r: SubmissionStep)
    ensures
        answer_count == 0 ==> r == SubmissionStep::NoMatch,
        answer_count > 0 ==> (r matches SubmissionStep::Retrieve(p) && p.uri@ == query.path@
            + "/retrieve"@ && p.body.asynchronous),
{
    if answer_count == 0 {
        SubmissionStep::NoMatch
    } else {
        SubmissionStep::Retrieve(query.request_retrieve_job())
    }
}

} // verus!
