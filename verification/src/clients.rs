//! Clients for the imaging server's built-in API.
//!
//! The host process owns the transport; a client here does not perform a
//! call. Each method returns the request to make — the exact URI, and the
//! body where there is one — and the host performs it and brings the
//! response back as the types of [`crate::response`].

use crate::anonymize::AnonymizeRequest;
use crate::ids::{JobId, QueryId, SeriesId, StudyId};
use crate::response::{JsonResponseError, JsonResponseErrorKind, PostJsonResponse};
use vstd::prelude::*;
use vstd::string::{StrSliceExecFns, StringExecFns};

verus! {

/// A GET request against the built-in API.
pub struct ApiGet {
    pub uri: String,
}

/// A DELETE request against the built-in API.
pub struct ApiDelete {
    pub uri: String,
}

/// A POST request against the built-in API, with its body.
pub struct ApiPost<B> {
    pub uri: String,
    pub body: B,
}

/// The root of the client family. It holds no transport: the host does.
#[derive(Clone, Copy)]
pub struct BaseClient {}

impl BaseClient {
    pub fn new() -> (r: Self) {
        BaseClient {}
    }
}

/// Client for DICOM resources (patients, studies, series, instances).
#[derive(Clone, Copy)]
pub struct DicomClient {
    base: BaseClient,
}

/// The find request posted to locate the series of a study.
pub struct ToolsFindRequest {
    pub case_sensitive: bool,
    pub expand: bool,
    pub level: &'static str,
    pub response_content: &'static str,
    pub study_instance_uid: String,
}

impl DicomClient {
    pub fn new() -> (r: Self) {
        DicomClient { base: BaseClient::new() }
    }

    /// Request for a series with the tags the series filter reads.
    pub fn get_series_details(&self, id: &SeriesId) -> (r: ApiGet)
        ensures
            r.uri@ == "/series/"@ + id@
                + "?requested-tags=Modality;SeriesDescription;SeriesInstanceUID"@,
    {
        let mut uri = id.uri();
        uri.append("?requested-tags=Modality;SeriesDescription;SeriesInstanceUID");
        ApiGet { uri }
    }

    /// Request for a study's accession number.
    pub fn get_study_accession(&self, id: &StudyId) -> (r: ApiGet)
        ensures
            r.uri@ == "/studies/"@ + id@ + "?requested-tags=AccessionNumber"@,
    {
        let mut uri = id.uri();
        uri.append("?requested-tags=AccessionNumber");
        ApiGet { uri }
    }

    /// Request to find the study with this study instance identifier,
    /// expanded with its child series.
    pub fn find(&self, study_instance_uid: String) -> (r: ApiPost<ToolsFindRequest>)
        ensures
            r.uri@ == "/tools/find"@,
            !r.body.case_sensitive,
            r.body.expand,
            r.body.level@ == "Study"@,
            r.body.response_content@ == "Children"@,
            r.body.study_instance_uid == study_instance_uid,
    {
        ApiPost {
            uri: String::from_str("/tools/find"),
            body: ToolsFindRequest {
                case_sensitive: false,
                expand: true,
                level: "Study",
                response_content: "Children",
                study_instance_uid,
            },
        }
    }

    /// Request to anonymize a study, always as an asynchronous job.
    pub fn anonymize(&self, id: &StudyId, request: AnonymizeRequest) -> (r: ApiPost<
        AnonymizeRequest,
    >)
        ensures
            r.uri@ == "/studies/"@ + id@ + "/anonymize"@,
            r.body.asynchronous,
            r.body.keep_source == request.keep_source,
            r.body.force == request.force,
            r.body.replace == request.replace,
            r.body.keep == request.keep,
    {
        let mut uri = id.uri();
        uri.append("/anonymize");
        ApiPost {
            uri,
            body: AnonymizeRequest {
                asynchronous: true,
                keep_source: request.keep_source,
                force: request.force,
                replace: request.replace,
                keep: request.keep,
            },
        }
    }
}

/// Client for non-DICOM resources such as jobs, and for deletions.
#[derive(Clone, Copy)]
pub struct GeneralClient {
    base: BaseClient,
}

impl GeneralClient {
    pub fn new() -> (r: Self) {
        GeneralClient { base: BaseClient::new() }
    }

    /// Request for the detail of a job.
    pub fn get_job(&self, id: &JobId) -> (r: ApiGet)
        ensures
            r.uri@ == "/jobs/"@ + id@,
    {
        ApiGet { uri: id.uri() }
    }

    /// Request to delete a series.
    pub fn delete_series(&self, id: &SeriesId) -> (r: ApiDelete)
        ensures
            r.uri@ == "/series/"@ + id@,
    {
        ApiDelete { uri: id.uri() }
    }

    /// Request to delete a study.
    pub fn delete_study(&self, id: &StudyId) -> (r: ApiDelete)
        ensures
            r.uri@ == "/studies/"@ + id@,
    {
        ApiDelete { uri: id.uri() }
    }
}

/// Client for the jobs API.
#[derive(Clone, Copy)]
pub struct JobsClient {
    base: BaseClient,
}

impl JobsClient {
    pub fn new() -> (r: Self) {
        JobsClient { base: BaseClient::new() }
    }

    /// Request for the detail of a job.
    pub fn get(&self, id: &JobId) -> (r: ApiGet)
        ensures
            r.uri@ == "/jobs/"@ + id@,
    {
        ApiGet { uri: id.uri() }
    }
}

/// The query posted to search a remote modality for a study.
pub struct ModalityQueryRequest {
    pub level: &'static str,
    pub accession_number: String,
}

/// The request posted to retrieve studies from a remote modality.
pub struct CMoveRequest {
    pub asynchronous: bool,
    pub level: &'static str,
    pub study_instance_uids: Vec<String>,
}

/// Client for the networking API of remote modalities.
#[derive(Clone, Copy)]
pub struct ModalitiesClient {
    base: BaseClient,
}

impl ModalitiesClient {
    pub fn new() -> (r: Self) {
        ModalitiesClient { base: BaseClient::new() }
    }

    /// Request for the names of the configured remote modalities.
    pub fn list_modalities(&self) -> (r: ApiGet)
        ensures
            r.uri@ == "/modalities"@,
    {
        ApiGet { uri: String::from_str("/modalities") }
    }

    /// Request to query a modality for a study by accession number.
    pub fn query_study(&self, modality: &str, accession_number: String) -> (r: ApiPost<
        ModalityQueryRequest,
    >)
        ensures
            r.uri@ == "/modalities/"@ + modality@ + "/query"@,
            r.body.level@ == "Study"@,
            r.body.accession_number == accession_number,
    {
        let mut uri = String::from_str("/modalities/");
        uri.append(modality);
        uri.append("/query");
        ApiPost { uri, body: ModalityQueryRequest { level: "Study", accession_number } }
    }

    /// Request to start a retrieve (C-MOVE) job against a modality.
    pub fn c_move(&self, modality: &str, request: CMoveRequest) -> (r: ApiPost<CMoveRequest>)
        ensures
            r.uri@ == "/modalities/"@ + modality@ + "/move"@,
            r.body == request,
    {
        let mut uri = String::from_str("/modalities/");
        uri.append(modality);
        uri.append("/move");
        ApiPost { uri, body: request }
    }

    /// Request to move the given studies from a modality to this server,
    /// as an asynchronous job.
    pub fn c_move_studies(&self, modality: &str, study_uids: Vec<String>) -> (r: ApiPost<
        CMoveRequest,
    >)
        ensures
            r.uri@ == "/modalities/"@ + modality@ + "/move"@,
            r.body.asynchronous,
            r.body.level@ == "Study"@,
            r.body.study_instance_uids == study_uids,
    {
        self.c_move(
            modality,
            CMoveRequest { asynchronous: true, level: "Study", study_instance_uids: study_uids },
        )
    }
}

/// The request posted to send local resources to a peer.
pub struct StoreRequest {
    pub asynchronous: bool,
    pub compress: bool,
    pub resources: Vec<String>,
}

/// Client for the peers API.
#[derive(Clone, Copy)]
pub struct PeersClient {
    base: BaseClient,
}

impl PeersClient {
    pub fn new() -> (r: Self) {
        PeersClient { base: BaseClient::new() }
    }

    /// Request for the names of the configured peers.
    pub fn list(&self) -> (r: ApiGet)
        ensures
            r.uri@ == "/peers"@,
    {
        ApiGet { uri: String::from_str("/peers") }
    }

    /// Request to send resources to a peer, exactly as given.
    pub fn store_request(&self, peer: &str, request: StoreRequest) -> (r: ApiPost<StoreRequest>)
        ensures
            r.uri@ == "/peers/"@ + peer@ + "/store"@,
            r.body == request,
    {
        let mut uri = String::from_str("/peers/");
        uri.append(peer);
        uri.append("/store");
        ApiPost { uri, body: request }
    }

    /// Request to send resources to a peer as an asynchronous job.
    pub fn store(&self, peer: &str, request: StoreRequest) -> (r: ApiPost<StoreRequest>)
        ensures
            r.uri@ == "/peers/"@ + peer@ + "/store"@,
            r.body.asynchronous,
            r.body.compress == request.compress,
            r.body.resources == request.resources,
    {
        self.store_request(
            peer,
            StoreRequest {
                asynchronous: true,
                compress: request.compress,
                resources: request.resources,
            },
        )
    }
}

/// The response data a modality query comes back with; either field may
/// be missing when the server answers with something unexpected.
pub struct MaybeQueryId {
    pub id: Option<String>,
    pub path: Option<String>,
}

/// The request posted to retrieve all answers of a query as a job.
pub struct RetrieveRequest {
    pub asynchronous: bool,
}

/// A successfully created query on a remote modality: its identifier and
/// the path the server assigned to it.
pub struct Query {
    pub id: QueryId,
    pub path: String,
}

impl Query {
    /// Accept the response to a modality query: both the identifier and
    /// the path must be present.
    pub fn try_new(response: PostJsonResponse<MaybeQueryId>) -> (r: Result<
        Query,
        JsonResponseError,
    >)
        ensures
            match response.spec_typed() {
                Some(v) => match (v.id, v.path) {
                    (Some(id), Some(path)) => r matches Ok(q) && q.id@ == id@ && q.path@ == path@,
                    (Some(_), None) => r matches Err(e) && e.uri == response.uri && (e.kind
                        matches JsonResponseErrorKind::BadValue(reason) && reason@
                        == "path is None"@),
                    (None, _) => r matches Err(e) && e.uri == response.uri && (e.kind matches
                        JsonResponseErrorKind::BadValue(reason) && reason@ == "id is None"@),
                },
                None => r matches Err(e) && e.uri == response.uri,
            },
    {
        let uri = response.uri.clone();
        let value = match response.into_result() {
            Ok(v) => v,
            Err(e) => {
                return Err(e);
            },
        };
        match (value.id, value.path) {
            (Some(id), Some(path)) => Ok(Query { id: QueryId::new(id), path }),
            (Some(_), None) => Err(
                JsonResponseError { uri, kind: JsonResponseErrorKind::BadValue("path is None") },
            ),
            (None, _) => Err(
                JsonResponseError { uri, kind: JsonResponseErrorKind::BadValue("id is None") },
            ),
        }
    }

    /// Request for the answers of this query.
    pub fn answers(&self) -> (r: ApiGet)
        ensures
            r.uri@ == self.path@ + "/answers"@,
    {
        let mut uri = self.path.clone();
        uri.append("/answers");
        ApiGet { uri }
    }

    /// Request to retrieve the answers of this query, exactly as given.
    pub fn retrieve_raw(&self, request: RetrieveRequest) -> (r: ApiPost<RetrieveRequest>)
        ensures
            r.uri@ == self.path@ + "/retrieve"@,
            r.body == request,
    {
        let mut uri = self.path.clone();
        uri.append("/retrieve");
        ApiPost { uri, body: request }
    }

    /// Request to retrieve the answers of this query as an asynchronous
    /// job.
    pub fn request_retrieve_job(&self) -> (r: ApiPost<RetrieveRequest>)
        ensures
            r.uri@ == self.path@ + "/retrieve"@,
            r.body.asynchronous,
    {
        self.retrieve_raw(RetrieveRequest { asynchronous: true })
    }
}

} // verus!
