//! Responses from the imaging server's built-in API, as plain values.
//!
//! The host performs the actual call and hands the outcome over: the code
//! the call returned, the HTTP status when the call carries one, and the
//! body as it was parsed. Classifying that outcome — which codes and
//! statuses mean success, and which error is reported otherwise — is this
//! module's verified logic.

use vstd::prelude::*;

verus! {

/// The body of a response, as the host parsed it.
pub enum ResponseBody<D> {
    /// The server sent no body.
    Missing,
    /// The body could not be parsed as the expected type; the message
    /// says why.
    Malformed(String),
    /// The parsed body.
    Data(D),
}

/// Code denoting an error in a response from the built-in API.
#[derive(Clone, Copy, Debug, PartialEq, Eq, Structural, Hash)]
pub enum ResponseErrorCode {
    /// The call itself returned an unsuccessful code.
    PluginErrorCode(u32),
    /// The call produced an HTTP error status.
    HttpStatus(u16),
    /// The call produced a number that is no HTTP status at all.
    InvalidHttpStatus(u16),
}

/// The code a successful call returns.
pub const CODE_SUCCESS: u32 = 0;

/// Whether `status` lies in the range HTTP statuses occupy.
pub open spec fn spec_status_in_range(status: u16) -> bool {
    100 <= status < 1000
}

/// Whether `status` reports success.
pub open spec fn spec_status_is_success(status: u16) -> bool {
    200 <= status < 300
}

/// The outcome of checking a call's code and HTTP status: the code must
/// be the success code, and the status, when present, must be a success
/// status.
pub open spec fn spec_check_error_code(code: u32, status: Option<u16>) -> Result<
    (),
    ResponseErrorCode,
> {
    if code != CODE_SUCCESS {
        Err(ResponseErrorCode::PluginErrorCode(code))
    } else {
        match status {
            Some(s) => if !spec_status_in_range(s) {
                Err(ResponseErrorCode::InvalidHttpStatus(s))
            } else if spec_status_is_success(s) {
                Ok(())
            } else {
                Err(ResponseErrorCode::HttpStatus(s))
            },
            None => Ok(()),
        }
    }
}

/// A response from the built-in API.
pub struct RestResponse<D> {
    /// Code returned by the call; zero is success.
    pub code: u32,
    /// The URI the call was made against, kept for error reports.
    pub uri: String,
    /// HTTP status, available only when the call carries one.
    pub status: Option<u16>,
    /// The body, as the host parsed it.
    pub body: ResponseBody<D>,
}

/// An error calling the built-in API with a JSON response.
#[derive(Debug)]
pub struct JsonResponseError {
    pub uri: String,
    pub kind: JsonResponseErrorKind,
}

/// Error kind for [`JsonResponseError`].
#[derive(Debug)]
pub enum JsonResponseErrorKind {
    /// The request body could not be serialized; the message says why.
    Serialization(String),
    /// The response body could not be parsed; the message says why.
    Deserialization(String),
    /// The server sent no response body.
    NoResponse,
    /// The response parsed, but not as the expected type.
    UnexpectedJson(String),
    /// The response parsed as the expected type but its content is
    /// unusable for the stated reason.
    BadValue(&'static str),
}

impl JsonResponseError {
    /// An error of kind [`JsonResponseErrorKind::Deserialization`].
    pub fn deserialization(uri: String, message: String) -> (r: Self)
        ensures
            r.uri == uri,
            r.kind == JsonResponseErrorKind::Deserialization(message),
    {
        JsonResponseError { uri, kind: JsonResponseErrorKind::Deserialization(message) }
    }

    /// An error of kind [`JsonResponseErrorKind::NoResponse`].
    pub fn no_response(uri: String) -> (r: Self)
        ensures
            r.uri == uri,
            r.kind == JsonResponseErrorKind::NoResponse,
    {
        JsonResponseError { uri, kind: JsonResponseErrorKind::NoResponse }
    }
}

/// Error from a call whose response is checked and then parsed.
#[derive(Debug)]
pub enum ResponseError {
    Code(ResponseErrorCode),
    Json(JsonResponseError),
}

impl<D> RestResponse<D> {
    /// Wrap a call's outcome. The status is set separately, by the one
    /// transport that carries it.
    pub fn new(uri: String, code: u32, body: ResponseBody<D>) -> (r: Self)
        ensures
            r.uri == uri,
            r.code == code,
            r.body == body,
            r.status is None,
    {
        RestResponse { code, uri, status: None, body }
    }

    /// Set the HTTP status of this response.
    pub fn with_status(self, status: u16) -> (r: Self)
        ensures
            r.uri == self.uri,
            r.code == self.code,
            r.body == self.body,
            r.status == Some(status),
    {
        RestResponse { status: Some(status), ..self }
    }

    /// Returns the error this response's code and status denote, if any.
    pub fn check_error_code(&self) -> (r: Result<(), ResponseErrorCode>)
        ensures
            r == spec_check_error_code(self.code, self.status),
    {
        if self.code != CODE_SUCCESS {
            Err(ResponseErrorCode::PluginErrorCode(self.code))
        } else if let Some(status) = self.status {
            if status < 100 || status >= 1000 {
                Err(ResponseErrorCode::InvalidHttpStatus(status))
            } else if 200 <= status && status < 300 {
                Ok(())
            } else {
                Err(ResponseErrorCode::HttpStatus(status))
            }
        } else {
            Ok(())
        }
    }

    /// The parsed body, if the server sent one.
    pub open spec fn spec_data(self) -> Option<D> {
        match self.body {
            ResponseBody::Data(d) => Some(d),
            _ => None,
        }
    }

    /// Get the data from the response: the parse error or the absence of
    /// a body becomes a [`JsonResponseError`] naming the URI.
    pub fn data(self) -> (r: Result<D, JsonResponseError>)
        ensures
            match self.body {
                ResponseBody::Data(d) => r == Ok::<D, JsonResponseError>(d),
                ResponseBody::Missing => r matches Err(e) && e.uri == self.uri && e.kind
                    == JsonResponseErrorKind::NoResponse,
                ResponseBody::Malformed(m) => r matches Err(e) && e.uri == self.uri && e.kind
                    == JsonResponseErrorKind::Deserialization(m),
            },
    {
        match self.body {
            ResponseBody::Data(d) => Ok(d),
            ResponseBody::Missing => Err(JsonResponseError::no_response(self.uri)),
            ResponseBody::Malformed(m) => Err(JsonResponseError::deserialization(self.uri, m)),
        }
    }

    /// Returns the parsed body. The caller must know the server sent one.
    pub fn unwrap(self) -> (r: D)
        requires
            self.body is Data,
        ensures
            Some(r) == self.spec_data(),
    {
        match self.body {
            ResponseBody::Data(d) => d,
            _ => vstd::pervasive::unreached(),
        }
    }

    /// Check the error code, then get the data.
    pub fn ok_data(self) -> (r: Result<D, ResponseError>)
        ensures
            spec_check_error_code(self.code, self.status) matches Err(c) ==> r matches Err(e) && e
                == ResponseError::Code(c),
            spec_check_error_code(self.code, self.status) is Ok ==> match self.body {
                ResponseBody::Data(d) => r == Ok::<D, ResponseError>(d),
                ResponseBody::Missing => r matches Err(e) && e matches ResponseError::Json(j)
                    && j.uri == self.uri && j.kind == JsonResponseErrorKind::NoResponse,
                ResponseBody::Malformed(m) => r matches Err(e) && e matches ResponseError::Json(j)
                    && j.uri == self.uri && j.kind == JsonResponseErrorKind::Deserialization(m),
            },
    {
        match self.check_error_code() {
            Ok(()) => match self.data() {
                Ok(d) => Ok(d),
                Err(e) => Err(ResponseError::Json(e)),
            },
            Err(c) => Err(ResponseError::Code(c)),
        }
    }
}

/// Data which might be of the expected type, or any other JSON the server
/// chose to send (kept as raw text).
pub enum Possibly<T> {
    /// Typed data.
    Typed(T),
    /// Untyped data.
    Other(String),
}

impl<T> Possibly<T> {
    /// Borrow the typed value.
    pub fn typed(&self) -> (r: Option<&T>)
        ensures
            match r {
                Some(t) => *self matches Possibly::Typed(v) && *t == v,
                None => *self matches Possibly::Other(_),
            },
    {
        if let Possibly::Typed(x) = &self {
            Some(x)
        } else {
            None
        }
    }

    /// Obtain the typed value, dropping anything untyped.
    pub fn into_typed(self) -> (r: Option<T>)
        ensures
            match r {
                Some(t) => self == Possibly::Typed(t),
                None => self matches Possibly::Other(_),
            },
    {
        if let Possibly::Typed(x) = self {
            Some(x)
        } else {
            None
        }
    }
}

/// The outcome of a POST with a JSON body: either the response, or the
/// request body never serialized (with the message saying why).
pub struct PostJsonResponse<T> {
    pub uri: String,
    pub result: Result<RestResponse<Possibly<T>>, String>,
}

impl<T> PostJsonResponse<T> {
    pub fn new(uri: String, result: Result<RestResponse<Possibly<T>>, String>) -> (r: Self)
        ensures
            r.uri == uri,
            r.result == result,
    {
        PostJsonResponse { uri, result }
    }

    /// The typed value carried by a well-formed response, if any.
    pub open spec fn spec_typed(self) -> Option<T> {
        match self.result {
            Ok(res) => match res.body {
                ResponseBody::Data(Possibly::Typed(t)) => Some(t),
                _ => None,
            },
            Err(_) => None,
        }
    }

    /// Apply `f` to the typed value after handling every transport and
    /// parse error. When `f` rejects the value, it returns it together
    /// with a reason, which becomes the error's kind.
    pub fn and_then<U, F: FnOnce(T) -> Result<U, (T, &'static str)>>(self, f: F) -> (r: Result<
        U,
        JsonResponseError,
    >)
        requires
            forall|t: T| self.spec_typed() == Some(t) ==> call_requires(f, (t,)),
        ensures
            self.spec_typed() is None ==> (r matches Err(e) && e.uri == self.uri),
            self.spec_typed() matches Some(t) ==> match r {
                Ok(u) => call_ensures(f, (t,), Ok(u)),
                Err(e) => e.uri == self.uri && exists|v: T, reason: &'static str|
                    e.kind == JsonResponseErrorKind::BadValue(reason) && call_ensures(
                        f,
                        (t,),
                        Err((v, reason)),
                    ),
            },
            self.result matches Err(m) ==> r matches Err(e) && e.kind
                == JsonResponseErrorKind::Serialization(m),
            self.result matches Ok(res) ==> match res.body {
                ResponseBody::Missing => r matches Err(e) && e.kind
                    == JsonResponseErrorKind::NoResponse,
                ResponseBody::Malformed(m) => r matches Err(e) && e.kind
                    == JsonResponseErrorKind::Deserialization(m),
                ResponseBody::Data(Possibly::Other(v)) => r matches Err(e) && e.kind
                    == JsonResponseErrorKind::UnexpectedJson(v),
                ResponseBody::Data(Possibly::Typed(_)) => true,
            },
    {
        let ghost typed = self.spec_typed();
        let uri = self.uri;
        match self.result {
            Err(m) => Err(
                JsonResponseError { uri, kind: JsonResponseErrorKind::Serialization(m) },
            ),
            Ok(res) => match res.body {
                ResponseBody::Missing => Err(
                    JsonResponseError { uri, kind: JsonResponseErrorKind::NoResponse },
                ),
                ResponseBody::Malformed(m) => Err(
                    JsonResponseError { uri, kind: JsonResponseErrorKind::Deserialization(m) },
                ),
                ResponseBody::Data(Possibly::Other(v)) => Err(
                    JsonResponseError { uri, kind: JsonResponseErrorKind::UnexpectedJson(v) },
                ),
                ResponseBody::Data(Possibly::Typed(t)) => match f(t) {
                    Ok(u) => Ok(u),
                    Err((_rejected, reason)) => Err(
                        JsonResponseError { uri, kind: JsonResponseErrorKind::BadValue(reason) },
                    ),
                },
            },
        }
    }

    /// Obtain the typed value; every other outcome becomes a
    /// [`JsonResponseError`] naming the URI.
    pub fn into_result(self) -> (r: Result<T, JsonResponseError>)
        ensures
            match self.spec_typed() {
                Some(t) => r == Ok::<T, JsonResponseError>(t),
                None => r matches Err(e) && e.uri == self.uri,
            },
            self.result matches Err(m) ==> r matches Err(e) && e.kind
                == JsonResponseErrorKind::Serialization(m),
            self.result matches Ok(res) ==> match res.body {
                ResponseBody::Missing => r matches Err(e) && e.kind
                    == JsonResponseErrorKind::NoResponse,
                ResponseBody::Malformed(m) => r matches Err(e) && e.kind
                    == JsonResponseErrorKind::Deserialization(m),
                ResponseBody::Data(Possibly::Other(v)) => r matches Err(e) && e.kind
                    == JsonResponseErrorKind::UnexpectedJson(v),
                ResponseBody::Data(Possibly::Typed(_)) => r is Ok,
            },
    {
        match self.result {
            Err(m) => Err(
                JsonResponseError { uri: self.uri, kind: JsonResponseErrorKind::Serialization(m) },
            ),
            Ok(res) => match res.body {
                ResponseBody::Missing => Err(
                    JsonResponseError { uri: self.uri, kind: JsonResponseErrorKind::NoResponse },
                ),
                ResponseBody::Malformed(m) => Err(
                    JsonResponseError {
                        uri: self.uri,
                        kind: JsonResponseErrorKind::Deserialization(m),
                    },
                ),
                ResponseBody::Data(Possibly::Other(v)) => Err(
                    JsonResponseError {
                        uri: self.uri,
                        kind: JsonResponseErrorKind::UnexpectedJson(v),
                    },
                ),
                ResponseBody::Data(Possibly::Typed(t)) => Ok(t),
            },
        }
    }
}

} // verus!
