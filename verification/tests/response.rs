//! Classification of responses from the built-in API.

use blt::response::{
    JsonResponseErrorKind, Possibly, PostJsonResponse, ResponseBody, ResponseError,
    ResponseErrorCode, RestResponse,
};

fn response(code: u32, body: ResponseBody<u32>) -> RestResponse<u32> {
    RestResponse::new("/jobs/j".to_string(), code, body)
}

#[test]
fn unsuccessful_code_is_reported() {
    let r = response(7, ResponseBody::Missing);
    assert_eq!(r.check_error_code(), Err(ResponseErrorCode::PluginErrorCode(7)));
}

#[test]
fn success_without_status_passes() {
    let r = response(0, ResponseBody::Missing);
    assert_eq!(r.check_error_code(), Ok(()));
}

#[test]
fn http_statuses_are_classified() {
    let r = response(0, ResponseBody::Missing).with_status(204);
    assert_eq!(r.check_error_code(), Ok(()));
    let r = response(0, ResponseBody::Missing).with_status(404);
    assert_eq!(r.check_error_code(), Err(ResponseErrorCode::HttpStatus(404)));
    let r = response(0, ResponseBody::Missing).with_status(99);
    assert_eq!(r.check_error_code(), Err(ResponseErrorCode::InvalidHttpStatus(99)));
    let r = response(0, ResponseBody::Missing).with_status(1000);
    assert_eq!(r.check_error_code(), Err(ResponseErrorCode::InvalidHttpStatus(1000)));
}

#[test]
fn data_distinguishes_missing_and_malformed_bodies() {
    assert_eq!(response(0, ResponseBody::Data(5)).data().unwrap(), 5);
    let e = response(0, ResponseBody::Missing).data().unwrap_err();
    assert!(matches!(e.kind, JsonResponseErrorKind::NoResponse));
    assert_eq!(e.uri, "/jobs/j");
    let e = response(0, ResponseBody::Malformed("expected a number".to_string()))
        .data()
        .unwrap_err();
    assert!(matches!(e.kind, JsonResponseErrorKind::Deserialization(_)));
}

#[test]
fn ok_data_checks_the_code_first() {
    let r = response(7, ResponseBody::Data(5)).ok_data();
    assert!(matches!(
        r,
        Err(ResponseError::Code(ResponseErrorCode::PluginErrorCode(7)))
    ));
    let r = response(0, ResponseBody::Data(5)).ok_data();
    assert_eq!(r.ok(), Some(5));
}

#[test]
fn unwrap_returns_the_parsed_body() {
    assert_eq!(response(0, ResponseBody::Data(5)).unwrap(), 5);
}

#[test]
fn typed_values_are_extracted() {
    let p: Possibly<u32> = Possibly::Typed(5);
    assert_eq!(p.typed(), Some(&5));
    assert_eq!(p.into_typed(), Some(5));
    let p: Possibly<u32> = Possibly::Other("[1,2]".to_string());
    assert_eq!(p.typed(), None);
    assert_eq!(p.into_typed(), None);
}

fn post(result: Result<RestResponse<Possibly<u32>>, String>) -> PostJsonResponse<u32> {
    PostJsonResponse::new("/tools/find".to_string(), result)
}

#[test]
fn into_result_reports_each_failure_kind() {
    let e = post(Err("cyclic value".to_string())).into_result().unwrap_err();
    assert!(matches!(e.kind, JsonResponseErrorKind::Serialization(_)));
    let e = post(Ok(RestResponse::new("/tools/find".to_string(), 0, ResponseBody::Missing)))
        .into_result()
        .unwrap_err();
    assert!(matches!(e.kind, JsonResponseErrorKind::NoResponse));
    let e = post(Ok(RestResponse::new(
        "/tools/find".to_string(),
        0,
        ResponseBody::Data(Possibly::Other("{}".to_string())),
    )))
    .into_result()
    .unwrap_err();
    assert!(matches!(e.kind, JsonResponseErrorKind::UnexpectedJson(_)));
    let v = post(Ok(RestResponse::new(
        "/tools/find".to_string(),
        0,
        ResponseBody::Data(Possibly::Typed(5)),
    )))
    .into_result();
    assert_eq!(v.ok(), Some(5));
}

#[test]
fn and_then_applies_the_check_to_the_typed_value() {
    let ok = post(Ok(RestResponse::new(
        "/tools/find".to_string(),
        0,
        ResponseBody::Data(Possibly::Typed(5)),
    )))
    .and_then(|v| if v > 3 { Ok(v * 2) } else { Err((v, "too small")) });
    assert_eq!(ok.ok(), Some(10));
    let e = post(Ok(RestResponse::new(
        "/tools/find".to_string(),
        0,
        ResponseBody::Data(Possibly::Typed(1)),
    )))
    .and_then(|v| if v > 3 { Ok(v * 2) } else { Err((v, "too small")) })
    .unwrap_err();
    assert!(matches!(e.kind, JsonResponseErrorKind::BadValue("too small")));
}
