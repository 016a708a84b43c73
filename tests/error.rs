use ftl::{BaseError, DynError, InvalidParameter, SupportedMethod};

#[test]
fn fixed_status_mapping() {
    let param = InvalidParameter { name: "page".to_string(), value: Some("x".to_string()) };
    let cases = vec![
        (BaseError::NotFound, 404),
        (BaseError::method_not_allowed(), 405),
        (BaseError::RequestTimeout, 408),
        (BaseError::LengthRequired, 411),
        (BaseError::PayloadTooLarge, 413),
        (BaseError::UnsupportedMediaType, 415),
        (BaseError::BodyNotUtf8, 400),
        (BaseError::InvalidParameter { query: vec![param], header: vec![] }, 400),
        (BaseError::Other(DynError { status: 503, error: None }), 503),
    ];
    for (e, status) in cases {
        assert_eq!(e.status(), status);
    }
}

#[test]
fn allow_header_only_for_method_not_allowed() {
    assert_eq!(
        BaseError::method_not_allowed().allow_header().as_deref(),
        Some(SupportedMethod::ALLOW_HEADER)
    );
    assert_eq!(BaseError::NotFound.allow_header(), None);
    let partial = BaseError::MethodNotAllowed { allowed: vec![SupportedMethod::Get, SupportedMethod::Head] };
    assert_eq!(partial.allow_header().as_deref(), Some("GET, HEAD"));
}

#[test]
fn wire_round_trip_keeps_status_and_message() {
    let e = DynError::from_wire(418, Some("teapot".to_string())).unwrap();
    let (status, error) = e.to_wire();
    assert_eq!(status, 418);
    assert_eq!(error.as_deref(), Some("teapot"));
    let back = DynError::from_wire(status, error).unwrap();
    assert_eq!(back.status, 418);
    assert_eq!(back.error.as_deref(), Some("teapot"));
}

#[test]
fn wire_envelope_with_bad_status_is_refused() {
    let value: serde_json::Value = serde_json::from_str("{\"status\": 9999}").unwrap();
    let status = value.get("status").and_then(|s| s.as_u64()).unwrap() as u16;
    let err = DynError::from_wire(status, None).unwrap_err();
    assert_eq!(err.status, 9999);
    assert!(DynError::from_wire(99, None).is_err());
    assert!(DynError::from_wire(1000, None).is_err());
    assert!(DynError::from_wire(100, None).is_ok());
    assert!(DynError::from_wire(999, None).is_ok());
}

#[test]
fn dyn_error_message() {
    let e = DynError { status: 418, error: Some("teapot".to_string()) };
    assert_eq!(e.message(), "418 I'm a teapot - teapot");
    let e = DynError { status: 500, error: None };
    assert_eq!(e.message(), "500 Internal Server Error");
    let e = DynError { status: 599, error: None };
    assert_eq!(e.message(), "599 <unknown status code>");
}

#[test]
fn base_error_messages() {
    assert_eq!(BaseError::NotFound.message(), "404 Not Found");
    assert_eq!(BaseError::PayloadTooLarge.message(), "413 Payload Too Large");
    assert_eq!(BaseError::BodyNotUtf8.message(), "Failed to decode request body as UTF-8");
    let other = BaseError::Other(DynError { status: 500, error: Some("disk".to_string()) });
    assert_eq!(other.message(), "Other error - 500 Internal Server Error - disk");
}
