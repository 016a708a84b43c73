use ftl::SupportedMethod;
use ftl::SupportedMethod::{Delete, Get, Head, Options, Patch, Post, Put};

#[test]
fn supported_method_strum_impl() {
    let fixtures = [
        (Get, "GET"),
        (Post, "POST"),
        (Put, "PUT"),
        (Delete, "DELETE"),
        (Head, "HEAD"),
        (Options, "OPTIONS"),
        (Patch, "PATCH"),
    ];

    for &(method, name) in &fixtures {
        assert_eq!(method.as_str(), name);
        assert_eq!(method.to_string(), name);
    }
}

#[test]
fn classifies_each_supported_token() {
    for m in SupportedMethod::all() {
        assert_eq!(SupportedMethod::new(m.as_str()).unwrap(), m);
    }
}

#[test]
fn rejects_unknown_and_lowercase_tokens() {
    for token in ["TRACE", "CONNECT", "get", "", "BREW"] {
        let err = SupportedMethod::new(token).unwrap_err();
        assert_eq!(err.0, token);
    }
}

#[test]
fn body_exemption_sets() {
    for m in [Get, Delete, Head, Options] {
        assert!(!m.request_has_body());
    }
    for m in [Post, Put, Patch] {
        assert!(m.request_has_body());
    }
    assert!(Head.response_has_body());
    for m in [Get, Post, Put, Delete, Options, Patch] {
        assert!(!m.response_has_body());
    }
}

#[test]
fn all_lists_methods_in_order() {
    assert_eq!(SupportedMethod::all(), vec![Get, Post, Put, Delete, Head, Options, Patch]);
}
