use std::time::Duration;

use ftl::service::{Admission, BodyRead, Builder, Config};
use ftl::{admission, complete, BaseError, OutBuffer, SupportedMethod};

fn unbounded() -> Config {
    Builder::new().configuration()
}

fn bounded(max: usize) -> Config {
    Builder::new().max_reqeust_length(max).configuration()
}

fn rejected_status(a: &Admission) -> u16 {
    match a {
        Admission::Reject(e) => e.status(),
        other => panic!("expected a rejection, got {:?}", other),
    }
}

#[test]
fn unsupported_methods_get_405_with_allow_header() {
    for method in ["TRACE", "CONNECT", "get", "PURGE"] {
        let a = admission(method, Some(b"5".as_slice()), &bounded(1));
        assert_eq!(rejected_status(&a), 405);
        match a {
            Admission::Reject(e) => {
                assert_eq!(e.allow_header().as_deref(), Some("GET, POST, PUT, DELETE, HEAD, OPTIONS, PATCH"));
            }
            _ => unreachable!(),
        }
    }
}

#[test]
fn missing_or_bad_content_length_gets_411() {
    for method in ["POST", "PUT", "PATCH"] {
        assert_eq!(rejected_status(&admission(method, None, &unbounded())), 411);
        for bad in [&b"abc"[..], b"", b"+", b"-5", b"5 ", b"1e3", b"\xff5", b"99999999999999999999999"] {
            assert_eq!(rejected_status(&admission(method, Some(bad), &unbounded())), 411);
        }
    }
}

#[test]
fn plus_signed_length_is_accepted() {
    assert!(matches!(admission("POST", Some(b"+12".as_slice()), &unbounded()), Admission::ReadBody { length: 12 }));
}

#[test]
fn oversized_declared_length_gets_413_without_reading() {
    let mut reads = 0;
    for (limit, declared) in [(4usize, "5"), (0, "1"), (1000, "1001")] {
        let a = admission("PUT", Some(declared.as_bytes()), &bounded(limit));
        if let Admission::ReadBody { .. } = a {
            reads += 1;
        }
        assert_eq!(rejected_status(&a), 413);
        assert!(matches!(a, Admission::Reject(BaseError::PayloadTooLarge)));
    }
    assert_eq!(reads, 0);
    assert!(matches!(admission("PUT", Some(b"4".as_slice()), &bounded(4)), Admission::ReadBody { length: 4 }));
}

#[test]
fn timed_out_read_gets_408() {
    let r = complete(&BodyRead::TimedOut);
    assert!(matches!(r, Err(BaseError::RequestTimeout)));
    assert_eq!(r.unwrap_err().status(), 408);
}

#[test]
fn failed_read_gets_500_with_cause() {
    let read = BodyRead::Failed("connection reset".to_string());
    let r = complete(&read);
    match r {
        Err(BaseError::Other(e)) => {
            assert_eq!(e.status, 500);
            assert_eq!(e.error.as_deref(), Some("connection reset"));
        }
        _ => panic!("expected a type-erased error"),
    }
}

#[test]
fn invalid_utf8_body_gets_400() {
    for bytes in [vec![0xff], vec![b'h', 0xc3], vec![0xed, 0xa0, 0x80]] {
        let read = BodyRead::Complete(bytes);
        let r = complete(&read);
        assert!(matches!(r, Err(BaseError::BodyNotUtf8)));
        assert_eq!(r.unwrap_err().status(), 400);
    }
}

#[test]
fn get_dispatches_with_empty_body_under_any_config() {
    let strict = Builder::new().max_reqeust_length(0).request_read_timeout(Duration::from_millis(1)).configuration();
    for config in [unbounded(), strict] {
        for method in ["GET", "DELETE", "HEAD", "OPTIONS"] {
            assert!(matches!(admission(method, None, &config), Admission::EmptyBody));
            assert!(matches!(admission(method, Some(b"junk".as_slice()), &config), Admission::EmptyBody));
        }
    }
}

#[test]
fn post_hello_reaches_handler() {
    let a = admission("POST", Some(b"5".as_slice()), &unbounded());
    assert!(matches!(a, Admission::ReadBody { length: 5 }));
    let read = BodyRead::Complete(b"hello".to_vec());
    assert_eq!(complete(&read).unwrap(), "hello");
}

#[test]
fn head_response_body_is_suppressed() {
    assert_eq!(ftl::service::response_body("HEAD", "payload".to_string()).take().as_deref(), Some(""));
    assert_eq!(ftl::service::response_body("GET", "payload".to_string()).take().as_deref(), Some("payload"));
    assert_eq!(ftl::service::response_body("BREW", "payload".to_string()).take().as_deref(), Some("payload"));
}

#[test]
fn out_buffer_is_single_shot() {
    let mut b = OutBuffer::from("body".to_string());
    assert!(!b.is_end_stream());
    assert_eq!(b.take().as_deref(), Some("body"));
    assert!(b.is_end_stream());
    assert_eq!(b.take(), None);
    let mut e = OutBuffer::empty();
    assert_eq!(e.take().as_deref(), Some(""));
    assert!(e.is_end_stream());
}

#[test]
fn builder_sets_each_bound() {
    let c = Builder::new().configuration();
    assert_eq!(c.max_request_length, None);
    assert_eq!(c.request_read_timeout, None);
    let c = Builder::new().max_reqeust_length(10).request_read_timeout(Duration::from_secs(3)).configuration();
    assert_eq!(c.max_request_length, Some(10));
    assert_eq!(c.request_read_timeout, Some(Duration::from_secs(3)));
    assert_eq!(SupportedMethod::Post.as_str(), "POST");
}

#[test]
fn handler_input_follows_admission() {
    let none: Option<BodyRead> = None;
    assert_eq!(ftl::handler_input(admission("GET", None, &unbounded()), &none).unwrap(), "");
    let rejected = ftl::handler_input(admission("TRACE", None, &unbounded()), &none).unwrap_err();
    assert_eq!(rejected.status(), 405);
    assert_eq!(rejected.allow_header().as_deref(), Some(SupportedMethod::ALLOW_HEADER));
    let read = Some(BodyRead::Complete(b"hello".to_vec()));
    assert_eq!(ftl::handler_input(admission("POST", Some(b"5".as_slice()), &unbounded()), &read).unwrap(), "hello");
    let timed_out = Some(BodyRead::TimedOut);
    let e = ftl::handler_input(admission("PUT", Some(b"5".as_slice()), &unbounded()), &timed_out).unwrap_err();
    assert_eq!(e.status(), 408);
}
