use std::sync::Arc;
use std::time::Duration;

use vstd::prelude::*;
use vstd::utf8::{decode_utf8, valid_utf8};

use crate::error::{error_status, join_tokens, lemma_join_all_methods, BaseError, DynError};
use crate::method::{all_methods, classify, spec_reads_body, SupportedMethod};
use crate::router::Router;

verus! {

/// Whether `c` is an ASCII decimal digit.
pub open spec fn is_digit(c: char) -> bool {
    '0' <= c <= '9'
}

/// The value of a string of decimal digits.
pub open spec fn digits_value(s: Seq<char>) -> int
    decreases s.len(),
{
    if s.len() == 0 {
        0
    } else {
        digits_value(s.drop_last()) * 10 + (s.last() as int - '0' as int)
    }
}

/// A numeral without its leading `+`, if it has one.
pub open spec fn numeral_digits(s: Seq<char>) -> Seq<char> {
    if s.len() > 0 && s[0] == '+' {
        s.drop_first()
    } else {
        s
    }
}

/// The value of an unsigned decimal numeral: an optional `+`, then one or more digits.
pub open spec fn decimal_value(s: Seq<char>) -> Option<int> {
    let d = numeral_digits(s);
    if d.len() > 0 && forall|i: int| 0 <= i < d.len() ==> is_digit(#[trigger] d[i]) {
        Some(digits_value(d))
    } else {
        None
    }
}

/// A string of digits has a non-negative value.
proof fn lemma_digits_value_nonneg(s: Seq<char>)
    requires
        forall|i: int| 0 <= i < s.len() ==> is_digit(#[trigger] s[i]),
    ensures
        digits_value(s) >= 0,
    decreases s.len(),
{
    if s.len() > 0 {
        assert forall|i: int| 0 <= i < s.drop_last().len() implies is_digit(
            #[trigger] s.drop_last()[i],
        ) by {
            assert(s.drop_last()[i] == s[i]);
        }
        lemma_digits_value_nonneg(s.drop_last());
        assert(is_digit(s[s.len() - 1]));
    }
}

/// A numeral's value is non-negative.
proof fn lemma_decimal_value_nonneg(s: Seq<char>)
    ensures
        match decimal_value(s) {
            Some(v) => v >= 0,
            None => true,
        },
{
    let d = numeral_digits(s);
    if d.len() > 0 && forall|i: int| 0 <= i < d.len() ==> is_digit(#[trigger] d[i]) {
        lemma_digits_value_nonneg(d);
    }
}

/// The body length that a `Content-Length` value declares: a UTF-8 decimal numeral
/// that fits a `usize`.
pub open spec fn declared_length(h: Seq<u8>) -> Option<int> {
    if valid_utf8(h) {
        match decimal_value(decode_utf8(h)) {
            Some(v) => if v <= usize::MAX {
                Some(v)
            } else {
                None
            },
            None => None,
        }
    } else {
        None
    }
}

/// Relies on `std::str::from_utf8`: it succeeds exactly on valid UTF-8 and borrows
/// the decoded text.
#[verifier::external_body]
fn utf8_text(b: &[u8]) -> (r: Option<&str>)
    ensures
        r is Some <==> valid_utf8(b@),
        r matches Some(s) ==> s@ == decode_utf8(b@),
{
    std::str::from_utf8(b).ok()
}

/// Relies on `str::parse::<usize>`: an optional `+` and one or more decimal digits,
/// whose value fits a `usize`.
#[verifier::external_body]
fn parse_usize(s: &str) -> (r: Option<usize>)
    ensures
        match decimal_value(s@) {
            Some(v) => if v <= usize::MAX {
                r == Some(v as usize)
            } else {
                r.is_none()
            },
            None => r.is_none(),
        },
{
    s.parse::<usize>().ok()
}

/// The limits a service applies to request bodies; an absent bound means unbounded.
#[derive(Debug, Clone, Copy)]
pub struct Config {
    pub max_request_length: Option<usize>,
    pub request_read_timeout: Option<Duration>,
}

/// Builds a service's configuration.
#[derive(Debug)]
pub struct Builder {
    config: Config,
}

impl Builder {
    /// A builder with no bound on length or read time.
    pub fn new() -> (r: Builder)
        ensures
            r.config().max_request_length.is_none(),
            r.config().request_read_timeout.is_none(),
    {
        Builder { config: Config { max_request_length: None, request_read_timeout: None } }
    }

    /// The configuration built so far.
    pub closed spec fn config(&self) -> Config {
        self.config
    }

    /// Bounds the declared body length; longer requests are refused unread.
    pub fn max_reqeust_length(self, length: usize) -> (r: Builder)
        ensures
            r.config().max_request_length == Some(length),
            r.config().request_read_timeout == self.config().request_read_timeout,
    {
        let mut b = self;
        b.config.max_request_length = Some(length);
        b
    }

    /// Bounds the time spent reading a body.
    pub fn request_read_timeout(self, timeout: Duration) -> (r: Builder)
        ensures
            r.config().request_read_timeout == Some(timeout),
            r.config().max_request_length == self.config().max_request_length,
    {
        let mut b = self;
        b.config.request_read_timeout = Some(timeout);
        b
    }

    /// The configuration built so far.
    pub fn configuration(&self) -> (r: Config)
        ensures
            r == self.config(),
    {
        self.config
    }

    /// A service that serves `router` under this configuration.
    pub fn build<T, H>(self, router: Router<T, H>) -> (r: Service<T, H>)
        ensures
            r.router() == router,
            r.config() == self.config(),
    {
        Service { router, config: Arc::new(self.config) }
    }
}

/// A router together with the configuration it is served under.
pub struct Service<T, H> {
    router: Router<T, H>,
    config: Arc<Config>,
}

impl<T, H> Service<T, H> {
    /// The router this service dispatches to.
    pub closed spec fn router(&self) -> Router<T, H> {
        self.router
    }

    /// The configuration of this service.
    pub closed spec fn config(&self) -> Config {
        *self.config
    }

    /// A service with no bound on length or read time.
    pub fn new(router: Router<T, H>) -> (r: Service<T, H>)
        ensures
            r.router() == router,
            r.config().max_request_length.is_none(),
            r.config().request_read_timeout.is_none(),
    {
        Self::builder().build(router)
    }

    /// A builder with no bound on length or read time.
    pub fn builder() -> (r: Builder)
        ensures
            r.config().max_request_length.is_none(),
            r.config().request_read_timeout.is_none(),
    {
        Builder::new()
    }

    /// A shared handle to the application context.
    pub fn app(&self) -> (r: Arc<T>)
        ensures
            r == self.router().app,
    {
        self.router.app()
    }

    /// The router this service dispatches to.
    pub fn get_router(&self) -> (r: &Router<T, H>)
        ensures
            *r == self.router(),
    {
        &self.router
    }

    /// The configuration of this service.
    pub fn get_config(&self) -> (r: Config)
        ensures
            r == self.config(),
    {
        *self.config
    }
}

/// What to do with a request once its method and headers have been examined.
#[derive(Debug)]
pub enum Admission {
    /// Dispatch with an empty body; nothing is read.
    EmptyBody,
    /// Read a body of the declared length, racing the read timeout if one is set,
    /// and pass the outcome to `complete`.
    ReadBody { length: usize },
    /// Dispatch with this error; nothing is read.
    Reject(BaseError),
}

/// Whether a declared length is over the configured maximum, if there is one.
pub open spec fn exceeds(d: int, max: Option<usize>) -> bool {
    match max {
        Some(l) => d > l,
        None => false,
    }
}

/// The admission decision for a request: method gate, body exemption, then the
/// declared length against the configured maximum.
pub open spec fn admission_ok(
    method: Seq<char>,
    content_length: Option<Seq<u8>>,
    max: Option<usize>,
    r: Admission,
) -> bool {
    match classify(method) {
        None => r matches Admission::Reject(BaseError::MethodNotAllowed { allowed })
            && allowed@ == all_methods(),
        Some(m) => if !spec_reads_body(m) {
            r matches Admission::EmptyBody
        } else {
            match content_length {
                None => r matches Admission::Reject(BaseError::LengthRequired),
                Some(h) => match declared_length(h) {
                    None => r matches Admission::Reject(BaseError::LengthRequired),
                    Some(d) => if exceeds(d, max) {
                        r matches Admission::Reject(BaseError::PayloadTooLarge)
                    } else {
                        r == Admission::ReadBody { length: d as usize }
                    },
                },
            }
        },
    }
}

/// The bytes of a header value, if present.
pub open spec fn header_bytes(h: Option<&[u8]>) -> Option<Seq<u8>> {
    match h {
        Some(b) => Some(b@),
        None => None,
    }
}

/// Decides, before any body byte is read, whether a request is dispatched at once,
/// refused, or has its body read. `content_length` is the raw `Content-Length` value.
pub fn admission(method: &str, content_length: Option<&[u8]>, config: &Config) -> (r: Admission)
    ensures
        admission_ok(method@, header_bytes(content_length), config.max_request_length, r),
{
    let m = match SupportedMethod::new(method) {
        Ok(m) => m,
        Err(_) => return Admission::Reject(BaseError::method_not_allowed()),
    };
    if !m.request_has_body() {
        return Admission::EmptyBody;
    }
    let header = match content_length {
        Some(h) => h,
        None => return Admission::Reject(BaseError::LengthRequired),
    };
    let text = match utf8_text(header) {
        Some(t) => t,
        None => return Admission::Reject(BaseError::LengthRequired),
    };
    let length = match parse_usize(text) {
        Some(n) => n,
        None => return Admission::Reject(BaseError::LengthRequired),
    };
    proof {
        lemma_decimal_value_nonneg(text@);
    }
    match config.max_request_length {
        Some(max) => if length > max {
            return Admission::Reject(BaseError::PayloadTooLarge);
        },
        None => {},
    }
    Admission::ReadBody { length }
}

/// How reading a request body ended.
#[derive(Debug)]
pub enum BodyRead {
    /// Every byte arrived in time.
    Complete(Vec<u8>),
    /// The read timeout fired first; whatever had arrived is gone.
    TimedOut,
    /// The transport failed, with this description of the fault.
    Failed(String),
}

/// Whether `r` is what the handler receives after the body read ended as `read`: the
/// decoded text, or the error that ended the request, with its status.
pub open spec fn read_outcome(read: BodyRead, r: Result<&str, BaseError>) -> bool {
    &&& match read {
        BodyRead::TimedOut => r matches Err(BaseError::RequestTimeout),
        BodyRead::Failed(msg) => r matches Err(BaseError::Other(e)) && e.status == 500
            && e.error == Some(msg),
        BodyRead::Complete(b) => if valid_utf8(b@) {
            r matches Ok(s) && s@ == decode_utf8(b@)
        } else {
            r matches Err(BaseError::BodyNotUtf8)
        },
    }
    &&& r matches Err(e) ==> error_status(e) == match read {
        BodyRead::TimedOut => 408u16,
        BodyRead::Failed(_) => 500u16,
        BodyRead::Complete(_) => 400u16,
    }
}

/// Turns the outcome of a body read into what the handler receives: the body as
/// borrowed text, or the error that ended the request.
pub fn complete<'a>(read: &'a BodyRead) -> (r: Result<&'a str, BaseError>)
    ensures
        read_outcome(*read, r),
{
    match read {
        BodyRead::TimedOut => Err(BaseError::RequestTimeout),
        BodyRead::Failed(msg) => Err(
            BaseError::Other(DynError { status: 500, error: Some(msg.clone()) }),
        ),
        BodyRead::Complete(b) => match utf8_text(b.as_slice()) {
            Some(s) => Ok(s),
            None => Err(BaseError::BodyNotUtf8),
        },
    }
}

/// Whether `r` is the body slot the handler receives for a request admitted as
/// `admitted`, whose body, where one was read, ended as `read`.
pub open spec fn input_ok(admitted: Admission, read: Option<BodyRead>, r: Result<&str, BaseError>) -> bool {
    match admitted {
        Admission::EmptyBody => r matches Ok(s) && s@.len() == 0,
        Admission::Reject(e) => r == Err::<&str, BaseError>(e),
        Admission::ReadBody { .. } => read matches Some(b) && read_outcome(b, r),
    }
}

/// The body slot the handler is called with: empty text for a request without a
/// body, the refusal for a rejected one, and otherwise the outcome of the read.
/// Errors are handed to the handler as data, so that middleware can see them.
pub fn handler_input<'a>(admitted: Admission, read: &'a Option<BodyRead>) -> (r: Result<&'a str, BaseError>)
    requires
        admitted is ReadBody ==> read.is_some(),
    ensures
        input_ok(admitted, *read, r),
{
    match admitted {
        Admission::EmptyBody => {
            let empty: &'a str = "";
            proof {
                reveal_strlit("");
            }
            Ok(empty)
        },
        Admission::Reject(e) => Err(e),
        Admission::ReadBody { .. } => match read {
            Some(b) => complete(b),
            None => Err(BaseError::LengthRequired),
        },
    }
}

/// A fully materialised response body, handed out once.
#[derive(Debug, Clone)]
pub struct OutBuffer {
    inner: Option<String>,
}

impl View for OutBuffer {
    type V = Option<Seq<char>>;

    closed spec fn view(&self) -> Option<Seq<char>> {
        match self.inner {
            Some(s) => Some(s@),
            None => None,
        }
    }
}

impl OutBuffer {
    /// A body that holds the empty text.
    pub fn empty() -> (r: OutBuffer)
        ensures
            r@ == Some(Seq::<char>::empty()),
    {
        OutBuffer { inner: Some(String::new()) }
    }

    /// Hands the payload out; afterwards the buffer is at its end.
    pub fn take(&mut self) -> (r: Option<String>)
        ensures
            match r {
                Some(s) => old(self)@ == Some(s@),
                None => old(self)@.is_none(),
            },
            final(self)@.is_none(),
    {
        self.inner.take()
    }

    /// Whether the payload has been handed out.
    pub fn is_end_stream(&self) -> (r: bool)
        ensures
            r == self@.is_none(),
    {
        self.inner.is_none()
    }
}

impl From<String> for OutBuffer {
    /// A body holding `s`, not yet handed out.
    fn from(s: String) -> (r: OutBuffer)
        ensures
            r@ == Some(s@),
    {
        OutBuffer { inner: Some(s) }
    }
}

impl vstd::std_specs::convert::FromSpecImpl<String> for OutBuffer {
    open spec fn obeys_from_spec() -> bool {
        true
    }

    closed spec fn from_spec(s: String) -> OutBuffer {
        OutBuffer { inner: Some(s) }
    }
}

/// The body sent back for a handler's text: dropped for HEAD requests, whose
/// status and headers are still sent.
pub fn response_body(method: &str, body: String) -> (r: OutBuffer)
    ensures
        classify(method@) == Some(SupportedMethod::Head) ==> r@ == Some(Seq::<char>::empty()),
        classify(method@) != Some(SupportedMethod::Head) ==> r@ == Some(body@),
{
    match SupportedMethod::new(method) {
        Ok(m) => if m.response_has_body() {
            return OutBuffer::empty();
        },
        Err(_) => {},
    }
    OutBuffer::from(body)
}

/// A method outside the supported set is refused with status 405, before anything
/// else is looked at: the handler receives that error, and its `Allow` value is the
/// fixed list of methods.
pub proof fn lemma_unsupported_method(
    method: Seq<char>,
    content_length: Option<Seq<u8>>,
    max: Option<usize>,
    admitted: Admission,
    read: Option<BodyRead>,
    r: Result<&str, BaseError>,
)
    requires
        classify(method).is_none(),
        admission_ok(method, content_length, max, admitted),
        input_ok(admitted, read, r),
    ensures
        admitted is Reject,
        r matches Err(e) && error_status(e) == 405 && (e matches BaseError::MethodNotAllowed { allowed } && join_tokens(allowed@) == SupportedMethod::ALLOW_HEADER@),
{
    lemma_join_all_methods();
}

/// A method that carries a body, sent without a usable `Content-Length`, is refused
/// with status 411 and nothing is read.
pub proof fn lemma_length_required(
    method: Seq<char>,
    content_length: Option<Seq<u8>>,
    max: Option<usize>,
    r: Admission,
)
    requires
        classify(method) matches Some(m) && spec_reads_body(m),
        content_length matches Some(h) ==> declared_length(h).is_none(),
        admission_ok(method, content_length, max, r),
    ensures
        r matches Admission::Reject(e) && e == BaseError::LengthRequired && error_status(e) == 411,
{
}

/// Whether a header value is not a decimal numeral: not UTF-8, no digits after an
/// optional `+`, or some other character among them.
pub open spec fn non_numeric(h: Seq<u8>) -> bool {
    let d = numeral_digits(decode_utf8(h));
    !valid_utf8(h) || d.len() == 0 || exists|i: int| 0 <= i < d.len() && !is_digit(#[trigger] d[i])
}

/// A `Content-Length` value that is not a numeral declares no length, so a method
/// that carries a body is refused with status 411 when it sends one.
pub proof fn lemma_non_numeric_length(
    method: Seq<char>,
    h: Seq<u8>,
    max: Option<usize>,
    r: Admission,
)
    requires
        non_numeric(h),
        classify(method) matches Some(m) && spec_reads_body(m),
        admission_ok(method, Some(h), max, r),
    ensures
        declared_length(h).is_none(),
        r matches Admission::Reject(e) && e == BaseError::LengthRequired && error_status(e) == 411,
{
}

/// A declared length over the configured maximum is refused with status 413 before
/// any body byte is read.
pub proof fn lemma_payload_too_large(
    method: Seq<char>,
    h: Seq<u8>,
    limit: usize,
    r: Admission,
)
    requires
        classify(method) matches Some(m) && spec_reads_body(m),
        declared_length(h) matches Some(d) && d > limit,
        admission_ok(method, Some(h), Some(limit), r),
    ensures
        r matches Admission::Reject(e) && e == BaseError::PayloadTooLarge && error_status(e) == 413,
        !(r is ReadBody),
{
}

/// A method exempt from body handling is dispatched with an empty body, whatever the
/// headers and the configuration, and nothing is read.
pub proof fn lemma_bodiless_dispatch(
    method: Seq<char>,
    content_length: Option<Seq<u8>>,
    max: Option<usize>,
    admitted: Admission,
    read: Option<BodyRead>,
    r: Result<&str, BaseError>,
)
    requires
        classify(method) matches Some(m) && !spec_reads_body(m),
        admission_ok(method, content_length, max, admitted),
        input_ok(admitted, read, r),
    ensures
        admitted is EmptyBody,
        r matches Ok(s) && s@.len() == 0,
{
}

} // verus!
