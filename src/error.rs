use vstd::prelude::*;

use crate::method::{all_methods, method_token, SupportedMethod};

verus! {

/// Whether `code` is a three-digit HTTP status code.
pub open spec fn valid_status(code: int) -> bool {
    100 <= code <= 999
}

/// The canonical reason phrase that the `http` crate gives a status code.
pub uninterp spec fn reason_phrase(code: u16) -> Option<Seq<char>>;

/// Relies on `http::StatusCode::from_u16`: it accepts exactly the codes 100 to 999.
#[verifier::external_body]
fn status_code_accepts(code: u16) -> (r: bool)
    ensures
        r == valid_status(code as int),
{
    http::StatusCode::from_u16(code).is_ok()
}

/// Relies on `http::StatusCode::canonical_reason`: the registered phrase of a code, if any.
#[verifier::external_body]
fn canonical_reason(code: u16) -> (r: Option<&'static str>)
    requires
        valid_status(code as int),
    ensures
        match r {
            Some(s) => reason_phrase(code) == Some(s@),
            None => reason_phrase(code).is_none(),
        },
{
    http::StatusCode::from_u16(code).ok().and_then(|c| c.canonical_reason())
}

/// One rejected query parameter or header: its name and the raw value, if present.
#[derive(Debug, Clone, PartialEq, Eq, PartialOrd, Ord, Hash)]
pub struct InvalidParameter {
    pub name: String,
    pub value: Option<String>,
}

/// A type-erased error: a status code and the display string of its cause, if any.
#[derive(Debug, Clone)]
pub struct DynError {
    pub status: u16,
    pub error: Option<String>,
}

/// The reason a wire envelope was refused: its status is not a three-digit code.
#[derive(Debug, Clone, Copy, PartialEq, Eq, Structural)]
pub struct InvalidStatusCode {
    pub status: u16,
}

/// The three decimal digits of a status code.
pub open spec fn status_digits(code: int) -> Seq<char> {
    seq![
        ((code / 100) + 48) as char,
        ((code / 10 % 10) + 48) as char,
        ((code % 10) + 48) as char,
    ]
}

/// The display string of a status code: its digits and its reason phrase.
pub open spec fn status_text(code: u16) -> Seq<char> {
    status_digits(code as int) + " "@ + match reason_phrase(code) {
        Some(p) => p,
        None => "<unknown status code>"@,
    }
}

/// Writes the three digits of a valid status code.
fn write_status_digits(code: u16) -> (r: String)
    requires
        valid_status(code as int),
    ensures
        r@ == status_digits(code as int),
{
    let digits: [&str; 10] = ["0", "1", "2", "3", "4", "5", "6", "7", "8", "9"];
    proof {
        reveal_strlit("0");
        reveal_strlit("1");
        reveal_strlit("2");
        reveal_strlit("3");
        reveal_strlit("4");
        reveal_strlit("5");
        reveal_strlit("6");
        reveal_strlit("7");
        reveal_strlit("8");
        reveal_strlit("9");
    }
    let ghost ds = seq!["0", "1", "2", "3", "4", "5", "6", "7", "8", "9"];
    assert(forall|d: int| 0 <= d < 10 ==> (#[trigger] ds[d])@ == seq![(d + 48) as char]);
    let mut r = String::from_str(digits[(code / 100) as usize]);
    r.append(digits[(code / 10 % 10) as usize]);
    r.append(digits[(code % 10) as usize]);
    assert(r@ =~= status_digits(code as int));
    r
}

/// The error that a wire envelope `{status, error}` stands for: refused unless the
/// status is a three-digit code; the cause comes back as its display string.
pub open spec fn decode_wire(status: u16, error: Option<String>) -> Result<DynError, InvalidStatusCode> {
    if valid_status(status as int) {
        Ok(DynError { status, error })
    } else {
        Err(InvalidStatusCode { status })
    }
}

/// The wire envelope `{status, error}` of an error.
pub open spec fn encode_wire(e: DynError) -> (u16, Option<String>) {
    (e.status, e.error)
}

/// Encoding an error to its wire envelope and decoding that envelope gives back the
/// same status and cause display string; an envelope whose status is not a
/// three-digit code is refused.
pub proof fn lemma_wire_round_trip(e: DynError, status: u16, error: Option<String>)
    requires
        e.wf(),
    ensures
        decode_wire(encode_wire(e).0, encode_wire(e).1) == Ok::<DynError, InvalidStatusCode>(e),
        !valid_status(status as int) ==> decode_wire(status, error) is Err,
{
}

impl DynError {
    /// Whether the status is a three-digit code.
    pub open spec fn wf(&self) -> bool {
        valid_status(self.status as int)
    }

    /// The display string: the status with its reason phrase, then ` - ` and the cause, if any.
    pub open spec fn spec_message(&self) -> Seq<char> {
        match self.error {
            Some(e) => status_text(self.status) + " - "@ + e@,
            None => status_text(self.status),
        }
    }

    /// Builds the error from its wire envelope `{status, error}`; the status must be a
    /// three-digit code.
    pub fn from_wire(status: u16, error: Option<String>) -> (r: Result<DynError, InvalidStatusCode>)
        ensures
            r == decode_wire(status, error),
    {
        if status_code_accepts(status) {
            Ok(DynError { status, error })
        } else {
            Err(InvalidStatusCode { status })
        }
    }

    /// The wire envelope `{status, error}` of this error.
    pub fn to_wire(&self) -> (r: (u16, Option<String>))
        ensures
            r == encode_wire(*self),
    {
        let error = match &self.error {
            Some(e) => Some(e.clone()),
            None => None,
        };
        (self.status, error)
    }

    /// The status code carried by this error.
    pub fn status(&self) -> (r: u16)
        ensures
            r == self.status,
    {
        self.status
    }

    /// The display string of this error.
    pub fn message(&self) -> (r: String)
        requires
            self.wf(),
        ensures
            r@ == self.spec_message(),
    {
        let mut r = write_status_digits(self.status);
        r.append(" ");
        match canonical_reason(self.status) {
            Some(p) => r.append(p),
            None => r.append("<unknown status code>"),
        }
        assert(r@ =~= status_text(self.status));
        match &self.error {
            Some(e) => {
                r.append(" - ");
                r.append(e.as_str());
            },
            None => {},
        }
        r
    }
}

/// The closed set of protocol errors, plus one type-erased variant.
#[derive(Debug, Clone)]
pub enum BaseError {
    NotFound,
    MethodNotAllowed { allowed: Vec<SupportedMethod> },
    RequestTimeout,
    LengthRequired,
    PayloadTooLarge,
    UnsupportedMediaType,
    BodyNotUtf8,
    InvalidParameter { query: Vec<InvalidParameter>, header: Vec<InvalidParameter> },
    Other(DynError),
}

/// The status code of each error kind.
pub open spec fn error_status(e: BaseError) -> u16 {
    match e {
        BaseError::NotFound => 404,
        BaseError::MethodNotAllowed { .. } => 405,
        BaseError::RequestTimeout => 408,
        BaseError::LengthRequired => 411,
        BaseError::PayloadTooLarge => 413,
        BaseError::UnsupportedMediaType => 415,
        BaseError::BodyNotUtf8 => 400,
        BaseError::InvalidParameter { .. } => 400,
        BaseError::Other(d) => d.status,
    }
}

/// The display string of each error kind.
pub open spec fn error_message(e: BaseError) -> Seq<char> {
    match e {
        BaseError::NotFound => "404 Not Found"@,
        BaseError::MethodNotAllowed { .. } => "405 Method Not Allowed"@,
        BaseError::RequestTimeout => "408 Request Timeout"@,
        BaseError::LengthRequired => "411 Length Required"@,
        BaseError::PayloadTooLarge => "413 Payload Too Large"@,
        BaseError::UnsupportedMediaType => "415 Unsupported Media Type"@,
        BaseError::BodyNotUtf8 => "Failed to decode request body as UTF-8"@,
        BaseError::InvalidParameter { .. } => "Failed to parse request parameters"@,
        BaseError::Other(d) => "Other error - "@ + d.spec_message(),
    }
}

/// The tokens of `ms`, separated by `, `.
pub open spec fn join_tokens(ms: Seq<SupportedMethod>) -> Seq<char>
    decreases ms.len(),
{
    if ms.len() == 0 {
        Seq::empty()
    } else if ms.len() == 1 {
        method_token(ms[0])
    } else {
        join_tokens(ms.drop_last()) + ", "@ + method_token(ms.last())
    }
}

/// The tokens of all supported methods, joined, are the fixed `Allow` header value.
pub proof fn lemma_join_all_methods()
    ensures
        join_tokens(all_methods()) == SupportedMethod::ALLOW_HEADER@,
{
    reveal_strlit("GET, POST, PUT, DELETE, HEAD, OPTIONS, PATCH");
    reveal_strlit("GET");
    reveal_strlit("POST");
    reveal_strlit("PUT");
    reveal_strlit("DELETE");
    reveal_strlit("HEAD");
    reveal_strlit("OPTIONS");
    reveal_strlit("PATCH");
    reveal_strlit(", ");
    let a = all_methods();
    assert(a.drop_last().drop_last().drop_last().drop_last().drop_last().drop_last()
        =~= seq![SupportedMethod::Get]);
    assert(a.drop_last().drop_last().drop_last().drop_last().drop_last() =~= seq![
        SupportedMethod::Get,
        SupportedMethod::Post,
    ]);
    assert(a.drop_last().drop_last().drop_last().drop_last() =~= seq![
        SupportedMethod::Get,
        SupportedMethod::Post,
        SupportedMethod::Put,
    ]);
    assert(a.drop_last().drop_last().drop_last() =~= seq![
        SupportedMethod::Get,
        SupportedMethod::Post,
        SupportedMethod::Put,
        SupportedMethod::Delete,
    ]);
    assert(a.drop_last().drop_last() =~= seq![
        SupportedMethod::Get,
        SupportedMethod::Post,
        SupportedMethod::Put,
        SupportedMethod::Delete,
        SupportedMethod::Head,
    ]);
    assert(a.drop_last() =~= seq![
        SupportedMethod::Get,
        SupportedMethod::Post,
        SupportedMethod::Put,
        SupportedMethod::Delete,
        SupportedMethod::Head,
        SupportedMethod::Options,
    ]);
    reveal_with_fuel(join_tokens, 8);
    assert(join_tokens(a) =~= "GET, POST, PUT, DELETE, HEAD, OPTIONS, PATCH"@);
}

/// Joins the tokens of `ms` with `, `.
pub fn join_methods(ms: &Vec<SupportedMethod>) -> (r: String)
    ensures
        r@ == join_tokens(ms@),
{
    let mut r = String::new();
    let mut i: usize = 0;
    while i < ms.len()
        invariant
            0 <= i <= ms.len(),
            r@ == join_tokens(ms@.subrange(0, i as int)),
        decreases ms.len() - i,
    {
        let ghost prefix = ms@.subrange(0, i as int + 1);
        assert(prefix.drop_last() =~= ms@.subrange(0, i as int));
        if i > 0 {
            r.append(", ");
        }
        r.append(ms[i].as_str());
        i = i + 1;
        assert(r@ =~= join_tokens(prefix));
    }
    assert(ms@.subrange(0, ms.len() as int) =~= ms@);
    r
}

impl BaseError {
    /// The error reported for a method outside the supported set.
    pub fn method_not_allowed() -> (r: BaseError)
        ensures
            r matches BaseError::MethodNotAllowed { allowed } && allowed@ == all_methods(),
    {
        BaseError::MethodNotAllowed { allowed: SupportedMethod::all() }
    }

    /// The HTTP status code of this error.
    pub fn status(&self) -> (r: u16)
        ensures
            r == error_status(*self),
    {
        match self {
            BaseError::NotFound => 404,
            BaseError::MethodNotAllowed { .. } => 405,
            BaseError::RequestTimeout => 408,
            BaseError::LengthRequired => 411,
            BaseError::PayloadTooLarge => 413,
            BaseError::UnsupportedMediaType => 415,
            BaseError::BodyNotUtf8 => 400,
            BaseError::InvalidParameter { .. } => 400,
            BaseError::Other(d) => d.status,
        }
    }

    /// The display string of this error.
    pub fn message(&self) -> (r: String)
        requires
            self matches BaseError::Other(d) ==> d.wf(),
        ensures
            r@ == error_message(*self),
    {
        match self {
            BaseError::NotFound => String::from_str("404 Not Found"),
            BaseError::MethodNotAllowed { .. } => String::from_str("405 Method Not Allowed"),
            BaseError::RequestTimeout => String::from_str("408 Request Timeout"),
            BaseError::LengthRequired => String::from_str("411 Length Required"),
            BaseError::PayloadTooLarge => String::from_str("413 Payload Too Large"),
            BaseError::UnsupportedMediaType => String::from_str("415 Unsupported Media Type"),
            BaseError::BodyNotUtf8 => String::from_str("Failed to decode request body as UTF-8"),
            BaseError::InvalidParameter { .. } => String::from_str(
                "Failed to parse request parameters",
            ),
            BaseError::Other(d) => {
                let mut r = String::from_str("Other error - ");
                r.append(d.message().as_str());
                r
            },
        }
    }

    /// The `Allow` header value that goes with this error: the allowed methods of a
    /// method-not-allowed error, and nothing for every other kind.
    pub fn allow_header(&self) -> (r: Option<String>)
        ensures
            match *self {
                BaseError::MethodNotAllowed { allowed } => r matches Some(h) && h@ == join_tokens(allowed@),
                _ => r.is_none(),
            },
    {
        match self {
            BaseError::MethodNotAllowed { allowed } => Some(join_methods(allowed)),
            _ => None,
        }
    }
}

} // verus!
