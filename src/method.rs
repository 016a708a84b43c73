use vstd::prelude::*;

verus! {

/// The closed set of request methods this server handles.
#[derive(Debug, Clone, Copy, PartialEq, Eq, Structural, PartialOrd, Ord, Hash)]
pub enum SupportedMethod {
    Get,
    Post,
    Put,
    Delete,
    Head,
    Options,
    Patch,
}

/// A request method outside the supported set, holding the rejected token.
#[derive(Debug, Clone)]
pub struct UnsupportedMethod(pub String);

/// The upper-case token of a supported method.
pub open spec fn method_token(m: SupportedMethod) -> Seq<char> {
    match m {
        SupportedMethod::Get => "GET"@,
        SupportedMethod::Post => "POST"@,
        SupportedMethod::Put => "PUT"@,
        SupportedMethod::Delete => "DELETE"@,
        SupportedMethod::Head => "HEAD"@,
        SupportedMethod::Options => "OPTIONS"@,
        SupportedMethod::Patch => "PATCH"@,
    }
}

/// Every supported method, in declaration order.
pub open spec fn all_methods() -> Seq<SupportedMethod> {
    seq![
        SupportedMethod::Get,
        SupportedMethod::Post,
        SupportedMethod::Put,
        SupportedMethod::Delete,
        SupportedMethod::Head,
        SupportedMethod::Options,
        SupportedMethod::Patch,
    ]
}

/// The method whose token is `t`, if any.
pub open spec fn classify(t: Seq<char>) -> Option<SupportedMethod> {
    if t == "GET"@ {
        Some(SupportedMethod::Get)
    } else if t == "POST"@ {
        Some(SupportedMethod::Post)
    } else if t == "PUT"@ {
        Some(SupportedMethod::Put)
    } else if t == "DELETE"@ {
        Some(SupportedMethod::Delete)
    } else if t == "HEAD"@ {
        Some(SupportedMethod::Head)
    } else if t == "OPTIONS"@ {
        Some(SupportedMethod::Options)
    } else if t == "PATCH"@ {
        Some(SupportedMethod::Patch)
    } else {
        None
    }
}

/// Whether requests of this method carry a body that is length-checked and read.
pub open spec fn spec_reads_body(m: SupportedMethod) -> bool {
    matches!(m, SupportedMethod::Post | SupportedMethod::Put | SupportedMethod::Patch)
}

impl SupportedMethod {
    /// The value of the `Allow` header sent with a method-not-allowed response.
    pub const ALLOW_HEADER: &'static str = "GET, POST, PUT, DELETE, HEAD, OPTIONS, PATCH";

    /// Classifies a request method token; the comparison is exact and case-sensitive.
    pub fn new(method: &str) -> (r: Result<Self, UnsupportedMethod>)
        ensures
            match r {
                Ok(m) => classify(method@) == Some(m),
                Err(e) => classify(method@).is_none() && e.0@ == method@,
            },
    {
        let tokens: [&str; 7] = ["GET", "POST", "PUT", "DELETE", "HEAD", "OPTIONS", "PATCH"];
        let methods: [SupportedMethod; 7] = [
            SupportedMethod::Get,
            SupportedMethod::Post,
            SupportedMethod::Put,
            SupportedMethod::Delete,
            SupportedMethod::Head,
            SupportedMethod::Options,
            SupportedMethod::Patch,
        ];
        let m = String::from_str(method);
        let mut i: usize = 0;
        while i < 7
            invariant
                0 <= i <= 7,
                m@ == method@,
                tokens@ == seq!["GET", "POST", "PUT", "DELETE", "HEAD", "OPTIONS", "PATCH"],
                methods@ == all_methods(),
                forall|j: int| 0 <= j < i ==> method@ != (#[trigger] tokens@[j])@,
            decreases 7 - i,
        {
            let t = String::from_str(tokens[i]);
            if m == t {
                return Ok(methods[i]);
            }
            i = i + 1;
        }
        Err(UnsupportedMethod(m))
    }

    /// The upper-case token of this method.
    pub fn as_str(self) -> (r: &'static str)
        ensures
            r@ == method_token(self),
    {
        match self {
            SupportedMethod::Get => "GET",
            SupportedMethod::Post => "POST",
            SupportedMethod::Put => "PUT",
            SupportedMethod::Delete => "DELETE",
            SupportedMethod::Head => "HEAD",
            SupportedMethod::Options => "OPTIONS",
            SupportedMethod::Patch => "PATCH",
        }
    }

    /// The upper-case token of this method, as an owned string.
    pub fn to_string(self) -> (r: String)
        ensures
            r@ == method_token(self),
    {
        String::from_str(self.as_str())
    }

    /// Every supported method, in declaration order.
    pub fn all() -> (r: Vec<SupportedMethod>)
        ensures
            r@ == all_methods(),
    {
        let r = vec![
            SupportedMethod::Get,
            SupportedMethod::Post,
            SupportedMethod::Put,
            SupportedMethod::Delete,
            SupportedMethod::Head,
            SupportedMethod::Options,
            SupportedMethod::Patch,
        ];
        assert(r@ =~= all_methods());
        r
    }

    /// True for the methods whose requests carry a body that is length-checked and
    /// read: POST, PUT and PATCH.
    pub fn request_has_body(self) -> (r: bool)
        ensures
            r == spec_reads_body(self),
    {
        matches!(self, SupportedMethod::Post | SupportedMethod::Put | SupportedMethod::Patch)
    }

    /// True only for HEAD, the one method whose response body is suppressed.
    pub fn response_has_body(self) -> (r: bool)
        ensures
            r == (self == SupportedMethod::Head),
    {
        matches!(self, SupportedMethod::Head)
    }
}

} // verus!
