use vstd::prelude::*;
use vstd::string::*;

use crate::error::FetchError;
use crate::text::same_text;

verus! {

/// The request methods a fetch call accepts.
#[derive(Clone, Copy, Debug, PartialEq, Eq, Structural)]
pub enum Method {
    Get,
    Post,
    Put,
    Connect,
    Head,
    Patch,
    Delete,
}

impl Method {
    /// The method's name as written in a request line.
    pub open spec fn name(self) -> Seq<char> {
        match self {
            Method::Get => "GET"@,
            Method::Post => "POST"@,
            Method::Put => "PUT"@,
            Method::Connect => "CONNECT"@,
            Method::Head => "HEAD"@,
            Method::Patch => "PATCH"@,
            Method::Delete => "DELETE"@,
        }
    }

    /// The method's name.
    pub fn as_str(&self) -> (r: &'static str)
        ensures
            r@ == self.name(),
    {
        match self {
            Method::Get => "GET",
            Method::Post => "POST",
            Method::Put => "PUT",
            Method::Connect => "CONNECT",
            Method::Head => "HEAD",
            Method::Patch => "PATCH",
            Method::Delete => "DELETE",
        }
    }
}

/// The method whose name is exactly `t` (case-sensitive), if any.
pub open spec fn method_named(t: Seq<char>) -> Option<Method> {
    if t == "GET"@ {
        Some(Method::Get)
    } else if t == "POST"@ {
        Some(Method::Post)
    } else if t == "PUT"@ {
        Some(Method::Put)
    } else if t == "CONNECT"@ {
        Some(Method::Connect)
    } else if t == "HEAD"@ {
        Some(Method::Head)
    } else if t == "PATCH"@ {
        Some(Method::Patch)
    } else if t == "DELETE"@ {
        Some(Method::Delete)
    } else {
        None
    }
}

/// The text an invalid-method error shows for the rejected text `t`.
pub open spec fn shown_method(t: Seq<char>) -> Seq<char> {
    if t.len() == 0 {
        "{empty}"@
    } else {
        t
    }
}

/// The outcome of reading a `method` option: absent means GET, a supported
/// name means that method, anything else is an invalid-method error.
pub open spec fn method_outcome(m: Option<Seq<char>>, r: Result<Method, FetchError>) -> bool {
    match m {
        None => r == Ok::<Method, FetchError>(Method::Get),
        Some(t) => match method_named(t) {
            Some(k) => r == Ok::<Method, FetchError>(k),
            None => r matches Err(FetchError::InvalidMethod { shown }) && shown@ == shown_method(t),
        },
    }
}

/// Resolves the `method` option.
pub fn parse_method(m: Option<&str>) -> (r: Result<Method, FetchError>)
    ensures
        method_outcome(
            match m {
                Some(t) => Some(t@),
                None => None,
            },
            r,
        ),
{
    match m {
        None => Ok(Method::Get),
        Some(t) => {
            proof {
                reveal_strlit("GET");
                reveal_strlit("POST");
                reveal_strlit("PUT");
                reveal_strlit("CONNECT");
                reveal_strlit("HEAD");
                reveal_strlit("PATCH");
                reveal_strlit("DELETE");
                reveal_strlit("{empty}");
            }
            if same_text(t, "GET") {
                Ok(Method::Get)
            } else if same_text(t, "POST") {
                Ok(Method::Post)
            } else if same_text(t, "PUT") {
                Ok(Method::Put)
            } else if same_text(t, "CONNECT") {
                Ok(Method::Connect)
            } else if same_text(t, "HEAD") {
                Ok(Method::Head)
            } else if same_text(t, "PATCH") {
                Ok(Method::Patch)
            } else if same_text(t, "DELETE") {
                Ok(Method::Delete)
            } else if t.unicode_len() == 0 {
                Err(FetchError::InvalidMethod { shown: String::from_str("{empty}") })
            } else {
                Err(FetchError::InvalidMethod { shown: String::from_str(t) })
            }
        },
    }
}

} // verus!
