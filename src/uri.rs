use vstd::prelude::*;

verus! {

/// The parts of a parsed URI that access checks read.
#[derive(Clone, Debug)]
pub struct UriParts {
    pub scheme: Option<String>,
    pub host: Option<String>,
    pub port: Option<u16>,
}

/// The characters of an optional string.
pub open spec fn opt_text(o: Option<String>) -> Option<Seq<char>> {
    match o {
        Some(s) => Some(s@),
        None => None,
    }
}

impl View for UriParts {
    type V = (Option<Seq<char>>, Option<Seq<char>>, Option<u16>);

    open spec fn view(&self) -> Self::V {
        (opt_text(self.scheme), opt_text(self.host), self.port)
    }
}

/// What the URI parser reads from a text: `None` where the text is not a
/// valid URI, else its scheme, host and port.
pub uninterp spec fn uri_parts(s: Seq<char>) -> Option<(Option<Seq<char>>, Option<Seq<char>>, Option<u16>)>;

/// Relies on `hyper::Uri`'s `FromStr` impl (from the `http` crate): whether the
/// text parses, and the scheme, host and port it yields, depend on the text
/// alone. The parse error is kept as its message.
#[verifier::external_body]
pub(crate) fn parse_uri(s: &str) -> (r: Result<UriParts, String>)
    ensures
        match r {
            Ok(p) => uri_parts(s@) == Some(p@),
            Err(_) => uri_parts(s@) is None,
        },
{
    match s.parse::<hyper::Uri>() {
        Ok(u) => Ok(UriParts {
            scheme: u.scheme_str().map(String::from),
            host: u.host().map(String::from),
            port: u.port_u16(),
        }),
        Err(e) => Err(e.to_string()),
    }
}

} // verus!
