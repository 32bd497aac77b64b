use vstd::prelude::*;

use crate::error::{FetchError, PolicyList};
use crate::header::{check_headers, first_bad_header, header_ok, header_texts};
use crate::method::Method;
use crate::policy::{list_matches, AccessPolicy, UriView};
use crate::resolve::RequestOptions;
use crate::uri::{parse_uri, uri_parts};

verus! {

/// A request that passed every check, ready to be sent.
#[derive(Debug)]
pub struct Outbound {
    pub method: Method,
    pub url: String,
    /// The fixed `user-agent` and `accept` headers, then the request's own.
    pub headers: Vec<(String, String)>,
    pub body: Vec<u8>,
}

/// The headers every request starts with.
pub open spec fn fixed_headers(user_agent: Seq<char>) -> Seq<(Seq<char>, Seq<char>)> {
    seq![("user-agent"@, user_agent), ("accept"@, "*/*"@)]
}

/// The headers of a request: the fixed ones, then the request's own.
pub open spec fn request_headers(
    user_agent: Seq<char>,
    own: Option<Result<Vec<(String, String)>, FetchError>>,
) -> Seq<(Seq<char>, Seq<char>)> {
    fixed_headers(user_agent) + match own {
        Some(Ok(hs)) => header_texts(hs@),
        _ => Seq::empty(),
    }
}

/// The outbound request built from checked parts.
pub open spec fn outbound_of(
    out: Outbound,
    m: Method,
    url: String,
    user_agent: Seq<char>,
    own: Option<Result<Vec<(String, String)>, FetchError>>,
    body: Vec<u8>,
) -> bool {
    &&& out.method == m
    &&& out.url == url
    &&& out.body@ == body@
    &&& header_texts(out.headers@) == request_headers(user_agent, own)
}

/// Whether a parsed URI is absolute: it has a scheme and a host.
pub open spec fn is_absolute(u: UriView) -> bool {
    u.0 is Some && u.1 is Some
}

/// The last checks, once method and access are settled: the deferred
/// headers and body, then the validity of every header name and value.
pub open spec fn built(
    o: RequestOptions,
    m: Method,
    url: String,
    user_agent: Seq<char>,
    r: Result<Outbound, FetchError>,
) -> bool {
    match o.headers {
        Some(Err(e)) => r == Err::<Outbound, FetchError>(e),
        _ => match o.body {
            Err(e) => r == Err::<Outbound, FetchError>(e),
            Ok(b) => {
                let hs = request_headers(user_agent, o.headers);
                if forall|i: int| 0 <= i < hs.len() ==> #[trigger] header_ok(hs[i]) {
                    r matches Ok(out) && outbound_of(out, m, url, user_agent, o.headers, b)
                } else {
                    r matches Err(FetchError::InvalidHeader { name }) && exists|i: int|
                        #[trigger] first_bad_header(hs, i) && name@ == hs[i].0
                }
            },
        },
    }
}

/// The checks before a request is sent, in order: the access lists'
/// configuration, the presence of a url, its parse as an absolute URI, the
/// method, the access decision, then those of `built`.
pub open spec fn prepared(
    p: AccessPolicy,
    o: RequestOptions,
    user_agent: Seq<char>,
    r: Result<Outbound, FetchError>,
) -> bool {
    match p.config_error() {
        Some(e) => r == Err::<Outbound, FetchError>(e),
        None => match o.url {
            None => r == Err::<Outbound, FetchError>(FetchError::MissingUrl),
            Some(url) => match uri_parts(url@) {
                Some(u) if is_absolute(u) => match o.method {
                    Err(e) => r == Err::<Outbound, FetchError>(e),
                    Ok(m) => match p.access_outcome(u, url) {
                        Err(e) => r == Err::<Outbound, FetchError>(e),
                        Ok(_) => built(o, m, url, user_agent, r),
                    },
                },
                _ => r matches Err(FetchError::InvalidUrl { .. }),
            },
        },
    }
}

/// Runs the checks on resolved options and builds the outbound request.
/// Nothing is parsed or checked after the first failure.
pub fn prepare(policy: &AccessPolicy, options: RequestOptions, user_agent: String) -> (r: Result<
    Outbound,
    FetchError,
>)
    ensures
        prepared(*policy, options, user_agent@, r),
{
    let ghost o = options;
    policy.check_config()?;
    let RequestOptions { url, method, headers, body } = options;
    let url = match url {
        Some(u) => u,
        None => {
            return Err(FetchError::MissingUrl);
        },
    };
    let uri = match parse_uri(url.as_str()) {
        Ok(u) => u,
        Err(reason) => {
            return Err(FetchError::InvalidUrl { reason });
        },
    };
    if uri.scheme.is_none() || uri.host.is_none() {
        return Err(FetchError::InvalidUrl { reason: String::from_str("not an absolute URI") });
    }
    let method = method?;
    policy.ensure_url_access(&uri, &url)?;
    proof {
        reveal_strlit("user-agent");
        reveal_strlit("accept");
        reveal_strlit("*/*");
    }
    let mut all: Vec<(String, String)> = Vec::new();
    all.push((String::from_str("user-agent"), user_agent));
    all.push((String::from_str("accept"), String::from_str("*/*")));
    assert(header_texts(all@) =~= fixed_headers(user_agent@));
    match headers {
        Some(Ok(hs)) => {
            let ghost before = all@;
            let mut hs = hs;
            let ghost own = hs@;
            all.append(&mut hs);
            assert(header_texts(all@) =~= header_texts(before) + header_texts(own));
        },
        Some(Err(e)) => {
            return Err(e);
        },
        None => {},
    }
    assert(header_texts(all@) =~= request_headers(user_agent@, o.headers));
    let body = body?;
    match check_headers(&all) {
        Ok(_) => {},
        Err(e) => {
            proof {
                let hs = request_headers(user_agent@, o.headers);
                let i = choose|i: int| #[trigger] first_bad_header(hs, i);
                assert(!header_ok(hs[i]));
            }
            return Err(e);
        },
    }
    Ok(Outbound { method, url, headers: all, body })
}

/// What a fetch call hands back after one completed exchange: the raw
/// response, the method and url that were sent, and the time the call took.
#[derive(Debug)]
pub struct ResponseHandle<R> {
    pub raw: R,
    pub method: Method,
    pub url: String,
    /// Nanoseconds from the start of the call to the end of the exchange.
    pub elapsed: u64,
}

impl<R> ResponseHandle<R> {
    /// The method name that was sent.
    pub fn method_text(&self) -> (r: &'static str)
        ensures
            r@ == self.method.name(),
    {
        self.method.as_str()
    }

    /// The url text that was sent.
    pub fn url_text(&self) -> (r: &str)
        ensures
            r@ == self.url@,
    {
        self.url.as_str()
    }
}

/// The handle for a completed exchange of `out`, or the transport error.
pub open spec fn completed<R>(
    out: Outbound,
    exchange: Result<R, String>,
    elapsed: u64,
    r: Result<ResponseHandle<R>, FetchError>,
) -> bool {
    match exchange {
        Ok(raw) => r matches Ok(h) && h.raw == raw && h.method == out.method && h.url == out.url
            && h.elapsed == elapsed,
        Err(reason) => r == Err::<ResponseHandle<R>, FetchError>(
            FetchError::Transport { reason },
        ),
    }
}

/// Turns the result of sending `out` into the call's result: a response
/// handle that carries the method and url that were sent, or a transport
/// error carrying the cause.
pub fn complete<R>(out: Outbound, exchange: Result<R, String>, elapsed: u64) -> (r: Result<
    ResponseHandle<R>,
    FetchError,
>)
    ensures
        completed(out, exchange, elapsed, r),
{
    match exchange {
        Ok(raw) => Ok(ResponseHandle { raw, method: out.method, url: out.url, elapsed }),
        Err(reason) => Err(FetchError::Transport { reason }),
    }
}

/// Without a url, a call fails with the missing-url error, whatever the
/// policy's lists hold, as long as neither is malformed.
pub proof fn missing_url_fails_first(
    p: AccessPolicy,
    o: RequestOptions,
    user_agent: Seq<char>,
    r: Result<Outbound, FetchError>,
)
    requires
        p.config_error() is None,
        o.url is None,
        prepared(p, o, user_agent, r),
    ensures
        r == Err::<Outbound, FetchError>(FetchError::MissingUrl),
{
}

/// A malformed deny list makes every call fail with the same configuration
/// error, whatever the options, as long as the allow list is not malformed.
pub proof fn malformed_deny_list_blocks_every_call(
    p: AccessPolicy,
    o1: RequestOptions,
    o2: RequestOptions,
    user_agent: Seq<char>,
    r1: Result<Outbound, FetchError>,
    r2: Result<Outbound, FetchError>,
)
    requires
        p.deny matches Some(Err(_)),
        !(p.allow matches Some(Err(_))),
        prepared(p, o1, user_agent, r1),
        prepared(p, o2, user_agent, r2),
    ensures
        r1 == r2,
        r1 matches Err(FetchError::Config { list, .. }) && list == PolicyList::Deny,
{
}

/// A url that parses to an absolute URI matching the deny list fails as
/// denied, even where it also matches the allow list, once the lists and the
/// method are valid.
pub proof fn denied_even_if_allowed(
    p: AccessPolicy,
    o: RequestOptions,
    user_agent: Seq<char>,
    r: Result<Outbound, FetchError>,
)
    requires
        p.config_error() is None,
        o.url matches Some(url) && uri_parts(url@) matches Some(u) && (is_absolute(u) && (
        p.deny matches Some(Ok(l)) && list_matches(l@, u))),
        o.method is Ok,
        prepared(p, o, user_agent, r),
    ensures
        r == Err::<Outbound, FetchError>(FetchError::Denied { url: o.url->Some_0 }),
{
}

/// A completed exchange reports the method and url text that were sent.
pub proof fn handle_reports_what_was_sent<R>(
    out: Outbound,
    raw: R,
    elapsed: u64,
    r: Result<ResponseHandle<R>, FetchError>,
)
    requires
        completed(out, Ok::<R, String>(raw), elapsed, r),
    ensures
        r matches Ok(h) && h.method.name() == out.method.name() && h.url@ == out.url@
            && h.elapsed >= 0,
{
}

} // verus!
