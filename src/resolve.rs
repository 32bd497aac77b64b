use vstd::prelude::*;

use crate::error::FetchError;
use crate::method::{method_outcome, parse_method, Method};
use crate::uri::opt_text;

verus! {

/// The fields of a script options object, each as it was read at call time.
/// A `method`, `headers` or `body` value that could not be read or converted
/// is kept as its error, to be raised only if the field is used.
#[derive(Debug)]
pub struct FetchOptions {
    pub url: Option<String>,
    pub method: Result<Option<String>, FetchError>,
    pub headers: Option<Result<Vec<(String, String)>, FetchError>>,
    pub body: Option<Result<Vec<u8>, FetchError>>,
}

/// The first argument of a fetch call.
#[derive(Debug)]
pub enum Resource {
    /// A url text.
    Url(String),
    /// An options object.
    Options(FetchOptions),
    /// Any other value: it supplies neither a url nor options.
    Other,
}

/// The request parameters after both arguments have been read. Failures of
/// the method, headers and body stay deferred until dispatch.
#[derive(Debug)]
pub struct RequestOptions {
    pub url: Option<String>,
    pub method: Result<Method, FetchError>,
    pub headers: Option<Result<Vec<(String, String)>, FetchError>>,
    pub body: Result<Vec<u8>, FetchError>,
}

/// The url the first argument gives directly.
pub open spec fn primary_url(resource: Resource) -> Option<String> {
    match resource {
        Resource::Url(u) => Some(u),
        _ => None,
    }
}

/// The one options object that is read: the first argument where it is an
/// options object, else the second argument.
pub open spec fn effective_options(resource: Resource, second: Option<FetchOptions>) -> Option<
    FetchOptions,
> {
    match resource {
        Resource::Options(o) => Some(o),
        _ => second,
    }
}

/// The effective url: the options object's `url` where it has one, else the
/// url text of the first argument.
pub open spec fn resolved_url(resource: Resource, second: Option<FetchOptions>) -> Option<String> {
    match effective_options(resource, second) {
        Some(o) if o.url is Some => o.url,
        _ => primary_url(resource),
    }
}

/// What resolution gives from the two arguments.
pub open spec fn resolution(
    resource: Resource,
    second: Option<FetchOptions>,
    r: RequestOptions,
) -> bool {
    &&& r.url == resolved_url(resource, second)
    &&& match effective_options(resource, second) {
        None => {
            &&& r.method == Ok::<Method, FetchError>(Method::Get)
            &&& r.headers is None
            &&& r.body matches Ok(b) && b@.len() == 0
        },
        Some(o) => {
            &&& match o.method {
                Err(e) => r.method == Err::<Method, FetchError>(e),
                Ok(m) => method_outcome(opt_text(m), r.method),
            }
            &&& r.headers == o.headers
            &&& match o.body {
                Some(b) => r.body == b,
                None => r.body matches Ok(b) && b@.len() == 0,
            }
        },
    }
}

/// Splits the first argument into the url it gives directly and the options
/// object it is.
pub fn get_url_options(resource: Resource) -> (r: (Option<String>, Option<FetchOptions>))
    ensures
        r.0 == primary_url(resource),
        r.1 == match resource {
            Resource::Options(o) => Some(o),
            _ => None::<FetchOptions>,
        },
{
    match resource {
        Resource::Url(u) => (Some(u), None),
        Resource::Options(o) => (None, Some(o)),
        Resource::Other => (None, None),
    }
}

/// Resolves the request parameters from the first argument and the second
/// argument's options object, if it was one.
pub fn resolve(resource: Resource, second: Option<FetchOptions>) -> (r: RequestOptions)
    ensures
        resolution(resource, second, r),
{
    let ghost res0 = resource;
    let (url, resource_options) = get_url_options(resource);
    let options = match resource_options {
        Some(o) => Some(o),
        None => second,
    };
    match options {
        None => RequestOptions { url, method: Ok(Method::Get), headers: None, body: Ok(Vec::new()) },
        Some(opts) => {
            let FetchOptions { url: url_opt, method: method_opt, headers, body: body_opt } = opts;
            let url = match url_opt {
                Some(u) => Some(u),
                None => url,
            };
            let body = match body_opt {
                Some(b) => b,
                None => Ok(Vec::new()),
            };
            let method = match method_opt {
                Err(e) => Err(e),
                Ok(m) => {
                    let text: Option<&str> = match &m {
                        Some(t) => Some(t.as_str()),
                        None => None,
                    };
                    parse_method(text)
                },
            };
            RequestOptions { url, method, headers, body }
        },
    }
}

} // verus!
