use vstd::prelude::*;

use crate::error::{FetchError, PolicyList};
use crate::text::{ends_with, ends_with_text, entries, same_text, split_entries};
use crate::uri::{parse_uri, uri_parts, UriParts};

verus! {

/// The parts of a URI that access checks read: scheme, host and port.
pub type UriView = (Option<Seq<char>>, Option<Seq<char>>, Option<u16>);

/// The host of a URI, or the empty text where it has none.
pub open spec fn host_text(u: UriView) -> Seq<char> {
    match u.1 {
        Some(h) => h,
        None => Seq::empty(),
    }
}

/// The port a URI connects to: its explicit port, else 443 for `https`,
/// else 80.
pub open spec fn effective_port(u: UriView) -> u16 {
    match u.2 {
        Some(p) => p,
        None => if u.0 == Some("https"@) {
            443
        } else {
            80
        },
    }
}

/// An access-list entry matches a URI when the URI's host ends with the
/// entry's host and both connect to the same port.
pub open spec fn entry_matches(entry: UriView, uri: UriView) -> bool {
    ends_with(host_text(uri), host_text(entry)) && effective_port(entry) == effective_port(uri)
}

/// Whether some entry of a list matches the URI.
pub open spec fn list_matches(list: Seq<UriParts>, uri: UriView) -> bool {
    exists|i: int| 0 <= i < list.len() && #[trigger] entry_matches(list[i]@, uri)
}

/// Entry `i` is the first that is not a valid URI.
pub open spec fn first_invalid(es: Seq<Seq<char>>, i: int) -> bool {
    uri_parts(es[i]) is None && forall|j: int| 0 <= j < i ==> uri_parts(#[trigger] es[j]) is Some
}

/// What parsing a list text gives: every entry parsed, in order, or the
/// failure of the first entry that is not a valid URI.
pub open spec fn list_outcome(text: Seq<char>, r: Result<Vec<UriParts>, String>) -> bool {
    let es = entries(text);
    match r {
        Ok(v) => v@.len() == es.len() && forall|i: int|
            0 <= i < es.len() ==> uri_parts(#[trigger] es[i]) == Some(v@[i]@),
        Err(_) => exists|i: int| 0 <= i < es.len() && #[trigger] first_invalid(es, i),
    }
}

/// The outcome of an optional list source: absent stays absent.
pub open spec fn source_outcome(
    text: Option<Seq<char>>,
    r: Option<Result<Vec<UriParts>, String>>,
) -> bool {
    match text {
        None => r is None,
        Some(t) => r matches Some(l) && list_outcome(t, l),
    }
}

fn host_of(u: &UriParts) -> (r: &str)
    ensures
        r@ == host_text(u@),
{
    match &u.host {
        Some(h) => h.as_str(),
        None => {
            proof {
                reveal_strlit("");
            }
            ""
        },
    }
}

/// The port a URI connects to.
pub fn port_of(u: &UriParts) -> (r: u16)
    ensures
        r == effective_port(u@),
{
    match u.port {
        Some(p) => p,
        None => {
            proof {
                reveal_strlit("https");
            }
            let https = match &u.scheme {
                Some(s) => same_text(s.as_str(), "https"),
                None => false,
            };
            if https {
                443
            } else {
                80
            }
        },
    }
}

/// Whether an entry matches a URI.
pub fn matches_entry(entry: &UriParts, uri: &UriParts) -> (r: bool)
    ensures
        r == entry_matches(entry@, uri@),
{
    ends_with_text(host_of(uri), host_of(entry)) && port_of(entry) == port_of(uri)
}

/// Whether some entry of the list matches a URI.
pub fn matches_list(list: &Vec<UriParts>, uri: &UriParts) -> (r: bool)
    ensures
        r == list_matches(list@, uri@),
{
    let mut i: usize = 0;
    while i < list.len()
        invariant
            i <= list@.len(),
            forall|j: int| 0 <= j < i ==> !#[trigger] entry_matches(list@[j]@, uri@),
        decreases list@.len() - i,
    {
        if matches_entry(&list[i], uri) {
            return true;
        }
        i = i + 1;
    }
    false
}

/// Parses a list text into its entries, failing on the first entry that is
/// not a valid URI.
pub fn parse_list(text: &str) -> (r: Result<Vec<UriParts>, String>)
    ensures
        list_outcome(text@, r),
{
    let words = split_entries(text);
    let ghost es = entries(text@);
    assert(forall|i: int| 0 <= i < words@.len() ==> words@[i]@ == es[i]) by {
        assert forall|i: int| 0 <= i < words@.len() implies words@[i]@ == es[i] by {
            assert(words@.map_values(|e: String| e@)[i] == words@[i]@);
        }
    }
    let mut out: Vec<UriParts> = Vec::new();
    let mut i: usize = 0;
    while i < words.len()
        invariant
            es == entries(text@),
            words@.len() == es.len(),
            forall|k: int| 0 <= k < words@.len() ==> words@[k]@ == es[k],
            i <= words@.len(),
            out@.len() == i,
            forall|k: int| 0 <= k < i ==> uri_parts(#[trigger] es[k]) == Some(out@[k]@),
        decreases words@.len() - i,
    {
        match parse_uri(words[i].as_str()) {
            Ok(p) => {
                out.push(p);
            },
            Err(e) => {
                let ghost k = i as int;
                assert(forall|j: int| 0 <= j < k ==> uri_parts(#[trigger] es[j]) is Some);
                assert(first_invalid(es, k));
                return Err(e);
            },
        }
        i = i + 1;
    }
    Ok(out)
}

/// The two access lists. Each is absent where its source is unset, else
/// the outcome of parsing that source, kept as it came.
#[derive(Clone, Debug)]
pub struct AccessPolicy {
    pub allow: Option<Result<Vec<UriParts>, String>>,
    pub deny: Option<Result<Vec<UriParts>, String>>,
}

impl AccessPolicy {
    /// The configuration failure that blocks every request: the allow list's
    /// parse failure first, then the deny list's.
    pub open spec fn config_error(&self) -> Option<FetchError> {
        match self.allow {
            Some(Err(e)) => Some(FetchError::Config { list: PolicyList::Allow, reason: e }),
            _ => match self.deny {
                Some(Err(e)) => Some(FetchError::Config { list: PolicyList::Deny, reason: e }),
                _ => None,
            },
        }
    }

    /// The access decision for a URI whose text is `url`: a configuration
    /// failure first; then a match on the deny list rejects; then, where an
    /// allow list is set, a URI that matches none of it is rejected.
    pub open spec fn access_outcome(&self, uri: UriView, url: String) -> Result<(), FetchError> {
        match self.config_error() {
            Some(e) => Err(e),
            None => if self.deny matches Some(Ok(l)) && list_matches(l@, uri) {
                Err(FetchError::Denied { url })
            } else if self.allow matches Some(Ok(l)) && !list_matches(l@, uri) {
                Err(FetchError::NotAllowed { url })
            } else {
                Ok(())
            },
        }
    }

    /// Builds the policy from the two optional list texts.
    pub fn from_sources(allow: Option<&str>, deny: Option<&str>) -> (r: AccessPolicy)
        ensures
            source_outcome(
                match allow {
                    Some(t) => Some(t@),
                    None => None,
                },
                r.allow,
            ),
            source_outcome(
                match deny {
                    Some(t) => Some(t@),
                    None => None,
                },
                r.deny,
            ),
    {
        let allow = match allow {
            Some(t) => Some(parse_list(t)),
            None => None,
        };
        let deny = match deny {
            Some(t) => Some(parse_list(t)),
            None => None,
        };
        AccessPolicy { allow, deny }
    }

    /// Fails with the configuration error, if any list is malformed.
    pub fn check_config(&self) -> (r: Result<(), FetchError>)
        ensures
            r == match self.config_error() {
                Some(e) => Err::<(), FetchError>(e),
                None => Ok(()),
            },
    {
        if let Some(Err(e)) = &self.allow {
            return Err(FetchError::Config { list: PolicyList::Allow, reason: e.clone() });
        }
        if let Some(Err(e)) = &self.deny {
            return Err(FetchError::Config { list: PolicyList::Deny, reason: e.clone() });
        }
        Ok(())
    }

    /// Checks a parsed URI, whose text is `url`, against the lists.
    pub fn ensure_url_access(&self, uri: &UriParts, url: &String) -> (r: Result<(), FetchError>)
        ensures
            r == self.access_outcome(uri@, *url),
    {
        self.check_config()?;
        if let Some(Ok(l)) = &self.deny {
            if matches_list(l, uri) {
                return Err(FetchError::Denied { url: url.clone() });
            }
        }
        if let Some(Ok(l)) = &self.allow {
            if !matches_list(l, uri) {
                return Err(FetchError::NotAllowed { url: url.clone() });
            }
        }
        Ok(())
    }
}

/// A URI that matches the deny list is rejected as denied, whatever the
/// allow list holds, as long as neither list is malformed.
pub proof fn deny_takes_precedence(p: AccessPolicy, uri: UriView, url: String)
    requires
        p.config_error() is None,
        p.deny matches Some(Ok(l)) && list_matches(l@, uri),
    ensures
        p.access_outcome(uri, url) == Err::<(), FetchError>(FetchError::Denied { url }),
{
}

/// A malformed list makes every access check fail with the same
/// configuration error, whatever the URI.
pub proof fn malformed_list_blocks_every_uri(
    p: AccessPolicy,
    u1: UriView,
    t1: String,
    u2: UriView,
    t2: String,
)
    requires
        p.config_error() is Some,
    ensures
        p.access_outcome(u1, t1) == p.access_outcome(u2, t2),
        p.access_outcome(u1, t1) is Err,
{
}

} // verus!
