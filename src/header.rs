use vstd::prelude::*;

use crate::error::FetchError;

verus! {

/// Whether hyper accepts a text as a header name.
pub uninterp spec fn valid_header_name(s: Seq<char>) -> bool;

/// Whether hyper accepts a text as a header value.
pub uninterp spec fn valid_header_value(s: Seq<char>) -> bool;

/// Relies on `hyper::header::HeaderName::from_bytes`, which the request
/// builder applies to a `&str` name: the answer depends on the text alone.
#[verifier::external_body]
pub(crate) fn is_header_name(s: &str) -> (r: bool)
    ensures
        r == valid_header_name(s@),
{
    hyper::header::HeaderName::from_bytes(s.as_bytes()).is_ok()
}

/// Relies on `hyper::header::HeaderValue::from_str`, which the request
/// builder applies to a `&str` value: the answer depends on the text alone.
#[verifier::external_body]
pub(crate) fn is_header_value(s: &str) -> (r: bool)
    ensures
        r == valid_header_value(s@),
{
    hyper::header::HeaderValue::from_str(s).is_ok()
}

/// The characters of each header name and value.
pub open spec fn header_texts(hs: Seq<(String, String)>) -> Seq<(Seq<char>, Seq<char>)> {
    hs.map_values(|h: (String, String)| (h.0@, h.1@))
}

/// Whether hyper's request builder accepts a header name and value.
pub open spec fn header_ok(h: (Seq<char>, Seq<char>)) -> bool {
    valid_header_name(h.0) && valid_header_value(h.1)
}

/// Header `i` is the first that the request builder refuses.
pub open spec fn first_bad_header(hs: Seq<(Seq<char>, Seq<char>)>, i: int) -> bool {
    0 <= i < hs.len() && !header_ok(hs[i]) && forall|j: int|
        0 <= j < i ==> #[trigger] header_ok(hs[j])
}

/// Fails on the first header the request builder would refuse.
pub fn check_headers(hs: &Vec<(String, String)>) -> (r: Result<(), FetchError>)
    ensures
        match r {
            Ok(_) => forall|i: int| 0 <= i < hs@.len() ==> #[trigger] header_ok(header_texts(hs@)[i]),
            Err(e) => e matches FetchError::InvalidHeader { name } && exists|i: int|
                #[trigger] first_bad_header(header_texts(hs@), i) && name@ == hs@[i].0@,
        },
{
    let ghost ts = header_texts(hs@);
    let mut i: usize = 0;
    while i < hs.len()
        invariant
            ts == header_texts(hs@),
            i <= hs@.len(),
            forall|j: int| 0 <= j < i ==> #[trigger] header_ok(ts[j]),
        decreases hs@.len() - i,
    {
        let (name, value) = &hs[i];
        assert(ts[i as int] == (name@, value@));
        if !is_header_name(name.as_str()) || !is_header_value(value.as_str()) {
            assert(first_bad_header(ts, i as int));
            return Err(FetchError::InvalidHeader { name: name.clone() });
        }
        i = i + 1;
    }
    Ok(())
}

} // verus!
