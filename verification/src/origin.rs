//! Trusted boundary to the URL parser. An exchange can only be accepted
//! when its `Origin` header is a valid absolute URL, since that origin
//! must answer the cross-origin check when the response is completed.

use vstd::prelude::*;

verus! {

/// Whether a string parses as an absolute URL. Uninterpreted: the
/// outcome is fixed by the characters alone.
pub uninterp spec fn url_ok(s: Seq<char>) -> bool;

/// Relies on `url::Url::parse`: it returns `Ok` exactly on strings that
/// parse as absolute URLs, an outcome fixed by the input alone.
#[verifier::external_body]
pub(crate) fn origin_is_valid_url(s: &str) -> (r: bool)
    ensures
        r == url_ok(s@),
{
    url::Url::parse(s).is_ok()
}

} // verus!
