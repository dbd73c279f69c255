//! The origin policy: which cross-origin headers a response carries,
//! decided per request from the configured allow-list and the request's
//! `Origin` header.

use vstd::prelude::*;

verus! {

/// The value of the outgoing `Access-Control-Allow-Origin` header, if
/// any: the wildcard when the allow-list holds the wildcard token, the
/// request's own origin echoed back when it exactly matches an entry,
/// and nothing otherwise.
pub open spec fn spec_allow_origin(
    allowed: Seq<Seq<char>>,
    origin: Option<Seq<char>>,
) -> Option<Seq<char>> {
    if allowed.contains("*"@) {
        Some("*"@)
    } else if origin matches Some(o) && allowed.contains(o) {
        origin
    } else {
        None
    }
}

/// The full cross-origin header set of a response: the allow-origin
/// header per [`spec_allow_origin`], then the two fixed headers that
/// every response carries.
pub open spec fn spec_cors_headers(
    allowed: Seq<Seq<char>>,
    origin: Option<Seq<char>>,
) -> Seq<(Seq<char>, Seq<char>)> {
    let fixed = seq![
        ("Access-Control-Allow-Headers"@, "*"@),
        ("Access-Control-Allow-Methods"@, "POST, OPTIONS"@),
    ];
    match spec_allow_origin(allowed, origin) {
        Some(v) => seq![("Access-Control-Allow-Origin"@, v)] + fixed,
        None => fixed,
    }
}

/// Whether `allowed` holds an entry whose characters are exactly `s`'s.
fn contains_origin(allowed: &Vec<String>, s: &String) -> (r: bool)
    ensures
        r == allowed.deep_view().contains(s@),
{
    let mut i: usize = 0;
    while i < allowed.len()
        invariant
            i <= allowed.len(),
            forall|k: int| 0 <= k < i ==> allowed.deep_view()[k] != s@,
        decreases allowed.len() - i,
    {
        if allowed[i].eq(s) {
            assert(allowed.deep_view()[i as int] == s@);
            return true;
        }
        i += 1;
    }
    assert(forall|k: int| 0 <= k < allowed.deep_view().len()
        ==> allowed.deep_view()[k] != s@);
    false
}

/// Decides the `Access-Control-Allow-Origin` value for one response.
pub fn allow_origin(allowed: &Vec<String>, origin: &Option<String>) -> (r: Option<String>)
    ensures
        r.deep_view() == spec_allow_origin(allowed.deep_view(), origin.deep_view()),
{
    let wildcard: String = String::from_str("*");
    if contains_origin(allowed, &wildcard) {
        Some(wildcard)
    } else {
        match origin {
            Some(o) => {
                if contains_origin(allowed, o) {
                    Some(o.clone())
                } else {
                    None
                }
            },
            None => None,
        }
    }
}

/// Builds the cross-origin header set of one response, as name-value
/// pairs, per [`spec_cors_headers`].
pub fn cors(allowed: &Vec<String>, origin: &Option<String>) -> (r: Vec<(String, String)>)
    ensures
        r.deep_view() == spec_cors_headers(allowed.deep_view(), origin.deep_view()),
{
    let mut r: Vec<(String, String)> = Vec::new();
    let head = allow_origin(allowed, origin);
    match head {
        Some(v) => {
            r.push((String::from_str("Access-Control-Allow-Origin"), v));
        },
        None => {},
    }
    r.push((String::from_str("Access-Control-Allow-Headers"), String::from_str("*")));
    r.push((
        String::from_str("Access-Control-Allow-Methods"),
        String::from_str("POST, OPTIONS"),
    ));
    proof {
        assert(r.deep_view() =~= spec_cors_headers(
            allowed.deep_view(),
            origin.deep_view(),
        ));
    }
    r
}

/// Law: with a wildcard in the allow-list, every response carries
/// `Access-Control-Allow-Origin: *`, whatever the request's origin.
pub proof fn lemma_wildcard_allows_all(allowed: Seq<Seq<char>>, origin: Option<Seq<char>>)
    requires
        allowed.contains("*"@),
    ensures
        spec_allow_origin(allowed, origin) == Some("*"@),
        spec_cors_headers(allowed, origin).len() == 3,
        spec_cors_headers(allowed, origin)[0] == ("Access-Control-Allow-Origin"@, "*"@),
{
}

/// Law: without a wildcard in the allow-list, a response echoes the
/// request's origin under `Access-Control-Allow-Origin` if and only if
/// that origin exactly equals an allow-list entry; otherwise the header
/// is absent and only the two fixed headers remain.
pub proof fn lemma_exact_origin_echo(allowed: Seq<Seq<char>>, origin: Option<Seq<char>>)
    requires
        !allowed.contains("*"@),
    ensures
        origin matches Some(o) && allowed.contains(o) ==> ({
            &&& spec_allow_origin(allowed, origin) == origin
            &&& spec_cors_headers(allowed, origin).len() == 3
            &&& spec_cors_headers(allowed, origin)[0]
                == ("Access-Control-Allow-Origin"@, origin.unwrap())
        }),
        !(origin matches Some(o) && allowed.contains(o)) ==> ({
            &&& spec_allow_origin(allowed, origin) is None
            &&& spec_cors_headers(allowed, origin).len() == 2
            &&& forall|i: int|
                0 <= i < spec_cors_headers(allowed, origin).len()
                    ==> #[trigger] spec_cors_headers(allowed, origin)[i].0
                        != "Access-Control-Allow-Origin"@
        }),
{
    reveal_strlit("Access-Control-Allow-Origin");
    reveal_strlit("Access-Control-Allow-Headers");
    reveal_strlit("Access-Control-Allow-Methods");
    if !(origin matches Some(o) && allowed.contains(o)) {
        let hs = spec_cors_headers(allowed, origin);
        assert("Access-Control-Allow-Origin"@.len() == 27);
        assert("Access-Control-Allow-Headers"@.len() == 28);
        assert("Access-Control-Allow-Methods"@.len() == 28);
        assert(hs[0].0 == "Access-Control-Allow-Headers"@);
        assert(hs[1].0 == "Access-Control-Allow-Methods"@);
    }
}

} // verus!
