//! Header-set lookup: finding the first header with a given field name,
//! compared ASCII-case-insensitively as HTTP requires.

use vstd::prelude::*;
use vstd::string::StrSliceExecFns;

verus! {

/// The code point of `c` with an ASCII upper-case letter folded to its
/// lower-case counterpart; other characters are left as they are.
pub open spec fn lower_code(c: char) -> u32 {
    if 65 <= c as u32 && c as u32 <= 90 {
        (c as u32 + 32) as u32
    } else {
        c as u32
    }
}

/// Whether two character sequences are equal up to ASCII case.
pub open spec fn str_eq_ci(a: Seq<char>, b: Seq<char>) -> bool {
    a.len() == b.len() && (forall|i: int|
        0 <= i < a.len() ==> lower_code(a[i]) == lower_code(b[i]))
}

/// The value of the first header whose field name equals `name` up to
/// ASCII case, if any.
pub open spec fn spec_header_value(
    hs: Seq<(Seq<char>, Seq<char>)>,
    name: Seq<char>,
) -> Option<Seq<char>>
    decreases hs.len(),
{
    if hs.len() == 0 {
        None
    } else if str_eq_ci(hs[0].0, name) {
        Some(hs[0].1)
    } else {
        spec_header_value(hs.drop_first(), name)
    }
}

/// Compares two strings for equality up to ASCII case.
pub fn eq_ignore_ascii_case(a: &str, b: &str) -> (r: bool)
    ensures
        r == str_eq_ci(a@, b@),
{
    let alen = a.unicode_len();
    let blen = b.unicode_len();
    if alen != blen {
        return false;
    }
    let mut i: usize = 0;
    while i < alen
        invariant
            alen == a@.len(),
            blen == b@.len(),
            alen == blen,
            i <= alen,
            forall|k: int| 0 <= k < i ==> lower_code(a@[k]) == lower_code(b@[k]),
        decreases alen - i,
    {
        let ca = a.get_char(i);
        let cb = b.get_char(i);
        let xa: u32 = ca as u32;
        let xb: u32 = cb as u32;
        let la: u32 = if 65 <= xa && xa <= 90 { xa + 32 } else { xa };
        let lb: u32 = if 65 <= xb && xb <= 90 { xb + 32 } else { xb };
        if la != lb {
            return false;
        }
        i += 1;
    }
    true
}

/// A prefix of headers none of which matches `name` does not change the
/// lookup's outcome.
proof fn lemma_header_value_skip(hs: Seq<(Seq<char>, Seq<char>)>, name: Seq<char>, i: int)
    requires
        0 <= i <= hs.len(),
        forall|k: int| 0 <= k < i ==> !str_eq_ci(hs[k].0, name),
    ensures
        spec_header_value(hs, name) == spec_header_value(hs.skip(i), name),
    decreases i,
{
    if i > 0 {
        assert(str_eq_ci(hs[0].0, name) == false);
        lemma_header_value_skip(hs.drop_first(), name, i - 1);
        assert(hs.drop_first().skip(i - 1) =~= hs.skip(i));
    } else {
        assert(hs.skip(0) =~= hs);
    }
}

/// Finds the value of the first header whose field name equals `name`
/// up to ASCII case, as [`spec_header_value`] describes.
pub fn header_value(headers: &Vec<(String, String)>, name: &str) -> (r: Option<String>)
    ensures
        r.deep_view() == spec_header_value(headers.deep_view(), name@),
{
    let ghost hs = headers.deep_view();
    let mut i: usize = 0;
    while i < headers.len()
        invariant
            hs == headers.deep_view(),
            hs.len() == headers.len(),
            i <= headers.len(),
            forall|k: int| 0 <= k < i ==> !str_eq_ci(hs[k].0, name@),
        decreases headers.len() - i,
    {
        if eq_ignore_ascii_case(headers[i].0.as_str(), name) {
            proof {
                lemma_header_value_skip(hs, name@, i as int);
                assert(hs.skip(i as int)[0] == hs[i as int]);
            }
            return Some(headers[i].1.clone());
        }
        i += 1;
    }
    proof {
        lemma_header_value_skip(hs, name@, hs.len() as int);
        assert(hs.skip(hs.len() as int).len() == 0);
    }
    None
}

} // verus!
