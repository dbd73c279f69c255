//! Extracting the target surface identifier from a request path of the
//! form `/<surface-id>[/...]`: the segment between the first slash and
//! the next one.

use vstd::prelude::*;
use vstd::string::StrSliceExecFns;

verus! {

/// The index of the first `/` in `s`, or `s.len()` when there is none.
pub open spec fn first_slash(s: Seq<char>) -> int
    decreases s.len(),
{
    if s.len() == 0 {
        0
    } else if s[0] == '/' {
        0
    } else {
        1 + first_slash(s.drop_first())
    }
}

/// `first_slash(s) == i` exactly when no earlier character is a slash
/// and position `i` is a slash or the end.
pub proof fn lemma_first_slash_at(s: Seq<char>, i: int)
    requires
        0 <= i <= s.len(),
        forall|k: int| 0 <= k < i ==> s[k] != '/',
        i == s.len() || s[i] == '/',
    ensures
        first_slash(s) == i,
    decreases i,
{
    if i == 0 {
    } else {
        assert(s[0] != '/');
        lemma_first_slash_at(s.drop_first(), i - 1);
    }
}

/// The surface identifier of a request path: the characters between
/// the first slash and the next slash or the end; empty when the path
/// holds no slash at all.
pub open spec fn spec_surface_label(p: Seq<char>) -> Seq<char> {
    if first_slash(p) == p.len() {
        Seq::<char>::empty()
    } else {
        let rest = p.skip(first_slash(p) + 1);
        rest.take(first_slash(rest))
    }
}

/// Finds the first `/` in `path` at or after `from`, or the length
/// when there is none.
fn find_slash(path: &str, from: usize) -> (r: usize)
    requires
        from <= path@.len(),
    ensures
        from <= r <= path@.len(),
        forall|k: int| from <= k < r ==> path@[k] != '/',
        r == path@.len() || path@[r as int] == '/',
{
    let n = path.unicode_len();
    let mut i: usize = from;
    while i < n
        invariant
            from <= i <= n,
            n == path@.len(),
            forall|k: int| from <= k < i ==> path@[k] != '/',
        decreases n - i,
    {
        if path.get_char(i) == '/' {
            return i;
        }
        i += 1;
    }
    n
}

/// Extracts the surface identifier from a request path, per
/// [`spec_surface_label`].
pub fn surface_label(path: &str) -> (r: String)
    ensures
        r@ == spec_surface_label(path@),
{
    let n = path.unicode_len();
    let i = find_slash(path, 0);
    proof {
        lemma_first_slash_at(path@, i as int);
    }
    if i == n {
        return String::new();
    }
    let j = find_slash(path, i + 1);
    let ghost rest = path@.skip(i + 1);
    proof {
        assert(forall|k: int| 0 <= k < j - (i + 1) ==> rest[k] != '/');
        assert(j - (i + 1) == rest.len() || rest[j - (i + 1)] == '/');
        lemma_first_slash_at(rest, j - (i + 1));
        assert(rest.take(j - (i + 1)) =~= path@.subrange(i + 1, j as int));
    }
    let seg = path.substring_char(i + 1, j);
    seg.to_owned()
}

} // verus!
