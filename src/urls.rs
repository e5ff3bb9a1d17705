//! Path rules for joining endpoint paths onto a base URL.

use vstd::prelude::*;

verus! {

/// A base path that ends with `/`, so that joining appends segments to it
/// rather than replacing its last one.
pub open spec fn dir_path(path: Seq<char>) -> Seq<char> {
    if path.len() > 0 && path.last() == '/' {
        path
    } else {
        path.push('/')
    }
}

/// `path` without any leading `/`, so that it joins as a relative path.
pub open spec fn without_leading_slashes(path: Seq<char>) -> Seq<char>
    decreases path.len(),
{
    if path.len() > 0 && path[0] == '/' {
        without_leading_slashes(path.drop_first())
    } else {
        path
    }
}

/// The base path with a trailing `/` added where it lacks one.
pub fn normalized_path(path: &str) -> (r: String)
    ensures
        r@ == dir_path(path@),
{
    let n = path.unicode_len();
    let mut r = path.to_owned();
    if n > 0 && path.get_char(n - 1) == '/' {
        r
    } else {
        proof {
            reveal_strlit("/");
        }
        r.append("/");
        assert(r@ =~= path@.push('/'));
        r
    }
}

/// The endpoint path with its leading `/` removed.
pub fn relative_path(path: &str) -> (r: &str)
    ensures
        r@ == without_leading_slashes(path@),
{
    let n = path.unicode_len();
    let mut k: usize = 0;
    assert(path@.skip(0) =~= path@);
    while k < n && path.get_char(k) == '/'
        invariant
            n == path@.len(),
            k <= n,
            without_leading_slashes(path@) == without_leading_slashes(path@.skip(k as int)),
        decreases n - k,
    {
        assert(path@.skip(k as int).drop_first() =~= path@.skip(k + 1));
        k += 1;
    }
    let r = path.substring_char(k, n);
    assert(r@ =~= path@.skip(k as int));
    r
}

} // verus!
