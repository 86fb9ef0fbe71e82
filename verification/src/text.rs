//! Small verified string helpers used by routing and authentication.
use vstd::prelude::*;
use vstd::string::StrSliceExecFns;

verus! {

/// Character-for-character equality of two string slices.
pub fn str_eq(a: &str, b: &str) -> (r: bool)
    ensures
        r == (a@ == b@),
{
    let sa: String = a.to_owned();
    let sb: String = b.to_owned();
    sa == sb
}

/// Whether `s` begins with `prefix`.
pub fn str_starts_with(s: &str, prefix: &str) -> (r: bool)
    ensures
        r == (s@.len() >= prefix@.len() && s@.take(prefix@.len() as int) == prefix@),
{
    let n: usize = prefix.unicode_len();
    let m: usize = s.unicode_len();
    if m < n {
        false
    } else {
        let head = s.substring_char(0, n);
        proof {
            assert(head@ =~= s@.take(prefix@.len() as int));
        }
        str_eq(head, prefix)
    }
}

/// The characters of `s` after its first `n`, as an owned string.
pub fn str_after(s: &str, n: usize) -> (r: String)
    requires
        n <= s@.len(),
    ensures
        r@ == s@.skip(n as int),
{
    let m: usize = s.unicode_len();
    let tail = s.substring_char(n, m);
    proof {
        assert(tail@ =~= s@.skip(n as int));
    }
    tail.to_owned()
}

} // verus!
