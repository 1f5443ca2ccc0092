//! Verified string comparisons used by the oracle rules.
//!
//! Type names are compared by their textual content, and the
//! naming-convention rule tests a fixed suffix, so the library needs exact
//! equality and suffix tests on `&str` whose results are pinned to the
//! string views.

use vstd::prelude::*;
use vstd::string::StrSliceExecFns;

verus! {

/// Character-by-character string equality, pinned to the views.
pub fn str_eq(a: &str, b: &str) -> (r: bool)
    ensures
        r == (a@ == b@),
{
    let alen: usize = a.unicode_len();
    let blen: usize = b.unicode_len();
    if alen != blen {
        return false;
    }
    let mut i: usize = 0;
    while i < alen
        invariant
            alen == a@.len(),
            alen == b@.len(),
            i <= alen,
            forall|j: int| 0 <= j < i ==> a@[j] == b@[j],
        decreases alen - i,
    {
        if a.get_char(i) != b.get_char(i) {
            return false;
        }
        i += 1;
    }
    proof {
        assert(a@ =~= b@);
    }
    true
}

/// Whether `s` ends with `suffix`, pinned to the views.
pub fn str_ends_with(s: &str, suffix: &str) -> (r: bool)
    ensures
        r == suffix@.is_suffix_of(s@),
{
    let n: usize = s.unicode_len();
    let m: usize = suffix.unicode_len();
    if m > n {
        return false;
    }
    let mut i: usize = 0;
    while i < m
        invariant
            n == s@.len(),
            m == suffix@.len(),
            m <= n,
            i <= m,
            forall|j: int| 0 <= j < i ==> s@[n - m + j] == suffix@[j],
        decreases m - i,
    {
        if s.get_char(n - m + i) != suffix.get_char(i) {
            proof {
                assert(s@[n - m + i] != suffix@[i as int]);
            }
            return false;
        }
        i += 1;
    }
    proof {
        assert(suffix@ =~= s@.subrange(n - m, n as int));
    }
    true
}

} // verus!
