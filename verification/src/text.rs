//! Small verified helpers on strings.
use vstd::prelude::*;

verus! {

/// Character-by-character string equality, proved equivalent to equality of
/// the two views.
pub fn str_eq(a: &str, b: &str) -> (r: bool)
    ensures
        r == (a@ == b@),
{
    let a_len = a.unicode_len();
    let b_len = b.unicode_len();
    if a_len != b_len {
        return false;
    }
    let mut i: usize = 0;
    while i < a_len
        invariant
            a_len == a@.len(),
            a_len == b@.len(),
            i <= a_len,
            forall|t: int| 0 <= t < i ==> a@[t] == b@[t],
        decreases a_len - i,
    {
        if a.get_char(i) != b.get_char(i) {
            return false;
        }
        i += 1;
    }
    proof {
        assert(a@ =~= b@);
    }
    true
}

/// String equality that walks both strings to the end instead of returning
/// at the first mismatch, for comparisons of secret-bearing identifiers.
/// Only the length check exits early (a length is not a secret). The result
/// is proved equal to equality of the views; the timing itself is outside
/// the verifier's model.
pub fn constant_time_str_eq(a: &str, b: &str) -> (r: bool)
    ensures
        r == (a@ == b@),
{
    let a_len = a.unicode_len();
    let b_len = b.unicode_len();
    if a_len != b_len {
        return false;
    }
    let mut differs = false;
    let mut i: usize = 0;
    while i < a_len
        invariant
            a_len == a@.len(),
            a_len == b@.len(),
            i <= a_len,
            differs <==> exists|t: int| 0 <= t < i && a@[t] != b@[t],
        decreases a_len - i,
    {
        if a.get_char(i) != b.get_char(i) {
            differs = true;
            proof {
                assert(a@[i as int] != b@[i as int]);
            }
        }
        i += 1;
    }
    proof {
        if !differs {
            assert(a@ =~= b@);
        }
    }
    !differs
}

} // verus!
