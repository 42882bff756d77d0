//! Character-level string comparison, used by the name lookups of `vector`
//! and `resource`.

use vstd::prelude::*;

verus! {

/// True exactly when the two strings hold the same characters.
pub fn str_eq(a: &str, b: &str) -> (r: bool)
    ensures
        r == (a@ == b@),
{
    let len_a = a.unicode_len();
    let len_b = b.unicode_len();
    if len_a != len_b {
        return false;
    }
    let mut i: usize = 0;
    while i < len_a
        invariant
            len_a == a@.len(),
            len_a == b@.len(),
            i <= len_a,
            forall|j: int| 0 <= j < i ==> a@[j] == b@[j],
        decreases len_a - i,
    {
        if a.get_char(i) != b.get_char(i) {
            return false;
        }
        i = i + 1;
    }
    proof {
        assert(a@ =~= b@);
    }
    true
}

} // verus!
