//! Byte-sequence scanning used by the version parser and the attach-request
//! name field: the position of the first occurrence of a byte.

use vstd::prelude::*;

verus! {

/// The index of the first occurrence of `b` in `s`, or `s.len()` when `b`
/// does not occur.
pub open spec fn first_occurrence(s: Seq<u8>, b: u8) -> int
    decreases s.len(),
{
    if s.len() == 0 {
        0
    } else if s[0] == b {
        0
    } else {
        1 + first_occurrence(s.drop_first(), b)
    }
}

/// Any position that has `b` with no `b` before it is `first_occurrence`.
pub proof fn lemma_first_occurrence_is(s: Seq<u8>, b: u8, k: int)
    requires
        0 <= k <= s.len(),
        forall|i: int| 0 <= i < k ==> s[i] != b,
        k < s.len() ==> s[k] == b,
    ensures
        first_occurrence(s, b) == k,
    decreases s.len(),
{
    if s.len() == 0 {
    } else if s[0] == b {
    } else {
        assert(s[0] != b);
        assert forall|i: int| 0 <= i < k - 1 implies s.drop_first()[i] != b by {
            assert(s[i + 1] != b);
        }
        lemma_first_occurrence_is(s.drop_first(), b, k - 1);
    }
}

/// Finds the first occurrence of `b` in `s` at or after `from`, scanning
/// exactly as `first_occurrence` describes on the tail `s[from..]`.
pub fn find_byte(s: &[u8], from: usize, b: u8) -> (i: usize)
    requires
        from <= s@.len(),
    ensures
        from <= i <= s@.len(),
        i - from == first_occurrence(s@.skip(from as int), b),
        forall|j: int| from <= j < i ==> s@[j] != b,
        i < s@.len() ==> s@[i as int] == b,
{
    let n = s.len();
    let mut i = from;
    while i < n
        invariant
            from <= i <= n,
            n == s@.len(),
            forall|j: int| from <= j < i ==> s@[j] != b,
        decreases n - i,
    {
        if s[i] == b {
            proof {
                assert forall|j: int| 0 <= j < i - from implies s@.skip(from as int)[j] != b by {
                    assert(s@[from + j] != b);
                }
                lemma_first_occurrence_is(s@.skip(from as int), b, i - from);
            }
            return i;
        }
        i = i + 1;
    }
    proof {
        assert forall|j: int| 0 <= j < i - from implies s@.skip(from as int)[j] != b by {
            assert(s@[from + j] != b);
        }
        lemma_first_occurrence_is(s@.skip(from as int), b, i - from);
    }
    i
}

} // verus!
