//! Small proof helpers shared by the decoder modules.

use vstd::prelude::*;

verus! {

/// Bitwise facts behind the monotonicity laws of the bitmask decoders:
/// a bit that tests set keeps testing set after further bits are or-ed in,
/// and no bit tests set in an empty mask.
pub proof fn lemma_or_keeps_bit(m: i32, extra: i32, b: i32)
    by (bit_vector)
    ensures
        m & b != 0 ==> (m | extra) & b != 0,
        0i32 & b == 0,
{
}

/// The empty mask has no bit set.
pub proof fn lemma_empty_mask_has_no_bit(b: i32)
    ensures
        0i32 & b == 0,
{
    lemma_or_keeps_bit(0, 0, b);
}

/// Pushing an element that a duplicate-free sequence does not yet contain
/// keeps the sequence duplicate-free.
pub proof fn lemma_push_keeps_distinct<A>(s: Seq<A>, v: A)
    requires
        s.no_duplicates(),
        !s.contains(v),
    ensures
        s.push(v).no_duplicates(),
{
    assert forall|i: int, j: int|
        0 <= i < s.push(v).len() && 0 <= j < s.push(v).len() && i != j implies s.push(v)[i]
        != s.push(v)[j] by {
        if i < s.len() && j == s.len() {
            if s[i] == v {
                assert(s.contains(v));
            }
        } else if j < s.len() && i == s.len() {
            if s[j] == v {
                assert(s.contains(v));
            }
        }
    }
}

} // verus!
