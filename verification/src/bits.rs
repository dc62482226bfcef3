//! Facts about bitwise operations that the other modules lean on.
use vstd::prelude::*;

verus! {

/// Masking never yields more than the mask, nor more than the value.
pub proof fn lemma_mask_u8(a: u8, m: u8)
    ensures
        a & m <= m,
        a & m <= a,
{
    assert(a & m <= m && a & m <= a) by (bit_vector);
}

} // verus!
