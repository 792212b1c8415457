//! Facts about bit masks that the rest of the crate relies on for index
//! bounds. They are proved once here by bit-blasting.
use vstd::prelude::*;

verus! {

/// Masking never yields more than the mask.
pub proof fn lemma_and_le_u32(x: u32, m: u32)
    by (bit_vector)
    ensures
        x & m <= m,
{
}

/// A bit that was or-ed in is set; a bit that was masked out is clear.
pub proof fn lemma_set_clear_bit(x: u32, b: u32)
    by (bit_vector)
    ensures
        (x | b) & b == b,
        (x & !b) & b == 0,
{
}

} // verus!
