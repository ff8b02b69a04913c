//! Widening of a caller's 32-bit seed to the 64-bit seed that ChibiHash takes.
use vstd::prelude::*;

use crate::bytes::load64le;

verus! {

/// The 64-bit seed that stands for a 32-bit one: the same value, zero-extended.
pub open spec fn widened_seed(seed: u32) -> u64 {
    seed as u64
}

/// Places the four bytes of `seed` in an eight-byte scratch buffer whose upper
/// four bytes are zero, and reads it back as a little-endian integer.
pub fn derive_seed(seed: u32) -> (r: u64)
    ensures
        r == widened_seed(seed),
{
    let scratch: [u8; 8] = [
        seed as u8,
        (seed >> 8u32) as u8,
        (seed >> 16u32) as u8,
        (seed >> 24u32) as u8,
        0u8,
        0u8,
        0u8,
        0u8,
    ];
    let r = load64le(&scratch);
    proof {
        let b = scratch@;
        assert(b[0] == seed as u8 && b[1] == (seed >> 8u32) as u8 && b[2] == (seed >> 16u32) as u8
            && b[3] == (seed >> 24u32) as u8 && b[4] == 0 && b[5] == 0 && b[6] == 0 && b[7] == 0);
        let (b0, b1, b2, b3) = (b[0], b[1], b[2], b[3]);
        assert((b0 as u64) | (b1 as u64) << 8u64 | (b2 as u64) << 16u64 | (b3 as u64) << 24u64
            | (0u8 as u64) << 32u64 | (0u8 as u64) << 40u64 | (0u8 as u64) << 48u64
            | (0u8 as u64) << 56u64 == seed as u64) by (bit_vector)
            requires
                b0 == seed as u8,
                b1 == (seed >> 8u32) as u8,
                b2 == (seed >> 16u32) as u8,
                b3 == (seed >> 24u32) as u8,
        ;
    }
    r
}

} // verus!
