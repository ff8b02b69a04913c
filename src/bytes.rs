//! Fixed-width byte encodings of 64-bit values.
use vstd::prelude::*;

verus! {

/// The eight bytes of `x`, least significant first.
pub open spec fn le_bytes(x: u64) -> Seq<u8> {
    seq![
        x as u8,
        (x >> 8u64) as u8,
        (x >> 16u64) as u8,
        (x >> 24u64) as u8,
        (x >> 32u64) as u8,
        (x >> 40u64) as u8,
        (x >> 48u64) as u8,
        (x >> 56u64) as u8,
    ]
}

/// The eight bytes of `x`, most significant first.
pub open spec fn be_bytes(x: u64) -> Seq<u8> {
    seq![
        (x >> 56u64) as u8,
        (x >> 48u64) as u8,
        (x >> 40u64) as u8,
        (x >> 32u64) as u8,
        (x >> 24u64) as u8,
        (x >> 16u64) as u8,
        (x >> 8u64) as u8,
        x as u8,
    ]
}

/// The integer whose little-endian encoding is `b[0..8]`.
pub open spec fn le_value(b: Seq<u8>) -> u64
    recommends
        b.len() == 8,
{
    (b[0] as u64) | (b[1] as u64) << 8u64 | (b[2] as u64) << 16u64 | (b[3] as u64) << 24u64
        | (b[4] as u64) << 32u64 | (b[5] as u64) << 40u64 | (b[6] as u64) << 48u64
        | (b[7] as u64) << 56u64
}

/// The integer whose big-endian encoding is `b[0..8]`.
pub open spec fn be_value(b: Seq<u8>) -> u64
    recommends
        b.len() == 8,
{
    (b[7] as u64) | (b[6] as u64) << 8u64 | (b[5] as u64) << 16u64 | (b[4] as u64) << 24u64
        | (b[3] as u64) << 32u64 | (b[2] as u64) << 40u64 | (b[1] as u64) << 48u64
        | (b[0] as u64) << 56u64
}

/// Reads eight bytes as a little-endian integer.
pub fn load64le(b: &[u8; 8]) -> (r: u64)
    ensures
        r == le_value(b@),
{
    (b[0] as u64) | (b[1] as u64) << 8u64 | (b[2] as u64) << 16u64 | (b[3] as u64) << 24u64
        | (b[4] as u64) << 32u64 | (b[5] as u64) << 40u64 | (b[6] as u64) << 48u64
        | (b[7] as u64) << 56u64
}

/// Reads eight bytes as a big-endian integer.
pub fn load64be(b: &[u8; 8]) -> (r: u64)
    ensures
        r == be_value(b@),
{
    (b[7] as u64) | (b[6] as u64) << 8u64 | (b[5] as u64) << 16u64 | (b[4] as u64) << 24u64
        | (b[3] as u64) << 32u64 | (b[2] as u64) << 40u64 | (b[1] as u64) << 48u64
        | (b[0] as u64) << 56u64
}

/// Writes `x` as eight bytes, least significant first.
pub fn store64le(x: u64) -> (r: [u8; 8])
    ensures
        r@ == le_bytes(x),
{
    let r: [u8; 8] = [
        x as u8,
        (x >> 8u64) as u8,
        (x >> 16u64) as u8,
        (x >> 24u64) as u8,
        (x >> 32u64) as u8,
        (x >> 40u64) as u8,
        (x >> 48u64) as u8,
        (x >> 56u64) as u8,
    ];
    assert(r@ =~= le_bytes(x));
    r
}

/// Writes `x` as eight bytes, most significant first.
pub fn store64be(x: u64) -> (r: [u8; 8])
    ensures
        r@ == be_bytes(x),
{
    let r: [u8; 8] = [
        (x >> 56u64) as u8,
        (x >> 48u64) as u8,
        (x >> 40u64) as u8,
        (x >> 32u64) as u8,
        (x >> 24u64) as u8,
        (x >> 16u64) as u8,
        (x >> 8u64) as u8,
        x as u8,
    ];
    assert(r@ =~= be_bytes(x));
    r
}

/// Decoding the little-endian encoding of `x` gives `x` back, and so does
/// decoding its big-endian encoding.
pub proof fn lemma_round_trip(x: u64)
    ensures
        le_value(le_bytes(x)) == x,
        be_value(be_bytes(x)) == x,
{
    let b0 = x as u8;
    let b1 = (x >> 8u64) as u8;
    let b2 = (x >> 16u64) as u8;
    let b3 = (x >> 24u64) as u8;
    let b4 = (x >> 32u64) as u8;
    let b5 = (x >> 40u64) as u8;
    let b6 = (x >> 48u64) as u8;
    let b7 = (x >> 56u64) as u8;
    assert((b0 as u64) | (b1 as u64) << 8u64 | (b2 as u64) << 16u64 | (b3 as u64) << 24u64
        | (b4 as u64) << 32u64 | (b5 as u64) << 40u64 | (b6 as u64) << 48u64
        | (b7 as u64) << 56u64 == x) by (bit_vector)
        requires
            b0 == x as u8,
            b1 == (x >> 8u64) as u8,
            b2 == (x >> 16u64) as u8,
            b3 == (x >> 24u64) as u8,
            b4 == (x >> 32u64) as u8,
            b5 == (x >> 40u64) as u8,
            b6 == (x >> 48u64) as u8,
            b7 == (x >> 56u64) as u8,
    ;
}

} // verus!
