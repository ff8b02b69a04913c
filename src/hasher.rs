//! The seeded hasher and the 64-bit values it produces.
use vstd::prelude::*;

use crate::bytes::{be_bytes, le_bytes, store64be, store64le};
use crate::seed::{derive_seed, widened_seed};

verus! {

/// ChibiHash (version 1) of `key` under the 64-bit `seed`.
pub uninterp spec fn chibihash64_of(key: Seq<u8>, seed: u64) -> u64;

/// Relies on `chibihash::v1::chibi_hash64`: a pure function of the key's bytes
/// and the seed, defined for every key.
#[verifier::external_body]
fn chibihash64(key: &[u8], seed: u64) -> (r: u64)
    ensures
        r == chibihash64_of(key@, seed),
{
    chibihash::v1::chibi_hash64(key, seed)
}

/// Relies on `u64::to_ne_bytes`: the bytes of `x` in the platform's byte
/// order, which is either little-endian or big-endian.
#[verifier::external_body]
fn native_bytes(x: u64) -> (r: [u8; 8])
    ensures
        r@ == le_bytes(x) || r@ == be_bytes(x),
{
    x.to_ne_bytes()
}

/// The buffer capacity that `Chibihash::new` reserves.
pub const DEFAULT_CAPACITY: usize = 1024;

/// A seeded hasher that keeps every byte written to it.
///
/// `finish` hashes the entire buffer written since construction, so two
/// calls with no write between them agree, and a call after more writes
/// covers all bytes written so far, not only the latest ones.
#[derive(Debug, Clone)]
pub struct Chibihash {
    seed: u64,
    buffer: Vec<u8>,
}

/// A 64-bit hash value.
#[derive(Debug, Copy, Clone, PartialEq, Eq, Structural, PartialOrd, Ord)]
pub struct Hash(pub u64);

impl Chibihash {
    /// The 64-bit seed that every hash of this hasher is computed under.
    pub closed spec fn seed_value(&self) -> u64 {
        self.seed
    }

    /// Every byte written since construction, in order.
    pub closed spec fn contents(&self) -> Seq<u8> {
        self.buffer@
    }

    /// What `hash` returns for `key`.
    pub open spec fn spec_hash(&self, key: Seq<u8>) -> u64 {
        chibihash64_of(key, self.seed_value())
    }

    /// What `finish` returns: the hash of the whole buffer.
    pub open spec fn spec_finish(&self) -> u64 {
        self.spec_hash(self.contents())
    }

    /// A hasher for `seed` with an empty buffer of the default capacity.
    pub fn new(seed: u32) -> (r: Self)
        ensures
            r.seed_value() == widened_seed(seed),
            r.contents() == Seq::<u8>::empty(),
    {
        Self::with_capacity(seed, DEFAULT_CAPACITY)
    }

    /// A hasher for `seed` whose empty buffer reserves room for `capacity`
    /// bytes. The capacity is a hint only; the buffer grows past it.
    pub fn with_capacity(seed: u32, capacity: usize) -> (r: Self)
        ensures
            r.seed_value() == widened_seed(seed),
            r.contents() == Seq::<u8>::empty(),
    {
        Chibihash { seed: derive_seed(seed), buffer: Vec::with_capacity(capacity) }
    }

    /// Hashes `key` under this hasher's seed, ignoring the buffer.
    pub fn hash(&self, key: &[u8]) -> (r: Hash)
        ensures
            r.0 == self.spec_hash(key@),
    {
        Hash(chibihash64(key, self.seed))
    }

    /// Appends `bytes` to the buffer.
    pub fn write(&mut self, bytes: &[u8])
        ensures
            final(self).contents() == old(self).contents() + bytes@,
            final(self).seed_value() == old(self).seed_value(),
    {
        self.buffer.extend_from_slice(bytes);
        assert(self.buffer@ =~= old(self).buffer@ + bytes@);
    }

    /// Hashes every byte written so far; the buffer is left as it is.
    pub fn finish(&self) -> (r: u64)
        ensures
            r == self.spec_finish(),
    {
        self.hash(self.buffer.as_slice()).0
    }
}

impl core::hash::Hasher for Chibihash {
    fn finish(&self) -> u64 {
        Chibihash::finish(self)
    }

    fn write(&mut self, bytes: &[u8]) {
        Chibihash::write(self, bytes)
    }
}

impl Hash {
    /// The value's bytes, most significant first.
    pub fn to_be_bytes(&self) -> (r: [u8; 8])
        ensures
            r@ == be_bytes(self.0),
    {
        store64be(self.0)
    }

    /// The value's bytes, least significant first.
    pub fn to_le_bytes(&self) -> (r: [u8; 8])
        ensures
            r@ == le_bytes(self.0),
    {
        store64le(self.0)
    }

    /// The value's bytes in the platform's byte order.
    pub fn to_ne_bytes(&self) -> (r: [u8; 8])
        ensures
            r@ == le_bytes(self.0) || r@ == be_bytes(self.0),
    {
        native_bytes(self.0)
    }

    /// The value as an integer.
    pub fn as_u64(&self) -> (r: u64)
        ensures
            r == self.0,
    {
        self.0
    }
}

/// Hashers made from the same seed hash every key alike: a hash depends on
/// the key and the seed alone.
pub proof fn law_hash_deterministic(seed: u32, a: Chibihash, b: Chibihash, key: Seq<u8>)
    requires
        a.seed_value() == widened_seed(seed),
        b.seed_value() == widened_seed(seed),
    ensures
        a.spec_hash(key) == b.spec_hash(key),
{
}

/// Writing `b1` and then `b2` into a fresh hasher and finishing gives the
/// hash of `b1 + b2` under that hasher's seed.
pub proof fn law_cumulative_finish(
    fresh: Chibihash,
    mid: Chibihash,
    done: Chibihash,
    b1: Seq<u8>,
    b2: Seq<u8>,
)
    requires
        fresh.contents() == Seq::<u8>::empty(),
        mid.contents() == fresh.contents() + b1,
        mid.seed_value() == fresh.seed_value(),
        done.contents() == mid.contents() + b2,
        done.seed_value() == mid.seed_value(),
    ensures
        done.spec_finish() == fresh.spec_hash(b1 + b2),
{
    assert(done.contents() =~= b1 + b2);
}

/// With no write in between, a hasher finishes to the same value again.
pub proof fn law_finish_idempotent(before: Chibihash, after: Chibihash)
    requires
        after.contents() == before.contents(),
        after.seed_value() == before.seed_value(),
    ensures
        after.spec_finish() == before.spec_finish(),
{
}

/// After writes that put `n` bytes in the buffer, writing `m` more and
/// finishing hashes all `n + m` bytes, the earlier ones first, not only the
/// latest `m`.
pub proof fn law_monotonic_accumulation(before: Chibihash, after: Chibihash, more: Seq<u8>)
    requires
        after.contents() == before.contents() + more,
        after.seed_value() == before.seed_value(),
    ensures
        after.spec_finish() == before.spec_hash(before.contents() + more),
        after.contents().len() == before.contents().len() + more.len(),
        after.contents().subrange(0, before.contents().len() as int) == before.contents(),
{
    assert(after.contents().subrange(0, before.contents().len() as int) =~= before.contents());
}

} // verus!
