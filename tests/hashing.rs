use libchibi::{load64be, load64le, Chibihash};
use std::hash::Hasher;

#[test]
fn basic() {
    let chibi = Chibihash::new(0);
    let key_in = [0u8; 128];
    let res = chibi.hash(&key_in);
    assert_eq!(res.0, 1977729916931055241);
}

#[test]
fn empty_key_seed_zero() {
    let chibi = Chibihash::new(0);
    assert_eq!(chibi.hash(b"").as_u64(), 0x9EA80F3B18E26CFB);
}

#[test]
fn empty_key_other_seed() {
    let chibi = Chibihash::new(55555);
    assert_eq!(chibi.hash(b"").as_u64(), 0x2EED9399FC4AC7E5);
}

#[test]
fn short_keys_known_values() {
    let chibi = Chibihash::new(0);
    assert_eq!(chibi.hash(b"hi").as_u64(), 0xAF98F3924F5C80D6);
    assert_eq!(chibi.hash(b"Hello, world!").as_u64(), 0x5AF920D8C0EBFE9F);
}

#[test]
fn hash_is_deterministic_across_calls_and_instances() {
    let a = Chibihash::new(42);
    let b = Chibihash::with_capacity(42, 3);
    let key = b"deterministic input";
    assert_eq!(a.hash(key), a.hash(key));
    assert_eq!(a.hash(key), b.hash(key));
}

#[test]
fn seed_changes_hash() {
    let a = Chibihash::new(42);
    let b = Chibihash::new(43);
    assert_ne!(a.hash(b"GM"), b.hash(b"GM"));
    assert_eq!(a.hash(b"GM").as_u64(), 0xF2819EC480CCCFFC);
}

#[test]
fn finish_covers_all_writes() {
    let mut chibi = Chibihash::new(42);
    chibi.write(b"Vyper");
    chibi.write(b"GM");
    assert_eq!(chibi.finish(), chibi.hash(b"VyperGM").as_u64());
    assert_eq!(chibi.finish(), 0x6DD6D9C38134123F);
}

#[test]
fn split_writes_match_one_shot() {
    let mut chibi = Chibihash::new(0);
    chibi.write(b"Hello, ");
    chibi.write(b"world!");
    assert_eq!(chibi.finish(), 0x5AF920D8C0EBFE9F);
}

#[test]
fn finish_twice_agrees() {
    let mut chibi = Chibihash::new(7);
    chibi.write(b"abc");
    let first = chibi.finish();
    let second = chibi.finish();
    assert_eq!(first, second);
}

#[test]
fn finish_without_writes_hashes_empty() {
    let chibi = Chibihash::new(0);
    assert_eq!(chibi.finish(), 0x9EA80F3B18E26CFB);
}

#[test]
fn later_write_rehashes_whole_buffer() {
    let mut chibi = Chibihash::new(5);
    chibi.write(b"first part ");
    let before = chibi.finish();
    chibi.write(b"second");
    let after = chibi.finish();
    assert_ne!(before, after);
    assert_eq!(after, chibi.hash(b"first part second").as_u64());
    assert_ne!(after, chibi.hash(b"second").as_u64());
}

#[test]
fn buffer_grows_past_capacity() {
    let mut chibi = Chibihash::with_capacity(9, 0);
    let chunk = [0xABu8; 100];
    for _ in 0..10 {
        chibi.write(&chunk);
    }
    let all = [0xABu8; 1000];
    assert_eq!(chibi.finish(), chibi.hash(&all).as_u64());
}

#[test]
fn hasher_trait_matches_inherent() {
    fn feed<H: Hasher>(h: &mut H) -> u64 {
        h.write(b"Vyper");
        h.write(b"GM");
        h.finish()
    }
    let mut chibi = Chibihash::new(42);
    assert_eq!(feed(&mut chibi), 0x6DD6D9C38134123F);
}

#[test]
fn byte_orders_of_hash() {
    let h = libchibi::hasher::Hash(0x0102030405060708);
    assert_eq!(h.to_le_bytes(), [8, 7, 6, 5, 4, 3, 2, 1]);
    assert_eq!(h.to_be_bytes(), [1, 2, 3, 4, 5, 6, 7, 8]);
    assert_eq!(h.to_ne_bytes(), 0x0102030405060708u64.to_ne_bytes());
    assert_eq!(h.as_u64(), 0x0102030405060708);
}

#[test]
fn byte_order_round_trip() {
    let chibi = Chibihash::new(0);
    let h = chibi.hash(b"round trip");
    assert_eq!(load64le(&h.to_le_bytes()), h.as_u64());
    assert_eq!(load64be(&h.to_be_bytes()), h.as_u64());
    let m = libchibi::hasher::Hash(u64::MAX);
    assert_eq!(load64le(&m.to_le_bytes()), u64::MAX);
    assert_eq!(load64be(&m.to_be_bytes()), u64::MAX);
}

#[test]
fn loads_read_known_values() {
    let b = [1u8, 2, 3, 4, 5, 6, 7, 8];
    assert_eq!(load64le(&b), 0x0807060504030201);
    assert_eq!(load64be(&b), 0x0102030405060708);
}

#[test]
fn seed_is_zero_extended() {
    assert_eq!(libchibi::seed::derive_seed(0xDEADBEEF), 0xDEADBEEF);
    assert_eq!(libchibi::seed::derive_seed(u32::MAX), 0xFFFF_FFFF);
    assert_eq!(libchibi::seed::derive_seed(0), 0);
}

#[test]
fn hash_ordering_follows_value() {
    let a = libchibi::hasher::Hash(1);
    let b = libchibi::hasher::Hash(2);
    assert!(a < b);
    assert_eq!(a, libchibi::hasher::Hash(1));
}
