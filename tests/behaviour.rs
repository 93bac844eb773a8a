use core::hash::{BuildHasher, Hasher};
use rustc_hash::{FxBuildHasher, FxHashMap, FxHashSet, FxHasher};

fn multiplier() -> usize {
    if usize::BITS == 64 {
        0x517cc1b727220a95u64 as usize
    } else {
        0x9e3779b9u32 as usize
    }
}

fn merge(a: usize, b: usize) -> usize {
    (a.rotate_left(5) ^ b).wrapping_mul(multiplier())
}

// The chunking written out step by step: whole words, then at most one
// chunk of 4, of 2 and of 1 bytes.
fn unrolled(seed: usize, bytes: &[u8]) -> u64 {
    let w = core::mem::size_of::<usize>();
    let mut h = seed;
    let mut rest = bytes;
    while rest.len() >= w {
        let mut word = [0u8; 8];
        word[..w].copy_from_slice(&rest[..w]);
        let v = if w == 8 {
            u64::from_ne_bytes(word) as usize
        } else {
            u32::from_ne_bytes([word[0], word[1], word[2], word[3]]) as usize
        };
        h = merge(h, v);
        rest = &rest[w..];
    }
    if rest.len() >= 4 {
        h = merge(h, u32::from_ne_bytes([rest[0], rest[1], rest[2], rest[3]]) as usize);
        rest = &rest[4..];
    }
    if rest.len() >= 2 {
        h = merge(h, u16::from_ne_bytes([rest[0], rest[1]]) as usize);
        rest = &rest[2..];
    }
    if rest.len() == 1 {
        h = merge(h, rest[0] as usize);
    }
    h as u64
}

fn hash_with(seed: usize, bytes: &[u8]) -> u64 {
    let mut h = FxHasher::with_seed(seed);
    h.write(bytes);
    h.finish()
}

fn sample(n: usize) -> Vec<u8> {
    (0..n).map(|i| (i as u8).wrapping_mul(37).wrapping_add(11)).collect()
}

#[test]
fn same_seed_same_input_same_digest() {
    for n in 0..40 {
        let s = sample(n);
        assert_eq!(hash_with(99, &s), hash_with(99, &s));
    }
}

#[test]
fn word_aligned_split_matches_single_write() {
    let w = core::mem::size_of::<usize>();
    let s = sample(5 * w + 3);
    let whole = hash_with(7, &s);
    for cut in [0, w, 2 * w, 5 * w] {
        let mut h = FxHasher::with_seed(7);
        h.write(&s[..cut]);
        h.write(&s[cut..]);
        assert_eq!(h.finish(), whole);
    }
    let mut h = FxHasher::with_seed(7);
    h.write(&s[..w]);
    h.write(&s[w..3 * w]);
    h.write(&[]);
    h.write(&s[3 * w..]);
    assert_eq!(h.finish(), whole);
}

#[test]
fn unaligned_split_changes_digest() {
    let mut h = FxHasher::default();
    h.write(&[1]);
    h.write(&[2]);
    assert_eq!(h.finish(), merge(merge(0, 1), 2) as u64);
    assert_ne!(h.finish(), hash_with(0, &[1, 2]));
}

#[test]
fn distinct_seeds_distinct_digests() {
    let pairs: [(usize, usize); 4] = [(0, 1), (3, 300), (usize::MAX, 0), (12345, 54321)];
    for (k1, k2) in pairs {
        assert_ne!(hash_with(k1, &[]), hash_with(k2, &[]));
        for x in 0..=255u8 {
            assert_ne!(hash_with(k1, &[x]), hash_with(k2, &[x]));
        }
        let s = sample(23);
        assert_ne!(hash_with(k1, &s), hash_with(k2, &s));
    }
}

#[test]
fn empty_input_default_seed_is_zero() {
    assert_eq!(hash_with(0, &[]), 0);
    assert_eq!(FxHasher::default().finish(), 0);
    assert_eq!(FxBuildHasher.build_hasher().finish(), 0);
    let d: FxHasher = Default::default();
    assert_eq!(d.finish(), 0);
}

#[test]
fn empty_write_keeps_seed() {
    assert_eq!(hash_with(424242, &[]), 424242);
}

#[test]
fn single_byte_values() {
    assert_eq!(hash_with(0, &[0]), 0);
    let one = if usize::BITS == 32 { 2654435769 } else { 5871781006564002453 };
    assert_eq!(hash_with(0, &[1]), one);
    assert_eq!(hash_with(0, &[1]), multiplier() as u64);
}

#[test]
fn tail_lengths_match_unrolled_chunking() {
    for n in [1, 2, 3, 4, 5, 6, 7, 8, 9, 15, 16, 17, 31, 33] {
        let s = sample(n);
        assert_eq!(hash_with(0, &s), unrolled(0, &s), "length {}", n);
        assert_eq!(hash_with(977, &s), unrolled(977, &s), "length {}", n);
    }
}

#[test]
fn three_bytes_exact_value() {
    // Two bytes read as one 16-bit value, then the last byte.
    let s = [0x11u8, 0x22, 0x33];
    let expected = merge(merge(0, u16::from_ne_bytes([0x11, 0x22]) as usize), 0x33) as u64;
    assert_eq!(hash_with(0, &s), expected);
}

#[test]
fn one_value_writes_match_byte_writes() {
    for v in [0u16, 1, 0x1234, u16::MAX] {
        let mut a = FxHasher::with_seed(5);
        a.write_u16(v);
        assert_eq!(a.finish(), hash_with(5, &v.to_ne_bytes()));
    }
    for v in [0u32, 1, 0x1234_5678, u32::MAX] {
        let mut a = FxHasher::with_seed(5);
        a.write_u32(v);
        assert_eq!(a.finish(), hash_with(5, &v.to_ne_bytes()));
    }
    for v in [0usize, 1, 0x1234_5678, usize::MAX] {
        let mut a = FxHasher::with_seed(5);
        a.write_usize(v);
        assert_eq!(a.finish(), hash_with(5, &v.to_ne_bytes()));
    }
    for v in [0u8, 1, 200, u8::MAX] {
        let mut a = FxHasher::with_seed(5);
        a.write_u8(v);
        assert_eq!(a.finish(), hash_with(5, &[v]));
    }
}

#[test]
fn finish_does_not_consume() {
    let mut h = FxHasher::with_seed(3);
    h.write(&[1, 2, 3]);
    let first = h.finish();
    assert_eq!(h.finish(), first);
    h.write(&[4]);
    assert_eq!(h.finish(), merge(first as usize, 4) as u64);
}

#[test]
fn clone_keeps_state() {
    let mut h = FxHasher::with_seed(8);
    h.write(b"abcdefghij");
    let mut c = h.clone();
    h.write(b"k");
    c.write(b"k");
    assert_eq!(h.finish(), c.finish());
}

#[test]
fn map_and_set_aliases_work() {
    let mut map: FxHashMap<u32, u32> = FxHashMap::default();
    map.insert(22, 44);
    map.insert(23, 46);
    assert_eq!(map.get(&22), Some(&44));
    assert_eq!(map.len(), 2);
    let mut set: FxHashSet<&str> = FxHashSet::default();
    assert!(set.insert("a"));
    assert!(!set.insert("a"));
}

#[test]
fn build_hasher_distinguishes_values() {
    assert_ne!(FxBuildHasher.hash_one(1), FxBuildHasher.hash_one(2));
}
