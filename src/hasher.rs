use crate::bytes::{ne_value, read_u16, read_u32, read_word, take_first_chunk, word_bytes};
use crate::mix::{mix, K32, K64};
use vstd::prelude::*;

verus! {

/// The number of bytes that one mixing step takes from the front of an input
/// of `n` bytes: a whole word where one is left, else 4, 2 or 1 bytes, the
/// largest that fits.
pub open spec fn chunk_len(n: nat) -> nat {
    if n >= word_bytes() {
        word_bytes()
    } else if n >= 4 {
        4
    } else if n >= 2 {
        2
    } else {
        n
    }
}

/// The accumulator after folding the bytes of `s` into accumulator `h`,
/// chunk by chunk from the front, each chunk read in the target's byte order.
pub open spec fn hash_bytes(h: usize, s: Seq<u8>) -> usize
    decreases s.len(),
{
    if s.len() == 0 {
        h
    } else {
        let c = chunk_len(s.len()) as int;
        hash_bytes(mix(h, ne_value(s.take(c)) as usize), s.skip(c))
    }
}

/// A fast, non-cryptographic hasher whose whole state is one word, the
/// accumulator.
#[derive(Clone)]
pub struct FxHasher {
    hash: usize,
}

impl View for FxHasher {
    type V = usize;

    /// The accumulator.
    closed spec fn view(&self) -> usize {
        self.hash
    }
}

impl FxHasher {
    /// Creates a hasher whose accumulator starts at `seed`.
    pub fn with_seed(seed: usize) -> (r: FxHasher)
        ensures
            r@ == seed,
    {
        FxHasher { hash: seed }
    }

    /// Creates a hasher whose accumulator starts at zero.
    pub fn default() -> (r: FxHasher)
        ensures
            r@ == 0,
    {
        FxHasher { hash: 0 }
    }

    /// Folds one word into the accumulator.
    fn add_to_hash(&mut self, i: usize)
        ensures
            final(self)@ == mix(old(self)@, i),
    {
        let k: usize = if usize::BITS == 64 {
            K64 as usize
        } else {
            K32 as usize
        };
        let rotated = (self.hash << 5usize) | (self.hash >> (usize::BITS - 5) as usize);
        self.hash = (rotated ^ i).wrapping_mul(k);
    }
}

impl Default for FxHasher {
    fn default() -> (r: FxHasher)
        ensures
            r@ == 0,
    {
        FxHasher::default()
    }
}

impl core::hash::Hasher for FxHasher {
    /// Folds `bytes` into the accumulator: whole words first, then at most
    /// one chunk each of 4, 2 and 1 bytes.
    fn write(&mut self, bytes: &[u8])
        ensures
            final(self)@ == hash_bytes(old(self)@, bytes@),
    {
        let mut rest: &[u8] = bytes;
        let mut state = FxHasher { hash: self.hash };
        let w: usize = (usize::BITS / 8) as usize;
        let ghost target = hash_bytes(self@, bytes@);
        loop
            invariant
                w == word_bytes(),
                hash_bytes(state@, rest@) == target,
            ensures
                rest@.len() < word_bytes(),
                hash_bytes(state@, rest@) == target,
            decreases rest@.len(),
        {
            match take_first_chunk(&mut rest, w) {
                Some(chunk) => {
                    state.add_to_hash(read_word(chunk));
                },
                None => {
                    break ;
                },
            }
        }
        if let Some(chunk) = take_first_chunk(&mut rest, 4) {
            state.add_to_hash(read_u32(chunk) as usize);
        }
        assert(hash_bytes(state@, rest@) == target);
        if let Some(chunk) = take_first_chunk(&mut rest, 2) {
            state.add_to_hash(read_u16(chunk) as usize);
        }
        assert(hash_bytes(state@, rest@) == target);
        if let Some(chunk) = take_first_chunk(&mut rest, 1) {
            proof {
                lemma_ne_value_single(chunk@);
            }
            state.add_to_hash(chunk[0] as usize);
        }
        assert(hash_bytes(state@, rest@) == state@);
        *self = state;
    }

    /// Folds one byte in a single mixing step, as `write` does a one-byte
    /// input.
    fn write_u8(&mut self, i: u8)
        ensures
            final(self)@ == mix(old(self)@, i as usize),
    {
        self.add_to_hash(i as usize);
    }

    /// Folds a 16-bit value in a single mixing step, as `write` does its two
    /// bytes in the target's byte order.
    fn write_u16(&mut self, i: u16)
        ensures
            final(self)@ == mix(old(self)@, i as usize),
    {
        self.add_to_hash(i as usize);
    }

    /// Folds a 32-bit value in a single mixing step, as `write` does its four
    /// bytes in the target's byte order.
    fn write_u32(&mut self, i: u32)
        ensures
            final(self)@ == mix(old(self)@, i as usize),
    {
        self.add_to_hash(i as usize);
    }

    /// Folds a word in a single mixing step, as `write` does its bytes in the
    /// target's byte order.
    fn write_usize(&mut self, i: usize)
        ensures
            final(self)@ == mix(old(self)@, i),
    {
        self.add_to_hash(i);
    }

    /// The accumulator, as a 64-bit digest.
    fn finish(&self) -> (r: u64)
        ensures
            r == self@ as u64,
    {
        self.hash as u64
    }
}

/// A single byte reads as itself in either byte order.
proof fn lemma_ne_value_single(b: Seq<u8>)
    requires
        b.len() == 1,
    ensures
        ne_value(b) == b[0] as nat,
{
    assert(b.reverse() =~= b);
    assert(b.drop_first().len() == 0);
    reveal_with_fuel(crate::bytes::le_value, 2);
}

/// A stateless factory of hashers that start at zero.
#[derive(Copy, Clone, Default)]
pub struct FxBuildHasher;

impl core::hash::BuildHasher for FxBuildHasher {
    type Hasher = FxHasher;

    fn build_hasher(&self) -> (r: FxHasher)
        ensures
            r@ == 0,
    {
        FxHasher::default()
    }
}

/// A hash map that hashes its keys with `FxHasher`.
pub type FxHashMap<K, V> = std::collections::HashMap<K, V, FxBuildHasher>;

/// A hash set that hashes its elements with `FxHasher`.
pub type FxHashSet<V> = std::collections::HashSet<V, FxBuildHasher>;

} // verus!
