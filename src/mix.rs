use vstd::arithmetic::div_mod::{lemma_mul_mod_noop_left, lemma_mul_mod_noop_right, lemma_small_mod};
use vstd::arithmetic::mul::lemma_mul_is_associative;
use vstd::prelude::*;

verus! {

/// The multiplier of the mixing step on 64-bit targets, an odd constant
/// derived from the golden ratio.
pub const K64: u64 = 0x517cc1b727220a95;

/// The multiplier of the mixing step on 32-bit targets.
pub const K32: u32 = 0x9e3779b9;

/// The multiplier for the word width of the target.
pub open spec fn mult() -> usize {
    if usize::BITS == 64 {
        K64 as usize
    } else {
        K32 as usize
    }
}

/// The multiplicative inverse of `mult()` modulo the word range.
spec fn mult_inverse() -> usize {
    if usize::BITS == 64 {
        0x2040003d780970bdu64 as usize
    } else {
        0x144cbc89u32 as usize
    }
}

/// The number of values a word can hold.
pub open spec fn word_range() -> int {
    usize::MAX as int + 1
}

/// `a` rotated left by five bits within the word.
pub open spec fn rotl5(a: usize) -> usize {
    (a << 5usize) | (a >> (usize::BITS - 5) as usize)
}

/// One mixing step: rotate the accumulator left by five bits, xor the new
/// word into it, and multiply by `mult()` modulo the word range.
pub open spec fn mix(a: usize, w: usize) -> usize {
    (rotl5(a) ^ w).wrapping_mul(mult())
}

proof fn lemma_rotl5_injective(a1: usize, a2: usize)
    ensures
        rotl5(a1) == rotl5(a2) ==> a1 == a2,
{
    assert(((a1 << 5usize) | (a1 >> (usize::BITS - 5) as usize)) == ((a2 << 5usize) | (a2
        >> (usize::BITS - 5) as usize)) ==> a1 == a2) by (bit_vector);
}

proof fn lemma_mult_cancels(x: usize)
    ensures
        x.wrapping_mul(mult()).wrapping_mul(mult_inverse()) == x,
{
    let m = word_range();
    let k = mult() as int;
    let ki = mult_inverse() as int;
    assert(k * ki % m == 1) by {
        if usize::BITS == 64 {
            assert(usize::MAX == 0xffff_ffff_ffff_ffffu64);
            assert(0x517cc1b727220a95int * 0x2040003d780970bdint % 0x1_0000_0000_0000_0000int
                == 1);
        } else {
            assert(usize::MAX == 0xffff_ffffu32);
            assert(0x9e3779b9int * 0x144cbc89int % 0x1_0000_0000int == 1);
        }
    }
    let y = x.wrapping_mul(mult());
    assert(y as int == x as int * k % m);
    lemma_mul_mod_noop_left(x as int * k, ki, m);
    lemma_mul_is_associative(x as int, k, ki);
    lemma_mul_mod_noop_right(x as int, k * ki, m);
    lemma_small_mod(x as nat, m as nat);
}

/// The mixing step loses nothing of the accumulator: for a fixed word, two
/// different accumulators mix to two different results.
pub proof fn lemma_mix_injective(a1: usize, a2: usize, w: usize)
    ensures
        mix(a1, w) == mix(a2, w) ==> a1 == a2,
{
    let x1 = rotl5(a1) ^ w;
    let x2 = rotl5(a2) ^ w;
    lemma_mult_cancels(x1);
    lemma_mult_cancels(x2);
    lemma_rotl5_injective(a1, a2);
    let r1 = rotl5(a1);
    let r2 = rotl5(a2);
    assert((r1 ^ w) == (r2 ^ w) ==> r1 == r2) by (bit_vector);
}

} // verus!
