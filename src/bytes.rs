use vstd::endian::{endianness, Endian};
use vstd::prelude::*;

verus! {

/// The number of bytes in a word of the target.
pub open spec fn word_bytes() -> nat {
    (usize::BITS / 8) as nat
}

/// The value of `b` read with its first byte least significant.
pub open spec fn le_value(b: Seq<u8>) -> nat
    decreases b.len(),
{
    if b.len() == 0 {
        0
    } else {
        b[0] as nat + 256 * le_value(b.drop_first())
    }
}

/// The value of `b` read in the byte order of the target.
pub open spec fn ne_value(b: Seq<u8>) -> nat {
    match endianness() {
        Endian::Little => le_value(b),
        Endian::Big => le_value(b.reverse()),
    }
}

/// Relies on u16::from_ne_bytes: the two bytes read in the target's byte order.
#[verifier::external_body]
fn u16_from_ne_bytes(bytes: [u8; 2]) -> (r: u16)
    ensures
        r as nat == ne_value(bytes@),
{
    u16::from_ne_bytes(bytes)
}

/// Relies on u32::from_ne_bytes: the four bytes read in the target's byte order.
#[verifier::external_body]
fn u32_from_ne_bytes(bytes: [u8; 4]) -> (r: u32)
    ensures
        r as nat == ne_value(bytes@),
{
    u32::from_ne_bytes(bytes)
}

/// Relies on u64::from_ne_bytes: the eight bytes read in the target's byte order.
#[verifier::external_body]
fn u64_from_ne_bytes(bytes: [u8; 8]) -> (r: u64)
    ensures
        r as nat == ne_value(bytes@),
{
    u64::from_ne_bytes(bytes)
}

/// Splits the first `n` bytes off `slice`, or leaves it alone and returns
/// `None` when it holds fewer than `n`.
pub(crate) fn take_first_chunk<'a>(slice: &mut &'a [u8], n: usize) -> (r: Option<&'a [u8]>)
    ensures
        old(slice)@.len() < n ==> r is None && final(slice)@ == old(slice)@,
        old(slice)@.len() >= n ==> r is Some && r->0@ == old(slice)@.take(n as int)
            && final(slice)@ == old(slice)@.skip(n as int),
{
    if (*slice).len() < n {
        return None;
    }
    let (first, rest) = (*slice).split_at(n);
    *slice = rest;
    Some(first)
}

/// Reads two bytes in the target's byte order.
pub(crate) fn read_u16(c: &[u8]) -> (r: u16)
    requires
        c@.len() == 2,
    ensures
        r as nat == ne_value(c@),
{
    let a: [u8; 2] = [c[0], c[1]];
    assert(a@ =~= c@);
    u16_from_ne_bytes(a)
}

/// Reads four bytes in the target's byte order.
pub(crate) fn read_u32(c: &[u8]) -> (r: u32)
    requires
        c@.len() == 4,
    ensures
        r as nat == ne_value(c@),
{
    let a: [u8; 4] = [c[0], c[1], c[2], c[3]];
    assert(a@ =~= c@);
    u32_from_ne_bytes(a)
}

/// Reads one word in the target's byte order.
pub(crate) fn read_word(c: &[u8]) -> (r: usize)
    requires
        c@.len() == word_bytes(),
    ensures
        r as nat == ne_value(c@),
{
    if usize::BITS == 64 {
        let a: [u8; 8] = [c[0], c[1], c[2], c[3], c[4], c[5], c[6], c[7]];
        assert(a@ =~= c@);
        let v = u64_from_ne_bytes(a);
        assert(v <= usize::MAX);
        v as usize
    } else {
        read_u32(c) as usize
    }
}

} // verus!
