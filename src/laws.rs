use crate::bytes::{ne_value, word_bytes};
use crate::hasher::{hash_bytes, FxHasher};
use crate::mix::{lemma_mix_injective, mix};
use vstd::prelude::*;

verus! {

/// The accumulator after feeding `pieces` to a hasher one `write` each, in
/// order, starting from accumulator `h`.
pub open spec fn hash_pieces(h: usize, pieces: Seq<Seq<u8>>) -> usize
    decreases pieces.len(),
{
    if pieces.len() == 0 {
        h
    } else {
        hash_pieces(hash_bytes(h, pieces[0]), pieces.drop_first())
    }
}

/// Hashing is deterministic: two hashers in the same state that are fed the
/// same bytes finish with the same digest.
pub proof fn lemma_deterministic(h1: FxHasher, h2: FxHasher, s: Seq<u8>)
    requires
        h1@ == h2@,
    ensures
        hash_bytes(h1@, s) as u64 == hash_bytes(h2@, s) as u64,
{
}

/// Writing `a` and then `b` gives what writing `a + b` at once gives, when
/// `a` is a whole number of words long.
pub proof fn lemma_write_concat(h: usize, a: Seq<u8>, b: Seq<u8>)
    requires
        a.len() % word_bytes() == 0,
    ensures
        hash_bytes(h, a + b) == hash_bytes(hash_bytes(h, a), b),
    decreases a.len(),
{
    if a.len() == 0 {
        assert(a + b =~= b);
    } else {
        let w = word_bytes() as int;
        let ab = a + b;
        assert(a.len() >= w) by {
            if a.len() < w {
                vstd::arithmetic::div_mod::lemma_small_mod(a.len(), w as nat);
            }
        }
        assert(ab.take(w) =~= a.take(w));
        assert(ab.skip(w) =~= a.skip(w) + b);
        let h2 = mix(h, ne_value(a.take(w)) as usize);
        assert(a.skip(w).len() % word_bytes() == 0) by {
            vstd::arithmetic::div_mod::lemma_mod_sub_multiples_vanish(a.len() as int, w);
        }
        lemma_write_concat(h2, a.skip(w), b);
    }
}

/// Feeding an input in pieces, over several `write` calls, gives the digest
/// that one `write` of the whole input gives, provided that every piece but
/// the last is a whole number of words long.
pub proof fn lemma_split_writes(h: usize, pieces: Seq<Seq<u8>>)
    requires
        forall|i: int| 0 <= i < pieces.len() - 1 ==> #[trigger] pieces[i].len() % word_bytes() == 0,
    ensures
        hash_pieces(h, pieces) == hash_bytes(h, pieces.flatten()),
    decreases pieces.len(),
{
    if pieces.len() == 0 {
    } else if pieces.len() == 1 {
        assert(pieces.flatten() =~= pieces[0]) by {
            assert(pieces.drop_first().flatten() =~= Seq::<u8>::empty());
        }
        assert(hash_pieces(hash_bytes(h, pieces[0]), pieces.drop_first()) == hash_bytes(h, pieces[0]));
    } else {
        let rest = pieces.drop_first();
        assert(forall|i: int| 0 <= i < rest.len() - 1 ==> #[trigger] rest[i] == pieces[i + 1]);
        lemma_split_writes(hash_bytes(h, pieces[0]), rest);
        lemma_write_concat(h, pieces[0], rest.flatten());
    }
}

/// Distinct seeds give distinct digests, whatever the input.
pub proof fn lemma_seed_sensitive(k1: usize, k2: usize, s: Seq<u8>)
    requires
        k1 != k2,
    ensures
        hash_bytes(k1, s) as u64 != hash_bytes(k2, s) as u64,
    decreases s.len(),
{
    if s.len() == 0 {
    } else {
        let c = crate::hasher::chunk_len(s.len()) as int;
        let v = ne_value(s.take(c)) as usize;
        lemma_mix_injective(k1, k2, v);
        lemma_seed_sensitive(mix(k1, v), mix(k2, v), s.skip(c));
    }
}

/// An input of one byte, two bytes, four bytes or one word is folded in a
/// single mixing step with its value in the target's byte order; so the
/// one-value writes of a hasher agree with `write` on those bytes.
pub proof fn lemma_single_chunk(h: usize, s: Seq<u8>)
    requires
        s.len() == 1 || s.len() == 2 || s.len() == 4 || s.len() == word_bytes(),
    ensures
        hash_bytes(h, s) == mix(h, ne_value(s) as usize),
{
    let c = crate::hasher::chunk_len(s.len()) as int;
    assert(c == s.len());
    assert(s.take(c) =~= s);
    assert(hash_bytes(mix(h, ne_value(s) as usize), s.skip(c)) == mix(h, ne_value(s) as usize));
}

} // verus!
