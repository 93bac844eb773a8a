//! A fast, non-cryptographic hash for in-memory hash tables.
//!
//! `FxHasher` keeps one machine word of state. Each chunk of input (a word,
//! or 4, 2 or 1 bytes at the tail) is folded into it by one mixing step:
//! rotate left by five bits, xor the chunk in, multiply by an odd constant.
//! The digest is the state itself, widened to 64 bits.
//!
//! The contracts speak of `hasher::hash_bytes`, the state after folding a
//! byte sequence, and `mix::mix`, the mixing step. The module `laws` proves
//! what holds across calls: determinism, splitting input at word boundaries,
//! and that distinct seeds never give equal digests.

pub mod bytes;
pub mod hasher;
pub mod laws;
pub mod mix;

pub use hasher::{FxBuildHasher, FxHashMap, FxHashSet, FxHasher};
