//! Primitives for an append-only Merkle accumulator over Pedersen-style
//! commitments: canonical 32-byte encodings of compressed curve points and
//! field elements, hash-to-curve leaf and node construction, and the
//! capability any in-circuit hash must offer.

use vstd::prelude::*;

pub mod curve;
pub mod hasher;
pub mod keys;

verus! {

/// Number of bytes in every wire encoding defined by this crate.
pub const SIZE: usize = 32;

} // verus!
