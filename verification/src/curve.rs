//! Trusted boundary to the curve arithmetic crate.
//!
//! Every executable item here wraps one pipeline of calls into
//! `curve25519_dalek` and converts the result to plain bytes. Their
//! contracts are stated over two named byte-level maps, [`reduce_mod_order`]
//! and [`hash_to_curve`], which stand for what the wrapped calls return;
//! the rest of the crate is verified against these contracts.

use vstd::prelude::*;

verus! {

#[verifier::external_type_specification]
#[verifier::external_body]
pub struct ExScalar(curve25519_dalek::scalar::Scalar);

#[verifier::external_type_specification]
#[verifier::external_body]
pub struct ExRistrettoPoint(curve25519_dalek::ristretto::RistrettoPoint);

/// The canonical little-endian encoding of the field element obtained by
/// reading the 32 bytes `b` little-endian and reducing modulo the group order.
pub uninterp spec fn reduce_mod_order(b: Seq<u8>) -> Seq<u8>;

/// The compressed encoding of the curve point the hash-to-curve map sends
/// `input` to.
pub uninterp spec fn hash_to_curve(input: Seq<u8>) -> Seq<u8>;

/// The canonical encoding of the additive identity of the scalar field.
pub open spec fn zero_scalar_bytes() -> Seq<u8> {
    Seq::new(32, |i: int| 0u8)
}

/// `b` is the canonical encoding of some field element: exactly 32 bytes
/// which reducing modulo the group order leaves unchanged.
pub open spec fn is_canonical(b: Seq<u8>) -> bool {
    b.len() == 32 && reduce_mod_order(b) == b
}

/// Relies on `Scalar::from_bytes_mod_order` and `Scalar::to_bytes`: the
/// result is the canonical, fully reduced encoding of `b` modulo the group
/// order, so reducing it once more changes nothing.
#[verifier::external_body]
pub(crate) fn scalar_reduce(b: &[u8; 32]) -> (r: [u8; 32])
    ensures
        r@ == reduce_mod_order(b@),
        reduce_mod_order(r@) == r@,
{
    curve25519_dalek::scalar::Scalar::from_bytes_mod_order(*b).to_bytes()
}

/// Relies on `Scalar::from_canonical_bytes`: it returns a scalar exactly
/// when `b` already is the fully reduced encoding of its value.
#[verifier::external_body]
pub(crate) fn scalar_is_canonical(b: &[u8; 32]) -> (r: bool)
    ensures
        r == is_canonical(b@),
{
    curve25519_dalek::scalar::Scalar::from_canonical_bytes(*b).is_some()
}

/// Relies on `Scalar::zero` and `Scalar::to_bytes`: the additive identity is
/// encoded as thirty-two zero bytes, and that encoding is canonical.
#[verifier::external_body]
pub(crate) fn scalar_zero() -> (r: [u8; 32])
    ensures
        r@ == zero_scalar_bytes(),
        reduce_mod_order(r@) == r@,
{
    curve25519_dalek::scalar::Scalar::zero().to_bytes()
}

/// Relies on `Scalar::from_bytes_mod_order` to rebuild the field element a
/// canonical encoding stands for; nothing is claimed of the opaque result.
#[verifier::external_body]
pub(crate) fn scalar_of_bytes(b: &[u8; 32]) -> curve25519_dalek::scalar::Scalar {
    curve25519_dalek::scalar::Scalar::from_bytes_mod_order(*b)
}

/// Relies on `RistrettoPoint::hash_from_bytes::<Sha512>` followed by point
/// compression: a deterministic map from input bytes to a compressed point,
/// named [`hash_to_curve`].
#[verifier::external_body]
pub(crate) fn hash_to_curve_bytes(input: &[u8]) -> (r: [u8; 32])
    ensures
        r@ == hash_to_curve(input@),
{
    curve25519_dalek::ristretto::RistrettoPoint::hash_from_bytes::<sha2::Sha512>(input)
        .compress()
        .to_bytes()
}

/// Relies on `RistrettoPoint::compress` for the 32-byte compressed encoding
/// of an already computed point; nothing is claimed of the bytes, since the
/// point itself is opaque.
#[verifier::external_body]
pub(crate) fn compress_point(p: &curve25519_dalek::ristretto::RistrettoPoint) -> [u8; 32] {
    p.compress().to_bytes()
}

} // verus!
