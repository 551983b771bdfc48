//! The capability any in-circuit hash construction must offer.

use vstd::prelude::*;

verus! {

/// A two-input compression over scalar-field wires, invoked once per tree
/// level by the proof circuit to recompute a Merkle combination path.
///
/// Concrete constructions are interchangeable behind this capability, but a
/// deployment must fix exactly one and use it uniformly for tree maintenance
/// and for in-circuit recomputation: a tree built with one construction can
/// only be verified by a circuit using the same one.
pub trait Hasher {
    /// Combine a left wire and a right wire into one output wire.
    fn hash(
        &self,
        xl: curve25519_dalek::scalar::Scalar,
        xr: curve25519_dalek::scalar::Scalar,
    ) -> curve25519_dalek::scalar::Scalar;
}

} // verus!
