//! Hash-to-curve commitments and Merkle combination: determinism, binding,
//! order sensitivity, and a depth-two tree with path recomputation.

use std::collections::HashSet;

use curve25519_dalek::ristretto::RistrettoPoint;
use curve25519_dalek::scalar::Scalar;
use merkle_keys::hasher::Hasher;
use merkle_keys::keys::Commitment;
use merkle_keys::keys::ScalarData;
use sha2::Sha512;

#[test]
fn commitment_new_is_deterministic() {
    let inputs: [&[u8]; 4] = [b"", b"a", b"some leaf secret", &[0u8; 64]];
    for input in inputs.iter() {
        let first = Commitment::new(input);
        let second = Commitment::new(input);
        assert_eq!(first, second);
        assert_eq!(first.to_exact_bytes(), second.to_exact_bytes());
    }
}

#[test]
fn commitment_new_matches_curve_hash() {
    let input = b"pin the trusted boundary";
    let expected = RistrettoPoint::hash_from_bytes::<Sha512>(input)
        .compress()
        .to_bytes();
    assert_eq!(Commitment::new(input).to_exact_bytes(), expected);
    // The constructor really hashes: it never echoes its input back.
    let plain = [0u8; 32];
    assert_ne!(Commitment::new(&plain).to_exact_bytes(), plain);
}

#[test]
fn from_ristretto_compresses_directly() {
    let point = RistrettoPoint::hash_from_bytes::<Sha512>(b"an algebraic point");
    let c = Commitment::from_ristretto(point);
    assert_eq!(c.to_exact_bytes(), point.compress().to_bytes());
}

#[test]
fn hash_points_is_order_sensitive() {
    let a = Commitment::new(b"left child");
    let b = Commitment::new(b"right child");
    assert_ne!(a, b);
    let ab = Commitment::hash_points(a, b);
    let ba = Commitment::hash_points(b, a);
    assert_ne!(ab, ba);
}

#[test]
fn hash_points_matches_concatenated_hash() {
    let a = Commitment::new(b"left child");
    let b = Commitment::new(b"right child");
    let mut joined = a.to_exact_bytes().to_vec();
    joined.extend_from_slice(&b.to_exact_bytes());
    assert_eq!(Commitment::hash_points(a, b), Commitment::new(&joined));
}

#[test]
fn commitment_binding_no_collisions() {
    let mut seen: HashSet<[u8; 32]> = HashSet::new();
    for i in 0u32..10_000 {
        let input = i.to_le_bytes();
        let c = Commitment::new(&input);
        assert!(seen.insert(c.to_exact_bytes()), "collision on distinct inputs");
    }
    assert_eq!(seen.len(), 10_000);
}

/// Recompute a root from a leaf, its sibling per level, and whether the
/// running node is the left child at that level.
fn recompute_root(leaf: Commitment, siblings: &[Commitment], is_left: &[bool]) -> Commitment {
    assert_eq!(siblings.len(), is_left.len());
    let mut current = leaf;
    for (sibling, left) in siblings.iter().zip(is_left.iter()) {
        current = if *left {
            Commitment::hash_points(current, *sibling)
        } else {
            Commitment::hash_points(*sibling, current)
        };
    }
    current
}

#[test]
fn depth_two_tree_path_recomputation() {
    let pre: [&[u8]; 4] = [b"leaf zero", b"leaf one", b"leaf two", b"leaf three"];
    let l0 = Commitment::new(pre[0]);
    let l1 = Commitment::new(pre[1]);
    let l2 = Commitment::new(pre[2]);
    let l3 = Commitment::new(pre[3]);
    let n01 = Commitment::hash_points(l0, l1);
    let n23 = Commitment::hash_points(l2, l3);
    let root = Commitment::hash_points(n01, n23);

    // The honest witness for leaf zero: sibling path and directions.
    let siblings = [l1, n23];
    let is_left = [true, true];
    let leaf = Commitment::new(pre[0]);
    assert_eq!(recompute_root(leaf, &siblings, &is_left), root);

    // Flipping any one sibling or direction must break the recomputation.
    assert_ne!(recompute_root(leaf, &[l2, n23], &is_left), root);
    assert_ne!(recompute_root(leaf, &[l1, n01], &is_left), root);
    assert_ne!(recompute_root(leaf, &siblings, &[false, true]), root);
    assert_ne!(recompute_root(leaf, &siblings, &[true, false]), root);
    // A wrong leaf pre-image fails as well.
    assert_ne!(recompute_root(Commitment::new(pre[1]), &siblings, &is_left), root);
}

/// One concrete in-circuit hash instantiation: derive both wires' canonical
/// encodings, concatenate left-then-right, and map the 64 bytes back into
/// the scalar field through the deterministic commitment constructor.
struct ConcatHasher;

impl Hasher for ConcatHasher {
    fn hash(&self, xl: Scalar, xr: Scalar) -> Scalar {
        let mut joined = xl.to_bytes().to_vec();
        joined.extend_from_slice(&xr.to_bytes());
        let combined = Commitment::new(&joined);
        ScalarData::from(combined.to_exact_bytes()).to_scalar()
    }
}

#[test]
fn hasher_capability_is_usable_and_order_sensitive() {
    let h = ConcatHasher;
    let xl = ScalarData::from_slice(b"left wire").to_scalar();
    let xr = ScalarData::from_slice(b"right wire").to_scalar();
    assert_ne!(xl, xr);
    let once = h.hash(xl, xr);
    let twice = h.hash(xl, xr);
    assert_eq!(once, twice);
    assert_ne!(h.hash(xl, xr), h.hash(xr, xl));
}
