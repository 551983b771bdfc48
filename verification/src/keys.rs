//! The commitment and scalar data model: three fixed-width wire types and
//! the hash/commit primitives a Merkle tree builder and a proof circuit
//! share. Each type stores exactly the 32 bytes of its wire form.

use vstd::prelude::*;

use crate::curve::compress_point;
use crate::curve::hash_to_curve;
use crate::curve::hash_to_curve_bytes;
use crate::curve::is_canonical;
use crate::curve::reduce_mod_order;
use crate::curve::scalar_is_canonical;
use crate::curve::scalar_of_bytes;
use crate::curve::scalar_reduce;
use crate::curve::scalar_zero;
use crate::curve::zero_scalar_bytes;

verus! {

/// A compressed curve point standing for a Pedersen-style commitment to a
/// Merkle leaf or internal node. Equality is structural byte equality; no
/// on-curve validation is implied by construction, and none is performed at
/// decode time: only arithmetic consumers can fail on an invalid point.
#[derive(Eq, PartialEq, Clone, Copy, Debug, Default)]
pub struct Commitment {
    bytes: [u8; 32],
}

/// A secret scalar, stored as its canonical 32-byte encoding.
#[derive(Eq, PartialEq, Clone, Copy, Debug, Default)]
pub struct PrivateKey {
    bytes: [u8; 32],
}

/// One scalar-field element, stored as its canonical 32-byte encoding.
#[derive(Eq, PartialEq, Clone, Copy, Debug, Default, Hash)]
pub struct ScalarData {
    bytes: [u8; 32],
}

impl View for Commitment {
    type V = Seq<u8>;

    closed spec fn view(&self) -> Seq<u8> {
        self.bytes@
    }
}

impl View for PrivateKey {
    type V = Seq<u8>;

    closed spec fn view(&self) -> Seq<u8> {
        self.bytes@
    }
}

impl View for ScalarData {
    type V = Seq<u8>;

    closed spec fn view(&self) -> Seq<u8> {
        self.bytes@
    }
}

/// The wire-decode policy shared by both scalar types: canonical bytes are
/// kept, any other 32 bytes degrade to the additive identity.
pub open spec fn canonical_or_zero(b: Seq<u8>) -> Seq<u8> {
    if is_canonical(b) {
        b
    } else {
        zero_scalar_bytes()
    }
}

/// `b` right-zero-padded or truncated to exactly 32 bytes.
pub open spec fn pad32(b: Seq<u8>) -> Seq<u8> {
    Seq::new(32, |i: int| if i < b.len() { b[i] } else { 0u8 })
}

impl Commitment {
    /// Hash arbitrary-length input onto the curve and compress the point:
    /// used both for leaf creation and for node combination.
    pub fn new(bytes: &[u8]) -> (r: Self)
        ensures
            r@ == hash_to_curve(bytes@),
    {
        Commitment { bytes: hash_to_curve_bytes(bytes) }
    }

    /// The 32-byte compressed form.
    pub fn as_bytes(&self) -> (r: Vec<u8>)
        ensures
            r@ == self@,
    {
        vstd::slice::slice_to_vec(self.bytes.as_slice())
    }

    /// The 32-byte compressed form.
    pub fn to_bytes(&self) -> (r: Vec<u8>)
        ensures
            r@ == self@,
    {
        self.as_bytes()
    }

    /// The 32-byte compressed form, fixed width.
    pub fn to_exact_bytes(&self) -> (r: [u8; 32])
        ensures
            r@ == self@,
    {
        self.bytes
    }

    /// Exactly 32 bytes are accepted, byte for byte; any other length is an
    /// explicit absence, never a partial commitment. The bytes are not
    /// checked to decompress to a valid curve point.
    pub fn from_bytes(bytes: &[u8]) -> (r: Option<Commitment>)
        ensures
            r is Some <==> bytes@.len() == 32,
            r matches Some(c) ==> c@ == bytes@,
    {
        if bytes.len() != crate::SIZE {
            return None;
        }
        let mut arr = [0u8; 32];
        let mut i: usize = 0;
        while i < 32
            invariant
                i <= 32,
                bytes@.len() == 32,
                forall|j: int| 0 <= j < i ==> arr@[j] == bytes@[j],
            decreases 32 - i,
        {
            arr[i] = bytes[i];
            i = i + 1;
        }
        proof {
            assert(arr@ =~= bytes@);
        }
        Some(Commitment { bytes: arr })
    }

    /// Direct compression of an already computed point, no hashing: used
    /// when the point results from an algebraic operation.
    pub fn from_ristretto(pt: curve25519_dalek::ristretto::RistrettoPoint) -> Self {
        Commitment { bytes: compress_point(&pt) }
    }

    /// Order-sensitive two-child combination: the left child's 32 compressed
    /// bytes, then the right child's, fed to the hash-to-curve constructor.
    pub fn hash_points(a: Self, b: Self) -> (r: Self)
        ensures
            r@ == hash_to_curve(a@ + b@),
    {
        let mut input: Vec<u8> = Vec::new();
        let mut i: usize = 0;
        while i < 32
            invariant
                i <= 32,
                input@ =~= a@.take(i as int),
            decreases 32 - i,
        {
            input.push(a.bytes[i]);
            i = i + 1;
        }
        let mut j: usize = 0;
        while j < 32
            invariant
                j <= 32,
                input@ =~= a@ + b@.take(j as int),
            decreases 32 - j,
        {
            input.push(b.bytes[j]);
            j = j + 1;
        }
        proof {
            assert(input@ =~= a@ + b@);
        }
        Self::new(input.as_slice())
    }

    /// Wire encoding: the 32 raw bytes.
    pub fn encode(&self) -> (r: Vec<u8>)
        ensures
            r@ == self@,
    {
        self.as_bytes()
    }

    /// Read one commitment from the front of `input`: the first 32 bytes,
    /// absence if fewer are present. Any 32 bytes are accepted.
    pub fn decode(input: &[u8]) -> (r: Option<Commitment>)
        ensures
            r is Some <==> input@.len() >= 32,
            r matches Some(c) ==> c@ == input@.take(32),
    {
        if input.len() < crate::SIZE {
            return None;
        }
        let head = vstd::slice::slice_subrange(input, 0, 32);
        let r = Self::from_bytes(head);
        proof {
            assert(input@.subrange(0, 32) == input@.take(32));
        }
        r
    }
}

impl PrivateKey {
    /// The stored bytes are a canonical field-element encoding.
    pub open spec fn wf(&self) -> bool {
        is_canonical(self@)
    }

    /// Derive a key from 32 arbitrary bytes (e.g. fresh randomness) by
    /// reducing them modulo the field order.
    pub fn from(b: [u8; 32]) -> (r: Self)
        ensures
            r@ == reduce_mod_order(b@),
            r.wf(),
    {
        PrivateKey { bytes: scalar_reduce(&b) }
    }

    /// Wire encoding: the canonical 32-byte representative.
    pub fn encode(&self) -> (r: Vec<u8>)
        ensures
            r@ == self@,
    {
        vstd::slice::slice_to_vec(self.bytes.as_slice())
    }

    /// Wire decode: reads 32 bytes; canonical bytes are wrapped, any other
    /// 32 bytes silently degrade to the additive identity while still
    /// reporting success. [`PrivateKey::decode_tagged`] keeps the degenerate
    /// case distinguishable.
    pub fn decode(input: &[u8]) -> (r: Option<PrivateKey>)
        ensures
            r is Some <==> input@.len() >= 32,
            r matches Some(k) ==> k@ == canonical_or_zero(input@.take(32)) && k.wf(),
    {
        match Self::decode_tagged(input) {
            None => None,
            Some(DecodedKey::Canonical(k)) => Some(k),
            Some(DecodedKey::Degenerate(k)) => Some(k),
        }
    }

    /// Wire decode that reports whether the bytes were canonical or the key
    /// degraded to the additive identity, so callers can reject degenerate
    /// secrets instead of mistaking them for a genuine zero key.
    pub fn decode_tagged(input: &[u8]) -> (r: Option<DecodedKey>)
        ensures
            r is Some <==> input@.len() >= 32,
            r matches Some(DecodedKey::Canonical(k)) ==> k@ == input@.take(32) && k.wf(),
            r matches Some(DecodedKey::Degenerate(k)) ==> k@ == zero_scalar_bytes() && k.wf(),
            r is Some ==> (r matches Some(DecodedKey::Canonical(_)) <==> is_canonical(
                input@.take(32),
            )),
    {
        if input.len() < crate::SIZE {
            return None;
        }
        let head = vstd::slice::slice_subrange(input, 0, 32);
        let mut arr = [0u8; 32];
        let mut i: usize = 0;
        while i < 32
            invariant
                i <= 32,
                head@.len() == 32,
                head@ == input@.take(32),
                forall|j: int| 0 <= j < i ==> arr@[j] == head@[j],
            decreases 32 - i,
        {
            arr[i] = head[i];
            i = i + 1;
        }
        proof {
            assert(arr@ =~= input@.take(32));
        }
        if scalar_is_canonical(&arr) {
            Some(DecodedKey::Canonical(PrivateKey { bytes: arr }))
        } else {
            Some(DecodedKey::Degenerate(PrivateKey { bytes: scalar_zero() }))
        }
    }
}

/// Outcome of a tagged key decode: the bytes were canonical and are kept, or
/// they were not and the key degraded to the additive identity.
pub enum DecodedKey {
    Canonical(PrivateKey),
    Degenerate(PrivateKey),
}

impl ScalarData {
    /// The stored bytes are a canonical field-element encoding.
    pub open spec fn wf(&self) -> bool {
        is_canonical(self@)
    }

    /// Interpret 32 bytes little-endian and reduce modulo the field order;
    /// total over the whole 32-byte input space.
    pub fn from(b: [u8; 32]) -> (r: Self)
        ensures
            r@ == reduce_mod_order(b@),
            r.wf(),
    {
        ScalarData { bytes: scalar_reduce(&b) }
    }

    /// Right-zero-pad or truncate the input to exactly 32 bytes, then reduce:
    /// a deterministic many-to-one map from arbitrary byte strings to field
    /// elements, used for flexible-length secret derivation.
    pub fn from_slice(b: &[u8]) -> (r: Self)
        ensures
            r@ == reduce_mod_order(pad32(b@)),
            r.wf(),
    {
        let mut buf = [0u8; 32];
        let length: usize = if b.len() < 32 {
            b.len()
        } else {
            32
        };
        let mut i: usize = 0;
        while i < length
            invariant
                i <= length,
                length <= 32,
                length <= b@.len(),
                forall|j: int| 0 <= j < i ==> buf@[j] == b@[j],
                forall|j: int| i <= j < 32 ==> buf@[j] == 0u8,
        decreases length - i,
        {
            buf[i] = b[i];
            i = i + 1;
        }
        proof {
            assert(buf@ =~= pad32(b@));
        }
        Self::from(buf)
    }

    /// The additive identity, the explicit sentinel default.
    pub fn zero() -> (r: Self)
        ensures
            r@ == zero_scalar_bytes(),
            r.wf(),
    {
        ScalarData { bytes: scalar_zero() }
    }

    /// The underlying field element, for arithmetic or circuit binding.
    pub fn to_scalar(&self) -> curve25519_dalek::scalar::Scalar {
        scalar_of_bytes(&self.bytes)
    }

    /// Wire encoding: the canonical 32-byte representative.
    pub fn encode(&self) -> (r: Vec<u8>)
        ensures
            r@ == self@,
    {
        vstd::slice::slice_to_vec(self.bytes.as_slice())
    }

    /// Wire decode: reads 32 bytes, with the same canonical-or-identity
    /// policy as [`PrivateKey::decode`].
    pub fn decode(input: &[u8]) -> (r: Option<ScalarData>)
        ensures
            r is Some <==> input@.len() >= 32,
            r matches Some(s) ==> s@ == canonical_or_zero(input@.take(32)) && s.wf(),
    {
        if input.len() < crate::SIZE {
            return None;
        }
        let head = vstd::slice::slice_subrange(input, 0, 32);
        let mut arr = [0u8; 32];
        let mut i: usize = 0;
        while i < 32
            invariant
                i <= 32,
                head@.len() == 32,
                head@ == input@.take(32),
                forall|j: int| 0 <= j < i ==> arr@[j] == head@[j],
            decreases 32 - i,
        {
            arr[i] = head[i];
            i = i + 1;
        }
        proof {
            assert(arr@ =~= input@.take(32));
        }
        if scalar_is_canonical(&arr) {
            Some(ScalarData { bytes: arr })
        } else {
            Some(ScalarData { bytes: scalar_zero() })
        }
    }
}

/// Round trip: a canonical 32-byte encoding decodes, under the wire policy
/// shared by [`PrivateKey`] and [`ScalarData`] as well as under
/// [`ScalarData::from`]'s reduction rule, to the value it came from, whose
/// encoding is the input itself.
pub proof fn lemma_canonical_round_trip(b: Seq<u8>)
    requires
        is_canonical(b),
    ensures
        canonical_or_zero(b) == b,
        reduce_mod_order(b) == b,
{
}

/// Determinism: two commitments hashed from the same input bytes carry the
/// same compressed encoding.
pub proof fn lemma_commitment_deterministic(a: Commitment, b: Commitment, s: Seq<u8>)
    requires
        a@ == hash_to_curve(s),
        b@ == hash_to_curve(s),
    ensures
        a@ == b@,
{
}

} // verus!
