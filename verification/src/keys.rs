//! The key types of the derivation scheme.
//!
//! A secret key is 32 bytes, read as a scalar modulo the group order when
//! used in arithmetic. A public key is 32 bytes meant to be the compressed
//! encoding of a group element; malformed bytes are accepted here and
//! rejected by the operations that must decompress them.

use vstd::prelude::*;

verus! {

/// A 32-byte secret key. Any 32 bytes form a secret key; arithmetic reduces
/// them modulo the group order on use.
#[derive(Debug, Clone, Copy, PartialEq, Eq)]
pub struct SecretKey {
    bytes: [u8; 32],
}

/// A 32-byte public key: the compressed encoding of a group element.
/// Construction does not check validity; operations that decompress fail on
/// bytes that are not a canonical encoding.
#[derive(Debug, Clone, Copy, PartialEq, Eq)]
pub struct PublicKey {
    bytes: [u8; 32],
}

/// One endpoint of a pairwise channel: `secret` originates messages on the
/// channel, `public` addresses the counterparty's. The two fields are not a
/// matching keypair of each other; they come from two independent
/// derivations.
#[derive(Debug, Clone, Copy)]
pub struct RelationshipKeys {
    pub secret: SecretKey,
    pub public: PublicKey,
}

/// The ways a derivation can fail.
#[derive(Debug, Clone, Copy, PartialEq, Eq)]
pub enum DeriveError {
    /// A supplied public key's bytes do not decompress to a group element.
    PointDecompression,
    /// A computed key's byte encoding was rejected. Keys here are raw
    /// 32-byte strings, which are never rejected, so no operation of this
    /// crate returns it; it is part of the error contract all the same.
    KeyEncoding,
}

impl View for SecretKey {
    type V = Seq<u8>;

    closed spec fn view(&self) -> Seq<u8> {
        self.bytes@
    }
}

impl View for PublicKey {
    type V = Seq<u8>;

    closed spec fn view(&self) -> Seq<u8> {
        self.bytes@
    }
}

/// Byte-for-byte comparison of two 32-byte strings.
fn eq_bytes32(a: &[u8; 32], b: &[u8; 32]) -> (r: bool)
    ensures
        r <==> a@ == b@,
{
    let mut i: usize = 0;
    while i < 32
        invariant
            0 <= i <= 32,
            forall|j: int| 0 <= j < i ==> a@[j] == b@[j],
        decreases 32 - i,
    {
        if a[i] != b[i] {
            return false;
        }
        i = i + 1;
    }
    proof {
        assert(a@ =~= b@);
    }
    true
}

impl SecretKey {
    /// Wraps 32 bytes as a secret key.
    pub fn from_bytes(bytes: [u8; 32]) -> (r: SecretKey)
        ensures
            r@ == bytes@,
    {
        SecretKey { bytes }
    }

    /// The raw 32 bytes of the key.
    pub fn to_bytes(&self) -> (r: [u8; 32])
        ensures
            r@ == self@,
    {
        self.bytes
    }

    /// Whether two secret keys hold the same bytes.
    pub fn equals(&self, other: &SecretKey) -> (r: bool)
        ensures
            r <==> self@ == other@,
    {
        eq_bytes32(&self.bytes, &other.bytes)
    }
}

impl PublicKey {
    /// Wraps 32 bytes as a public key, without checking that they encode a
    /// group element.
    pub fn from_bytes(bytes: [u8; 32]) -> (r: PublicKey)
        ensures
            r@ == bytes@,
    {
        PublicKey { bytes }
    }

    /// The raw 32 bytes of the key.
    pub fn to_bytes(&self) -> (r: [u8; 32])
        ensures
            r@ == self@,
    {
        self.bytes
    }

    /// Whether two public keys hold the same bytes.
    pub fn equals(&self, other: &PublicKey) -> (r: bool)
        ensures
            r <==> self@ == other@,
    {
        eq_bytes32(&self.bytes, &other.bytes)
    }
}

} // verus!
