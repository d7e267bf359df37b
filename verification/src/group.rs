//! Trusted adapters around the elliptic-curve group library.
//!
//! The group arithmetic itself is not reimplemented here: scalar reduction,
//! hashing to a scalar, base-point multiplication, and point (de)compression
//! are supplied by `curve25519_dalek` and only their behaviour is stated.
//! Every adapter works on plain 32-byte strings, so that the rest of the
//! crate is verified against these contracts alone.
//!
//! The uninterpreted functions below name results that no short formula can
//! state. Their intended readings, against which each contract is to be
//! judged, are:
//! - `hash_scalar(c)`: the 64-byte SHA-512 digest of `c`, read as a
//!   little-endian integer and reduced modulo the group order.
//! - `base_mul(k)` (for `k` below the group order): the canonical Ristretto
//!   compression of `k * BasePoint`. As the group is cyclic of prime order
//!   and generated by the base point, compression is injective, and every
//!   group element is `base_mul(j)` for exactly one such `j`.
//! - `is_valid_point(b)`: whether `b` is the canonical Ristretto encoding of
//!   some group element, i.e. whether decompression succeeds.
//! - `pmul(k, p)` (for valid `p`): the compression of `k * P`, where `P` is
//!   the group element `p` encodes.

use vstd::prelude::*;

use curve25519_dalek::ristretto::CompressedRistretto;
use curve25519_dalek::ristretto::RistrettoPoint;
use curve25519_dalek::scalar::Scalar;

use crate::model::group_order;
use crate::model::le_bytes;
use crate::model::le_nat;
use crate::model::scalar_of;

verus! {

/// The scalar that hashing a byte string with SHA-512 and reducing the
/// digest modulo the group order yields.
pub uninterp spec fn hash_scalar(context: Seq<u8>) -> nat;

/// The canonical compressed encoding of `k * BasePoint`.
pub uninterp spec fn base_mul(k: nat) -> Seq<u8>;

/// Whether a 32-byte string is the canonical encoding of a group element.
pub uninterp spec fn is_valid_point(b: Seq<u8>) -> bool;

/// The compressed encoding of `k * P`, for the group element `P` that the
/// valid encoding `p` decompresses to.
pub uninterp spec fn pmul(k: nat, p: Seq<u8>) -> Seq<u8>;

/// Relies on `Scalar::hash_from_bytes::<Sha512>`: it hashes the input with
/// SHA-512 and reduces the 512-bit digest modulo the group order; and on
/// `Scalar::to_bytes`: the canonical little-endian encoding of the reduced
/// scalar.
#[verifier::external_body]
pub(crate) fn hash_to_scalar_bytes(context: &[u8]) -> (r: [u8; 32])
    ensures
        r@ == le_bytes(hash_scalar(context@), 32),
        le_nat(r@) == hash_scalar(context@),
        le_nat(r@) < group_order(),
{
    Scalar::hash_from_bytes::<sha2::Sha512>(context).to_bytes()
}

/// Relies on `Scalar::from_bytes_mod_order`: the scalar is the little-endian
/// value of the bytes reduced modulo the group order; on `Mul` for `Scalar`:
/// the product modulo the group order; and on `Scalar::to_bytes`: the
/// canonical little-endian encoding of the reduced product.
#[verifier::external_body]
pub(crate) fn mul_scalar_bytes(a: &[u8; 32], b: &[u8; 32]) -> (r: [u8; 32])
    ensures
        r@ == le_bytes((scalar_of(a@) * scalar_of(b@)) % group_order(), 32),
{
    let sa = Scalar::from_bytes_mod_order(*a);
    let sb = Scalar::from_bytes_mod_order(*b);
    (sa * sb).to_bytes()
}

/// Relies on `Scalar::from_bytes_mod_order` (reduction as above), on
/// `RistrettoPoint::mul_base`: multiplication of the base point by the
/// scalar, and on `RistrettoPoint::compress`: the canonical encoding, which
/// always decompresses back to the point.
#[verifier::external_body]
pub(crate) fn base_mul_bytes(a: &[u8; 32]) -> (r: [u8; 32])
    ensures
        r@ == base_mul(scalar_of(a@)),
        is_valid_point(r@),
{
    let s = Scalar::from_bytes_mod_order(*a);
    RistrettoPoint::mul_base(&s).compress().to_bytes()
}

/// Relies on `CompressedRistretto::decompress`: `Some` exactly on canonical
/// encodings of group elements; on `Scalar::from_bytes_mod_order` (reduction
/// as above); on `Mul<RistrettoPoint> for Scalar`: scalar multiplication in
/// the group, so that on a base-point multiple `base_mul(j)` the product is
/// the base-point multiple of the product of the scalars; and on
/// `RistrettoPoint::compress` (canonical encoding).
#[verifier::external_body]
pub(crate) fn point_mul_bytes(s: &[u8; 32], p: &[u8; 32]) -> (r: Option<[u8; 32]>)
    ensures
        r is Some <==> is_valid_point(p@),
        r matches Some(q) ==> q@ == pmul(scalar_of(s@), p@) && (forall|j: nat|
            j < group_order() && p@ == #[trigger] base_mul(j) ==> q@ == base_mul(
                (scalar_of(s@) * j) % group_order(),
            )),
{
    let scalar = Scalar::from_bytes_mod_order(*s);
    match CompressedRistretto(*p).decompress() {
        Some(point) => Some((scalar * point).compress().to_bytes()),
        None => None,
    }
}

} // verus!
