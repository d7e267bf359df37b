//! The derivation algebra: per-context channel keys and pairwise
//! relationship keys from one long-term keypair.
//!
//! Each operation's result is pinned by a spec function over the model of
//! the group: secret keys are scalars modulo the group order, public keys
//! are compressed base-point multiples, and hashing a context yields the
//! scalar `hash_scalar(context)`.

use vstd::prelude::*;

use crate::group::base_mul;
use crate::group::base_mul_bytes;
use crate::group::hash_scalar;
use crate::group::hash_to_scalar_bytes;
use crate::group::is_valid_point;
use crate::group::mul_scalar_bytes;
use crate::group::pmul;
use crate::group::point_mul_bytes;
use crate::keys::DeriveError;
use crate::keys::PublicKey;
use crate::keys::RelationshipKeys;
use crate::keys::SecretKey;
use crate::model::group_order;
use crate::model::le_bytes;
use crate::model::lemma_scalar_of_le_bytes;
use crate::model::scalar_of;

verus! {

/// The bytes of the public key derived from a secret key: the compressed
/// encoding of `scalar(secret) * BasePoint`.
pub open spec fn spec_public_key(secret: Seq<u8>) -> Seq<u8> {
    base_mul(scalar_of(secret))
}

/// The bytes of a channel secret: the canonical encoding of
/// `hash_scalar(context) * scalar(secret)` modulo the group order.
pub open spec fn spec_channel_secret(secret: Seq<u8>, context: Seq<u8>) -> Seq<u8> {
    le_bytes((hash_scalar(context) * scalar_of(secret)) % group_order(), 32)
}

/// The bytes of a channel public key: the compressed encoding of
/// `hash_scalar(context) * P`, for the group element `P` that `public`
/// encodes.
pub open spec fn spec_channel_public(public: Seq<u8>, context: Seq<u8>) -> Seq<u8> {
    pmul(hash_scalar(context), public)
}

/// The bytes of a Diffie-Hellman shared secret: the compressed encoding of
/// `scalar(secret) * P`, for the group element `P` that `public` encodes.
pub open spec fn spec_shared_secret(secret: Seq<u8>, public: Seq<u8>) -> Seq<u8> {
    pmul(scalar_of(secret), public)
}

/// Derives the public key matching a secret key: `scalar(secret) *
/// BasePoint`, compressed. Never fails: the compression of a base-point
/// multiple is always a well-formed public key.
pub fn derive_public_key(secret: &SecretKey) -> (r: Result<PublicKey, DeriveError>)
    ensures
        r matches Ok(pk) && pk@ == spec_public_key(secret@),
        is_valid_point(spec_public_key(secret@)),
{
    let pk_bytes = base_mul_bytes(&secret.to_bytes());
    Ok(PublicKey::from_bytes(pk_bytes))
}

/// Derives the secret key of the channel named `context`:
/// `hash_scalar(context) * scalar(secret)`, encoded canonically. Never
/// fails: the canonical encoding of a reduced scalar is always a
/// well-formed secret key.
pub fn derive_channel_secret(secret: &SecretKey, context: &[u8]) -> (r: Result<
    SecretKey,
    DeriveError,
>)
    ensures
        r matches Ok(k) && k@ == spec_channel_secret(secret@, context@),
{
    let h = hash_to_scalar_bytes(context);
    let prod = mul_scalar_bytes(&h, &secret.to_bytes());
    proof {
        lemma_scalar_of_le_bytes(hash_scalar(context@));
    }
    Ok(SecretKey::from_bytes(prod))
}

/// Derives the public key of the channel named `context` from a public key
/// alone: `hash_scalar(context) * P`, compressed. Fails with
/// `PointDecompression` exactly when `public` does not encode a group
/// element. On a public key that is the `j`-th base-point multiple, the
/// result is the `hash_scalar(context) * j`-th base-point multiple: this is
/// what lets it agree with `derive_channel_secret` made on the matching
/// secret key.
pub fn derive_channel_public(public: &PublicKey, context: &[u8]) -> (r: Result<
    PublicKey,
    DeriveError,
>)
    ensures
        is_valid_point(public@) ==> (r matches Ok(pk) && pk@ == spec_channel_public(
            public@,
            context@,
        )),
        !is_valid_point(public@) ==> (r matches Err(e) && e
            == DeriveError::PointDecompression),
        forall|j: nat|
            is_valid_point(public@) && j < group_order() && public@ == #[trigger] base_mul(j)
                ==> spec_channel_public(public@, context@) == base_mul(
                (hash_scalar(context@) * j) % group_order(),
            ),
{
    let h = hash_to_scalar_bytes(context);
    proof {
        lemma_scalar_of_le_bytes(hash_scalar(context@));
    }
    match point_mul_bytes(&h, &public.to_bytes()) {
        Some(q) => Ok(PublicKey::from_bytes(q)),
        None => Err(DeriveError::PointDecompression),
    }
}

/// Derives the Diffie-Hellman shared secret of a local secret key and a
/// remote public key: `scalar(secret) * P`, compressed and wrapped as a
/// secret key. Fails with `PointDecompression` exactly when `public` does
/// not encode a group element. On a public key that is the `j`-th
/// base-point multiple, the result encodes the `scalar(secret) * j`-th
/// base-point multiple, which is symmetric in the two parties.
pub fn derive_shared_secret(secret: &SecretKey, public: &PublicKey) -> (r: Result<
    SecretKey,
    DeriveError,
>)
    ensures
        is_valid_point(public@) ==> (r matches Ok(k) && k@ == spec_shared_secret(
            secret@,
            public@,
        )),
        !is_valid_point(public@) ==> (r matches Err(e) && e
            == DeriveError::PointDecompression),
        forall|j: nat|
            is_valid_point(public@) && j < group_order() && public@ == #[trigger] base_mul(j)
                ==> spec_shared_secret(secret@, public@) == base_mul(
                (scalar_of(secret@) * j) % group_order(),
            ),
{
    match point_mul_bytes(&secret.to_bytes(), &public.to_bytes()) {
        Some(q) => Ok(SecretKey::from_bytes(q)),
        None => Err(DeriveError::PointDecompression),
    }
}

/// Derives both keys of this party's channel with a counterparty: the
/// outbox secret `derive_channel_secret(secret, shared)` and the inbox
/// public key `derive_channel_public(public, shared)`, where `shared` is
/// the Diffie-Hellman shared secret of the pair. Fails with
/// `PointDecompression` exactly when `public` does not encode a group
/// element.
pub fn derive_relationship_keys(secret: &SecretKey, public: &PublicKey) -> (r: Result<
    RelationshipKeys,
    DeriveError,
>)
    ensures
        is_valid_point(public@) ==> (r matches Ok(rk) && rk.secret@ == spec_channel_secret(
            secret@,
            spec_shared_secret(secret@, public@),
        ) && rk.public@ == spec_channel_public(public@, spec_shared_secret(secret@, public@))),
        !is_valid_point(public@) ==> (r matches Err(e) && e
            == DeriveError::PointDecompression),
{
    let shared = match derive_shared_secret(secret, public) {
        Ok(s) => s,
        Err(e) => {
            return Err(e);
        },
    };
    let shared_bytes = shared.to_bytes();
    let outbox = match derive_channel_secret(secret, shared_bytes.as_slice()) {
        Ok(k) => k,
        Err(e) => {
            return Err(e);
        },
    };
    let inbox = match derive_channel_public(public, shared_bytes.as_slice()) {
        Ok(k) => k,
        Err(e) => {
            return Err(e);
        },
    };
    Ok(RelationshipKeys { secret: outbox, public: inbox })
}

} // verus!
