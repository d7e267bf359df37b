//! The laws of the derivation algebra, checked for every input.
//!
//! Each function below composes public operations of the crate and is
//! proved to return `true` whatever its arguments: the `ensures` holds for
//! all secret keys and contexts, not for chosen values. The laws are stated
//! as executable functions because the facts they rest on are the contracts
//! of the group adapters, which are attached to the calls themselves.

use vstd::prelude::*;

use crate::derive::derive_channel_public;
use crate::derive::derive_channel_secret;
use crate::derive::derive_public_key;
use crate::derive::derive_relationship_keys;
use crate::derive::derive_shared_secret;
use crate::derive::spec_shared_secret;
use crate::group::hash_scalar;
use crate::keys::SecretKey;
use crate::model::group_order;
use crate::model::lemma_scalar_of_le_bytes;
use crate::model::scalar_of;

verus! {

/// Determinism: deriving a channel secret twice from the same secret key
/// and context gives byte-identical keys.
pub fn channel_secret_deterministic(secret: &SecretKey, context: &[u8]) -> (r: bool)
    ensures
        r,
{
    let first = match derive_channel_secret(secret, context) {
        Ok(k) => k,
        Err(_) => {
            return false;
        },
    };
    let second = match derive_channel_secret(secret, context) {
        Ok(k) => k,
        Err(_) => {
            return false;
        },
    };
    first.equals(&second)
}

/// Homomorphism: the public key of a derived channel secret equals the
/// channel public key derived from the matching public key, for every
/// secret key and context.
pub fn channel_key_homomorphism(secret: &SecretKey, context: &[u8]) -> (r: bool)
    ensures
        r,
{
    let pk = match derive_public_key(secret) {
        Ok(p) => p,
        Err(_) => {
            return false;
        },
    };
    let channel_secret = match derive_channel_secret(secret, context) {
        Ok(k) => k,
        Err(_) => {
            return false;
        },
    };
    let lhs = match derive_public_key(&channel_secret) {
        Ok(p) => p,
        Err(_) => {
            return false;
        },
    };
    let rhs = match derive_channel_public(&pk, context) {
        Ok(p) => p,
        Err(_) => {
            return false;
        },
    };
    proof {
        lemma_scalar_of_le_bytes(
            (hash_scalar(context@) * scalar_of(secret@)) % group_order(),
        );
    }
    lhs.equals(&rhs)
}

/// Diffie-Hellman symmetry: the shared secret of (Alice's secret, Bob's
/// public key) equals the shared secret of (Bob's secret, Alice's public
/// key), for every pair of secret keys.
pub fn shared_secret_symmetric(sa: &SecretKey, sb: &SecretKey) -> (r: bool)
    ensures
        r,
{
    let pa = match derive_public_key(sa) {
        Ok(p) => p,
        Err(_) => {
            return false;
        },
    };
    let pb = match derive_public_key(sb) {
        Ok(p) => p,
        Err(_) => {
            return false;
        },
    };
    let alice_view = match derive_shared_secret(sa, &pb) {
        Ok(s) => s,
        Err(_) => {
            return false;
        },
    };
    let bob_view = match derive_shared_secret(sb, &pa) {
        Ok(s) => s,
        Err(_) => {
            return false;
        },
    };
    alice_view.equals(&bob_view)
}

/// Relationship agreement: when Alice and Bob each derive relationship keys
/// from their own secret and the other's public key, the public key of
/// Alice's outbox secret is Bob's inbox public key, and the other way
/// round, for every pair of secret keys.
pub fn relationship_keys_agree(sa: &SecretKey, sb: &SecretKey) -> (r: bool)
    ensures
        r,
{
    let pa = match derive_public_key(sa) {
        Ok(p) => p,
        Err(_) => {
            return false;
        },
    };
    let pb = match derive_public_key(sb) {
        Ok(p) => p,
        Err(_) => {
            return false;
        },
    };
    let alice_rel = match derive_relationship_keys(sa, &pb) {
        Ok(rk) => rk,
        Err(_) => {
            return false;
        },
    };
    let bob_rel = match derive_relationship_keys(sb, &pa) {
        Ok(rk) => rk,
        Err(_) => {
            return false;
        },
    };
    // The two parties compute the shared context independently; recompute
    // both views of it so their contracts are at hand.
    let shared = match derive_shared_secret(sa, &pb) {
        Ok(s) => s,
        Err(_) => {
            return false;
        },
    };
    let shared_bob = match derive_shared_secret(sb, &pa) {
        Ok(s) => s,
        Err(_) => {
            return false;
        },
    };
    let shared_bytes = shared.to_bytes();
    let inbox_from_bob = match derive_channel_public(&pb, shared_bytes.as_slice()) {
        Ok(p) => p,
        Err(_) => {
            return false;
        },
    };
    let inbox_from_alice = match derive_channel_public(&pa, shared_bytes.as_slice()) {
        Ok(p) => p,
        Err(_) => {
            return false;
        },
    };
    let alice_out_pub = match derive_public_key(&alice_rel.secret) {
        Ok(p) => p,
        Err(_) => {
            return false;
        },
    };
    let bob_out_pub = match derive_public_key(&bob_rel.secret) {
        Ok(p) => p,
        Err(_) => {
            return false;
        },
    };
    proof {
        let s = spec_shared_secret(sa@, pb@);
        lemma_scalar_of_le_bytes((hash_scalar(s) * scalar_of(sa@)) % group_order());
        lemma_scalar_of_le_bytes((hash_scalar(s) * scalar_of(sb@)) % group_order());
    }
    let cross_agree = alice_out_pub.equals(&bob_rel.public) && bob_out_pub.equals(
        &alice_rel.public,
    );
    let shared_agree = shared.equals(&shared_bob);
    let inbox_agree = inbox_from_bob.equals(&alice_rel.public) && inbox_from_alice.equals(
        &bob_rel.public,
    );
    cross_agree && shared_agree && inbox_agree
}

} // verus!
