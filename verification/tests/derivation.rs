use channels::derive_channel_public;
use channels::derive_channel_secret;
use channels::derive_public_key;
use channels::derive_relationship_keys;
use channels::derive_shared_secret;
use channels::laws::channel_key_homomorphism;
use channels::laws::channel_secret_deterministic;
use channels::laws::relationship_keys_agree;
use channels::laws::shared_secret_symmetric;
use channels::DeriveError;
use channels::PublicKey;
use channels::SecretKey;

use curve25519_dalek::ristretto::CompressedRistretto;
use curve25519_dalek::ristretto::RistrettoPoint;
use curve25519_dalek::scalar::Scalar;
use sha2::Sha512;

fn sample_secret(seed: u8) -> SecretKey {
    let mut bytes = [0u8; 32];
    for (i, b) in bytes.iter_mut().enumerate() {
        *b = seed.wrapping_add(i as u8).wrapping_mul(31);
    }
    SecretKey::from_bytes(bytes)
}

fn random_secret() -> SecretKey {
    SecretKey::from_bytes(rand::random::<[u8; 32]>())
}

#[test]
fn zero_secret_gives_identity_public_key() {
    // 0 * BasePoint is the identity element, whose canonical Ristretto
    // encoding is 32 zero bytes.
    let pk = derive_public_key(&SecretKey::from_bytes([0u8; 32])).unwrap();
    assert_eq!(pk.to_bytes(), [0u8; 32]);
}

#[test]
fn public_key_matches_group_library() {
    let secret = sample_secret(7);
    let expected = RistrettoPoint::mul_base(&Scalar::from_bytes_mod_order(secret.to_bytes()))
        .compress()
        .to_bytes();
    let pk = derive_public_key(&secret).unwrap();
    assert_eq!(pk.to_bytes(), expected);
}

#[test]
fn channel_secret_matches_group_library() {
    let secret = sample_secret(42);
    let context = b"cats";
    let expected = (Scalar::hash_from_bytes::<Sha512>(context)
        * Scalar::from_bytes_mod_order(secret.to_bytes()))
    .to_bytes();
    let k = derive_channel_secret(&secret, context).unwrap();
    assert_eq!(k.to_bytes(), expected);
}

#[test]
fn channel_public_matches_group_library() {
    let secret = sample_secret(3);
    let context = b"cats";
    let pk = derive_public_key(&secret).unwrap();
    let point = CompressedRistretto(pk.to_bytes()).decompress().unwrap();
    let expected = (Scalar::hash_from_bytes::<Sha512>(context) * point)
        .compress()
        .to_bytes();
    let channel_pk = derive_channel_public(&pk, context).unwrap();
    assert_eq!(channel_pk.to_bytes(), expected);
}

#[test]
fn shared_secret_matches_group_library() {
    let sa = sample_secret(11);
    let sb = sample_secret(200);
    let pb = derive_public_key(&sb).unwrap();
    let point = CompressedRistretto(pb.to_bytes()).decompress().unwrap();
    let expected = (Scalar::from_bytes_mod_order(sa.to_bytes()) * point)
        .compress()
        .to_bytes();
    let shared = derive_shared_secret(&sa, &pb).unwrap();
    assert_eq!(shared.to_bytes(), expected);
}

#[test]
fn channel_secret_is_deterministic() {
    let secret = sample_secret(99);
    let a = derive_channel_secret(&secret, b"context").unwrap();
    let b = derive_channel_secret(&secret, b"context").unwrap();
    assert_eq!(a.to_bytes(), b.to_bytes());
    assert!(channel_secret_deterministic(&secret, b"context"));
}

#[test]
fn different_contexts_give_different_channel_secrets() {
    let secret = sample_secret(17);
    let a = derive_channel_secret(&secret, b"cats").unwrap();
    let b = derive_channel_secret(&secret, b"dogs").unwrap();
    assert_ne!(a.to_bytes(), b.to_bytes());
}

#[test]
fn homomorphism_holds() {
    let secret = sample_secret(54);
    let context = b"cats";
    let from_secret = derive_public_key(&derive_channel_secret(&secret, context).unwrap()).unwrap();
    let from_public = derive_channel_public(&derive_public_key(&secret).unwrap(), context).unwrap();
    assert_eq!(from_secret, from_public);
    assert!(channel_key_homomorphism(&secret, context));
}

#[test]
fn shared_secret_is_symmetric() {
    let sa = sample_secret(1);
    let sb = sample_secret(2);
    let pa = derive_public_key(&sa).unwrap();
    let pb = derive_public_key(&sb).unwrap();
    let ab = derive_shared_secret(&sa, &pb).unwrap();
    let ba = derive_shared_secret(&sb, &pa).unwrap();
    assert_eq!(ab.to_bytes(), ba.to_bytes());
    assert!(shared_secret_symmetric(&sa, &sb));
}

#[test]
fn relationship_keys_cross_agree() {
    let sa = sample_secret(5);
    let sb = sample_secret(6);
    let pa = derive_public_key(&sa).unwrap();
    let pb = derive_public_key(&sb).unwrap();
    let alice = derive_relationship_keys(&sa, &pb).unwrap();
    let bob = derive_relationship_keys(&sb, &pa).unwrap();
    assert_eq!(derive_public_key(&alice.secret).unwrap(), bob.public);
    assert_eq!(derive_public_key(&bob.secret).unwrap(), alice.public);
    assert!(relationship_keys_agree(&sa, &sb));
}

#[test]
fn invalid_public_key_fails_decompression() {
    // All-ones bytes are not the canonical encoding of any group element.
    let bad = PublicKey::from_bytes([0xFF; 32]);
    assert!(CompressedRistretto([0xFF; 32]).decompress().is_none());
    let secret = sample_secret(8);
    assert_eq!(
        derive_channel_public(&bad, b"cats").unwrap_err(),
        DeriveError::PointDecompression
    );
    assert_eq!(
        derive_shared_secret(&secret, &bad).unwrap_err(),
        DeriveError::PointDecompression
    );
    assert_eq!(
        derive_relationship_keys(&secret, &bad).unwrap_err(),
        DeriveError::PointDecompression
    );
}

#[test]
fn end_to_end_scenario_with_random_keypairs() {
    let sa = random_secret();
    let sb = random_secret();
    let pa = derive_public_key(&sa).unwrap();
    let pb = derive_public_key(&sb).unwrap();

    // Public channel: the "cats" channel keypair derived two ways agrees.
    let channel = b"cats";
    let cats_secret = derive_channel_secret(&sa, channel).unwrap();
    let cats_public = derive_public_key(&cats_secret).unwrap();
    let pub_cats_public = derive_channel_public(&pa, channel).unwrap();
    assert_eq!(pub_cats_public, cats_public);

    // Private channels: both parties derive matching channel keys from the
    // shared secret.
    let shared = derive_shared_secret(&sa, &pb).unwrap().to_bytes();
    let to_bob_secret = derive_channel_secret(&sa, &shared).unwrap();
    let to_bob_public = derive_public_key(&to_bob_secret).unwrap();
    let from_bob_public = derive_channel_public(&pb, &shared).unwrap();
    let to_alice_secret = derive_channel_secret(&sb, &shared).unwrap();
    let to_alice_public = derive_public_key(&to_alice_secret).unwrap();
    let from_alice_public = derive_channel_public(&pa, &shared).unwrap();
    assert_eq!(from_bob_public, to_alice_public);
    assert_eq!(from_alice_public, to_bob_public);

    // The relationship protocol packages the same agreement.
    let alice = derive_relationship_keys(&sa, &pb).unwrap();
    let bob = derive_relationship_keys(&sb, &pa).unwrap();
    assert_eq!(alice.public, derive_public_key(&bob.secret).unwrap());
    assert_eq!(bob.public, derive_public_key(&alice.secret).unwrap());
}
