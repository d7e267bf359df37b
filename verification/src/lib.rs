//! Deterministic, hierarchical key derivation over the Ristretto group on
//! Curve25519: per-context ("channel") keypairs and pairwise relationship
//! keys, all derived from a single long-term keypair without per-channel
//! storage.
//!
//! A channel secret is `hash(context) * scalar(secret)`; the matching
//! channel public key can be derived by anyone holding only the long-term
//! public key, as `hash(context) * P`. Two parties combine a Diffie-Hellman
//! shared secret with the same construction to derive a private channel in
//! each direction; see `derive` for the operations and `laws` for the
//! algebraic guarantees, proved for all inputs.

pub mod derive;
pub mod group;
pub mod keys;
pub mod laws;
pub mod model;

pub use derive::derive_channel_public;
pub use derive::derive_channel_secret;
pub use derive::derive_public_key;
pub use derive::derive_relationship_keys;
pub use derive::derive_shared_secret;
pub use keys::DeriveError;
pub use keys::PublicKey;
pub use keys::RelationshipKeys;
pub use keys::SecretKey;
