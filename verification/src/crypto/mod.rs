//! Cryptographic primitives.

pub mod ed25519;
