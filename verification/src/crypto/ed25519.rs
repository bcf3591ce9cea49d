//! Verification of detached Ed25519 signatures.

use ed25519_compact::{PublicKey, Signature};
use vstd::prelude::*;

verus! {

/// Length in bytes of an encoded public key.
pub const PUBLIC_KEY_BYTES: usize = 32;

/// Length in bytes of an encoded signature.
pub const SIGNATURE_BYTES: usize = 64;

/// Whether the Ed25519 verification equation accepts `signature` as a detached
/// signature over exactly `message` under the public key encoded by `key`.
///
/// The curve arithmetic is not modelled here; this names the verdict that the
/// verifier reaches, which depends on these three byte strings alone.
pub uninterp spec fn signature_accepted(key: Seq<u8>, signature: Seq<u8>, message: Seq<u8>) -> bool;

/// A signature is valid when key and signature have their fixed lengths and
/// the verification equation accepts the triple.
pub open spec fn valid_signature(key: Seq<u8>, signature: Seq<u8>, message: Seq<u8>) -> bool {
    &&& key.len() == PUBLIC_KEY_BYTES
    &&& signature.len() == SIGNATURE_BYTES
    &&& signature_accepted(key, signature, message)
}

/// A key or a signature of the wrong length never makes a valid signature,
/// whatever its bytes and whatever the message.
pub proof fn lemma_malformed_is_invalid(key: Seq<u8>, signature: Seq<u8>, message: Seq<u8>)
    requires
        key.len() != PUBLIC_KEY_BYTES || signature.len() != SIGNATURE_BYTES,
    ensures
        !valid_signature(key, signature, message),
{
}

/// Runs `ed25519_compact::PublicKey::verify` on a key and a signature decoded
/// with `PublicKey::from_slice` and `Signature::from_slice`.
///
/// Trusted: the result is the verdict named by [`signature_accepted`]. A key
/// or signature that does not decode is reported as not accepted.
#[verifier::external_body]
fn verify_detached(key: &[u8], signature: &[u8], message: &[u8]) -> (accepted: bool)
    ensures
        accepted == signature_accepted(key@, signature@, message@),
{
    match (PublicKey::from_slice(key), Signature::from_slice(signature)) {
        (Ok(pk), Ok(sig)) => pk.verify(message, &sig).is_ok(),
        _ => false,
    }
}

/// Whether a key and a signature have the lengths that Ed25519 fixes for
/// them: 32 and 64 bytes.
pub fn well_formed(k: &[u8], sig: &[u8]) -> (ok: bool)
    ensures
        ok == (k@.len() == PUBLIC_KEY_BYTES && sig@.len() == SIGNATURE_BYTES),
{
    k.len() == PUBLIC_KEY_BYTES && sig.len() == SIGNATURE_BYTES
}

/// Verifies a detached Ed25519 signature.
///
/// Returns `true` exactly when `k` is 32 bytes long, `sig` is 64 bytes long and
/// `sig` is a valid signature over `msg` under `k`. Malformed input of any
/// length is answered with `false`; it is never handed to the verifier.
pub fn ed25519_verify(k: Vec<u8>, sig: Vec<u8>, msg: Vec<u8>) -> (valid: bool)
    ensures
        valid == valid_signature(k@, sig@, msg@),
{
    if !well_formed(k.as_slice(), sig.as_slice()) {
        return false;
    }
    verify_detached(k.as_slice(), sig.as_slice(), msg.as_slice())
}

} // verus!
