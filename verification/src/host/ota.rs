//! Verification of firmware images before they are flashed.

use ed25519_dalek::{PublicKey, Signature, Verifier};
use vstd::prelude::*;

verus! {

/// Whether `signature` is a valid Ed25519 signature of `message` under
/// `public_key`, as `ed25519-dalek` decides it: both encodings parse and
/// the signature verifies.
pub uninterp spec fn ed25519_verifies(public_key: Seq<u8>, message: Seq<u8>, signature: Seq<u8>) -> bool;

/// `PublicKey::from_bytes`, `Signature::from_bytes` and `Verifier::verify`
/// of `ed25519-dalek`: the result is left to the name `ed25519_verifies`, a
/// function of the key, message and signature bytes alone; an encoding
/// that does not parse counts as a failed verification.
#[verifier::external_body]
fn ed25519_verify(public_key: &[u8; 32], message: &[u8], signature: &[u8; 64]) -> (ok: bool)
    ensures
        ok == ed25519_verifies(public_key@, message@, signature@),
{
    match (PublicKey::from_bytes(public_key), Signature::from_bytes(signature)) {
        (Ok(key), Ok(sig)) => key.verify(message, &sig).is_ok(),
        _ => false,
    }
}

/// Checks and flashes firmware updates signed with the vendor key.
pub struct OtaManager {
    public_key: [u8; 32],
}

impl OtaManager {
    /// The vendor key, as its 32-byte encoding.
    pub closed spec fn key(&self) -> Seq<u8> {
        self.public_key@
    }

    /// A manager trusting the public key with this encoding.
    pub fn new(public_key: [u8; 32]) -> (m: Self)
        ensures
            m.key() == public_key@,
    {
        OtaManager { public_key }
    }

    /// Whether `signature` signs `firmware` under the vendor key.
    pub fn verify_firmware(&self, firmware: &[u8], signature: &[u8; 64]) -> (ok: bool)
        ensures
            ok == ed25519_verifies(self.key(), firmware@, signature@),
    {
        ed25519_verify(&self.public_key, firmware, signature)
    }

    /// Flashes a verified image to the inactive bank; the transfer itself
    /// is not implemented and always succeeds.
    pub fn flash_firmware(&self, _firmware: &[u8]) -> (r: Result<(), ()>)
        ensures
            r is Ok,
    {
        Ok(())
    }
}

} // verus!
