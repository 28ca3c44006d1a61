//! The Ed25519 session key and the `ed25519_dalek` calls that use it.

use vstd::prelude::*;

use ed25519_dalek::Signer;

verus! {

/// The length of an Ed25519 signature.
pub const SIGNATURE_LENGTH: usize = 64;

/// The private key of a session.
pub struct Ed25519SessionKey {
    pub seed: [u8; 32],
}

/// The public key that belongs to a seed.
pub uninterp spec fn ed25519_public_key(seed: Seq<u8>) -> Seq<u8>;

/// The signature of a message under a seed.
pub uninterp spec fn ed25519_signature(seed: Seq<u8>, message: Seq<u8>) -> Seq<u8>;

/// Whether the strict check accepts a signature of a message under the public key that belongs to
/// a seed, or the words of its refusal.
pub uninterp spec fn ed25519_check(
    seed: Seq<u8>,
    message: Seq<u8>,
    signature: Seq<u8>,
) -> Result<(), Seq<char>>;

/// The encoding of the neutral point of the curve.
pub open spec fn neutral_point() -> Seq<u8> {
    Seq::new(
        32,
        |i: int|
            if i == 0 {
                1u8
            } else {
                0u8
            },
    )
}

impl Ed25519SessionKey {
    /// The public key, from `ed25519_dalek::SigningKey::verifying_key`.
    ///
    /// It depends on the seed alone and has 32 bytes.
    #[verifier::external_body]
    pub(crate) fn public_key(&self) -> (r: Vec<u8>)
        ensures
            r@ == ed25519_public_key(self.seed@),
            r@.len() == 32,
    {
        ed25519_dalek::SigningKey::from_bytes(&self.seed).verifying_key().to_bytes().to_vec()
    }

    /// Signs a message with `ed25519_dalek::SigningKey`.
    ///
    /// The signature depends on the seed and the message alone and has 64 bytes.
    #[verifier::external_body]
    pub(crate) fn sign(&self, message: &[u8]) -> (r: Vec<u8>)
        ensures
            r@ == ed25519_signature(self.seed@, message@),
            r@.len() == SIGNATURE_LENGTH,
    {
        ed25519_dalek::SigningKey::from_bytes(&self.seed).sign(message).to_bytes().to_vec()
    }

    /// Checks a signature with `ed25519_dalek::VerifyingKey::verify_strict`.
    ///
    /// The outcome depends on the seed, the message and the signature alone. A signature that the
    /// seed made for the message is accepted, except where its first half encodes the neutral
    /// point, which the strict check refuses.
    #[verifier::external_body]
    pub(crate) fn verify_strict(&self, message: &[u8], signature: &[u8; 64]) -> (r: Result<
        (),
        String,
    >)
        ensures
            match ed25519_check(self.seed@, message@, signature@) {
                Ok(_) => r is Ok,
                Err(words) => r matches Err(e) && e@ == words,
            },
            signature@ == ed25519_signature(self.seed@, message@) && signature@.take(32)
                != neutral_point() ==> r is Ok,
    {
        let signature = ed25519_dalek::Signature::from_bytes(signature);
        let key = ed25519_dalek::SigningKey::from_bytes(&self.seed).verifying_key();
        key.verify_strict(message, &signature).map_err(|e| e.to_string())
    }
}

/// Takes a signature apart with `ed25519_dalek::Signature::from_slice`.
///
/// Only the length is checked.
#[verifier::external_body]
pub(crate) fn signature_from_slice(bytes: &[u8]) -> (r: Result<[u8; 64], String>)
    ensures
        bytes@.len() == SIGNATURE_LENGTH ==> r is Ok && r->Ok_0@ == bytes@,
        bytes@.len() != SIGNATURE_LENGTH ==> r is Err && r->Err_0@ == "signature error"@,
{
    ed25519_dalek::Signature::from_slice(bytes).map(|s| s.to_bytes()).map_err(|e| e.to_string())
}

} // verus!
