//! Ed25519 keys, held as their 32-byte secret seed.
//!
//! The arithmetic is `ed25519-zebra`'s. What it computes is named here, so
//! that the keystore can say which key and which signature it hands out.

use vstd::prelude::*;

verus! {

/// The public key that belongs to the secret seed `seed`: the bytes of
/// `ed25519_zebra::VerificationKey::from(&SigningKey::from(seed))`.
pub uninterp spec fn ed25519_public_key(seed: Seq<u8>) -> Seq<u8>;

/// The signature of `message` under the secret seed `seed`: the bytes of
/// `ed25519_zebra::SigningKey::sign`, which draws no randomness.
pub uninterp spec fn ed25519_signature(seed: Seq<u8>, message: Seq<u8>) -> Seq<u8>;

/// Derives the public key of a secret seed.
///
/// Trusted: builds an `ed25519_zebra::SigningKey` from the seed (any 32 bytes
/// are accepted) and returns the bytes of its `VerificationKey`. The contract
/// only names that result.
#[verifier::external_body]
pub(crate) fn public_key(seed: &[u8; 32]) -> (public: [u8; 32])
    ensures
        public@ == ed25519_public_key(seed@),
{
    let key = ed25519_zebra::SigningKey::from(*seed);
    ed25519_zebra::VerificationKey::from(&key).into()
}

/// Signs `message` with a secret seed.
///
/// Trusted: calls `ed25519_zebra::SigningKey::sign`, whose result is a
/// function of the seed and the message alone. The contract only names it.
#[verifier::external_body]
pub(crate) fn sign(seed: &[u8; 32], message: &[u8]) -> (signature: [u8; 64])
    ensures
        signature@ == ed25519_signature(seed@, message@),
{
    let key = ed25519_zebra::SigningKey::from(*seed);
    key.sign(message).into()
}

} // verus!
