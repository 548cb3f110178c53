//! Sr25519 keys (Schnorr signatures over Ristretto), held as the 64 bytes of
//! their secret key: a scalar of 32 bytes, then a nonce seed of 32 bytes.
//!
//! The arithmetic is `schnorrkel`'s. Signing draws fresh randomness on every
//! call, so a signature is known only as one that verifies, and a VRF proof
//! only as one that proves the VRF output of its key.

use vstd::prelude::*;
use crate::transcript::{dom_sep_label, transcript_messages, Message};

verus! {

/// The order of the Ristretto group:
/// `2^252 + 27742317777372353535851937790883648493`.
pub open spec fn group_order() -> nat {
    0x1000000000000000000000000000000014def9dea2f79cd65812631a5cf5d3edint as nat
}

/// The number that `bytes` write, least significant byte first.
pub open spec fn le_value(bytes: Seq<u8>) -> nat
    decreases bytes.len(),
{
    if bytes.len() == 0 {
        0
    } else {
        bytes[0] as nat + 256 * le_value(bytes.drop_first())
    }
}

/// Whether `secret` is a well-formed secret key: 64 bytes, of which the first
/// 32 write a scalar below the group order.
pub open spec fn secret_is_valid(secret: Seq<u8>) -> bool {
    secret.len() == 64 && le_value(secret.subrange(0, 32)) < group_order()
}

/// The public key that belongs to the secret key `secret`: the bytes of
/// `schnorrkel::SecretKey::to_public`. It is named of the whole secret key,
/// as that function takes it, though only the scalar bears on it.
pub uninterp spec fn sr25519_public_key(secret: Seq<u8>) -> Seq<u8>;

/// Whether `schnorrkel::PublicKey::verify` accepts `signature`, for the public
/// key of bytes `public_key`, over a transcript that has absorbed `messages`.
pub uninterp spec fn sr25519_verifies(
    public_key: Seq<u8>,
    messages: Seq<Message>,
    signature: Seq<u8>,
) -> bool;

/// The VRF pre-output of the secret key `secret` on a transcript that has
/// absorbed `messages`: the bytes of the output point of
/// `schnorrkel::Keypair::vrf_create_hash`, which draws no randomness. It is
/// the first thing that `vrf_sign` returns.
pub uninterp spec fn sr25519_vrf_pre_output(secret: Seq<u8>, messages: Seq<Message>) -> Seq<u8>;

/// Whether `schnorrkel::PublicKey::dleq_verify` accepts `proof`: for the
/// public key of bytes `public_key`, for the pair of the point that this key
/// hashes a transcript of `messages` to (`vrf_hash`) and the point that
/// `pre_output` encodes, and with the extra transcript labelled `VRF`.
///
/// This is the check that `vrf_verify` makes of a proof. Before it,
/// `vrf_verify` refuses a pre-output that is the neutral point, which the
/// scalar zero gives.
pub uninterp spec fn sr25519_vrf_proves(
    public_key: Seq<u8>,
    messages: Seq<Message>,
    pre_output: Seq<u8>,
    proof: Seq<u8>,
) -> bool;

/// Tells whether `secret` is a well-formed Sr25519 secret key: one that
/// `schnorrkel::SecretKey::from_bytes` takes.
///
/// The scalar is held against the group order byte by byte, from the most
/// significant down: the first byte that differs decides.
pub fn is_valid_secret(secret: &[u8; 64]) -> (ok: bool)
    ensures
        ok == secret_is_valid(secret@),
{
    let order: [u8; 32] = [
        0xed, 0xd3, 0xf5, 0x5c, 0x1a, 0x63, 0x12, 0x58,
        0xd6, 0x9c, 0xf7, 0xa2, 0xde, 0xf9, 0xde, 0x14,
        0x00, 0x00, 0x00, 0x00, 0x00, 0x00, 0x00, 0x00,
        0x00, 0x00, 0x00, 0x00, 0x00, 0x00, 0x00, 0x10,
    ];
    let ghost scalar = secret@.subrange(0, 32);
    proof {
        assert(order@ == group_order_bytes());
        lemma_group_order_bytes();
    }
    let mut i: usize = 32;
    while i > 0
        invariant
            i <= 32,
            order@ == group_order_bytes(),
            le_value(group_order_bytes()) == group_order(),
            scalar == secret@.subrange(0, 32),
            forall|j: int| i <= j < 32 ==> scalar[j] == order@[j],
        decreases i,
    {
        i -= 1;
        if secret[i] < order[i] {
            proof {
                lemma_top_difference_decides(scalar, order@, i as int);
            }
            return true;
        }
        if secret[i] > order[i] {
            proof {
                lemma_top_difference_decides(order@, scalar, i as int);
            }
            return false;
        }
    }
    assert(scalar == order@);
    false
}

/// The bytes of the group order, least significant first.
pub open spec fn group_order_bytes() -> Seq<u8> {
    seq![
        0xedu8, 0xd3u8, 0xf5u8, 0x5cu8, 0x1au8, 0x63u8, 0x12u8, 0x58u8,
        0xd6u8, 0x9cu8, 0xf7u8, 0xa2u8, 0xdeu8, 0xf9u8, 0xdeu8, 0x14u8,
        0x00u8, 0x00u8, 0x00u8, 0x00u8, 0x00u8, 0x00u8, 0x00u8, 0x00u8,
        0x00u8, 0x00u8, 0x00u8, 0x00u8, 0x00u8, 0x00u8, 0x00u8, 0x10u8,
    ]
}

/// The value of a byte string is that of its first byte and, 256 times, that
/// of the rest.
proof fn lemma_le_value_unfolds(bytes: Seq<u8>, k: int)
    requires
        0 <= k < bytes.len(),
    ensures
        le_value(bytes.skip(k)) == bytes[k] + 256 * le_value(bytes.skip(k + 1)),
{
    assert(bytes.skip(k).drop_first() == bytes.skip(k + 1));
}

/// The bytes of the group order do write the group order.
pub proof fn lemma_group_order_bytes()
    ensures
        le_value(group_order_bytes()) == group_order(),
{
    let bytes = group_order_bytes();
    assert(le_value(bytes.skip(32)) == 0);
    lemma_le_value_unfolds(bytes, 31);
    lemma_le_value_unfolds(bytes, 30);
    lemma_le_value_unfolds(bytes, 29);
    lemma_le_value_unfolds(bytes, 28);
    lemma_le_value_unfolds(bytes, 27);
    lemma_le_value_unfolds(bytes, 26);
    lemma_le_value_unfolds(bytes, 25);
    lemma_le_value_unfolds(bytes, 24);
    lemma_le_value_unfolds(bytes, 23);
    lemma_le_value_unfolds(bytes, 22);
    lemma_le_value_unfolds(bytes, 21);
    lemma_le_value_unfolds(bytes, 20);
    lemma_le_value_unfolds(bytes, 19);
    lemma_le_value_unfolds(bytes, 18);
    lemma_le_value_unfolds(bytes, 17);
    lemma_le_value_unfolds(bytes, 16);
    lemma_le_value_unfolds(bytes, 15);
    lemma_le_value_unfolds(bytes, 14);
    lemma_le_value_unfolds(bytes, 13);
    lemma_le_value_unfolds(bytes, 12);
    lemma_le_value_unfolds(bytes, 11);
    lemma_le_value_unfolds(bytes, 10);
    lemma_le_value_unfolds(bytes, 9);
    lemma_le_value_unfolds(bytes, 8);
    lemma_le_value_unfolds(bytes, 7);
    lemma_le_value_unfolds(bytes, 6);
    lemma_le_value_unfolds(bytes, 5);
    lemma_le_value_unfolds(bytes, 4);
    lemma_le_value_unfolds(bytes, 3);
    lemma_le_value_unfolds(bytes, 2);
    lemma_le_value_unfolds(bytes, 1);
    lemma_le_value_unfolds(bytes, 0);
    assert(bytes.skip(0) == bytes);
}

/// Of two byte strings of one length that agree above position `i`, the one
/// with the smaller byte at `i` writes the smaller number.
pub proof fn lemma_top_difference_decides(smaller: Seq<u8>, larger: Seq<u8>, i: int)
    requires
        smaller.len() == larger.len(),
        0 <= i < smaller.len(),
        smaller[i] < larger[i],
        forall|j: int| i < j < smaller.len() ==> smaller[j] == larger[j],
    ensures
        le_value(smaller) < le_value(larger),
    decreases smaller.len(),
{
    if i == 0 {
        assert(smaller.drop_first() == larger.drop_first());
    } else {
        lemma_top_difference_decides(smaller.drop_first(), larger.drop_first(), i - 1);
    }
}

/// Derives the public key of a secret key.
///
/// Trusted: parses the secret key with `schnorrkel::SecretKey::from_bytes`,
/// which takes 64 bytes exactly when the first 32 are the canonical form of a
/// scalar, that is, write a number below the group order; then returns the
/// bytes of `to_keypair().public`. The contract only names that result.
#[verifier::external_body]
pub(crate) fn public_key(secret: &[u8; 64]) -> (public: [u8; 32])
    requires
        secret_is_valid(secret@),
    ensures
        public@ == sr25519_public_key(secret@),
{
    let keypair = schnorrkel::SecretKey::from_bytes(&secret[..]).unwrap().to_keypair();
    keypair.public.to_bytes()
}

/// The label `SigningContext` of the transcript that a signing context is.
pub open spec fn signing_context_label() -> Seq<u8> {
    seq![
        0x53u8, 0x69u8, 0x67u8, 0x6eu8, 0x69u8, 0x6eu8, 0x67u8,
        0x43u8, 0x6fu8, 0x6eu8, 0x74u8, 0x65u8, 0x78u8, 0x74u8,
    ]
}

/// The label `sign-bytes`, under which a signing context absorbs the message
/// to sign.
pub open spec fn sign_bytes_label() -> Seq<u8> {
    seq![0x73u8, 0x69u8, 0x67u8, 0x6eu8, 0x2du8, 0x62u8, 0x79u8, 0x74u8, 0x65u8, 0x73u8]
}

/// The context `substrate`, in which every plain signature of the keystore
/// is made.
pub open spec fn substrate_context() -> Seq<u8> {
    seq![0x73u8, 0x75u8, 0x62u8, 0x73u8, 0x74u8, 0x72u8, 0x61u8, 0x74u8, 0x65u8]
}

/// The messages of the transcript that signs `message` in `context`: a
/// transcript labelled `SigningContext` that has absorbed the context under
/// the empty label, then the message under `sign-bytes`.
pub open spec fn signing_messages(context: Seq<u8>, message: Seq<u8>) -> Seq<Message> {
    seq![
        (dom_sep_label(), signing_context_label()),
        (Seq::<u8>::empty(), context),
        (sign_bytes_label(), message),
    ]
}

/// Trusted: `schnorrkel::signing_context` makes a transcript labelled
/// `SigningContext` and has it absorb the context under the empty label;
/// `SigningContext::bytes` has a copy of it absorb the message under
/// `sign-bytes`. A transcript panics on a message of more than `u32::MAX`
/// bytes.
#[verifier::external_body]
fn transcript_in_context(context: &[u8], message: &[u8]) -> (transcript: merlin::Transcript)
    requires
        context@.len() <= u32::MAX,
        message@.len() <= u32::MAX,
    ensures
        transcript_messages(transcript) == signing_messages(context@, message@),
{
    schnorrkel::signing_context(context).bytes(message)
}

/// Builds the transcript that a plain signature of `payload` is made over:
/// the payload in the context `substrate`.
pub fn signing_transcript(payload: &[u8]) -> (transcript: merlin::Transcript)
    requires
        payload@.len() <= u32::MAX,
    ensures
        transcript_messages(transcript) == signing_messages(substrate_context(), payload@),
{
    let context: [u8; 9] = [0x73, 0x75, 0x62, 0x73, 0x74, 0x72, 0x61, 0x74, 0x65];
    assert(context@ == substrate_context());
    transcript_in_context(context.as_slice(), payload)
}

/// Signs a transcript.
///
/// Trusted: calls `schnorrkel::Keypair::sign`, which mixes randomness of the
/// operating system into the signature. Of its bytes the contract claims only
/// what holds of every outcome: that the public key of the same secret key
/// verifies them over the same transcript, as the example in the
/// documentation of `Keypair::verify` has it. The call panics only where the
/// operating system gives no randomness, whatever the arguments.
#[verifier::external_body]
pub(crate) fn sign(secret: &[u8; 64], transcript: merlin::Transcript) -> (signature: [u8; 64])
    requires
        secret_is_valid(secret@),
    ensures
        sr25519_verifies(
            sr25519_public_key(secret@),
            transcript_messages(transcript),
            signature@,
        ),
{
    let keypair = schnorrkel::SecretKey::from_bytes(&secret[..]).unwrap().to_keypair();
    keypair.sign(transcript).to_bytes()
}

/// Runs the VRF on a transcript and returns the 64 bytes of the short proof.
///
/// Trusted: calls `schnorrkel::Keypair::vrf_sign`, which mixes randomness of
/// the operating system into the proof, and keeps the second of its three
/// results. Of its bytes the contract claims only what holds of every
/// outcome: `vrf_sign` makes the proof with `dleq_proove` for the pair that
/// `vrf_create_hash` gives, and `dleq_verify` accepts such a proof for that
/// pair under the public key of the same secret key. The call panics only
/// where the operating system gives no randomness, whatever the arguments.
#[verifier::external_body]
pub(crate) fn vrf_sign(secret: &[u8; 64], transcript: merlin::Transcript) -> (proof: [u8; 64])
    requires
        secret_is_valid(secret@),
    ensures
        sr25519_vrf_proves(
            sr25519_public_key(secret@),
            transcript_messages(transcript),
            sr25519_vrf_pre_output(secret@, transcript_messages(transcript)),
            proof@,
        ),
{
    let keypair = schnorrkel::SecretKey::from_bytes(&secret[..]).unwrap().to_keypair();
    let (_in_out, proof, _) = keypair.vrf_sign(transcript);
    proof.to_bytes()
}

} // verus!
