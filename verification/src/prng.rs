//! The keystore's pseudorandom generator: a ChaCha20 stream, known by its
//! seed and by how far it has been read.
//!
//! `rand_chacha` gives a `ChaCha20Rng` exactly this abstract state (a seed, a
//! stream number that stays zero here, and a position counted in 32-bit
//! words), and builds a generator back from it. The state is held in that
//! form, so that what a draw returns is a function of plain values.

use vstd::prelude::*;
use rand::{Rng, SeedableRng};
use crate::sr25519::secret_is_valid;

verus! {

/// The number of positions of a ChaCha20 stream, in words: a block counter of
/// 64 bits, and 16 words in a block. Past its end the stream starts again.
pub open spec fn stream_words() -> nat {
    16 * 0x1_0000_0000_0000_0000
}

/// The position of a stream that stood at `word_pos`, once `words` more
/// words have been read.
pub open spec fn advanced(word_pos: nat, words: nat) -> nat {
    (word_pos + words) % stream_words()
}

/// The 16 bytes that `rand::Rng::sample` of the `Standard` distribution
/// returns for a byte array, on the stream of `seed` read from `word_pos`.
pub uninterp spec fn sampled_hasher_key(seed: Seq<u8>, word_pos: nat) -> Seq<u8>;

/// The secret seed of the key that `ed25519_zebra::SigningKey::new` returns on
/// the stream of `seed` read from `word_pos`.
pub uninterp spec fn generated_ed25519_key(seed: Seq<u8>, word_pos: nat) -> Seq<u8>;

/// The secret key, as its 64 bytes, of the key pair that
/// `schnorrkel::Keypair::generate_with` returns on the stream of `seed` read
/// from `word_pos`.
pub uninterp spec fn generated_sr25519_key(seed: Seq<u8>, word_pos: nat) -> Seq<u8>;

/// Trusted: builds the `ChaCha20Rng` of `seed` at `word_pos`, samples a byte
/// array of 16 from it, and reads the position back. Each byte of the sample
/// takes one word of the stream.
#[verifier::external_body]
fn draw_hasher_key(seed: &[u8; 32], word_pos: u128) -> (drawn: ([u8; 16], u128))
    ensures
        drawn.0@ == sampled_hasher_key(seed@, word_pos as nat),
        drawn.1 == advanced(word_pos as nat, 16),
{
    let mut rng = rand_chacha::ChaCha20Rng::from_seed(*seed);
    rng.set_word_pos(word_pos);
    let key: [u8; 16] = rng.sample(rand::distributions::Standard);
    (key, rng.get_word_pos())
}

/// Trusted: builds the `ChaCha20Rng` of `seed` at `word_pos`, has
/// `ed25519_zebra::SigningKey::new` draw a key from it (32 bytes, which are 8
/// words), and reads the position back.
#[verifier::external_body]
fn draw_ed25519_key(seed: &[u8; 32], word_pos: u128) -> (drawn: ([u8; 32], u128))
    ensures
        drawn.0@ == generated_ed25519_key(seed@, word_pos as nat),
        drawn.1 == advanced(word_pos as nat, 8),
{
    let mut rng = rand_chacha::ChaCha20Rng::from_seed(*seed);
    rng.set_word_pos(word_pos);
    let key = ed25519_zebra::SigningKey::new(&mut rng);
    (key.into(), rng.get_word_pos())
}

/// Trusted: builds the `ChaCha20Rng` of `seed` at `word_pos`, has
/// `schnorrkel::Keypair::generate_with` draw a key pair from it (64 bytes for
/// the scalar and 32 for the nonce seed, which are 24 words), and reads the
/// position back. The secret key comes out in canonical form, so it is valid.
#[verifier::external_body]
fn draw_sr25519_key(seed: &[u8; 32], word_pos: u128) -> (drawn: ([u8; 64], u128))
    ensures
        drawn.0@ == generated_sr25519_key(seed@, word_pos as nat),
        secret_is_valid(drawn.0@),
        drawn.1 == advanced(word_pos as nat, 24),
{
    let mut rng = rand_chacha::ChaCha20Rng::from_seed(*seed);
    rng.set_word_pos(word_pos);
    let keypair = schnorrkel::Keypair::generate_with(&mut rng);
    (keypair.secret.to_bytes(), rng.get_word_pos())
}

/// The abstract state of the generator.
pub struct PrngModel {
    /// The 32 bytes the stream was seeded with.
    pub seed: Seq<u8>,
    /// How many words of the stream have been read.
    pub word_pos: nat,
}

impl PrngModel {
    /// The state after `words` more words have been read.
    pub open spec fn skip(self, words: nat) -> PrngModel {
        PrngModel { seed: self.seed, word_pos: advanced(self.word_pos, words) }
    }
}

/// A ChaCha20 generator, seeded once and only ever read forward.
pub struct Prng {
    seed: [u8; 32],
    word_pos: u128,
}

impl View for Prng {
    type V = PrngModel;

    closed spec fn view(&self) -> PrngModel {
        PrngModel { seed: self.seed@, word_pos: self.word_pos as nat }
    }
}

impl Prng {
    /// A generator at the start of the stream of `seed`.
    pub(crate) fn from_seed(seed: [u8; 32]) -> (prng: Prng)
        ensures
            prng@ == (PrngModel { seed: seed@, word_pos: 0 }),
    {
        Prng { seed, word_pos: 0 }
    }

    /// Draws the 16-byte key of a keyed hasher.
    pub(crate) fn next_hasher_key(&mut self) -> (key: [u8; 16])
        ensures
            key@ == sampled_hasher_key(old(self)@.seed, old(self)@.word_pos),
            final(self)@ == old(self)@.skip(16),
    {
        let (key, word_pos) = draw_hasher_key(&self.seed, self.word_pos);
        self.word_pos = word_pos;
        key
    }

    /// Draws the secret seed of a fresh Ed25519 key.
    pub(crate) fn next_ed25519_key(&mut self) -> (key: [u8; 32])
        ensures
            key@ == generated_ed25519_key(old(self)@.seed, old(self)@.word_pos),
            final(self)@ == old(self)@.skip(8),
    {
        let (key, word_pos) = draw_ed25519_key(&self.seed, self.word_pos);
        self.word_pos = word_pos;
        key
    }

    /// Draws the secret key of a fresh Sr25519 key pair.
    pub(crate) fn next_sr25519_key(&mut self) -> (key: [u8; 64])
        ensures
            key@ == generated_sr25519_key(old(self)@.seed, old(self)@.word_pos),
            secret_is_valid(key@),
            final(self)@ == old(self)@.skip(24),
    {
        let (key, word_pos) = draw_sr25519_key(&self.seed, self.word_pos);
        self.word_pos = word_pos;
        key
    }
}

} // verus!
