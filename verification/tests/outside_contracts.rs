// What the library takes for granted of the crates it calls, held against
// those crates.

use keystore::sr25519::is_valid_secret;
use rand::{Rng, SeedableRng};

// The order of the group, least significant byte first.
const GROUP_ORDER: [u8; 32] = [
    0xed, 0xd3, 0xf5, 0x5c, 0x1a, 0x63, 0x12, 0x58, 0xd6, 0x9c, 0xf7, 0xa2, 0xde, 0xf9, 0xde, 0x14,
    0x00, 0x00, 0x00, 0x00, 0x00, 0x00, 0x00, 0x00, 0x00, 0x00, 0x00, 0x00, 0x00, 0x00, 0x00, 0x10,
];

fn secret_with_scalar(scalar: [u8; 32]) -> [u8; 64] {
    let mut secret = [0x77u8; 64];
    secret[..32].copy_from_slice(&scalar);
    secret
}

#[test]
fn a_scalar_below_the_group_order_is_a_valid_secret() {
    assert!(is_valid_secret(&secret_with_scalar([0; 32])));
    let mut below = GROUP_ORDER;
    below[0] -= 1;
    assert!(is_valid_secret(&secret_with_scalar(below)));
    let mut small = [0xff; 32];
    small[31] = 0x0f;
    assert!(is_valid_secret(&secret_with_scalar(small)));
}

#[test]
fn a_scalar_from_the_group_order_up_is_no_valid_secret() {
    assert!(!is_valid_secret(&secret_with_scalar(GROUP_ORDER)));
    let mut above = GROUP_ORDER;
    above[0] += 1;
    assert!(!is_valid_secret(&secret_with_scalar(above)));
    let mut high_byte = [0; 32];
    high_byte[31] = 0x11;
    assert!(!is_valid_secret(&secret_with_scalar(high_byte)));
    let mut high_bit = [0; 32];
    high_bit[31] = 0x80;
    assert!(!is_valid_secret(&secret_with_scalar(high_bit)));
    assert!(!is_valid_secret(&secret_with_scalar([0xff; 32])));
}

#[test]
fn the_nonce_half_of_a_secret_is_free() {
    let mut secret = secret_with_scalar([1; 32]);
    secret[31] = 0;
    for fill in [0x00, 0x80, 0xff] {
        for b in secret[32..].iter_mut() {
            *b = fill;
        }
        assert!(is_valid_secret(&secret));
    }
}

fn schnorrkel_takes(secret: &[u8; 64]) -> bool {
    schnorrkel::SecretKey::from_bytes(secret).is_ok()
}

#[test]
fn valid_secrets_are_those_that_schnorrkel_takes() {
    // Around the group order, byte by byte.
    for position in 0..32 {
        for delta in [-1i16, 0, 1] {
            let byte = GROUP_ORDER[position] as i16 + delta;
            if !(0..=255).contains(&byte) {
                continue;
            }
            let mut scalar = GROUP_ORDER;
            scalar[position] = byte as u8;
            let secret = secret_with_scalar(scalar);
            assert_eq!(is_valid_secret(&secret), schnorrkel_takes(&secret));
        }
    }
    // And anywhere else.
    let mut rng = rand_chacha::ChaCha20Rng::from_seed([0x44; 32]);
    for round in 0..2000 {
        let mut secret = [0u8; 64];
        rand::RngCore::fill_bytes(&mut rng, &mut secret);
        if round % 2 == 0 {
            secret[31] &= 0x1f;
        }
        if round % 4 == 0 {
            secret[16..31].copy_from_slice(&[0; 15]);
            secret[31] = 0x10;
        }
        assert_eq!(is_valid_secret(&secret), schnorrkel_takes(&secret));
    }
}

fn rng_at(word_pos: u128) -> rand_chacha::ChaCha20Rng {
    let mut rng = rand_chacha::ChaCha20Rng::from_seed([0x33; 32]);
    rng.set_word_pos(word_pos);
    rng
}

const STREAM_WORDS: u128 = 1 << 68;

// The position `words` further on a stream that starts again at its end.
fn advanced(word_pos: u128, words: u128) -> u128 {
    (word_pos % STREAM_WORDS + words) % STREAM_WORDS
}

#[test]
fn a_hasher_key_takes_sixteen_words() {
    for start in [0u128, 1, 15, 16, 47, 48, 49, 63, 64, 1000, STREAM_WORDS - 16, STREAM_WORDS - 3, STREAM_WORDS + 5, u128::MAX] {
        let mut rng = rng_at(start);
        let _key: [u8; 16] = rng.sample(rand::distributions::Standard);
        assert_eq!(rng.get_word_pos(), advanced(start, 16));
    }
}

#[test]
fn an_ed25519_key_takes_eight_words() {
    for start in [0u128, 16, 55, 56, 57, 63, 64, 12345, STREAM_WORDS - 8, STREAM_WORDS - 1, STREAM_WORDS + 5, u128::MAX] {
        let mut rng = rng_at(start);
        let _key = ed25519_zebra::SigningKey::new(&mut rng);
        assert_eq!(rng.get_word_pos(), advanced(start, 8));
    }
}

#[test]
fn an_sr25519_key_takes_twenty_four_words() {
    for start in [0u128, 16, 24, 39, 40, 41, 63, 64, 99999, STREAM_WORDS - 24, STREAM_WORDS - 5, STREAM_WORDS + 5, u128::MAX] {
        let mut rng = rng_at(start);
        let _key = schnorrkel::Keypair::generate_with(&mut rng);
        assert_eq!(rng.get_word_pos(), advanced(start, 24));
    }
}

#[test]
fn a_generator_set_to_a_position_goes_on_as_one_that_read_up_to_it() {
    let mut read = rand_chacha::ChaCha20Rng::from_seed([0x33; 32]);
    for words in [0usize, 1, 16, 24, 63, 64, 65, 200] {
        let mut discarded = vec![0u8; 4 * words];
        let mut read_on = read.clone();
        rand::RngCore::fill_bytes(&mut read_on, &mut discarded);
        let mut set = rng_at(words as u128);
        assert_eq!(read_on.get_word_pos(), words as u128);
        let mut from_read = [0u8; 96];
        let mut from_set = [0u8; 96];
        rand::RngCore::fill_bytes(&mut read_on, &mut from_read);
        rand::RngCore::fill_bytes(&mut set, &mut from_set);
        assert_eq!(from_read, from_set);
        read = rand_chacha::ChaCha20Rng::from_seed([0x33; 32]);
    }
}

#[test]
fn a_generated_sr25519_secret_is_valid() {
    let mut rng = rng_at(0);
    for _ in 0..50 {
        let keypair = schnorrkel::Keypair::generate_with(&mut rng);
        assert!(is_valid_secret(&keypair.secret.to_bytes()));
    }
}
