use keystore::{KeyNamespace, Keystore, SignError, SignVrfError, TranscriptItem, TranscriptValue};

fn known_secret() -> [u8; 64] {
    let mut secret = [0u8; 64];
    for (i, b) in secret.iter_mut().enumerate() {
        *b = (3 * i) as u8;
    }
    // Keep the scalar below the order of the group.
    secret[31] = 0x0f;
    secret
}

// Whether `proof` proves the VRF output of the known secret key on
// `transcript`. The output itself is a function of key and transcript, so it
// is computed here.
fn proves(transcript: merlin::Transcript, proof: &[u8; 64]) -> bool {
    let keypair = schnorrkel::SecretKey::from_bytes(&known_secret())
        .unwrap()
        .to_keypair();
    let pre_output = keypair.vrf_create_hash(transcript.clone()).to_preout();
    match schnorrkel::vrf::VRFProof::from_bytes(proof) {
        Ok(proof) => keypair
            .public
            .vrf_verify(transcript, &pre_output, &proof)
            .is_ok(),
        Err(_) => false,
    }
}

// Whether the public key of `secret` accepts `proof`, in the check that a VRF
// verification makes of a proof, for the point that the key hashes
// `transcript` to and the point that the pre-output of `secret` on
// `transcript` encodes.
fn accepts(secret: &[u8; 64], transcript: merlin::Transcript, proof: &[u8; 64]) -> bool {
    let keypair = schnorrkel::SecretKey::from_bytes(secret).unwrap().to_keypair();
    let pre_output = keypair.vrf_create_hash(transcript.clone()).to_preout();
    let public = schnorrkel::PublicKey::from_bytes(&keypair.public.to_bytes()).unwrap();
    let pair = schnorrkel::vrf::VRFInOut {
        input: public.vrf_hash(transcript),
        output: schnorrkel::points::RistrettoBoth::from_bytes(&pre_output.to_bytes()).unwrap(),
    };
    match schnorrkel::vrf::VRFProof::from_bytes(proof) {
        Ok(proof) => public
            .dleq_verify(
                merlin::Transcript::new(b"VRF"),
                &pair,
                &proof,
                schnorrkel::vrf::KUSAMA_VRF,
            )
            .is_ok(),
        Err(_) => false,
    }
}

fn babe_items<'a>(randomness: &'a [u8]) -> Vec<TranscriptItem<'a>> {
    vec![
        (&b"slot number"[..], TranscriptValue::U64(1234)),
        (&b"current epoch"[..], TranscriptValue::U64(7)),
        (&b"chain randomness"[..], TranscriptValue::Bytes(randomness)),
    ]
}

fn babe_transcript(randomness: &[u8]) -> merlin::Transcript {
    let mut transcript = merlin::Transcript::new(b"BABE");
    transcript.append_u64(b"slot number", 1234);
    transcript.append_u64(b"current epoch", 7);
    transcript.append_message(b"chain randomness", randomness);
    transcript
}

#[test]
fn vrf_with_a_generated_ed25519_key_is_the_wrong_algorithm() {
    let mut keystore = Keystore::new([1; 32]);
    for namespace in KeyNamespace::all() {
        let public_key = keystore.generate_ed25519(namespace);
        let result = keystore.sign_sr25519_vrf(namespace, &public_key, b"BABE", &babe_items(&[9; 32]));
        assert!(matches!(result, Err(SignVrfError::WrongKeyAlgorithm)));
        let result = keystore.sign_sr25519_vrf(namespace, &public_key, b"", &[]);
        assert!(matches!(result, Err(SignVrfError::WrongKeyAlgorithm)));
    }
}

#[test]
fn vrf_with_a_key_never_inserted_is_unknown() {
    let mut keystore = Keystore::new([2; 32]);
    let result = keystore.sign_sr25519_vrf(KeyNamespace::Babe, &[0; 32], b"BABE", &[]);
    assert!(matches!(
        result,
        Err(SignVrfError::Sign(SignError::UnknownPublicKey))
    ));
    let public_key = keystore.generate_sr25519(KeyNamespace::Babe);
    let result = keystore.sign_sr25519_vrf(KeyNamespace::Aura, &public_key, b"BABE", &[]);
    assert!(matches!(
        result,
        Err(SignVrfError::Sign(SignError::UnknownPublicKey))
    ));
    let ed = keystore.generate_ed25519(KeyNamespace::Babe);
    let result = keystore.sign_sr25519_vrf(KeyNamespace::Aura, &ed, b"BABE", &[]);
    assert!(matches!(
        result,
        Err(SignVrfError::Sign(SignError::UnknownPublicKey))
    ));
}

#[test]
fn vrf_with_a_generated_sr25519_key_gives_a_proof() {
    let mut keystore = Keystore::new([3; 32]);
    let public_key = keystore.generate_sr25519(KeyNamespace::Babe);
    let signature = keystore
        .sign_sr25519_vrf(KeyNamespace::Babe, &public_key, b"BABE", &babe_items(&[9; 32]))
        .ok()
        .unwrap();
    assert!(schnorrkel::vrf::VRFProof::from_bytes(&signature.proof).is_ok());
}

#[test]
fn vrf_proof_is_over_the_items_in_their_order() {
    let randomness = [0x5a; 32];
    let mut keystore = Keystore::new([4; 32]);
    let public_key = keystore.insert_sr25519_memory(&[KeyNamespace::Babe], &known_secret());
    let signature = keystore
        .sign_sr25519_vrf(KeyNamespace::Babe, &public_key, b"BABE", &babe_items(&randomness))
        .ok()
        .unwrap();
    assert!(proves(babe_transcript(&randomness), &signature.proof));

    // Neither another order, nor another label, nor another value.
    let mut swapped = merlin::Transcript::new(b"BABE");
    swapped.append_u64(b"current epoch", 7);
    swapped.append_u64(b"slot number", 1234);
    swapped.append_message(b"chain randomness", &randomness);
    assert!(!proves(swapped, &signature.proof));

    let mut relabelled = merlin::Transcript::new(b"BABF");
    relabelled.append_u64(b"slot number", 1234);
    relabelled.append_u64(b"current epoch", 7);
    relabelled.append_message(b"chain randomness", &randomness);
    assert!(!proves(relabelled, &signature.proof));

    assert!(!proves(babe_transcript(&[0x5b; 32]), &signature.proof));
}

#[test]
fn vrf_over_no_item_is_over_the_label_alone() {
    let mut keystore = Keystore::new([4; 32]);
    let public_key = keystore.insert_sr25519_memory(&[KeyNamespace::Aura], &known_secret());
    let signature = keystore
        .sign_sr25519_vrf(KeyNamespace::Aura, &public_key, b"label", &[])
        .ok()
        .unwrap();
    assert!(proves(merlin::Transcript::new(b"label"), &signature.proof));
    assert!(!proves(merlin::Transcript::new(b"labem"), &signature.proof));
}

#[test]
fn vrf_takes_an_integer_as_its_eight_bytes() {
    let mut keystore = Keystore::new([4; 32]);
    let public_key = keystore.insert_sr25519_memory(&[KeyNamespace::Aura], &known_secret());
    let items = [(&b"n"[..], TranscriptValue::U64(0x0102_0304_0506_0708))];
    let signature = keystore
        .sign_sr25519_vrf(KeyNamespace::Aura, &public_key, b"label", &items)
        .ok()
        .unwrap();
    let mut transcript = merlin::Transcript::new(b"label");
    transcript.append_message(b"n", &[8, 7, 6, 5, 4, 3, 2, 1]);
    assert!(proves(transcript, &signature.proof));
}

#[test]
fn vrf_proofs_use_fresh_randomness() {
    let mut keystore = Keystore::new([4; 32]);
    let public_key = keystore.insert_sr25519_memory(&[KeyNamespace::Aura], &known_secret());
    let first = keystore
        .sign_sr25519_vrf(KeyNamespace::Aura, &public_key, b"label", &[])
        .ok()
        .unwrap();
    let second = keystore
        .sign_sr25519_vrf(KeyNamespace::Aura, &public_key, b"label", &[])
        .ok()
        .unwrap();
    assert_ne!(first.proof, second.proof);
}

// The scalar zero is a valid secret key whose VRF output is the neutral
// point. A full verification refuses that output before it looks at the
// proof; the proof itself is accepted like any other.
#[test]
fn vrf_with_the_zero_scalar_gives_a_proof_that_is_accepted() {
    let secret = [0u8; 64];
    let mut keystore = Keystore::new([4; 32]);
    let public_key = keystore.insert_sr25519_memory(&[KeyNamespace::Aura], &secret);
    let signature = keystore
        .sign_sr25519_vrf(KeyNamespace::Aura, &public_key, b"label", &[])
        .ok()
        .unwrap();
    assert!(accepts(&secret, merlin::Transcript::new(b"label"), &signature.proof));
    assert!(!accepts(&secret, merlin::Transcript::new(b"labem"), &signature.proof));

    let keypair = schnorrkel::SecretKey::from_bytes(&secret).unwrap().to_keypair();
    let transcript = merlin::Transcript::new(b"label");
    let pre_output = keypair.vrf_create_hash(transcript.clone()).to_preout();
    assert_eq!(pre_output.to_bytes(), [0u8; 32]);
    let proof = schnorrkel::vrf::VRFProof::from_bytes(&signature.proof).unwrap();
    assert!(keypair.public.vrf_verify(transcript, &pre_output, &proof).is_err());
}

#[test]
fn vrf_proofs_are_accepted_for_the_pre_output_of_the_key() {
    let mut largest = [0x11u8; 64];
    // The order of the group less one, least significant byte first.
    largest[..32].copy_from_slice(&[
        0xec, 0xd3, 0xf5, 0x5c, 0x1a, 0x63, 0x12, 0x58, 0xd6, 0x9c, 0xf7, 0xa2, 0xde, 0xf9, 0xde,
        0x14, 0x00, 0x00, 0x00, 0x00, 0x00, 0x00, 0x00, 0x00, 0x00, 0x00, 0x00, 0x00, 0x00, 0x00,
        0x00, 0x10,
    ]);
    let randomness = [0xc3u8; 32];
    for secret in [known_secret(), largest, [0u8; 64]] {
        let mut keystore = Keystore::new([6; 32]);
        let public_key = keystore.insert_sr25519_memory(&[KeyNamespace::Babe], &secret);
        for _ in 0..3 {
            let signature = keystore
                .sign_sr25519_vrf(KeyNamespace::Babe, &public_key, b"BABE", &babe_items(&randomness))
                .ok()
                .unwrap();
            assert!(accepts(&secret, babe_transcript(&randomness), &signature.proof));
            assert!(!accepts(&secret, babe_transcript(&[0xc4; 32]), &signature.proof));
            assert_ne!(signature.proof, secret);
        }
    }
}

#[test]
fn vrf_proof_of_one_key_is_not_accepted_for_another() {
    let mut other = known_secret();
    other[0] ^= 1;
    let mut keystore = Keystore::new([6; 32]);
    let public_key = keystore.insert_sr25519_memory(&[KeyNamespace::Babe], &known_secret());
    let signature = keystore
        .sign_sr25519_vrf(KeyNamespace::Babe, &public_key, b"BABE", &babe_items(&[1; 32]))
        .ok()
        .unwrap();
    assert!(accepts(&known_secret(), babe_transcript(&[1; 32]), &signature.proof));
    assert!(!accepts(&other, babe_transcript(&[1; 32]), &signature.proof));
}
