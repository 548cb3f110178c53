use keystore::sr25519::signing_transcript;
use keystore::transcript::{vrf_input_is_within_limits, vrf_transcript};
use keystore::{TranscriptItem, TranscriptValue};

// Two transcripts that have absorbed the same messages answer a challenge
// with the same bytes.
fn challenge(mut transcript: merlin::Transcript) -> [u8; 32] {
    let mut bytes = [0u8; 32];
    transcript.challenge_bytes(b"challenge", &mut bytes);
    bytes
}

#[test]
fn vrf_transcript_starts_from_its_label() {
    assert_eq!(
        challenge(vrf_transcript(b"label", &[])),
        challenge(merlin::Transcript::new(b"label"))
    );
    assert_ne!(
        challenge(vrf_transcript(b"label", &[])),
        challenge(merlin::Transcript::new(b"other"))
    );
}

#[test]
fn vrf_transcript_absorbs_each_item_in_its_form() {
    let items: [TranscriptItem; 3] = [
        (b"first", TranscriptValue::Bytes(b"one")),
        (b"second", TranscriptValue::U64(2)),
        (b"third", TranscriptValue::Bytes(b"")),
    ];
    let mut expected = merlin::Transcript::new(b"label");
    expected.append_message(b"first", b"one");
    expected.append_u64(b"second", 2);
    expected.append_message(b"third", b"");
    assert_eq!(challenge(vrf_transcript(b"label", &items)), challenge(expected));
}

#[test]
fn vrf_transcript_keeps_the_order_of_the_items() {
    let forward: [TranscriptItem; 2] = [
        (b"a", TranscriptValue::U64(1)),
        (b"b", TranscriptValue::U64(2)),
    ];
    let backward: [TranscriptItem; 2] = [forward[1], forward[0]];
    assert_ne!(
        challenge(vrf_transcript(b"label", &forward)),
        challenge(vrf_transcript(b"label", &backward))
    );
    let mut expected = merlin::Transcript::new(b"label");
    expected.append_u64(b"b", 2);
    expected.append_u64(b"a", 1);
    assert_eq!(challenge(vrf_transcript(b"label", &backward)), challenge(expected));
}

#[test]
fn an_integer_is_absorbed_least_significant_byte_first() {
    let as_integer: [TranscriptItem; 1] = [(b"n", TranscriptValue::U64(0x0807_0605_0403_0201))];
    let as_bytes: [TranscriptItem; 1] = [(b"n", TranscriptValue::Bytes(&[1, 2, 3, 4, 5, 6, 7, 8]))];
    assert_eq!(
        challenge(vrf_transcript(b"label", &as_integer)),
        challenge(vrf_transcript(b"label", &as_bytes))
    );
}

#[test]
fn signing_transcript_is_the_payload_in_the_substrate_context() {
    assert_eq!(
        challenge(signing_transcript(b"payload")),
        challenge(schnorrkel::signing_context(b"substrate").bytes(b"payload"))
    );
    let mut by_hand = merlin::Transcript::new(b"SigningContext");
    by_hand.append_message(b"", b"substrate");
    by_hand.append_message(b"sign-bytes", b"payload");
    assert_eq!(challenge(signing_transcript(b"payload")), challenge(by_hand));
    assert_ne!(
        challenge(signing_transcript(b"payload")),
        challenge(schnorrkel::signing_context(b"").bytes(b"payload"))
    );
}

#[test]
fn ordinary_transcript_input_is_within_limits() {
    let items: [TranscriptItem; 2] = [
        (b"a", TranscriptValue::Bytes(&[0; 100])),
        (b"b", TranscriptValue::U64(u64::MAX)),
    ];
    assert!(vrf_input_is_within_limits(b"label", &items));
    assert!(vrf_input_is_within_limits(b"", &[]));
}
