//! Transcripts: the ordered, labelled messages that a signature or a VRF
//! proof is bound to.
//!
//! A `merlin::Transcript` absorbs labelled messages one after the other. Both
//! the labels and the order are part of what is signed, so the functions here
//! state exactly which messages a transcript has absorbed.

use vstd::prelude::*;
use vstd::bytes::spec_u64_to_le_bytes;

verus! {

/// `merlin::Transcript`, known only by the messages it has absorbed.
#[verifier::external_type_specification]
#[verifier::external_body]
pub struct ExTranscript(merlin::Transcript);

/// One message of a transcript: its label, then its bytes.
pub type Message = (Seq<u8>, Seq<u8>);

/// The messages that a transcript has absorbed since it was made, oldest
/// first.
///
/// A transcript keeps a hash state, not the messages. The state is a
/// function of them, and stands for them as far as a hash can: two histories
/// are told apart unless the hash collides.
pub uninterp spec fn transcript_messages(transcript: merlin::Transcript) -> Seq<Message>;

/// The label `dom-sep`, under which a new transcript absorbs its own label.
pub open spec fn dom_sep_label() -> Seq<u8> {
    seq![0x64u8, 0x6fu8, 0x6du8, 0x2du8, 0x73u8, 0x65u8, 0x70u8]
}

/// `merlin::Transcript::new` starts a transcript by absorbing `label` as a
/// message labelled `dom-sep`. It panics on a message of more than
/// `u32::MAX` bytes.
pub assume_specification[ merlin::Transcript::new ](label: &'static [u8]) -> (transcript:
    merlin::Transcript)
    requires
        label@.len() <= u32::MAX,
    ensures
        transcript_messages(transcript) == seq![(dom_sep_label(), label@)],
;

/// `merlin::Transcript::append_message` absorbs one more message, after those
/// already there. It panics on a message of more than `u32::MAX` bytes.
pub assume_specification[ merlin::Transcript::append_message ](
    transcript: &mut merlin::Transcript,
    label: &'static [u8],
    message: &[u8],
)
    requires
        message@.len() <= u32::MAX,
    ensures
        transcript_messages(*final(transcript)) == transcript_messages(*old(transcript)).push(
            (label@, message@),
        ),
;

/// `merlin::Transcript::append_u64` absorbs `x` as a message of its eight
/// bytes, least significant first.
pub assume_specification[ merlin::Transcript::append_u64 ](
    transcript: &mut merlin::Transcript,
    label: &'static [u8],
    x: u64,
)
    ensures
        transcript_messages(*final(transcript)) == transcript_messages(*old(transcript)).push(
            (label@, spec_u64_to_le_bytes(x)),
        ),
;

/// The value of one transcript item: a byte string, or a 64-bit integer.
#[derive(Debug, Clone, Copy)]
pub enum TranscriptValue<'a> {
    Bytes(&'a [u8]),
    U64(u64),
}

/// One transcript item: the label of its field, then its value.
pub type TranscriptItem<'a> = (&'static [u8], TranscriptValue<'a>);

impl<'a> TranscriptValue<'a> {
    /// The bytes that the value is absorbed as: a byte string as it is, an
    /// integer as its eight bytes, least significant first.
    pub open spec fn message(self) -> Seq<u8> {
        match self {
            TranscriptValue::Bytes(bytes) => bytes@,
            TranscriptValue::U64(x) => spec_u64_to_le_bytes(x),
        }
    }

    /// Whether a transcript can absorb the value: a message holds at most
    /// `u32::MAX` bytes.
    pub open spec fn fits(self) -> bool {
        self.message().len() <= u32::MAX
    }
}

/// The messages that `items` are absorbed as, in the order of `items`.
pub open spec fn item_messages<'a>(items: Seq<TranscriptItem<'a>>) -> Seq<Message> {
    items.map_values(|item: TranscriptItem<'a>| (item.0@, item.1.message()))
}

/// The messages of the transcript that a VRF signature is made over: the
/// transcript's own label first, then every item in the caller's order.
pub open spec fn vrf_transcript_messages<'a>(label: Seq<u8>, items: Seq<TranscriptItem<'a>>) -> Seq<
    Message,
> {
    seq![(dom_sep_label(), label)] + item_messages(items)
}

/// Whether a transcript can absorb `label` and every one of `items`.
pub open spec fn vrf_input_fits<'a>(label: Seq<u8>, items: Seq<TranscriptItem<'a>>) -> bool {
    &&& label.len() <= u32::MAX
    &&& forall|i: int| 0 <= i < items.len() ==> (#[trigger] items[i]).1.fits()
}

/// An integer is absorbed as eight bytes, so it always fits.
pub proof fn lemma_u64_fits(x: u64)
    ensures
        spec_u64_to_le_bytes(x).len() == 8,
{
    vstd::bytes::lemma_auto_spec_u64_to_from_le_bytes();
}

/// Tells whether a transcript can absorb `label` and every one of `items`.
pub fn vrf_input_is_within_limits<'a>(label: &'static [u8], items: &[TranscriptItem<'a>]) -> (ok:
    bool)
    ensures
        ok == vrf_input_fits(label@, items@),
{
    if label.len() > u32::MAX as usize {
        return false;
    }
    let mut i: usize = 0;
    while i < items.len()
        invariant
            i <= items.len(),
            forall|j: int| 0 <= j < i ==> (#[trigger] items@[j]).1.fits(),
        decreases items.len() - i,
    {
        match items[i].1 {
            TranscriptValue::Bytes(bytes) => {
                if bytes.len() > u32::MAX as usize {
                    assert(!items@[i as int].1.fits());
                    return false;
                }
            },
            TranscriptValue::U64(x) => {
                proof {
                    lemma_u64_fits(x);
                }
            },
        }
        i += 1;
    }
    true
}

/// Builds the transcript of a VRF signature: a transcript labelled `label`
/// that has absorbed every item, in the order given, each under its own label
/// and in the form of its kind.
pub fn vrf_transcript<'a>(label: &'static [u8], items: &[TranscriptItem<'a>]) -> (transcript:
    merlin::Transcript)
    requires
        vrf_input_fits(label@, items@),
    ensures
        transcript_messages(transcript) == vrf_transcript_messages(label@, items@),
{
    let mut transcript = merlin::Transcript::new(label);
    let mut i: usize = 0;
    while i < items.len()
        invariant
            i <= items.len(),
            vrf_input_fits(label@, items@),
            transcript_messages(transcript) == vrf_transcript_messages(
                label@,
                items@.take(i as int),
            ),
        decreases items.len() - i,
    {
        let (item_label, value) = items[i];
        match value {
            TranscriptValue::Bytes(bytes) => {
                transcript.append_message(item_label, bytes);
            },
            TranscriptValue::U64(x) => {
                transcript.append_u64(item_label, x);
            },
        }
        assert(items@.take(i + 1) == items@.take(i as int).push(items@[i as int]));
        i += 1;
    }
    assert(items@.take(i as int) == items@);
    transcript
}

} // verus!
