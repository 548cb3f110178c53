//! What holds of every keystore, proved from the contracts of its operations.

use vstd::prelude::*;
use vstd::arithmetic::div_mod::lemma_small_mod;
use crate::index::{KeyMaterial, Slot};
use crate::keystore::{KeystoreModel, SignError, SignVrfError, VrfSignature};
use crate::namespace::KeyNamespace;
use crate::prng::{advanced, stream_words};
use crate::sr25519::{
    signing_messages, sr25519_verifies, sr25519_vrf_pre_output, sr25519_vrf_proves,
    substrate_context,
};
use crate::transcript::Message;

verus! {

/// Two arrays of public key bytes that hold the same bytes are the same key.
pub proof fn lemma_same_bytes_same_key(a: [u8; 32], b: [u8; 32])
    requires
        a@ == b@,
    ensures
        a == b,
{
    broadcast use vstd::array::group_array_axioms;

    assert(a =~= b);
}

/// Key generation is deterministic in the seed: of two keystores made from
/// the same seed, the first key that each generates, with the same algorithm,
/// is the same, and the two are left in the same state by it.
pub proof fn law_same_seed_same_first_key(
    seed: Seq<u8>,
    a: KeystoreModel,
    b: KeystoreModel,
    namespace: KeyNamespace,
    first_of_a: [u8; 32],
    first_of_b: [u8; 32],
)
    requires
        a == KeystoreModel::initial(seed),
        b == KeystoreModel::initial(seed),
        ({
            ||| {
                &&& first_of_a@ == a.next_ed25519_key().public_key()
                &&& first_of_b@ == b.next_ed25519_key().public_key()
            }
            ||| {
                &&& first_of_a@ == a.next_sr25519_key().public_key()
                &&& first_of_b@ == b.next_sr25519_key().public_key()
            }
        }),
    ensures
        first_of_a == first_of_b,
        a.after_generate_ed25519(namespace) == b.after_generate_ed25519(namespace),
        a.after_generate_sr25519(namespace) == b.after_generate_sr25519(namespace),
{
    lemma_same_bytes_same_key(first_of_a, first_of_b);
}

/// A key put under one namespace is not thereby known under another: a slot
/// of another namespace holds what it held before.
pub proof fn law_key_stays_in_its_namespace(
    before: KeystoreModel,
    namespace: KeyNamespace,
    key: KeyMaterial,
    other: Slot,
)
    requires
        other.0 != namespace,
    ensures
        before.with_key(namespace, key).keys.contains_key(other) == before.keys.contains_key(
            other,
        ),
        before.keys.contains_key(other) ==> before.with_key(namespace, key).keys[other]
            == before.keys[other],
{
}

/// After an Ed25519 key was generated under `namespace`, signing with its
/// public key under any other namespace fails with `UnknownPublicKey`, unless
/// that very slot held a key before.
pub proof fn law_generated_ed25519_is_unknown_elsewhere(
    before: KeystoreModel,
    namespace: KeyNamespace,
    other: KeyNamespace,
    payload: Seq<u8>,
    result: Result<[u8; 64], SignError>,
)
    requires
        namespace != other,
        !before.keys.contains_key((other, before.next_ed25519_key().public_key())),
        before.after_generate_ed25519(namespace).signs(
            (other, before.next_ed25519_key().public_key()),
            payload,
            result,
        ),
    ensures
        result == Err::<[u8; 64], SignError>(SignError::UnknownPublicKey),
{
}

/// After an Sr25519 key was generated under `namespace`, signing with its
/// public key under any other namespace fails with `UnknownPublicKey`, unless
/// that very slot held a key before.
pub proof fn law_generated_sr25519_is_unknown_elsewhere(
    before: KeystoreModel,
    namespace: KeyNamespace,
    other: KeyNamespace,
    payload: Seq<u8>,
    result: Result<[u8; 64], SignError>,
)
    requires
        namespace != other,
        !before.keys.contains_key((other, before.next_sr25519_key().public_key())),
        before.after_generate_sr25519(namespace).signs(
            (other, before.next_sr25519_key().public_key()),
            payload,
            result,
        ),
    ensures
        result == Err::<[u8; 64], SignError>(SignError::UnknownPublicKey),
{
}

/// Signing with an Ed25519 key is deterministic: two signatures of one
/// payload with one key are the same 64 bytes.
pub proof fn law_ed25519_signs_the_same_twice(
    keystore: KeystoreModel,
    slot: Slot,
    payload: Seq<u8>,
    first: Result<[u8; 64], SignError>,
    second: Result<[u8; 64], SignError>,
)
    requires
        keystore.keys.contains_key(slot),
        keystore.keys[slot] is Ed25519,
        keystore.signs(slot, payload, first),
        keystore.signs(slot, payload, second),
    ensures
        first is Ok,
        first == second,
{
    broadcast use vstd::array::group_array_axioms;

    assert(first->Ok_0 =~= second->Ok_0);
}

/// Signing with an Sr25519 key may give another signature each time, but
/// every one of them is verified, over the payload in the context
/// `substrate`, by the public key that the key stands under.
pub proof fn law_sr25519_signatures_verify(
    keystore: KeystoreModel,
    slot: Slot,
    payload: Seq<u8>,
    first: Result<[u8; 64], SignError>,
    second: Result<[u8; 64], SignError>,
)
    requires
        keystore.well_formed(),
        keystore.holds_sr25519(slot),
        keystore.signs(slot, payload, first),
        keystore.signs(slot, payload, second),
    ensures
        first is Ok,
        second is Ok,
        sr25519_verifies(slot.1, signing_messages(substrate_context(), payload), first->Ok_0@),
        sr25519_verifies(slot.1, signing_messages(substrate_context(), payload), second->Ok_0@),
{
}

/// A VRF signature with an Sr25519 key may give another proof each time, but
/// every one of them is accepted, for the VRF pre-output of the key on the
/// transcript, by the public key that the key stands under.
pub proof fn law_sr25519_vrf_proofs_prove(
    keystore: KeystoreModel,
    slot: Slot,
    messages: Seq<Message>,
    result: Result<VrfSignature, SignVrfError>,
)
    requires
        keystore.well_formed(),
        keystore.holds_sr25519(slot),
        keystore.signs_vrf(slot, messages, result),
    ensures
        result is Ok,
        keystore.keys[slot] matches KeyMaterial::Sr25519(secret) && sr25519_vrf_proves(
            slot.1,
            messages,
            sr25519_vrf_pre_output(secret, messages),
            result->Ok_0.proof@,
        ),
{
}

/// A VRF signature with a key that `generate_ed25519` made always fails with
/// `WrongKeyAlgorithm`, whatever the namespace it was generated under and
/// whatever the transcript.
pub proof fn law_vrf_refuses_generated_ed25519(
    before: KeystoreModel,
    namespace: KeyNamespace,
    messages: Seq<Message>,
    result: Result<VrfSignature, SignVrfError>,
)
    requires
        before.after_generate_ed25519(namespace).signs_vrf(
            (namespace, before.next_ed25519_key().public_key()),
            messages,
            result,
        ),
    ensures
        result == Err::<VrfSignature, SignVrfError>(SignVrfError::WrongKeyAlgorithm),
{
}

/// Signing under a namespace and public key that hold no key always fails
/// with `UnknownPublicKey`, for a plain signature and for a VRF signature.
pub proof fn law_unknown_key_signs_nothing(
    keystore: KeystoreModel,
    slot: Slot,
    payload: Seq<u8>,
    messages: Seq<Message>,
    signed: Result<[u8; 64], SignError>,
    vrf_signed: Result<VrfSignature, SignVrfError>,
)
    requires
        !keystore.keys.contains_key(slot),
        keystore.signs(slot, payload, signed),
        keystore.signs_vrf(slot, messages, vrf_signed),
    ensures
        signed == Err::<[u8; 64], SignError>(SignError::UnknownPublicKey),
        vrf_signed == Err::<VrfSignature, SignVrfError>(
            SignVrfError::Sign(SignError::UnknownPublicKey),
        ),
{
}

/// A new keystore holds no key at all.
pub proof fn law_new_keystore_is_empty(seed: Seq<u8>, slot: Slot)
    ensures
        !KeystoreModel::initial(seed).keys.contains_key(slot),
        KeystoreModel::initial(seed).well_formed(),
{
}

/// Inserting a key under some namespaces adds exactly the slots of its public
/// key in those namespaces, each holding that key, and changes no other slot.
pub proof fn law_insert_adds_exactly_its_namespaces(
    before: KeystoreModel,
    namespaces: Seq<KeyNamespace>,
    key: KeyMaterial,
    slot: Slot,
)
    ensures
        ({
            let after = before.with_key_under(namespaces, key);
            let added = namespaces.contains(slot.0) && slot.1 == key.public_key();
            &&& after.keys.contains_key(slot) == (added || before.keys.contains_key(slot))
            &&& added ==> after.keys[slot] == key
            &&& !added && before.keys.contains_key(slot) ==> after.keys[slot] == before.keys[slot]
            &&& after.prng == before.prng
            &&& after.hasher_key == before.hasher_key
        }),
{
}

/// The keystore after one Sr25519 key was generated under each of
/// `namespaces`, in their order.
pub open spec fn after_generations_sr25519(
    before: KeystoreModel,
    namespaces: Seq<KeyNamespace>,
) -> KeystoreModel
    decreases namespaces.len(),
{
    if namespaces.len() == 0 {
        before
    } else {
        after_generations_sr25519(before, namespaces.drop_last()).after_generate_sr25519(
            namespaces.last(),
        )
    }
}

/// The slots that those generations fill, in their order.
pub open spec fn generated_slots_sr25519(
    before: KeystoreModel,
    namespaces: Seq<KeyNamespace>,
) -> Seq<Slot> {
    Seq::new(
        namespaces.len(),
        |i: int|
            (
                namespaces[i],
                after_generations_sr25519(
                    before,
                    namespaces.take(i),
                ).next_sr25519_key().public_key(),
            ),
    )
}

/// Every generation leaves its key in the index: after them the index holds
/// the slots it held and every slot that a generation filled, and no other.
/// So it has grown by as many keys as there were calls, at most.
pub proof fn law_generated_keys_are_all_held(
    before: KeystoreModel,
    namespaces: Seq<KeyNamespace>,
)
    requires
        before.keys.dom().finite(),
    ensures
        after_generations_sr25519(before, namespaces).keys.dom() == before.keys.dom().union(
            generated_slots_sr25519(before, namespaces).to_set(),
        ),
        forall|i: int|
            0 <= i < namespaces.len() ==> after_generations_sr25519(
                before,
                namespaces,
            ).keys.contains_key(#[trigger] generated_slots_sr25519(before, namespaces)[i]),
        after_generations_sr25519(before, namespaces).keys.dom().finite(),
        before.keys.dom().len() <= after_generations_sr25519(before, namespaces).keys.dom().len()
            <= before.keys.dom().len() + namespaces.len(),
    decreases namespaces.len(),
{
    let slots = generated_slots_sr25519(before, namespaces);
    let later = after_generations_sr25519(before, namespaces);
    if namespaces.len() == 0 {
        assert(slots.to_set() =~= Set::<Slot>::empty());
        assert(before.keys.dom().union(slots.to_set()) =~= before.keys.dom());
    } else {
        let front = namespaces.drop_last();
        let front_slots = generated_slots_sr25519(before, front);
        let last = namespaces.len() - 1;
        lemma_front_slots(before, namespaces);
        law_generated_keys_are_all_held(before, front);
        let earlier = after_generations_sr25519(before, front);
        assert(later.keys.dom() == earlier.keys.dom().insert(slots[last]));
        front_slots.lemma_push_to_set_commute(slots[last]);
        assert(later.keys.dom() == before.keys.dom().union(slots.to_set()));
    }
    assert forall|i: int| 0 <= i < namespaces.len() implies later.keys.contains_key(
        #[trigger] slots[i],
    ) by {
        assert(slots.to_set().contains(slots[i]));
    }
}

/// The slots of all generations but the last are those of the generations
/// without the last, and the last slot is the one that the last generation
/// fills.
proof fn lemma_front_slots(before: KeystoreModel, namespaces: Seq<KeyNamespace>)
    requires
        namespaces.len() > 0,
    ensures
        generated_slots_sr25519(before, namespaces.drop_last()) == generated_slots_sr25519(
            before,
            namespaces,
        ).drop_last(),
        generated_slots_sr25519(before, namespaces) == generated_slots_sr25519(
            before,
            namespaces.drop_last(),
        ).push(generated_slots_sr25519(before, namespaces).last()),
        generated_slots_sr25519(before, namespaces).last() == (
            namespaces.last(),
            after_generations_sr25519(
                before,
                namespaces.drop_last(),
            ).next_sr25519_key().public_key(),
        ),
{
    let slots = generated_slots_sr25519(before, namespaces);
    let front = namespaces.drop_last();
    let front_slots = generated_slots_sr25519(before, front);
    assert forall|i: int| 0 <= i < front.len() implies #[trigger] front_slots[i] == slots[i] by {
        assert(front.take(i) == namespaces.take(i));
    }
    assert(front_slots == slots.drop_last());
    assert(namespaces.take(namespaces.len() - 1) == front);
    assert(slots == front_slots.push(slots.last()));
}

/// Generations that fill slots all different from each other, and from those
/// already filled, add one key each: the index then holds the keys it held
/// and one more for every call.
pub proof fn law_distinct_generations_all_count(
    before: KeystoreModel,
    namespaces: Seq<KeyNamespace>,
)
    requires
        before.keys.dom().finite(),
        generated_slots_sr25519(before, namespaces).no_duplicates(),
        forall|i: int|
            0 <= i < namespaces.len() ==> !before.keys.contains_key(
                #[trigger] generated_slots_sr25519(before, namespaces)[i],
            ),
    ensures
        after_generations_sr25519(before, namespaces).keys.dom().len() == before.keys.dom().len()
            + namespaces.len(),
    decreases namespaces.len(),
{
    let slots = generated_slots_sr25519(before, namespaces);
    if namespaces.len() > 0 {
        let front = namespaces.drop_last();
        let front_slots = generated_slots_sr25519(before, front);
        let last = namespaces.len() - 1;
        lemma_front_slots(before, namespaces);
        assert forall|i: int| 0 <= i < front.len() implies !before.keys.contains_key(
            #[trigger] front_slots[i],
        ) by {
            assert(front_slots[i] == slots[i]);
        }
        law_distinct_generations_all_count(before, front);
        law_generated_keys_are_all_held(before, front);
        let earlier = after_generations_sr25519(before, front);
        assert(!earlier.keys.contains_key(slots[last])) by {
            if front_slots.to_set().contains(slots[last]) {
                let j = choose|j: int| 0 <= j < front_slots.len() && front_slots[j] == slots[last];
                assert(slots[j] == slots[last]);
            }
        }
        let later = after_generations_sr25519(before, namespaces);
        assert(later.keys.dom() == earlier.keys.dom().insert(slots[last]));
    }
}

/// The generator is never set back: every operation leaves its seed as it
/// was, and a key generation moves its position forward by the words that the
/// key took, as long as the stream has not been read to its end.
pub proof fn law_generator_only_advances(
    before: KeystoreModel,
    namespace: KeyNamespace,
    namespaces: Seq<KeyNamespace>,
    key: KeyMaterial,
)
    ensures
        before.after_generate_ed25519(namespace).prng.seed == before.prng.seed,
        before.after_generate_sr25519(namespace).prng.seed == before.prng.seed,
        before.with_key_under(namespaces, key).prng == before.prng,
        before.prng.word_pos + 8 < stream_words() ==> before.after_generate_ed25519(
            namespace,
        ).prng.word_pos == before.prng.word_pos + 8,
        before.prng.word_pos + 24 < stream_words() ==> before.after_generate_sr25519(
            namespace,
        ).prng.word_pos == before.prng.word_pos + 24,
{
    let position = before.prng.word_pos;
    assert(before.after_generate_ed25519(namespace).prng.word_pos == advanced(position, 8));
    assert(before.after_generate_sr25519(namespace).prng.word_pos == advanced(position, 24));
    if position + 8 < stream_words() {
        lemma_small_mod(position + 8, stream_words());
    }
    if position + 24 < stream_words() {
        lemma_small_mod(position + 24, stream_words());
    }
}

/// The position at which the generation numbered `i` among those under
/// `namespaces` reads the stream.
pub open spec fn generation_reads_at(
    before: KeystoreModel,
    namespaces: Seq<KeyNamespace>,
    i: int,
) -> nat {
    after_generations_sr25519(before, namespaces.take(i)).prng.word_pos
}

/// No two generations read the same words of the stream: as long as the
/// stream is not read to its end, each generation reads the 24 words that
/// follow those of the generation before it, so that the words of an earlier
/// call all lie before those of a later one.
pub proof fn law_generations_read_apart(before: KeystoreModel, namespaces: Seq<KeyNamespace>)
    requires
        before.prng.word_pos + 24 * namespaces.len() < stream_words(),
    ensures
        after_generations_sr25519(before, namespaces).prng.seed == before.prng.seed,
        after_generations_sr25519(before, namespaces).prng.word_pos == before.prng.word_pos + 24
            * namespaces.len(),
        forall|i: int|
            0 <= i <= namespaces.len() ==> #[trigger] generation_reads_at(before, namespaces, i)
                == before.prng.word_pos + 24 * i,
        forall|i: int, j: int|
            0 <= i < j < namespaces.len() ==> #[trigger] generation_reads_at(
                before,
                namespaces,
                i,
            ) + 24 <= #[trigger] generation_reads_at(before, namespaces, j),
    decreases namespaces.len(),
{
    if namespaces.len() > 0 {
        let front = namespaces.drop_last();
        law_generations_read_apart(before, front);
        let earlier = after_generations_sr25519(before, front);
        law_generator_only_advances(earlier, namespaces.last(), namespaces, earlier.next_sr25519_key());
        assert forall|i: int| 0 <= i <= namespaces.len() implies #[trigger] generation_reads_at(
            before,
            namespaces,
            i,
        ) == before.prng.word_pos + 24 * i by {
            if i < namespaces.len() {
                assert(namespaces.take(i) == front.take(i));
                assert(generation_reads_at(before, front, i) == before.prng.word_pos + 24 * i);
            } else {
                assert(namespaces.take(i) == namespaces);
            }
        }
    } else {
        assert forall|i: int| 0 <= i <= namespaces.len() implies #[trigger] generation_reads_at(
            before,
            namespaces,
            i,
        ) == before.prng.word_pos + 24 * i by {
            assert(namespaces.take(i) == namespaces);
        }
    }
}

} // verus!
