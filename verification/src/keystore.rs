//! The keystore: a generator of private keys and an index of them, behind
//! operations that sign but never show a private key.

use vstd::prelude::*;
use crate::ed25519;
use crate::ed25519::{ed25519_public_key, ed25519_signature};
use crate::index::{index_entries, index_hasher_key, slots_of, KeyIndex, KeyMaterial, PrivateKey, Slot};
use crate::namespace::KeyNamespace;
use crate::prng::{generated_ed25519_key, generated_sr25519_key, sampled_hasher_key, Prng, PrngModel};
use crate::sr25519;
use crate::sr25519::{
    secret_is_valid, signing_messages, sr25519_public_key, sr25519_verifies,
    sr25519_vrf_pre_output, sr25519_vrf_proves, substrate_context,
};
use crate::transcript::{
    vrf_input_fits, vrf_transcript, vrf_transcript_messages, Message, TranscriptItem,
};

verus! {

/// A VRF signature: the 64 bytes of the proof.
pub struct VrfSignature {
    pub proof: [u8; 64],
}

/// Why a payload could not be signed.
#[derive(Debug, Clone, Copy, PartialEq, Eq, Structural)]
pub enum SignError {
    /// No key stands under the namespace and public key that were given.
    UnknownPublicKey,
}

/// Why a VRF signature could not be made.
#[derive(Debug, Clone, Copy, PartialEq, Eq, Structural)]
pub enum SignVrfError {
    Sign(SignError),
    /// The key exists, but its algorithm has no VRF.
    WrongKeyAlgorithm,
}

/// What a keystore is to its contracts.
#[verifier::ext_equal]
pub struct KeystoreModel {
    /// The state of the generator that private keys are drawn from.
    pub prng: PrngModel,
    /// The key of the hasher of the index.
    pub hasher_key: Seq<u8>,
    /// The index: the private key under each namespace and public key.
    pub keys: Map<Slot, KeyMaterial>,
}

impl KeystoreModel {
    /// The keystore made from `seed`: no key yet, and a generator that has
    /// given out the hasher key of the index and nothing else.
    pub open spec fn initial(seed: Seq<u8>) -> KeystoreModel {
        KeystoreModel {
            prng: (PrngModel { seed, word_pos: 0 }).skip(16),
            hasher_key: sampled_hasher_key(seed, 0),
            keys: Map::empty(),
        }
    }

    /// The keystore with `key` put under `namespace` and the public key of
    /// `key`.
    pub open spec fn with_key(self, namespace: KeyNamespace, key: KeyMaterial) -> KeystoreModel {
        KeystoreModel { keys: self.keys.insert((namespace, key.public_key()), key), ..self }
    }

    /// The keystore with `key` put under each of `namespaces` and the public
    /// key of `key`.
    pub open spec fn with_key_under(
        self,
        namespaces: Seq<KeyNamespace>,
        key: KeyMaterial,
    ) -> KeystoreModel {
        KeystoreModel {
            keys: Map::new(
                |slot: Slot|
                    self.keys.contains_key(slot) || (namespaces.contains(slot.0) && slot.1
                        == key.public_key()),
                |slot: Slot|
                    if namespaces.contains(slot.0) && slot.1 == key.public_key() {
                        key
                    } else {
                        self.keys[slot]
                    },
            ),
            ..self
        }
    }

    /// The Ed25519 key that the generator gives out next.
    pub open spec fn next_ed25519_key(self) -> KeyMaterial {
        KeyMaterial::Ed25519(generated_ed25519_key(self.prng.seed, self.prng.word_pos))
    }

    /// The Sr25519 key that the generator gives out next.
    pub open spec fn next_sr25519_key(self) -> KeyMaterial {
        KeyMaterial::Sr25519(generated_sr25519_key(self.prng.seed, self.prng.word_pos))
    }

    /// The keystore after an Ed25519 key was generated under `namespace`.
    pub open spec fn after_generate_ed25519(self, namespace: KeyNamespace) -> KeystoreModel {
        KeystoreModel { prng: self.prng.skip(8), ..self }.with_key(
            namespace,
            self.next_ed25519_key(),
        )
    }

    /// The keystore after an Sr25519 key was generated under `namespace`.
    pub open spec fn after_generate_sr25519(self, namespace: KeyNamespace) -> KeystoreModel {
        KeystoreModel { prng: self.prng.skip(24), ..self }.with_key(
            namespace,
            self.next_sr25519_key(),
        )
    }

    /// Whether an Sr25519 key stands in `slot`.
    pub open spec fn holds_sr25519(self, slot: Slot) -> bool {
        self.keys.contains_key(slot) && self.keys[slot] is Sr25519
    }

    /// Whether `result` is what signing `payload` with the key in `slot` may
    /// return: an error where there is no key; the one signature of an
    /// Ed25519 key; of an Sr25519 key, a signature that its public key
    /// verifies over the payload in the context `substrate`.
    pub open spec fn signs(self, slot: Slot, payload: Seq<u8>, result: Result<[u8; 64], SignError>)
        -> bool {
        if !self.keys.contains_key(slot) {
            result == Err::<[u8; 64], SignError>(SignError::UnknownPublicKey)
        } else {
            match self.keys[slot] {
                KeyMaterial::Ed25519(seed) => result is Ok && result->Ok_0@ == ed25519_signature(
                    seed,
                    payload,
                ),
                KeyMaterial::Sr25519(secret) => result is Ok && sr25519_verifies(
                    sr25519_public_key(secret),
                    signing_messages(substrate_context(), payload),
                    result->Ok_0@,
                ),
            }
        }
    }

    /// Whether `result` is what a VRF signature with the key in `slot`, over a
    /// transcript that has absorbed `messages`, may return: an error where
    /// there is no key or the key is an Ed25519 key; of an Sr25519 key, a
    /// proof that its public key accepts for the VRF pre-output of the key on
    /// that transcript.
    pub open spec fn signs_vrf(
        self,
        slot: Slot,
        messages: Seq<Message>,
        result: Result<VrfSignature, SignVrfError>,
    ) -> bool {
        if !self.keys.contains_key(slot) {
            result == Err::<VrfSignature, SignVrfError>(
                SignVrfError::Sign(SignError::UnknownPublicKey),
            )
        } else {
            match self.keys[slot] {
                KeyMaterial::Ed25519(_) => result == Err::<VrfSignature, SignVrfError>(
                    SignVrfError::WrongKeyAlgorithm,
                ),
                KeyMaterial::Sr25519(secret) => result is Ok && sr25519_vrf_proves(
                    sr25519_public_key(secret),
                    messages,
                    sr25519_vrf_pre_output(secret, messages),
                    result->Ok_0.proof@,
                ),
            }
        }
    }

    /// Whether the keystore is one that its operations can have made: the
    /// hasher of the index is keyed by the first sample of the generator, the
    /// index is finite, and every key in it is a valid private key that
    /// stands under its own public key.
    pub open spec fn well_formed(self) -> bool {
        &&& self.hasher_key == sampled_hasher_key(self.prng.seed, 0)
        &&& self.keys.dom().finite()
        &&& forall|slot: Slot| #[trigger]
            self.keys.contains_key(slot) ==> self.keys[slot].is_valid() && slot.1
                == self.keys[slot].public_key()
    }
}

/// Collection of key pairs.
///
/// A keystore gives no access to the content of private keys, only to
/// signing capabilities.
pub struct Keystore {
    prng: Prng,
    keys: KeyIndex,
}

impl View for Keystore {
    type V = KeystoreModel;

    closed spec fn view(&self) -> KeystoreModel {
        KeystoreModel {
            prng: self.prng@,
            hasher_key: index_hasher_key(self.keys),
            keys: index_entries(self.keys),
        }
    }
}

impl Keystore {
    /// Initializes a new keystore.
    ///
    /// Must be passed bytes of entropy that are used to avoid hash collision
    /// attacks and to generate private keys.
    pub fn new(randomness_seed: [u8; 32]) -> (keystore: Keystore)
        ensures
            keystore@ == KeystoreModel::initial(randomness_seed@),
            keystore@.well_formed(),
    {
        let mut prng = Prng::from_seed(randomness_seed);
        let hasher_key = prng.next_hasher_key();
        let keys = KeyIndex::with_capacity_and_hasher_key(32, hasher_key);
        Keystore { prng, keys }
    }

    /// Inserts an Sr25519 private key in the keystore, under each of
    /// `namespaces`.
    ///
    /// Returns the corresponding public key.
    ///
    /// This is meant to be called with publicly-known private keys. Use
    /// [`Keystore::generate_sr25519`] if the private key is meant to actually
    /// be private. The key must be a valid Sr25519 private key: this function
    /// is meant for hard coded values which are known to be correct.
    pub fn insert_sr25519_memory(
        &mut self,
        namespaces: &[KeyNamespace],
        private_key: &[u8; 64],
    ) -> (public_key: [u8; 32])
        requires
            old(self)@.well_formed(),
            secret_is_valid(private_key@),
        ensures
            public_key@ == sr25519_public_key(private_key@),
            final(self)@ == old(self)@.with_key_under(
                namespaces@,
                KeyMaterial::Sr25519(private_key@),
            ),
            final(self)@.well_formed(),
    {
        let public_key = sr25519::public_key(private_key);
        let ghost key = KeyMaterial::Sr25519(private_key@);
        let mut i: usize = 0;
        while i < namespaces.len()
            invariant
                i <= namespaces.len(),
                public_key@ == sr25519_public_key(private_key@),
                key == KeyMaterial::Sr25519(private_key@),
                secret_is_valid(private_key@),
                self@ == old(self)@.with_key_under(namespaces@.take(i as int), key),
                self@.well_formed(),
            decreases namespaces.len() - i,
        {
            self.keys.insert(namespaces[i], public_key, PrivateKey::MemorySr25519(*private_key));
            proof {
                let taken = namespaces@.take(i as int);
                let more = namespaces@.take(i + 1);
                assert(more == taken.push(namespaces@[i as int]));
                assert forall|namespace: KeyNamespace|
                    more.contains(namespace) <==> taken.contains(namespace) || namespace
                        == namespaces@[i as int] by {
                    if taken.contains(namespace) {
                        let j = choose|j: int| 0 <= j < taken.len() && taken[j] == namespace;
                        assert(more[j] == namespace);
                    }
                    if namespace == namespaces@[i as int] {
                        assert(more[i as int] == namespace);
                    }
                }
                assert(self@.keys =~= old(self)@.with_key_under(more, key).keys);
            }
            i += 1;
        }
        assert(namespaces@.take(i as int) == namespaces@);
        public_key
    }

    /// Generates a new Ed25519 key and inserts it in the keystore.
    ///
    /// Returns the corresponding public key.
    pub fn generate_ed25519(&mut self, namespace: KeyNamespace) -> (public_key: [u8; 32])
        requires
            old(self)@.well_formed(),
        ensures
            public_key@ == old(self)@.next_ed25519_key().public_key(),
            final(self)@ == old(self)@.after_generate_ed25519(namespace),
            final(self)@.well_formed(),
    {
        let private_key = self.prng.next_ed25519_key();
        let public_key = ed25519::public_key(&private_key);
        self.keys.insert(namespace, public_key, PrivateKey::MemoryEd25519(private_key));
        public_key
    }

    /// Returns the list of all keys known to this keystore: every namespace
    /// and public key that a private key stands under, each once, in no
    /// particular order.
    pub fn keys(&self) -> (keys: Vec<(KeyNamespace, [u8; 32])>)
        ensures
            slots_of(keys@).no_duplicates(),
            slots_of(keys@).to_set() == self@.keys.dom(),
            keys@.len() == self@.keys.dom().len(),
    {
        let keys = self.keys.keys();
        proof {
            slots_of(keys@).unique_seq_to_set();
        }
        keys
    }

    /// Generates a new Sr25519 key and inserts it in the keystore.
    ///
    /// Returns the corresponding public key.
    pub fn generate_sr25519(&mut self, namespace: KeyNamespace) -> (public_key: [u8; 32])
        requires
            old(self)@.well_formed(),
        ensures
            public_key@ == old(self)@.next_sr25519_key().public_key(),
            final(self)@ == old(self)@.after_generate_sr25519(namespace),
            final(self)@.well_formed(),
    {
        let private_key = self.prng.next_sr25519_key();
        let public_key = sr25519::public_key(&private_key);
        self.keys.insert(namespace, public_key, PrivateKey::MemorySr25519(private_key));
        public_key
    }

    /// Tells whether an Sr25519 key stands under the namespace and public key
    /// passed as parameters: the one kind of key whose signatures are bound
    /// by the length limit of a transcript.
    pub fn holds_sr25519_key(&self, key_namespace: KeyNamespace, public_key: &[u8; 32]) -> (held:
        bool)
        ensures
            held == self@.holds_sr25519((key_namespace, public_key@)),
    {
        match self.keys.get(key_namespace, public_key) {
            Some(PrivateKey::MemorySr25519(_)) => true,
            _ => false,
        }
    }

    /// Signs the given payload using the private key associated to the
    /// public key passed as parameter.
    ///
    /// An Ed25519 key signs the payload as it is. An Sr25519 key signs it in
    /// the context `substrate`, which takes a payload of at most `u32::MAX`
    /// bytes.
    pub fn sign(&self, key_namespace: KeyNamespace, public_key: &[u8; 32], payload: &[u8]) -> (result:
        Result<[u8; 64], SignError>)
        requires
            self@.well_formed(),
            self@.holds_sr25519((key_namespace, public_key@)) ==> payload@.len() <= u32::MAX,
        ensures
            self@.signs((key_namespace, public_key@), payload@, result),
    {
        match self.keys.get(key_namespace, public_key) {
            None => Err(SignError::UnknownPublicKey),
            Some(PrivateKey::MemoryEd25519(key)) => Ok(ed25519::sign(key, payload)),
            Some(PrivateKey::MemorySr25519(key)) => {
                let transcript = sr25519::signing_transcript(payload);
                Ok(sr25519::sign(key, transcript))
            },
        }
    }

    /// Makes a VRF signature, with the private key associated to the public
    /// key passed as parameter, over the transcript labelled `label` that has
    /// absorbed `transcript_items` in their order.
    ///
    /// Only an Sr25519 key can do so. A transcript takes a label and byte
    /// strings of at most `u32::MAX` bytes each. The result carries the proof
    /// alone: the VRF pre-output that the proof is about is not handed out.
    pub fn sign_sr25519_vrf<'a>(
        &self,
        key_namespace: KeyNamespace,
        public_key: &[u8; 32],
        label: &'static [u8],
        transcript_items: &[TranscriptItem<'a>],
    ) -> (result: Result<VrfSignature, SignVrfError>)
        requires
            self@.well_formed(),
            self@.holds_sr25519((key_namespace, public_key@)) ==> vrf_input_fits(
                label@,
                transcript_items@,
            ),
        ensures
            self@.signs_vrf(
                (key_namespace, public_key@),
                vrf_transcript_messages(label@, transcript_items@),
                result,
            ),
    {
        match self.keys.get(key_namespace, public_key) {
            None => Err(SignVrfError::Sign(SignError::UnknownPublicKey)),
            Some(PrivateKey::MemoryEd25519(_)) => Err(SignVrfError::WrongKeyAlgorithm),
            Some(PrivateKey::MemorySr25519(key)) => {
                let transcript = vrf_transcript(label, transcript_items);
                Ok(VrfSignature { proof: sr25519::vrf_sign(key, transcript) })
            },
        }
    }
}

} // verus!
