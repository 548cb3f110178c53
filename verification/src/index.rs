//! The key index: which private key stands under which namespace and public
//! key.
//!
//! The table itself is a `hashbrown::HashMap` with a keyed SipHash-1-3
//! hasher. It is known here by two things: the map it holds and the key its
//! hasher was made with.

use vstd::prelude::*;
use crate::ed25519::ed25519_public_key;
use crate::namespace::KeyNamespace;
use crate::sr25519::{secret_is_valid, sr25519_public_key};

verus! {

/// A private key, as the bytes it is rebuilt from.
pub enum PrivateKey {
    /// The 32-byte secret seed of an Ed25519 key.
    MemoryEd25519([u8; 32]),
    /// The 64-byte secret key of an Sr25519 key pair.
    MemorySr25519([u8; 64]),
}

/// What a private key is to the contracts: its algorithm and its bytes.
pub enum KeyMaterial {
    Ed25519(Seq<u8>),
    Sr25519(Seq<u8>),
}

impl KeyMaterial {
    /// The public key that belongs to the private key.
    pub open spec fn public_key(self) -> Seq<u8> {
        match self {
            KeyMaterial::Ed25519(seed) => ed25519_public_key(seed),
            KeyMaterial::Sr25519(secret) => sr25519_public_key(secret),
        }
    }

    /// Whether the bytes are a private key of their algorithm: any 32 bytes
    /// for Ed25519, a valid secret key for Sr25519.
    pub open spec fn is_valid(self) -> bool {
        match self {
            KeyMaterial::Ed25519(seed) => seed.len() == 32,
            KeyMaterial::Sr25519(secret) => secret_is_valid(secret),
        }
    }
}

impl View for PrivateKey {
    type V = KeyMaterial;

    open spec fn view(&self) -> KeyMaterial {
        match self {
            PrivateKey::MemoryEd25519(seed) => KeyMaterial::Ed25519(seed@),
            PrivateKey::MemorySr25519(secret) => KeyMaterial::Sr25519(secret@),
        }
    }
}

/// A place in the index: a namespace and the bytes of a public key.
pub type Slot = (KeyNamespace, Seq<u8>);

/// The slots that a list of exec keys stands for, in the same order.
pub open spec fn slots_of(keys: Seq<(KeyNamespace, [u8; 32])>) -> Seq<Slot> {
    keys.map_values(|key: (KeyNamespace, [u8; 32])| (key.0, key.1@))
}

/// The index that holds no key.
pub open spec fn no_entries() -> Map<Slot, KeyMaterial> {
    Map::empty()
}

/// `siphasher::sip::SipHasher13`, of which nothing is looked into.
#[verifier::external_type_specification]
#[verifier::external_body]
pub struct ExSipHasher13(siphasher::sip::SipHasher13);

/// Builds SipHash-1-3 hashers that all share one 16-byte key.
pub struct SipHasherBuild {
    key: [u8; 16],
}

impl core::hash::BuildHasher for SipHasherBuild {
    type Hasher = siphasher::sip::SipHasher13;

    /// Trusted: `siphasher::sip::SipHasher13::new_with_key` on the stored key.
    #[verifier::external_body]
    fn build_hasher(&self) -> siphasher::sip::SipHasher13 {
        siphasher::sip::SipHasher13::new_with_key(&self.key)
    }
}

/// The table of the index.
///
/// Trusted: the table is opaque to the verifier, which cannot take
/// `hashbrown::HashMap` itself in a field. Its keys are pairs of a namespace
/// and 32 bytes, equal when both parts are; all that is known of it is what
/// [`index_entries`] and [`index_hasher_key`] name and what the functions
/// below say of them.
#[verifier::external_body]
pub struct KeyIndex {
    map: hashbrown::HashMap<(KeyNamespace, [u8; 32]), PrivateKey, SipHasherBuild>,
}

/// The entries of the table.
pub uninterp spec fn index_entries(index: KeyIndex) -> Map<Slot, KeyMaterial>;

/// The key of the hasher that the table was made with, which
/// `hashbrown::HashMap::hasher` hands out.
pub uninterp spec fn index_hasher_key(index: KeyIndex) -> Seq<u8>;

impl KeyIndex {
    /// An empty table whose hasher is keyed by `hasher_key`.
    ///
    /// Trusted: `hashbrown::HashMap::with_capacity_and_hasher`, with room for
    /// `capacity` entries, returns an empty map that keeps the hasher it is
    /// given.
    #[verifier::external_body]
    pub(crate) fn with_capacity_and_hasher_key(capacity: usize, hasher_key: [u8; 16]) -> (index:
        KeyIndex)
        ensures
            index_entries(index) == no_entries(),
            index_hasher_key(index) == hasher_key@,
    {
        let hasher = SipHasherBuild { key: hasher_key };
        KeyIndex { map: hashbrown::HashMap::with_capacity_and_hasher(capacity, hasher) }
    }

    /// Puts `key` under `(namespace, public_key)`, in place of what stood
    /// there.
    ///
    /// Trusted: `hashbrown::HashMap::insert` adds the pair, or replaces the
    /// value of a key that is present, and touches nothing else.
    #[verifier::external_body]
    pub(crate) fn insert(&mut self, namespace: KeyNamespace, public_key: [u8; 32], key: PrivateKey)
        ensures
            index_entries(*final(self)) == index_entries(*old(self)).insert(
                (namespace, public_key@),
                key@,
            ),
            index_hasher_key(*final(self)) == index_hasher_key(*old(self)),
    {
        self.map.insert((namespace, public_key), key);
    }

    /// Looks up the private key under `(namespace, public_key)`.
    ///
    /// Trusted: `hashbrown::HashMap::get` returns the value of a key that is
    /// present, and `None` for any other.
    #[verifier::external_body]
    pub(crate) fn get(&self, namespace: KeyNamespace, public_key: &[u8; 32]) -> (found: Option<
        &PrivateKey,
    >)
        ensures
            match found {
                Some(key) => index_entries(*self).contains_key((namespace, public_key@))
                    && key@ == index_entries(*self)[(namespace, public_key@)],
                None => !index_entries(*self).contains_key((namespace, public_key@)),
            },
    {
        self.map.get(&(namespace, *public_key))
    }

    /// Lists the places that hold a key, each once, in no particular order.
    ///
    /// Trusted: `hashbrown::HashMap::keys` visits every key of the map once.
    /// The order of the visit is left open.
    #[verifier::external_body]
    pub(crate) fn keys(&self) -> (keys: Vec<(KeyNamespace, [u8; 32])>)
        ensures
            slots_of(keys@).no_duplicates(),
            slots_of(keys@).to_set() == index_entries(*self).dom(),
    {
        self.map.keys().cloned().collect()
    }
}

} // verus!
