//! An in-memory keystore: key pairs held under namespaces, reachable only
//! through signing operations.
//!
//! A [`Keystore`] is made from 32 bytes of entropy. Keys are generated from
//! its own generator, or inserted where they are publicly known, each under
//! a [`KeyNamespace`]. A caller who presents a namespace and a public key
//! gets signatures, never the private key.

pub mod ed25519;
pub mod index;
pub mod keystore;
pub mod laws;
pub mod namespace;
pub mod prng;
pub mod sr25519;
pub mod transcript;

pub use crate::keystore::{Keystore, SignError, SignVrfError, VrfSignature};
pub use crate::namespace::KeyNamespace;
pub use crate::transcript::{TranscriptItem, TranscriptValue};
