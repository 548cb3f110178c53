[package]
name = "keystore"
version = "0.1.0"
edition = "2021"
publish = false

[dependencies]
derive_more = "=0.99.20"
ed25519-zebra = "=4.2.0"
either = "=1.19.0"
futures = "=0.3.34"
hashbrown = "=0.15.5"
merlin = "=3.0.0"
rand = "=0.8.8"
rand_chacha = "=0.3.1"
schnorrkel = "=0.11.5"
siphasher = "=1.0.4"
