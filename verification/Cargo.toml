[package]
name = "aura_intent_lineage_v1"
version = "0.1.0"
edition = "2021"
publish = false

[dependencies]
sha2 = "=0.10.9"
sha3 = "=0.10.9"
unicode-normalization = "=0.1.26"
curve25519-dalek = { version = "=4.1.3", features = ["legacy_compatibility"] }
ring = "=0.17.14"
winterfell = "*"
