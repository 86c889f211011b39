//! Compatibility layers, reached only through explicit paths: the SHA-256
//! identity hash, the cat-map execution with its commitments and proofs, and
//! the lower-layer execution commitment of the layered authorization pipeline.
//! None of them converts into a Storm claim.

pub mod aura_hash_v1;
pub mod catmap_v1;
pub mod proof_pipeline_v1;
