//! Protocol layer for BBS+ multi-message signatures: the revealed-message
//! bit-vector carried at the head of every proof, the binding of a proof to a
//! verifier nonce, selective-disclosure proofs, the blind-signing exchange,
//! BLS key generation, and a registry of incremental request builders
//! addressed by integer handles.
//!
//! The pairing arithmetic and the signature and proof algorithms come from the
//! `bbs` and `pairing-plus` crates; every call into `bbs` goes through
//! `primitives`.
mod error;
pub mod bitvector;
pub mod wire;
pub mod indices;
pub mod primitives;
pub mod signing;
pub mod disclosure;
pub mod blind;
pub mod registry;
pub mod keygen;

pub use error::BbsError;
pub use bitvector::{bitvector_to_revealed, revealed_to_bitvector};
pub use wire::{decode_proof_prefix, proof_prefix};
pub use signing::{
    rust_bbs_sign, rust_bbs_verify, rust_bls_public_key_to_bbs_key, rust_bls_secret_key_to_bbs_key,
};
pub use disclosure::{
    bind_challenge, challenge_bytes, rust_bbs_create_proof, rust_bbs_verify_proof,
    rust_bls_verify_proof, ProofEntry,
};
pub use blind::{
    rust_bbs_blind_sign, rust_bbs_blind_signature_commitment, rust_bbs_unblind_signature,
    rust_bbs_verify_blind_signature_proof, BlindCommitment,
};
pub use registry::{BuilderField, Finished, HandleRegistry, RequestBuilder, RequestKind};
pub use keygen::{
    rust_bls_generate_blinded_g1_key, rust_bls_generate_blinded_g2_key, rust_bls_generate_g1_key,
    rust_bls_generate_g2_key, Curve, KeyPair,
};
