//! Many-time signatures built from Lamport one-time keys bound together by a
//! Merkle authentication tree.

mod primitives;
mod signatures;

pub use lamport_sigs::PublicKey;
pub use merkle::Proof;
pub use primitives::{
    context_fed, key_algorithm, key_bytes, key_unused, lamport_valid, proof_algorithm, proof_leaf,
    proof_root, proof_valid, public_key_algorithm, public_of, tree_algorithm, tree_leaves,
    tree_root,
};
pub use signatures::{
    all_present, all_signed, all_unused, assemble_entries, is_first_failure, keys_pairwise_distinct,
    leaves_distinct, leaves_of, lemma_round_trip, message_views, proofs_validate, public_keys,
    shares_root, sign_data_vec, sign_with_keys, signed_batch, signing_error, verif_error,
    verification_succeeds, verify_data_vec_signature, verify_message,
    LamportSignatureData, MerklePublicKey, MerkleSignature, MerkleSignedData, SigningError,
    VerificationError,
};
