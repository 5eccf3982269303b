use lamport_sigs::PrivateKey;
use merkle::{MerkleTree, Proof};
use merkle_sigs::{
    assemble_entries, sign_data_vec, sign_with_keys, signing_error, verif_error,
    verify_data_vec_signature, verify_message, MerklePublicKey, PublicKey, SigningError,
    VerificationError,
};
use ring::digest::{Algorithm, SHA256, SHA512};
use std::collections::HashSet;

fn digest() -> &'static Algorithm {
    &SHA512
}

#[test]
fn test_signature_verification_passes() {
    let vec = vec!["0", "1", "2"];
    let signatures = sign_data_vec(&vec, digest()).unwrap();
    let s0 = &signatures[0];
    let s1 = &signatures[1];
    let s2 = &signatures[2];

    let (_, proof) = &signatures[2];
    let root_hash = proof.root_hash.clone();
    assert!(verify_data_vec_signature(vec[0], s0, &root_hash).is_ok());
    assert!(verify_data_vec_signature(vec[1], s1, &root_hash).is_ok());
    assert!(verify_data_vec_signature(vec[2], s2, &root_hash).is_ok());
}

#[test]
fn test_same_root_hash() {
    let vec = vec!["I", "won't", "call", "you", "President"];
    let signatures = sign_data_vec(&vec, digest()).unwrap();

    let mut root_hash: Option<Vec<u8>> = None;
    for (_, proof) in signatures {
        if root_hash.is_none() {
            root_hash = Some(proof.root_hash.clone());
        } else {
            assert_eq!(root_hash.clone().unwrap(), proof.root_hash);
        }
    }
}

#[test]
fn test_different_leaf_keys() {
    let vec = vec!["I", "won't", "call", "you", "President"];
    let signatures = sign_data_vec(&vec, digest()).unwrap();

    let mut leafs = HashSet::new();
    for (_, proof) in signatures {
        let leaf = proof.value;

        if !leafs.contains(&leaf) {
            leafs.insert(leaf);
        } else {
            assert!(false, "Duplicate leaf values");
        }
    }
}

#[test]
fn round_trip_every_entry_of_a_larger_batch() {
    let vec: Vec<String> = (0..7).map(|i| format!("message {}", i)).collect();
    let signatures = sign_data_vec(&vec, &SHA256).unwrap();
    assert_eq!(signatures.len(), 7);
    let root_hash = signatures[0].1.root_hash.clone();
    for (m, s) in vec.iter().zip(signatures.iter()) {
        assert_eq!(verify_data_vec_signature(m.as_str(), s, &root_hash), Ok(()));
    }
}

#[test]
fn single_message_batch_verifies() {
    let vec = vec!["alone"];
    let signatures = sign_data_vec(&vec, digest()).unwrap();
    assert_eq!(signatures.len(), 1);
    let root_hash = signatures[0].1.root_hash.clone();
    assert_eq!(verify_data_vec_signature("alone", &signatures[0], &root_hash), Ok(()));
}

#[test]
fn empty_batch_is_refused() {
    let vec: Vec<&str> = Vec::new();
    assert_eq!(
        sign_data_vec(&vec, digest()).unwrap_err(),
        SigningError::TreeConstructionFailed
    );
}

#[test]
fn swapped_messages_fail_signature_check() {
    let vec = vec!["0", "1", "2"];
    let signatures = sign_data_vec(&vec, digest()).unwrap();
    let root_hash = signatures[0].1.root_hash.clone();
    assert_eq!(
        verify_data_vec_signature(vec[1], &signatures[0], &root_hash),
        Err(VerificationError::SignatureInvalid)
    );
    assert_eq!(
        verify_data_vec_signature(vec[0], &signatures[1], &root_hash),
        Err(VerificationError::SignatureInvalid)
    );
}

#[test]
fn flipped_signature_bit_is_detected() {
    let vec = vec!["0", "1", "2"];
    let signatures = sign_data_vec(&vec, digest()).unwrap();
    let root_hash = signatures[0].1.root_hash.clone();
    let mut tampered = signatures[1].clone();
    tampered.0[0][0] ^= 1;
    assert_eq!(
        verify_data_vec_signature(vec[1], &tampered, &root_hash),
        Err(VerificationError::SignatureInvalid)
    );
}

#[test]
fn flipped_lemma_bit_is_detected() {
    let vec = vec!["0", "1", "2"];
    let signatures = sign_data_vec(&vec, digest()).unwrap();
    let root_hash = signatures[0].1.root_hash.clone();
    let mut tampered = signatures[1].clone();
    let sub = tampered.1.lemma.sub_lemma.as_mut().unwrap();
    sub.node_hash[0] ^= 1;
    assert_eq!(
        verify_data_vec_signature(vec[1], &tampered, &root_hash),
        Err(VerificationError::InclusionProofInvalid)
    );
}

#[test]
fn wrong_root_hash_is_detected() {
    let vec = vec!["0", "1", "2"];
    let signatures = sign_data_vec(&vec, digest()).unwrap();
    let mut root_hash = signatures[0].1.root_hash.clone();
    root_hash[0] ^= 1;
    assert_eq!(
        verify_data_vec_signature(vec[2], &signatures[2], &root_hash),
        Err(VerificationError::InclusionProofInvalid)
    );
}

#[test]
fn root_hash_of_another_batch_is_rejected() {
    let vec = vec!["0", "1", "2"];
    let first = sign_data_vec(&vec, digest()).unwrap();
    let second = sign_data_vec(&vec, digest()).unwrap();
    let other_root = second[0].1.root_hash.clone();
    assert_eq!(
        verify_data_vec_signature(vec[0], &first[0], &other_root),
        Err(VerificationError::InclusionProofInvalid)
    );
}

#[test]
fn leaf_is_hashed_through_key_bytes() {
    let vec = vec!["x", "y"];
    let signatures = sign_data_vec(&vec, digest()).unwrap();
    let keys: Vec<MerklePublicKey> = signatures.iter().map(|s| s.1.value.clone()).collect();
    let bytes: Vec<Vec<u8>> = keys.iter().map(|k| k.key.to_bytes()).collect();
    let over_keys = MerkleTree::from_vec(digest(), keys);
    let over_bytes = MerkleTree::from_vec(digest(), bytes);
    assert_eq!(over_keys.root_hash(), over_bytes.root_hash());
    assert_eq!(over_keys.root_hash(), &signatures[0].1.root_hash);
}

#[test]
fn new_wraps_the_given_key() {
    let vec = vec!["k"];
    let signatures = sign_data_vec(&vec, digest()).unwrap();
    let key = signatures[0].1.value.key.clone();
    assert_eq!(MerklePublicKey::new(key.clone()).key, key);
}

#[test]
fn verif_error_reports_each_cause() {
    assert_eq!(verif_error(true, true), None);
    assert_eq!(verif_error(false, true), Some(VerificationError::InclusionProofInvalid));
    assert_eq!(verif_error(false, false), Some(VerificationError::InclusionProofInvalid));
    assert_eq!(verif_error(true, false), Some(VerificationError::SignatureInvalid));
}

#[test]
fn signing_error_prefers_missing_proof() {
    let sigs: Vec<Result<u8, &'static str>> = vec![Ok(1), Err("used")];
    let proofs: Vec<Option<u8>> = vec![Some(1), None];
    assert_eq!(
        signing_error(&sigs, &proofs),
        Some(SigningError::ProofGenerationFailed)
    );
}

#[test]
fn signing_error_reports_first_failed_signature() {
    let sigs: Vec<Result<u8, &'static str>> = vec![Ok(1), Err("first"), Err("second")];
    let proofs: Vec<Option<u8>> = vec![Some(1), Some(2), Some(3)];
    assert_eq!(
        signing_error(&sigs, &proofs),
        Some(SigningError::SigningFailed("first"))
    );
    let fine: Vec<Result<u8, &'static str>> = vec![Ok(1), Ok(2), Ok(3)];
    assert_eq!(signing_error(&fine, &proofs), None);
}

#[test]
fn assemble_entries_pairs_by_position() {
    let sigs: Vec<Result<u8, &'static str>> = vec![Ok(10), Ok(20), Ok(30)];
    let proofs: Vec<Option<char>> = vec![Some('a'), Some('b'), Some('c')];
    assert_eq!(
        assemble_entries(sigs, proofs),
        Ok(vec![(10, 'a'), (20, 'b'), (30, 'c')])
    );
}

#[test]
fn assemble_entries_is_all_or_nothing() {
    let sigs: Vec<Result<u8, &'static str>> = vec![Ok(10), Err("spent"), Ok(30)];
    let proofs: Vec<Option<char>> = vec![Some('a'), Some('b'), Some('c')];
    assert_eq!(
        assemble_entries(sigs, proofs),
        Err(SigningError::SigningFailed("spent"))
    );
    let sigs: Vec<Result<u8, &'static str>> = vec![Ok(10), Ok(20)];
    let proofs: Vec<Option<char>> = vec![None, Some('b')];
    assert_eq!(
        assemble_entries(sigs, proofs),
        Err(SigningError::ProofGenerationFailed)
    );
}

#[test]
fn sign_with_keys_binds_each_key_to_its_message() {
    let keys = vec![PrivateKey::new(digest()), PrivateKey::new(digest())];
    let publics: Vec<_> = keys.iter().map(|k| k.public_key()).collect();
    let messages = vec![b"left".to_vec(), b"right".to_vec()];
    let entries = sign_with_keys(keys, &messages, digest()).unwrap();
    assert_eq!(entries.len(), 2);
    for i in 0..2 {
        assert_eq!(entries[i].1.value.key, publics[i]);
        assert!(publics[i].verify_signature(&entries[i].0, &messages[i]));
    }
    let root_hash = entries[1].1.root_hash.clone();
    assert_eq!(verify_message(b"left", &entries[0], &root_hash), Ok(()));
    assert_eq!(verify_message(b"right", &entries[1], &root_hash), Ok(()));
    assert_eq!(
        verify_message(b"right", &entries[0], &root_hash),
        Err(VerificationError::SignatureInvalid)
    );
}

#[test]
fn sign_with_keys_refuses_repeated_key() {
    let key = PrivateKey::new(digest());
    let keys = vec![key.clone(), key];
    let messages = vec![b"a".to_vec(), b"b".to_vec()];
    assert_eq!(
        sign_with_keys(keys, &messages, digest()).unwrap_err(),
        SigningError::ProofGenerationFailed
    );
}

#[test]
fn sign_with_keys_reports_used_key() {
    let mut used = PrivateKey::new(digest());
    used.sign(b"earlier").unwrap();
    let keys = vec![PrivateKey::new(digest()), used];
    let messages = vec![b"a".to_vec(), b"b".to_vec()];
    assert_eq!(
        sign_with_keys(keys, &messages, digest()).unwrap_err(),
        SigningError::SigningFailed("Attempting to sign more than once.")
    );
}

#[test]
fn sign_with_keys_refuses_empty_batch() {
    let keys: Vec<PrivateKey> = Vec::new();
    let messages: Vec<Vec<u8>> = Vec::new();
    assert_eq!(
        sign_with_keys(keys, &messages, digest()).unwrap_err(),
        SigningError::TreeConstructionFailed
    );
}

#[test]
fn merkle_public_key_converts_to_key_bytes() {
    let pk = PrivateKey::new(digest()).public_key();
    let bytes: Vec<u8> = MerklePublicKey::new(pk.clone()).into();
    assert_eq!(bytes.len(), 64 * 64 * 8 * 2);
    assert_eq!(bytes, pk.to_bytes());
    assert_eq!(lamport_sigs::PublicKey::from_vec(bytes, digest()), Some(pk));
}

#[test]
fn serialization() {
    let vec = vec!["0", "1", "2"];
    let signatures = sign_data_vec(&vec, digest()).unwrap();
    let (sig, proof) = &signatures[2];

    let written = Proof {
        algorithm: proof.algorithm,
        lemma: proof.lemma.clone(),
        root_hash: proof.root_hash.clone(),
        value: Vec::<u8>::from(proof.value.clone()),
    };
    let proof_bytes = serde_json::to_vec(&written).unwrap();

    let p: Proof<Vec<u8>> = serde_json::from_slice(&proof_bytes).unwrap();

    let proof2 = Proof {
        algorithm: digest(),
        lemma: p.lemma,
        root_hash: p.root_hash,
        value: MerklePublicKey::new(PublicKey::from_vec(p.value, digest()).unwrap()),
    };

    let root_hash = proof2.root_hash.clone();
    let s2 = (sig.clone(), proof2);
    let data: Vec<u8> = String::from("2").into_bytes();
    assert!(verify_data_vec_signature(data, &s2, &root_hash).is_ok());
}
