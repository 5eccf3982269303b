//! Signing a batch of messages with one Lamport key each, bound together by a
//! Merkle tree, and verifying one message against the tree's root hash.

use vstd::prelude::*;

use crate::primitives::{
    build_tree, gen_proof, generate_private_key, key_algorithm, key_bytes, key_unused,
    lamport_valid, message_bytes, proof_algorithm, proof_leaf, proof_root, proof_valid,
    proof_validates, proof_value, public_key_algorithm, public_key_bytes, public_key_of, public_of,
    same_public_key, sign_once, signature_verifies, tree_algorithm, tree_leaves, tree_root,
};
use lamport_sigs::{PrivateKey, PublicKey};
use merkle::MerkleTree;
use merkle::Proof;
use ring::digest::Algorithm;
use vstd::std_specs::convert::FromSpecImpl;

verus! {

/// A Lamport signature: one revealed secret per bit of the message digest.
pub type LamportSignatureData = Vec<Vec<u8>>;

/// A Lamport public key as a leaf of the Merkle tree. The tree hashes it
/// through the key's canonical byte encoding.
#[derive(Debug, Clone, PartialEq, Eq, Hash)]
pub struct MerklePublicKey {
    /// The wrapped Lamport public key.
    pub key: PublicKey,
}

impl MerklePublicKey {
    /// Wraps a Lamport `PublicKey` into a `MerklePublicKey`.
    pub fn new(pk: PublicKey) -> (r: MerklePublicKey)
        ensures
            r.key == pk,
    {
        MerklePublicKey { key: pk }
    }
}

/// A Merkle signature: the Lamport signature of one message, and the
/// inclusion proof of the leaf key that made it.
pub type MerkleSignature = (LamportSignatureData, Proof<MerklePublicKey>);

/// Signed data: the data along with its signature.
pub type MerkleSignedData<T> = (Vec<T>, MerkleSignature);

/// Why a batch could not be signed. No partial batch is ever returned.
#[derive(Debug, Clone, Copy, PartialEq, Eq)]
pub enum SigningError {
    /// No tree can be built: the batch is empty.
    TreeConstructionFailed,
    /// A leaf could not be located in the tree, or two leaves coincide.
    ProofGenerationFailed,
    /// A one-time key could not sign; holds the cause it gave.
    SigningFailed(&'static str),
}

/// Why a signed message was rejected.
#[derive(Debug, Clone, Copy, PartialEq, Eq)]
pub enum VerificationError {
    /// The inclusion proof does not resolve to the trusted root hash.
    InclusionProofInvalid,
    /// The signature does not verify under the key the proof attests to.
    SignatureInvalid,
}

/// `k` is the position of the first failed signature in `sigs`.
pub open spec fn is_first_failure<S>(sigs: Seq<Result<S, &'static str>>, k: int) -> bool {
    &&& 0 <= k < sigs.len()
    &&& sigs[k] is Err
    &&& forall|j: int| 0 <= j < k ==> #[trigger] sigs[j] is Ok
}

/// Every proof of the batch was generated.
pub open spec fn all_present<P>(proofs: Seq<Option<P>>) -> bool {
    forall|i: int| 0 <= i < proofs.len() ==> #[trigger] proofs[i] is Some
}

/// Every signature of the batch was produced.
pub open spec fn all_signed<S>(sigs: Seq<Result<S, &'static str>>) -> bool {
    forall|i: int| 0 <= i < sigs.len() ==> #[trigger] sigs[i] is Ok
}

/// The error of a batch whose proofs and signatures came back as given: a
/// missing proof first, then the first failed signature; none if all are there.
pub fn signing_error<S, P>(signatures: &Vec<Result<S, &'static str>>, proofs: &Vec<Option<P>>) -> (r:
    Option<SigningError>)
    ensures
        !all_present(proofs@) ==> r == Some(SigningError::ProofGenerationFailed),
        all_present(proofs@) ==> forall|k: int|
            #[trigger] is_first_failure(signatures@, k) ==> r == Some(
                SigningError::SigningFailed(signatures@[k]->Err_0),
            ),
        r is None <==> all_present(proofs@) && all_signed(signatures@),
        r is Some ==> !(r->Some_0 is TreeConstructionFailed),
        all_present(proofs@) && r is Some ==> r->Some_0 is SigningFailed,
{
    let mut i: usize = 0;
    while i < proofs.len()
        invariant
            i <= proofs@.len(),
            forall|j: int| 0 <= j < i ==> #[trigger] proofs@[j] is Some,
        decreases proofs@.len() - i,
    {
        if proofs[i].is_none() {
            return Some(SigningError::ProofGenerationFailed);
        }
        i += 1;
    }
    let mut k: usize = 0;
    while k < signatures.len()
        invariant
            all_present(proofs@),
            k <= signatures@.len(),
            forall|j: int| 0 <= j < k ==> #[trigger] signatures@[j] is Ok,
        decreases signatures@.len() - k,
    {
        match &signatures[k] {
            Ok(_) => {},
            Err(cause) => {
                let cause: &'static str = *cause;
                proof {
                    assert forall|m: int| #[trigger] is_first_failure(signatures@, m) implies m
                        == k by {
                        if m < k {
                            assert(signatures@[m] is Ok);
                        }
                        if m > k {
                            assert(signatures@[k as int] is Ok);
                        }
                    }
                }
                return Some(SigningError::SigningFailed(cause));
            },
        }
        k += 1;
    }
    None
}

/// Pairs each produced signature with its leaf's proof, by position; or the
/// batch's error, if any proof or signature is missing.
pub fn assemble_entries<S, P>(signatures: Vec<Result<S, &'static str>>, proofs: Vec<Option<P>>) -> (r:
    Result<Vec<(S, P)>, SigningError>)
    requires
        signatures@.len() == proofs@.len(),
    ensures
        !all_present(proofs@) ==> r == Err::<Vec<(S, P)>, SigningError>(
            SigningError::ProofGenerationFailed,
        ),
        all_present(proofs@) ==> forall|k: int|
            #[trigger] is_first_failure(signatures@, k) ==> r == Err::<Vec<(S, P)>, SigningError>(
                SigningError::SigningFailed(signatures@[k]->Err_0),
            ),
        r is Ok <==> all_present(proofs@) && all_signed(signatures@),
        r is Err ==> !(r->Err_0 is TreeConstructionFailed),
        all_present(proofs@) && r is Err ==> r->Err_0 is SigningFailed,
        r is Ok ==> r->Ok_0@.len() == signatures@.len(),
        r is Ok ==> forall|i: int|
            0 <= i < signatures@.len() ==> #[trigger] r->Ok_0@[i] == (
                signatures@[i]->Ok_0,
                proofs@[i]->Some_0,
            ),
{
    if let Some(e) = signing_error(&signatures, &proofs) {
        return Err(e);
    }
    let ghost sigs0 = signatures@;
    let ghost proofs0 = proofs@;
    let n = signatures.len();
    let mut signatures = signatures;
    let mut proofs = proofs;
    let mut entries: Vec<(S, P)> = Vec::new();
    let mut i: usize = 0;
    while i < n
        invariant
            n == sigs0.len(),
            n == proofs0.len(),
            all_present(proofs0),
            all_signed(sigs0),
            i <= n,
            signatures@ == sigs0.subrange(i as int, n as int),
            proofs@ == proofs0.subrange(i as int, n as int),
            entries@.len() == i,
            forall|j: int|
                0 <= j < i ==> #[trigger] entries@[j] == (sigs0[j]->Ok_0, proofs0[j]->Some_0),
        decreases n - i,
    {
        let s = signatures.remove(0);
        let p = proofs.remove(0);
        assert(s == sigs0[i as int]);
        assert(p == proofs0[i as int]);
        match (s, p) {
            (Ok(s), Some(p)) => {
                entries.push((s, p));
            },
            _ => {
                assert(sigs0[i as int] is Ok);
                assert(proofs0[i as int] is Some);
            },
        }
        proof {
            assert(signatures@ =~= sigs0.subrange(i + 1, n as int));
            assert(proofs@ =~= proofs0.subrange(i + 1, n as int));
        }
        i += 1;
    }
    Ok(entries)
}

/// No two keys of `keys` are equal.
pub open spec fn keys_pairwise_distinct(keys: Seq<PublicKey>) -> bool {
    forall|i: int, j: int| 0 <= i < keys.len() && 0 <= j < keys.len() && i != j ==> keys[i] != keys[j]
}

fn keys_distinct(keys: &Vec<PublicKey>) -> (r: bool)
    ensures
        r == keys_pairwise_distinct(keys@),
{
    let n = keys.len();
    let mut i: usize = 0;
    while i < n
        invariant
            n == keys@.len(),
            i <= n,
            forall|a: int, b: int| 0 <= a < i && 0 <= b < n && a != b ==> keys@[a] != keys@[b],
        decreases n - i,
    {
        let mut j: usize = i + 1;
        while j < n
            invariant
                n == keys@.len(),
                i < n,
                i + 1 <= j <= n,
                forall|a: int, b: int| 0 <= a < i && 0 <= b < n && a != b ==> keys@[a] != keys@[b],
                forall|b: int| i < b < j ==> keys@[i as int] != keys@[b],
            decreases n - j,
        {
            if same_public_key(&keys[i], &keys[j]) {
                return false;
            }
            j += 1;
        }
        i += 1;
    }
    true
}

/// Every proof of `entries` carries the same root hash.
pub open spec fn shares_root(entries: Seq<MerkleSignature>) -> bool {
    forall|i: int, j: int|
        0 <= i < entries.len() && 0 <= j < entries.len() ==> proof_root(#[trigger] entries[i].1)
            == proof_root(#[trigger] entries[j].1)
}

/// No two proofs of `entries` attest to the same leaf key.
pub open spec fn leaves_distinct(entries: Seq<MerkleSignature>) -> bool {
    forall|i: int, j: int|
        0 <= i < entries.len() && 0 <= j < entries.len() && i != j ==> proof_leaf(
            #[trigger] entries[i].1,
        ) != proof_leaf(#[trigger] entries[j].1)
}

/// Every proof of `entries` validates against the root hash it carries.
pub open spec fn proofs_validate(entries: Seq<MerkleSignature>) -> bool {
    forall|i: int|
        0 <= i < entries.len() ==> proof_valid(#[trigger] entries[i].1, proof_root(entries[i].1))
}

/// `message` and the entry verify against `root_hash`: the proof validates
/// against it, and the signature against the key that the proof attests.
pub open spec fn verification_succeeds(
    entry: MerkleSignature,
    message: Seq<u8>,
    root_hash: Seq<u8>,
) -> bool {
    &&& proof_valid(entry.1, root_hash)
    &&& lamport_valid(proof_leaf(entry.1).key, entry.0@, message)
}

/// `entries` is a signed batch of `messages`: one entry per message, in order,
/// all under one root hash, with distinct leaf keys, each proof valid, and
/// entry `i` signing message `i` under the key its own proof attests.
pub open spec fn signed_batch(entries: Seq<MerkleSignature>, messages: Seq<Seq<u8>>) -> bool {
    &&& entries.len() == messages.len()
    &&& shares_root(entries)
    &&& leaves_distinct(entries)
    &&& proofs_validate(entries)
    &&& forall|i: int|
        0 <= i < entries.len() ==> lamport_valid(
            proof_leaf(#[trigger] entries[i].1).key,
            entries[i].0@,
            messages[i],
        )
}

/// The public keys of `keys`, in order.
pub open spec fn public_keys(keys: Seq<PrivateKey>) -> Seq<PublicKey> {
    keys.map_values(|k: PrivateKey| public_of(k))
}

/// The tree leaves for `keys`, in order.
pub open spec fn leaves_of(keys: Seq<PrivateKey>) -> Seq<MerklePublicKey> {
    keys.map_values(|k: PrivateKey| MerklePublicKey { key: public_of(k) })
}

/// None of `keys` has signed yet.
pub open spec fn all_unused(keys: Seq<PrivateKey>) -> bool {
    forall|i: int| 0 <= i < keys.len() ==> key_unused(#[trigger] keys[i])
}

/// The bytes of each message.
pub open spec fn message_views(messages: Seq<Vec<u8>>) -> Seq<Seq<u8>> {
    messages.map_values(|m: Vec<u8>| m@)
}

/// Signs `messages[i]` with `keys[i]`, each key once, and binds the keys'
/// public keys together in one Merkle tree built with `algorithm`, in order.
/// An empty batch has no tree and is refused; so is a batch whose public keys
/// are not all distinct, as the tree could not tell their leaves apart. With
/// fresh, distinct keys it succeeds.
pub fn sign_with_keys(
    keys: Vec<PrivateKey>,
    messages: &Vec<Vec<u8>>,
    algorithm: &'static Algorithm,
) -> (r: Result<Vec<MerkleSignature>, SigningError>)
    requires
        keys@.len() == messages@.len(),
    ensures
        messages@.len() == 0 <==> r == Err::<Vec<MerkleSignature>, SigningError>(
            SigningError::TreeConstructionFailed,
        ),
        messages@.len() > 0 && !keys_pairwise_distinct(public_keys(keys@)) ==> r == Err::<
            Vec<MerkleSignature>,
            SigningError,
        >(SigningError::ProofGenerationFailed),
        messages@.len() > 0 && keys_pairwise_distinct(public_keys(keys@)) && all_unused(keys@)
            ==> r is Ok,
        messages@.len() > 0 && keys_pairwise_distinct(public_keys(keys@)) && !all_unused(keys@)
            ==> r is Err && r->Err_0 is SigningFailed,
        r is Ok ==> forall|i: int|
            0 <= i < messages@.len() ==> public_key_algorithm(
                proof_leaf(#[trigger] r->Ok_0@[i].1).key,
            ) == key_algorithm(keys@[i]),
        r is Ok ==> signed_batch(r->Ok_0@, message_views(messages@)),
        r is Ok ==> forall|i: int|
            0 <= i < messages@.len() ==> proof_leaf(#[trigger] r->Ok_0@[i].1) == leaves_of(
                keys@,
            )[i],
        r is Ok ==> forall|i: int|
            0 <= i < messages@.len() ==> proof_algorithm(#[trigger] r->Ok_0@[i].1) == *algorithm,
        r is Ok ==> exists|t: MerkleTree<MerklePublicKey>|
            tree_leaves(t) == leaves_of(keys@) && tree_algorithm(t) == *algorithm && forall|i: int|
                0 <= i < messages@.len() ==> proof_root(#[trigger] r->Ok_0@[i].1) == tree_root(t),
{
    let n = messages.len();
    if n == 0 {
        return Err(SigningError::TreeConstructionFailed);
    }
    let ghost keys0 = keys@;
    let mut pub_keys: Vec<PublicKey> = Vec::new();
    let mut i: usize = 0;
    while i < n
        invariant
            n == keys@.len(),
            keys@ == keys0,
            i <= n,
            pub_keys@ == public_keys(keys0).subrange(0, i as int),
            forall|k: int|
                0 <= k < i ==> public_key_algorithm(#[trigger] public_of(keys0[k]))
                    == key_algorithm(keys0[k]),
        decreases n - i,
    {
        pub_keys.push(public_key_of(&keys[i]));
        proof {
            assert(pub_keys@ =~= public_keys(keys0).subrange(0, i + 1));
        }
        i += 1;
    }
    proof {
        assert(pub_keys@ =~= public_keys(keys0));
    }
    if !keys_distinct(&pub_keys) {
        return Err(SigningError::ProofGenerationFailed);
    }
    let mut leaves: Vec<MerklePublicKey> = Vec::new();
    let mut i: usize = 0;
    while i < n
        invariant
            n == pub_keys@.len(),
            pub_keys@ == public_keys(keys0),
            n == keys0.len(),
            i <= n,
            leaves@ == leaves_of(keys0).subrange(0, i as int),
        decreases n - i,
    {
        leaves.push(MerklePublicKey::new(pub_keys[i].clone()));
        proof {
            assert(leaves@ =~= leaves_of(keys0).subrange(0, i + 1));
        }
        i += 1;
    }
    proof {
        assert(leaves@ =~= leaves_of(keys0));
    }
    let tree = build_tree(algorithm, leaves);
    let mut proofs: Vec<Option<Proof<MerklePublicKey>>> = Vec::new();
    let mut i: usize = 0;
    while i < n
        invariant
            n == pub_keys@.len(),
            pub_keys@ == public_keys(keys0),
            n == keys0.len(),
            tree_leaves(tree) == leaves_of(keys0),
            tree_algorithm(tree) == *algorithm,
            i <= n,
            proofs@.len() == i,
            forall|k: int|
                0 <= k < i ==> #[trigger] proofs@[k] is Some && proof_root(proofs@[k]->Some_0)
                    == tree_root(tree) && proof_leaf(proofs@[k]->Some_0) == leaves_of(keys0)[k]
                    && proof_valid(proofs@[k]->Some_0, tree_root(tree)) && proof_algorithm(
                    proofs@[k]->Some_0,
                ) == *algorithm,
        decreases n - i,
    {
        let leaf = MerklePublicKey::new(pub_keys[i].clone());
        assert(tree_leaves(tree)[i as int] == leaf);
        let p = gen_proof(&tree, leaf);
        proofs.push(p);
        i += 1;
    }
    let mut keys = keys;
    let mut signatures: Vec<Result<LamportSignatureData, &'static str>> = Vec::new();
    let mut i: usize = 0;
    while i < n
        invariant
            n == keys0.len(),
            n == messages@.len(),
            i <= n,
            keys@ == keys0.subrange(i as int, n as int),
            signatures@.len() == i,
            forall|k: int|
                0 <= k < i ==> (#[trigger] signatures@[k] is Ok <==> key_unused(keys0[k])) && (
                signatures@[k] is Ok ==> lamport_valid(
                    public_of(keys0[k]),
                    signatures@[k]->Ok_0@,
                    messages@[k]@,
                )),
        decreases n - i,
    {
        let sk = keys.remove(0);
        assert(sk == keys0[i as int]);
        signatures.push(sign_once(sk, messages[i].as_slice()));
        proof {
            assert(keys@ =~= keys0.subrange(i + 1, n as int));
        }
        i += 1;
    }
    proof {
        assert(all_present(proofs@));
    }
    let r = assemble_entries(signatures, proofs);
    proof {
        if all_unused(keys0) {
            assert(all_signed(signatures@));
        } else {
            let k = choose|k: int| 0 <= k < n && !key_unused(#[trigger] keys0[k]);
            assert(signatures@[k] is Err);
        }
        if r is Ok {
            let v = r->Ok_0@;
            let msgs = message_views(messages@);
            assert forall|a: int, b: int|
                0 <= a < n && 0 <= b < n && a != b implies proof_leaf(#[trigger] v[a].1)
                != proof_leaf(#[trigger] v[b].1) by {
                assert(public_keys(keys0)[a] != public_keys(keys0)[b]);
            }
            assert forall|a: int| 0 <= a < n implies lamport_valid(
                proof_leaf(#[trigger] v[a].1).key,
                v[a].0@,
                msgs[a],
            ) by {
                assert(signatures@[a] is Ok);
            }
            assert(signed_batch(v, msgs));
            assert(tree_leaves(tree) == leaves_of(keys0));
        }
    }
    r
}

/// Signs each entry of `data` with a fresh one-time key, and binds the keys
/// together in one Merkle tree built with `algorithm`. Entry `i` of the result
/// is the signature of `data[i]` and the inclusion proof of its key. Each
/// private key signs one message and is dropped. An empty batch has no tree
/// and is refused; the only other failure is two fresh keys that coincide.
/// The bytes of a generic `T` have no name here, so what ties entry `i` to
/// `data[i]` is stated by `sign_with_keys`, which this calls on those bytes.
pub fn sign_data_vec<T: AsRef<[u8]>>(data: &[T], algorithm: &'static Algorithm) -> (r: Result<
    Vec<MerkleSignature>,
    SigningError,
>)
    ensures
        data@.len() == 0 <==> r == Err::<Vec<MerkleSignature>, SigningError>(
            SigningError::TreeConstructionFailed,
        ),
        data@.len() > 0 && r is Err ==> r == Err::<Vec<MerkleSignature>, SigningError>(
            SigningError::ProofGenerationFailed,
        ),
        r is Ok ==> r->Ok_0@.len() == data@.len(),
        r is Ok ==> exists|messages: Seq<Seq<u8>>| signed_batch(r->Ok_0@, messages),
        r is Ok ==> shares_root(r->Ok_0@),
        r is Ok ==> leaves_distinct(r->Ok_0@),
        r is Ok ==> proofs_validate(r->Ok_0@),
        r is Ok ==> forall|i: int|
            0 <= i < data@.len() ==> proof_algorithm(#[trigger] r->Ok_0@[i].1) == *algorithm,
        r is Ok ==> forall|i: int|
            0 <= i < data@.len() ==> public_key_algorithm(
                proof_leaf(#[trigger] r->Ok_0@[i].1).key,
            ) == *algorithm,
        r is Ok ==> exists|t: MerkleTree<MerklePublicKey>|
            tree_algorithm(t) == *algorithm && tree_leaves(t) == r->Ok_0@.map_values(
                |e: MerkleSignature| proof_leaf(e.1),
            ) && forall|i: int|
                0 <= i < data@.len() ==> proof_root(#[trigger] r->Ok_0@[i].1) == tree_root(t),
        data@.len() > 0 && r is Err ==> exists|keys: Seq<PrivateKey>|
            keys.len() == data@.len() && all_unused(keys) && !keys_pairwise_distinct(
                public_keys(keys),
            ),
{
    let n = data.len();
    if n == 0 {
        return Err(SigningError::TreeConstructionFailed);
    }
    let mut keys: Vec<PrivateKey> = Vec::new();
    let mut messages: Vec<Vec<u8>> = Vec::new();
    let mut i: usize = 0;
    while i < n
        invariant
            n == data@.len(),
            i <= n,
            keys@.len() == i,
            messages@.len() == i,
            all_unused(keys@),
            forall|k: int| 0 <= k < i ==> key_algorithm(#[trigger] keys@[k]) == *algorithm,
        decreases n - i,
    {
        keys.push(generate_private_key(algorithm));
        messages.push(message_bytes(&data[i]));
        i += 1;
    }
    let ghost keys0 = keys@;
    let r = sign_with_keys(keys, &messages, algorithm);
    proof {
        if r is Ok {
            let v = r->Ok_0@;
            assert(signed_batch(v, message_views(messages@)));
            let t = choose|t: MerkleTree<MerklePublicKey>|
                tree_leaves(t) == leaves_of(keys0) && tree_algorithm(t) == *algorithm && forall|
                    i: int,
                | 0 <= i < n ==> proof_root(#[trigger] v[i].1) == tree_root(t);
            assert(tree_leaves(t) =~= v.map_values(|e: MerkleSignature| proof_leaf(e.1)));
        } else {
            assert(keys0.len() == data@.len() && all_unused(keys0) && !keys_pairwise_distinct(
                public_keys(keys0),
            ));
        }
    }
    r
}

/// The error of a verification whose two checks came out as given: the
/// inclusion proof is reported first; none if both hold.
pub fn verif_error(valid_root: bool, valid_sig: bool) -> (r: Option<VerificationError>)
    ensures
        !valid_root ==> r == Some(VerificationError::InclusionProofInvalid),
        valid_root && !valid_sig ==> r == Some(VerificationError::SignatureInvalid),
        valid_root && valid_sig ==> r is None,
{
    if !valid_root {
        Some(VerificationError::InclusionProofInvalid)
    } else if !valid_sig {
        Some(VerificationError::SignatureInvalid)
    } else {
        None
    }
}

/// Verifies the bytes of a message against a Merkle signature and a trusted
/// root hash: the proof must validate against `root_hash`, and the signature
/// must verify under the key that the proof attests. Both checks are made.
pub fn verify_message(message: &[u8], signature: &MerkleSignature, root_hash: &[u8]) -> (r: Result<
    (),
    VerificationError,
>)
    ensures
        r is Ok <==> verification_succeeds(*signature, message@, root_hash@),
        !proof_valid(signature.1, root_hash@) ==> r == Err::<(), VerificationError>(
            VerificationError::InclusionProofInvalid,
        ),
        proof_valid(signature.1, root_hash@) && !lamport_valid(
            proof_leaf(signature.1).key,
            signature.0@,
            message@,
        ) ==> r == Err::<(), VerificationError>(VerificationError::SignatureInvalid),
        proof_root(signature.1) != root_hash@ ==> r == Err::<(), VerificationError>(
            VerificationError::InclusionProofInvalid,
        ),
{
    let valid_root = proof_validates(&signature.1, root_hash);
    let leaf = proof_value(&signature.1);
    let valid_sig = signature_verifies(&leaf.key, signature.0.as_slice(), message);
    match verif_error(valid_root, valid_sig) {
        Some(e) => Err(e),
        None => Ok(()),
    }
}

/// Verifies `data` against a Merkle signature and a trusted root hash, as
/// `verify_message` does on the bytes that `data` converts into; when it
/// succeeds is stated there, over those bytes.
pub fn verify_data_vec_signature<T: Into<Vec<u8>>>(
    data: T,
    signature: &MerkleSignature,
    root_hash: &[u8],
) -> (r: Result<(), VerificationError>)
    ensures
        r is Ok ==> exists|message: Seq<u8>| verification_succeeds(*signature, message, root_hash@),
        !proof_valid(signature.1, root_hash@) ==> r == Err::<(), VerificationError>(
            VerificationError::InclusionProofInvalid,
        ),
        proof_valid(signature.1, root_hash@) ==> r != Err::<(), VerificationError>(
            VerificationError::InclusionProofInvalid,
        ),
        proof_root(signature.1) != root_hash@ ==> r == Err::<(), VerificationError>(
            VerificationError::InclusionProofInvalid,
        ),
{
    let data_vec: Vec<u8> = data.into();
    verify_message(data_vec.as_slice(), signature, root_hash)
}

/// Signing then verifying round-trips: in a signed batch, message `i` verifies
/// against entry `i` and the root hash of any entry of the batch.
pub proof fn lemma_round_trip(entries: Seq<MerkleSignature>, messages: Seq<Seq<u8>>, i: int, j: int)
    requires
        signed_batch(entries, messages),
        0 <= i < entries.len(),
        0 <= j < entries.len(),
    ensures
        verification_succeeds(entries[i], messages[i], proof_root(entries[j].1)),
{
    assert(proof_root(entries[i].1) == proof_root(entries[j].1));
    assert(proof_valid(entries[i].1, proof_root(entries[i].1)));
}

impl From<MerklePublicKey> for Vec<u8> {
    /// The canonical encoding of the wrapped key.
    fn from(k: MerklePublicKey) -> (r: Vec<u8>) {
        public_key_bytes(&k.key)
    }
}

impl FromSpecImpl<MerklePublicKey> for Vec<u8> {
    open spec fn obeys_from_spec() -> bool {
        true
    }

    open spec fn from_spec(k: MerklePublicKey) -> Vec<u8> {
        key_bytes(k.key)
    }
}

} // verus!
