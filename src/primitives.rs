//! The outside types this library works with, and the calls into lamport_sigs,
//! merkle and ring that its logic makes.

use vstd::prelude::*;

use crate::signatures::MerklePublicKey;
use crate::signatures::LamportSignatureData;
use lamport_sigs::{PrivateKey, PublicKey};
use merkle::{Hashable, MerkleTree, Proof};
use ring::digest::{Algorithm, Context};

verus! {

#[verifier::external_type_specification]
#[verifier::external_body]
pub struct ExAlgorithm(Algorithm);

#[verifier::external_type_specification]
#[verifier::external_body]
pub struct ExContext(Context);

#[verifier::external_type_specification]
#[verifier::external_body]
pub struct ExPublicKey(PublicKey);

#[verifier::external_type_specification]
#[verifier::external_body]
pub struct ExPrivateKey(PrivateKey);

#[verifier::external_type_specification]
#[verifier::external_body]
#[verifier::reject_recursive_types(T)]
pub struct ExMerkleTree<T>(MerkleTree<T>);

#[verifier::external_type_specification]
#[verifier::external_body]
#[verifier::reject_recursive_types(T)]
pub struct ExProof<T>(Proof<T>);

/// The root hash that a tree of wrapped keys holds.
pub uninterp spec fn tree_root(t: MerkleTree<MerklePublicKey>) -> Seq<u8>;

/// The `root_hash` field of an inclusion proof.
pub uninterp spec fn proof_root(p: Proof<MerklePublicKey>) -> Seq<u8>;

/// The `value` field of an inclusion proof: the leaf it attests to.
pub uninterp spec fn proof_leaf(p: Proof<MerklePublicKey>) -> MerklePublicKey;

/// Whether `merkle::Proof::validate` accepts a proof against a root hash.
pub uninterp spec fn proof_valid(p: Proof<MerklePublicKey>, root_hash: Seq<u8>) -> bool;

/// The leaves that a tree of wrapped keys was built over, in order.
pub uninterp spec fn tree_leaves(t: MerkleTree<MerklePublicKey>) -> Seq<MerklePublicKey>;

/// The hash algorithm that a tree of wrapped keys was built with.
pub uninterp spec fn tree_algorithm(t: MerkleTree<MerklePublicKey>) -> Algorithm;

/// The `algorithm` field of an inclusion proof.
pub uninterp spec fn proof_algorithm(p: Proof<MerklePublicKey>) -> Algorithm;

/// The running digest that `Context::update` leaves after feeding `bytes`.
pub uninterp spec fn context_fed(c: Context, bytes: Seq<u8>) -> Context;

/// The hash algorithm that a Lamport private key was generated with.
pub uninterp spec fn key_algorithm(sk: PrivateKey) -> Algorithm;

/// The hash algorithm that a Lamport public key belongs to.
pub uninterp spec fn public_key_algorithm(pk: PublicKey) -> Algorithm;

/// Whether a Lamport private key has not signed yet.
pub uninterp spec fn key_unused(sk: PrivateKey) -> bool;

/// The public key that `PrivateKey::public_key` derives from a private key.
pub uninterp spec fn public_of(sk: PrivateKey) -> PublicKey;

/// Whether `PublicKey::verify_signature` accepts a signature of a message.
pub uninterp spec fn lamport_valid(pk: PublicKey, signature: Seq<Vec<u8>>, message: Seq<u8>) -> bool;

/// The canonical encoding that `PublicKey::to_bytes` gives.
pub uninterp spec fn key_bytes(pk: PublicKey) -> Vec<u8>;

/// Relies on `lamport_sigs::PrivateKey::new`: a fresh random one-time key for
/// `algorithm`, not used yet. It panics only where the operating system's
/// random source fails, which no argument causes.
#[verifier::external_body]
pub(crate) fn generate_private_key(algorithm: &'static Algorithm) -> (r: PrivateKey)
    ensures
        key_unused(r),
        key_algorithm(r) == *algorithm,
{
    PrivateKey::new(algorithm)
}

/// Relies on `lamport_sigs::PrivateKey::public_key`, which keeps the private
/// key's algorithm.
#[verifier::external_body]
pub(crate) fn public_key_of(sk: &PrivateKey) -> (r: PublicKey)
    ensures
        r == public_of(*sk),
        public_key_algorithm(r) == key_algorithm(*sk),
{
    sk.public_key()
}

/// Relies on `lamport_sigs::PrivateKey::sign`. The key is taken by value, so
/// that it signs one message and is then dropped. It fails only on a used
/// key; the signature reveals, for each bit of the message digest, the secret
/// whose hash the public key holds, so `verify_signature` accepts it.
#[verifier::external_body]
pub(crate) fn sign_once(sk: PrivateKey, message: &[u8]) -> (r: Result<
    LamportSignatureData,
    &'static str,
>)
    ensures
        key_unused(sk) ==> r is Ok,
        !key_unused(sk) ==> r is Err,
        r is Ok ==> lamport_valid(public_of(sk), r->Ok_0@, message@),
{
    let mut sk = sk;
    sk.sign(message)
}

/// Relies on `lamport_sigs::PublicKey::verify_signature`: its answer depends
/// on the key, the signature and the message alone.
#[verifier::external_body]
pub(crate) fn signature_verifies(pk: &PublicKey, signature: &[Vec<u8>], message: &[u8]) -> (r:
    bool)
    ensures
        r == lamport_valid(*pk, signature@, message@),
{
    pk.verify_signature(signature, message)
}

/// Relies on lamport_sigs' `PartialEq` for `PublicKey`, which compares the
/// algorithm and all key material: true exactly on equal keys.
#[verifier::external_body]
pub(crate) fn same_public_key(a: &PublicKey, b: &PublicKey) -> (r: bool)
    ensures
        r == (*a == *b),
{
    a == b
}

/// Relies on the derived `Clone` of `lamport_sigs::PublicKey`, which copies
/// every field: an equal key.
pub assume_specification[ <PublicKey as Clone>::clone ](pk: &PublicKey) -> (r: PublicKey)
    ensures
        r == *pk,
;

/// Relies on `lamport_sigs::PublicKey::to_bytes`: the key's canonical encoding.
#[verifier::external_body]
pub(crate) fn public_key_bytes(pk: &PublicKey) -> (r: Vec<u8>)
    ensures
        r == key_bytes(*pk),
{
    pk.to_bytes()
}

/// Relies on `ring::digest::Context::update`: feeds `bytes` into the running
/// digest; the new state depends on the old one and the bytes alone.
#[verifier::external_body]
pub(crate) fn feed_context(context: &mut Context, bytes: &[u8])
    ensures
        *final(context) == context_fed(*old(context), bytes@),
{
    context.update(bytes)
}

/// Relies on `AsRef<[u8]>` of the message type: a copy of its bytes.
#[verifier::external_body]
pub(crate) fn message_bytes<T: AsRef<[u8]>>(message: &T) -> (r: Vec<u8>) {
    message.as_ref().to_vec()
}

/// Relies on `merkle::MerkleTree::from_vec`: the tree over `leaves`, in order,
/// which keeps `algorithm`.
#[verifier::external_body]
pub(crate) fn build_tree(algorithm: &'static Algorithm, leaves: Vec<MerklePublicKey>) -> (r:
    MerkleTree<MerklePublicKey>)
    ensures
        tree_leaves(r) == leaves@,
        tree_algorithm(r) == *algorithm,
{
    MerkleTree::from_vec(algorithm, leaves)
}

/// Relies on `merkle::MerkleTree::gen_proof`, which builds its proof with
/// `Proof::new(self.algorithm, root_hash, lemma, value)`: the tree's algorithm,
/// its root hash and the very leaf asked for. A leaf of the tree hashes to one of its leaf
/// hashes, so a proof is found; its lemma is the path of node hashes that the
/// tree was built from, so it validates against the tree's root hash.
#[verifier::external_body]
pub(crate) fn gen_proof(tree: &MerkleTree<MerklePublicKey>, leaf: MerklePublicKey) -> (r: Option<
    Proof<MerklePublicKey>,
>)
    ensures
        r is Some ==> proof_root(r->Some_0) == tree_root(*tree),
        r is Some ==> proof_leaf(r->Some_0) == leaf,
        r is Some ==> proof_algorithm(r->Some_0) == tree_algorithm(*tree),
        r is Some ==> proof_valid(r->Some_0, tree_root(*tree)),
        tree_leaves(*tree).contains(leaf) ==> r is Some,
{
    tree.gen_proof(leaf)
}

/// Relies on `merkle::Proof::validate`: its answer depends on the proof and the
/// root hash alone, and it returns false at once when the proof's `root_hash`
/// differs from the one given.
#[verifier::external_body]
pub(crate) fn proof_validates(proof: &Proof<MerklePublicKey>, root_hash: &[u8]) -> (r: bool)
    ensures
        r == proof_valid(*proof, root_hash@),
        r ==> proof_root(*proof) == root_hash@,
{
    proof.validate(root_hash)
}

/// Relies on the public `value` field of `merkle::Proof`.
#[verifier::external_body]
pub(crate) fn proof_value(proof: &Proof<MerklePublicKey>) -> (r: &MerklePublicKey)
    ensures
        *r == proof_leaf(*proof),
{
    &proof.value
}

// The tree hashes a leaf key through its canonical byte encoding.
impl Hashable for MerklePublicKey {
    fn update_context(&self, context: &mut Context)
        ensures
            *final(context) == context_fed(*old(context), key_bytes(self.key)@),
    {
        let bytes = public_key_bytes(&self.key);
        feed_context(context, bytes.as_slice());
    }
}

} // verus!
