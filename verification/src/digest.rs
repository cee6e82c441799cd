use sha2::{Digest, Sha256};
use vstd::prelude::*;

verus! {

/// The SHA-256 digest of a sequence of bytes.
pub uninterp spec fn sha256_digest(bytes: Seq<u8>) -> Seq<u8>;

/// `Sha256::digest` hashes the bytes, and nothing but the bytes, to 32 bytes.
#[verifier::external_body]
pub(crate) fn sha256(bytes: &[u8]) -> (result: Vec<u8>)
    ensures
        result@ == sha256_digest(bytes@),
        result@.len() == 32,
{
    Sha256::digest(bytes).to_vec()
}

/// A SHA-256 computation over bytes that come piece by piece.
#[verifier::external_body]
pub struct ByteHasher {
    state: Sha256,
}

/// The bytes that a computation has taken in.
pub uninterp spec fn absorbed(hasher: ByteHasher) -> Seq<u8>;

/// `Sha256::new` starts a computation that has taken in nothing.
#[verifier::external_body]
pub(crate) fn start_hash() -> (result: ByteHasher)
    ensures
        absorbed(result) == Seq::<u8>::empty(),
{
    ByteHasher { state: Sha256::new() }
}

/// `Digest::update` takes in the bytes behind those that came before.
#[verifier::external_body]
pub(crate) fn absorb(hasher: &mut ByteHasher, bytes: &[u8])
    ensures
        absorbed(*final(hasher)) == absorbed(*old(hasher)) + bytes@,
{
    hasher.state.update(bytes);
}

/// `Digest::finalize` gives the digest of all bytes taken in, the one that `Sha256::digest` gives
/// of them at once.
#[verifier::external_body]
pub(crate) fn finish_hash(hasher: ByteHasher) -> (result: [u8; 32])
    ensures
        result@ == sha256_digest(absorbed(hasher)),
{
    hasher.state.finalize().into()
}

/// Tests whether two sequences of bytes are the same.
pub fn same_bytes(left: &[u8], right: &[u8]) -> (result: bool)
    ensures
        result == (left@ == right@),
{
    if left.len() != right.len() {
        return false;
    }
    let mut i: usize = 0;
    while i < left.len()
        invariant
            i <= left@.len(),
            left@.len() == right@.len(),
            forall|j: int| 0 <= j < i ==> left@[j] == right@[j],
        decreases left@.len() - i,
    {
        if left[i] != right[i] {
            return false;
        }
        i = i + 1;
    }
    assert(left@ =~= right@);
    true
}

/// Tests whether two SHA-256 digests are the same.
pub fn same_digest(left: &[u8; 32], right: &[u8; 32]) -> (result: bool)
    ensures
        result == (left@ == right@),
{
    let mut i: usize = 0;
    while i < 32
        invariant
            i <= 32,
            forall|j: int| 0 <= j < i ==> left@[j] == right@[j],
        decreases 32 - i,
    {
        if left[i] != right[i] {
            return false;
        }
        i = i + 1;
    }
    assert(left@ =~= right@);
    true
}

/// The digest that 32 bytes make.
pub fn digest_from_bytes(bytes: &Vec<u8>) -> (result: Option<[u8; 32]>)
    ensures
        match result {
            Some(digest) => bytes@.len() == 32 && digest@ == bytes@,
            None => bytes@.len() != 32,
        },
{
    if bytes.len() != 32 {
        return None;
    }
    let mut digest: [u8; 32] = [0u8; 32];
    let mut i: usize = 0;
    while i < 32
        invariant
            i <= 32,
            bytes@.len() == 32,
            forall|j: int| 0 <= j < i ==> digest@[j] == bytes@[j],
        decreases 32 - i,
    {
        digest[i] = bytes[i];
        i = i + 1;
    }
    assert(digest@ =~= bytes@);
    Some(digest)
}

} // verus!
