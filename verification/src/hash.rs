//! The SHA-256 hasher that folds sampled blocks into a digest.

use sha2::Digest;
use vstd::prelude::*;

verus! {

/// Number of bytes in a digest, and in one sample.
pub const HASH_BYTES: usize = 32;

/// How many bytes one hasher may absorb: the hash keeps its message length
/// as a count of bits in 64 bits.
pub const MAX_HASH_INPUT: u64 = 0x2000_0000_0000_0000;

#[verifier::external_type_specification]
#[verifier::external_body]
pub struct ExSha256(sha2::Sha256);

/// The bytes that a `sha2::Sha256` has absorbed so far, in order.
pub uninterp spec fn sha256_absorbed(state: sha2::Sha256) -> Seq<u8>;

/// The SHA-256 digest of a message, as `sha2` computes it.
pub uninterp spec fn sha256(message: Seq<u8>) -> Seq<u8>;

/// `sha2::Sha256::default`: a fresh state has absorbed nothing.
#[verifier::external_body]
fn sha256_new() -> (state: sha2::Sha256)
    ensures
        sha256_absorbed(state) == Seq::<u8>::empty(),
{
    sha2::Sha256::default()
}

/// `Digest::input` on `sha2::Sha256`: the bytes are appended to what the
/// state has absorbed. The total is kept below the bound at which the
/// state's bit counter would overflow.
#[verifier::external_body]
fn sha256_input(state: &mut sha2::Sha256, bytes: &[u8])
    requires
        sha256_absorbed(*old(state)).len() + bytes@.len() < MAX_HASH_INPUT,
    ensures
        sha256_absorbed(*final(state)) == sha256_absorbed(*old(state)) + bytes@,
{
    state.input(bytes);
}

/// `Digest::result` on `sha2::Sha256`: the 32 bytes returned are the
/// SHA-256 digest of everything the state absorbed.
#[verifier::external_body]
fn sha256_result(state: sha2::Sha256) -> (digest: [u8; 32])
    ensures
        digest@ == sha256(sha256_absorbed(state)),
{
    let out = state.result();
    let mut digest = [0u8; 32];
    digest.copy_from_slice(out.as_slice());
    digest
}

/// A running hash. Its view is the message absorbed so far.
pub struct Hasher {
    hasher: sha2::Sha256,
}

impl View for Hasher {
    type V = Seq<u8>;

    closed spec fn view(&self) -> Seq<u8> {
        sha256_absorbed(self.hasher)
    }
}

impl Hasher {
    /// A hasher that has absorbed nothing.
    pub fn new() -> (hasher: Hasher)
        ensures
            hasher@ == Seq::<u8>::empty(),
    {
        Hasher { hasher: sha256_new() }
    }

    /// Absorbs `val` after what was absorbed before.
    pub fn hash(&mut self, val: &[u8])
        requires
            old(self)@.len() + val@.len() < MAX_HASH_INPUT,
        ensures
            final(self)@ == old(self)@ + val@,
    {
        sha256_input(&mut self.hasher, val);
    }

    /// The digest of the absorbed message.
    pub fn result(self) -> (digest: [u8; 32])
        ensures
            digest@ == sha256(self@),
    {
        sha256_result(self.hasher)
    }
}

/// The digest of one message.
pub fn hash(val: &[u8]) -> (digest: [u8; 32])
    requires
        val@.len() < MAX_HASH_INPUT,
    ensures
        digest@ == sha256(val@),
{
    let mut hasher = Hasher::new();
    hasher.hash(val);
    proof {
        assert(Seq::<u8>::empty() + val@ =~= val@);
    }
    hasher.result()
}

} // verus!
