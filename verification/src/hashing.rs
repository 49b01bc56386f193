//! The incremental application-state hash.
//!
//! `AppHashAccumulator` owns a running SHA-256 state. Its mathematical view is
//! the sequence of all bytes folded in so far; the finalized snapshot is the
//! digest of exactly that sequence. The accumulator is cumulative over the
//! whole chain's lifetime: nothing is ever un-folded and nothing resets it.

use vstd::prelude::*;

verus! {

/// The SHA-256 digest of a byte sequence. The digest is a function of the
/// input bytes alone, identical across processes and machines; nothing more
/// is assumed of it here.
pub uninterp spec fn sha256_of(data: Seq<u8>) -> Seq<u8>;

/// All bytes folded into an accumulator so far, in fold order.
pub uninterp spec fn accumulated(acc: AppHashAccumulator) -> Seq<u8>;

/// Incremental, order-sensitive digest of applied transaction hashes.
/// Holds the hasher state of the `sha2` crate; Verus sees it only through
/// `accumulated`.
#[verifier::external_body]
#[derive(Debug)]
pub struct AppHashAccumulator {
    hasher: sha2::Sha256,
}

impl AppHashAccumulator {
    /// Relies on `sha2::Sha256::new` (`Digest::new`): a fresh hasher has
    /// absorbed no bytes.
    #[verifier::external_body]
    pub fn new() -> (acc: AppHashAccumulator)
        ensures
            accumulated(acc) == Seq::<u8>::empty(),
    {
        AppHashAccumulator { hasher: <sha2::Sha256 as sha2::Digest>::new() }
    }

    /// Relies on `Digest::update`: absorbing bytes appends them to the
    /// hasher's input stream.
    #[verifier::external_body]
    pub fn fold(&mut self, hash_bytes: &Vec<u8>)
        ensures
            accumulated(*final(self)) == accumulated(*old(self)) + hash_bytes@,
    {
        sha2::Digest::update(&mut self.hasher, hash_bytes.as_slice());
    }

    /// Relies on `Sha256::clone` and `Digest::finalize`: the digest of a
    /// clone is the SHA-256 of every byte absorbed so far, 32 bytes long,
    /// and the accumulator itself is left untouched.
    #[verifier::external_body]
    pub fn finalize_snapshot(&self) -> (digest: Vec<u8>)
        ensures
            digest@ == sha256_of(accumulated(*self)),
            digest@.len() == 32,
    {
        sha2::Digest::finalize(self.hasher.clone()).as_slice().to_vec()
    }
}

} // verus!
