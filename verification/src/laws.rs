//! The library-wide laws relating the lifecycle operations.
//!
//! `deliver_tx` extends the folded history by exactly the applied
//! transaction's hash and `commit` returns the digest of the folded history,
//! so the laws here speak of fold sequences and close the gap between the
//! per-call contracts and the per-block guarantees.

use vstd::prelude::*;
use crate::hashing::sha256_of;

verus! {

/// The folded history after applying each hash in order, starting from
/// `init` — one `deliver_tx` fold per successfully validated transaction.
pub open spec fn spec_fold_hashes(init: Seq<u8>, hashes: Seq<Seq<u8>>) -> Seq<u8>
    decreases hashes.len(),
{
    if hashes.len() == 0 {
        init
    } else {
        spec_fold_hashes(init + hashes[0], hashes.drop_first())
    }
}

/// Law: delivering any sequence of valid transactions folds exactly the
/// concatenation of their canonical hashes, in delivery order, onto the
/// history — so the commitment the next commit returns is the digest of
/// that concatenation, independent of anything else the process does.
pub proof fn lemma_fold_is_concat(init: Seq<u8>, hashes: Seq<Seq<u8>>)
    ensures
        spec_fold_hashes(init, hashes) == init + hashes.flatten(),
    decreases hashes.len(),
{
    if hashes.len() == 0 {
        assert(init + hashes.flatten() =~= init);
    } else {
        lemma_fold_is_concat(init + hashes[0], hashes.drop_first());
        assert((init + hashes[0]) + hashes.drop_first().flatten() =~= init + (hashes[0]
            + hashes.drop_first().flatten()));
    }
}

/// Law: from genesis (nothing folded yet), the commitment after a block of
/// valid transactions is the digest of their hashes concatenated in
/// delivery order.
pub proof fn lemma_genesis_commitment(hashes: Seq<Seq<u8>>)
    ensures
        sha256_of(spec_fold_hashes(Seq::<u8>::empty(), hashes)) == sha256_of(hashes.flatten()),
{
    lemma_fold_is_concat(Seq::<u8>::empty(), hashes);
    assert(Seq::<u8>::empty() + hashes.flatten() =~= hashes.flatten());
}

/// Law: replaying the same ordered hashes on two instances with equal
/// folded histories yields equal histories and equal commitments — the
/// commitment is a function of the delivered hashes alone, with no hidden
/// input from the clock or from lane scheduling.
pub proof fn lemma_replay_determinism(init_a: Seq<u8>, init_b: Seq<u8>, hashes: Seq<Seq<u8>>)
    requires
        init_a == init_b,
    ensures
        spec_fold_hashes(init_a, hashes) == spec_fold_hashes(init_b, hashes),
        sha256_of(spec_fold_hashes(init_a, hashes)) == sha256_of(spec_fold_hashes(init_b, hashes)),
{
}

} // verus!
