//! The durable, strictly monotonic block-height counter.
//!
//! `HeightStore` owns the height value; the caller owns the storage medium.
//! Recovery takes the raw bytes read back from storage (or `None` if no
//! record exists yet) and either yields the recorded height or fails fatally
//! on a malformed record — a malformed record must never be mistaken for
//! genesis. Advancing yields the exact record bytes the caller must make
//! durable before acknowledging the commit.

use vstd::prelude::*;
use vstd::bytes::{spec_u64_to_le_bytes, spec_u64_from_le_bytes, u64_to_le_bytes, u64_from_le_bytes, lemma_auto_spec_u64_to_from_le_bytes};
use crate::tx::ProtocolError;

verus! {

/// Storage encoding of a height: exactly eight little-endian bytes.
pub open spec fn spec_encode_height(h: u64) -> Seq<u8> {
    spec_u64_to_le_bytes(h)
}

/// Parses a stored height record; `None` on any record that is not exactly
/// one encoded height.
pub open spec fn spec_decode_height(b: Seq<u8>) -> Option<u64> {
    if b.len() == 8 {
        Some(spec_u64_from_le_bytes(b))
    } else {
        None
    }
}

/// The height counter: zero at genesis, advanced by exactly one per commit,
/// never by anything else.
pub struct HeightStore {
    height: u64,
}

impl HeightStore {
    /// The height this store currently records.
    pub closed spec fn height(self) -> u64 {
        self.height
    }

    /// Recovers the height from the bytes read back from durable storage.
    /// No record yet means genesis (height zero); a record that does not
    /// parse is a fatal inconsistency, never silently treated as zero.
    pub fn read_or_initialize(stored: Option<&Vec<u8>>) -> (r: Result<HeightStore, ProtocolError>)
        ensures
            match r {
                Ok(s) => match stored {
                    Option::None => s.height() == 0,
                    Option::Some(b) => spec_decode_height(b@) == Some(s.height()),
                },
                Err(e) => {
                    &&& stored is Some
                    &&& spec_decode_height(stored.unwrap()@) is None
                    &&& e == ProtocolError::MalformedHeightRecord
                },
            },
    {
        match stored {
            Option::None => Ok(HeightStore { height: 0 }),
            Option::Some(b) => {
                if b.len() == 8 {
                    let h = u64_from_le_bytes(b.as_slice());
                    Ok(HeightStore { height: h })
                } else {
                    Err(ProtocolError::MalformedHeightRecord)
                }
            },
        }
    }

    /// The record bytes that make the current height durable.
    pub fn encode_record(&self) -> (out: Vec<u8>)
        ensures
            out@ == spec_encode_height(self.height()),
    {
        u64_to_le_bytes(self.height)
    }

    /// Advances the height by exactly one and returns the new height
    /// together with the record bytes the caller must persist.
    pub fn increment_and_persist(&mut self) -> (r: (u64, Vec<u8>))
        requires
            old(self).height() < u64::MAX,
        ensures
            final(self).height() == old(self).height() + 1,
            r.0 == final(self).height(),
            r.1@ == spec_encode_height(final(self).height()),
    {
        self.height = self.height + 1;
        let record = u64_to_le_bytes(self.height);
        (self.height, record)
    }

    /// The current height, for read-only queries.
    pub fn current(&self) -> (h: u64)
        ensures
            h == self.height(),
    {
        self.height
    }
}

/// Law: a persisted height record reads back as exactly the height that was
/// written — a restart recovers the last persisted height, never zero.
pub proof fn lemma_height_record_round_trip(h: u64)
    ensures
        spec_decode_height(spec_encode_height(h)) == Some(h),
{
    lemma_auto_spec_u64_to_from_le_bytes();
}

} // verus!
