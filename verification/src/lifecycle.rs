//! The block lifecycle: begin -> deliver* -> end -> commit.
//!
//! `StarknetApp` owns the accumulator, the height store and the per-block
//! counters. The consensus engine drives it through exactly one block at a
//! time; admission checks are read-only and may run concurrently on other
//! lanes. Every state change is pinned by a contract: the accumulator only
//! grows on successfully validated applications, in application order, and
//! the height only advances by one per commit.

use vstd::prelude::*;
use crate::hashing::{AppHashAccumulator, accumulated, sha256_of};
use crate::height::{HeightStore, spec_encode_height, spec_decode_height};
use crate::tx::{Transaction, TransactionType, TransactionTypeView, ProtocolError, spec_decode};

verus! {

/// One indexable attribute of an emitted event.
pub struct EventAttribute {
    pub key: String,
    pub value: Vec<u8>,
    pub index: bool,
}

/// An event emitted while applying a transaction, for later indexing.
pub struct Event {
    pub kind: String,
    pub attributes: Vec<EventAttribute>,
}

/// Mathematical model of an event attribute.
#[verifier::ext_equal]
pub ghost struct EventAttributeView {
    pub key: Seq<char>,
    pub value: Seq<u8>,
    pub index: bool,
}

/// Mathematical model of an event.
#[verifier::ext_equal]
pub ghost struct EventView {
    pub kind: Seq<char>,
    pub attributes: Seq<EventAttributeView>,
}

impl View for EventAttribute {
    type V = EventAttributeView;

    open spec fn view(&self) -> EventAttributeView {
        EventAttributeView { key: self.key@, value: self.value@, index: self.index }
    }
}

impl View for Event {
    type V = EventView;

    open spec fn view(&self) -> EventView {
        EventView { kind: self.kind@, attributes: self.attributes@.map_values(|a: EventAttribute| a@) }
    }
}

/// The event that indexes an applied transaction by its hash.
pub open spec fn spec_index_event(hash: Seq<u8>) -> EventView {
    EventView {
        kind: "app"@,
        attributes: seq![EventAttributeView { key: "tx_id"@, value: hash, index: true }],
    }
}

/// The payload-variant-specific event naming the invoked entry point.
pub open spec fn spec_function_event(t: TransactionTypeView) -> EventView {
    match t {
        TransactionTypeView::FunctionExecution { function, .. } => EventView {
            kind: "function"@,
            attributes: seq![EventAttributeView { key: "function"@, value: function, index: true }],
        },
    }
}

/// Response to an application (DeliverTx) request.
pub struct DeliverTxResponse {
    pub code: u32,
    pub data: Vec<u8>,
    pub log: String,
    pub info: String,
    pub events: Vec<Event>,
}

/// Response to an admission (CheckTx) request.
pub struct CheckTxResponse {
    pub code: u32,
}

/// Response to an Info request.
pub struct InfoResponse {
    pub data: String,
    pub version: String,
    pub app_version: u64,
    pub last_block_height: u64,
    pub last_block_app_hash: Vec<u8>,
}

/// Response to a Query request; the query hook is an explicit
/// "not implemented" placeholder.
pub struct QueryResponse {
    pub code: u32,
    pub log: String,
    pub info: String,
}

/// Per-block observability metrics reported at end-block.
pub struct BlockMetrics {
    pub transactions: u64,
    pub elapsed_ms: u64,
    pub transactions_per_second: u64,
}

/// Result of a commit: the finalized state commitment, the retained-height
/// marker (zero: retain everything), and the height record the caller must
/// make durable before acknowledging the commit.
pub struct CommitResult {
    pub data: Vec<u8>,
    pub retain_height: u64,
    pub height_record: Vec<u8>,
}

/// Throughput in whole transactions per second, clamped to `u64`.
pub open spec fn spec_throughput(transactions: u64, elapsed_ms: u64) -> u64 {
    if elapsed_ms == 0 {
        0u64
    } else if transactions * 1000 / (elapsed_ms as int) > u64::MAX {
        u64::MAX
    } else {
        (transactions * 1000 / (elapsed_ms as int)) as u64
    }
}

/// The deterministic state machine the consensus engine drives.
pub struct StarknetApp {
    accumulator: AppHashAccumulator,
    heights: HeightStore,
    last_commitment: Vec<u8>,
    transactions: u64,
    block_start_ms: u64,
    block_begun: bool,
}

impl StarknetApp {
    /// All bytes folded into the application-state hash so far, in
    /// application order, across the whole chain's lifetime.
    pub closed spec fn folded(self) -> Seq<u8> {
        accumulated(self.accumulator)
    }

    /// The last committed height.
    pub closed spec fn height(self) -> u64 {
        self.heights.height()
    }

    /// Transactions applied successfully in the current block.
    pub closed spec fn tx_count(self) -> u64 {
        self.transactions
    }

    /// Wall-clock start of the current block, in milliseconds.
    pub closed spec fn block_start_ms(self) -> u64 {
        self.block_start_ms
    }

    /// Whether any block has begun since construction; the first
    /// begin-block has no previous block to measure against.
    pub closed spec fn block_begun(self) -> bool {
        self.block_begun
    }

    /// The last finalized commitment: what the most recent commit
    /// returned, or empty before the first commit.
    pub closed spec fn last_commitment(self) -> Seq<u8> {
        self.last_commitment@
    }

    /// Builds the application from the height record read back from durable
    /// storage (`None` if no record exists yet). A malformed record is a
    /// fatal inconsistency: guessing a height would fork the chain.
    pub fn new(stored: Option<&Vec<u8>>) -> (r: Result<StarknetApp, ProtocolError>)
        ensures
            match r {
                Ok(app) => {
                    &&& app.folded() == Seq::<u8>::empty()
                    &&& app.tx_count() == 0
                    &&& app.block_start_ms() == 0
                    &&& !app.block_begun()
                    &&& app.last_commitment() == Seq::<u8>::empty()
                    &&& match stored {
                        Option::None => app.height() == 0,
                        Option::Some(b) => spec_decode_height(b@) == Some(app.height()),
                    }
                },
                Err(e) => {
                    &&& stored is Some
                    &&& spec_decode_height(stored.unwrap()@) is None
                    &&& e == ProtocolError::MalformedHeightRecord
                },
            },
    {
        let heights = match HeightStore::read_or_initialize(stored) {
            Ok(h) => h,
            Err(e) => {
                return Err(e);
            },
        };
        Ok(StarknetApp {
            accumulator: AppHashAccumulator::new(),
            heights,
            last_commitment: Vec::new(),
            transactions: 0,
            block_start_ms: 0,
            block_begun: false,
        })
    }

    /// Reports the application identity, the last known height and the
    /// last known commitment — what the most recent commit returned, empty
    /// only before the first commit. The engine reads these at handshake
    /// to detect replay state.
    pub fn info(&self) -> (r: InfoResponse)
        ensures
            r.data@ == "cairo-app"@,
            r.version@ == "0.1.0"@,
            r.app_version == 1,
            r.last_block_height == self.height(),
            r.last_block_app_hash@ == self.last_commitment(),
    {
        InfoResponse {
            data: "cairo-app".to_owned(),
            version: "0.1.0".to_owned(),
            app_version: 1,
            last_block_height: self.heights.current(),
            last_block_app_hash: clone_bytes(&self.last_commitment),
        }
    }

    /// The query hook is a deliberate placeholder: it always reports
    /// "not implemented" with code 1 and never touches state.
    pub fn query(&self) -> (r: QueryResponse)
        ensures
            r.code == 1,
            r.log@ == "Error running query: Query hook needs implementation"@,
            r.info@ == "Error running query: Query hook needs implementation"@,
    {
        QueryResponse {
            code: 1,
            log: "Error running query: Query hook needs implementation".to_owned(),
            info: "Error running query: Query hook needs implementation".to_owned(),
        }
    }

    /// Advisory admission check: parses the wire bytes and accepts every
    /// well-formed transaction. Takes the state by shared reference, so it
    /// can never alter what a later commit produces. A malformed byte
    /// string is a fatal protocol defect, not a rejection.
    pub fn check_tx(&self, raw: &Vec<u8>) -> (r: Result<CheckTxResponse, ProtocolError>)
        ensures
            match r {
                Ok(resp) => spec_decode(raw@) is Some && resp.code == 0,
                Err(e) => spec_decode(raw@) is None && e == ProtocolError::MalformedTransaction,
            },
    {
        let tx = match crate::tx::decode_transaction(raw) {
            Ok(tx) => tx,
            Err(e) => {
                return Err(e);
            },
        };
        match &tx.transaction_type {
            TransactionType::FunctionExecution { .. } => Ok(CheckTxResponse { code: 0 }),
        }
    }

    /// Starts a block: fully resets the per-block counters and returns the
    /// elapsed wall time since the previous block start, for observability
    /// — zero for the very first block, which has no previous start.
    /// Touches neither the accumulator, the height nor the commitment.
    pub fn begin_block(&mut self, now_ms: u64) -> (elapsed: u64)
        ensures
            final(self).tx_count() == 0,
            final(self).block_start_ms() == now_ms,
            final(self).block_begun(),
            final(self).folded() == old(self).folded(),
            final(self).height() == old(self).height(),
            final(self).last_commitment() == old(self).last_commitment(),
            elapsed == if old(self).block_begun() && now_ms >= old(self).block_start_ms() {
                now_ms - old(self).block_start_ms()
            } else {
                0
            },
    {
        let elapsed = if self.block_begun && now_ms >= self.block_start_ms {
            now_ms - self.block_start_ms
        } else {
            0
        };
        self.transactions = 0;
        self.block_start_ms = now_ms;
        self.block_begun = true;
        elapsed
    }

    /// Applies one transaction. `recomputed` is the excluded validator's
    /// verdict on the payload: the canonical hash it recomputed, or its
    /// error. Exactly when the recomputed hash equals the claimed hash, the
    /// hash is folded into the accumulator, the per-block count grows by
    /// one, and the two indexing events are emitted; on any mismatch or
    /// validator failure the response carries code 1 and the state is left
    /// untouched. The height never changes here.
    pub fn deliver_tx(&mut self, tx: &Transaction, recomputed: &Result<Vec<u8>, String>) -> (r: DeliverTxResponse)
        requires
            old(self).tx_count() < u64::MAX,
        ensures
            final(self).height() == old(self).height(),
            final(self).block_start_ms() == old(self).block_start_ms(),
            final(self).block_begun() == old(self).block_begun(),
            final(self).last_commitment() == old(self).last_commitment(),
            match *recomputed {
                Ok(h) => if h@ == tx.transaction_hash@ {
                    &&& r.code == 0
                    &&& r.data@ == tx.transaction_hash@
                    &&& final(self).folded() == old(self).folded() + tx.transaction_hash@
                    &&& final(self).tx_count() == old(self).tx_count() + 1
                    &&& r.log@.len() == 0
                    &&& r.info@.len() == 0
                    &&& r.events@.len() == 2
                    &&& r.events@[0]@ == spec_index_event(tx.transaction_hash@)
                    &&& r.events@[1]@ == spec_function_event(tx.transaction_type@)
                } else {
                    &&& r.code == 1
                    &&& r.log@ == "Error delivering transaction. Integrity check failed."@
                    &&& r.info@ == "Error delivering transaction. Integrity check failed."@
                    &&& r.data@.len() == 0
                    &&& r.events@.len() == 0
                    &&& final(self).folded() == old(self).folded()
                    &&& final(self).tx_count() == old(self).tx_count()
                },
                Err(msg) => {
                    &&& r.code == 1
                    &&& r.log@ == msg@
                    &&& r.info@ == msg@
                    &&& r.data@.len() == 0
                    &&& r.events@.len() == 0
                    &&& final(self).folded() == old(self).folded()
                    &&& final(self).tx_count() == old(self).tx_count()
                },
            },
    {
        match recomputed {
            Ok(h) => {
                let equal = bytes_equal(h, &tx.transaction_hash);
                if equal {
                    self.accumulator.fold(&tx.transaction_hash);
                    self.transactions = self.transactions + 1;
                    let index_event = Event {
                        kind: "app".to_owned(),
                        attributes: vec![EventAttribute {
                            key: "tx_id".to_owned(),
                            value: clone_bytes(&tx.transaction_hash),
                            index: true,
                        }],
                    };
                    let function_event = match &tx.transaction_type {
                        TransactionType::FunctionExecution { function, .. } => Event {
                            kind: "function".to_owned(),
                            attributes: vec![EventAttribute {
                                key: "function".to_owned(),
                                value: clone_bytes(function),
                                index: true,
                            }],
                        },
                    };
                    let events = vec![index_event, function_event];
                    let r = DeliverTxResponse {
                        code: 0,
                        data: clone_bytes(&tx.transaction_hash),
                        log: String::new(),
                        info: String::new(),
                        events,
                    };
                    proof {
                        assert(r.events@[0]@ =~= spec_index_event(tx.transaction_hash@));
                        assert(r.events@[1]@ =~= spec_function_event(tx.transaction_type@));
                    }
                    r
                } else {
                    DeliverTxResponse {
                        code: 1,
                        data: Vec::new(),
                        log: "Error delivering transaction. Integrity check failed.".to_owned(),
                        info: "Error delivering transaction. Integrity check failed.".to_owned(),
                        events: Vec::new(),
                    }
                }
            },
            Err(msg) => DeliverTxResponse {
                code: 1,
                data: Vec::new(),
                log: msg.clone(),
                info: msg.clone(),
                events: Vec::new(),
            },
        }
    }

    /// Reports the per-block metrics: transactions applied, elapsed wall
    /// time, and derived throughput. Mutates nothing.
    pub fn end_block(&self, now_ms: u64) -> (m: BlockMetrics)
        ensures
            m.transactions == self.tx_count(),
            m.elapsed_ms == if now_ms >= self.block_start_ms() {
                now_ms - self.block_start_ms()
            } else {
                0
            },
            m.transactions_per_second == spec_throughput(m.transactions, m.elapsed_ms),
    {
        let elapsed_ms = if now_ms >= self.block_start_ms {
            now_ms - self.block_start_ms
        } else {
            0
        };
        let transactions_per_second = if elapsed_ms == 0 {
            0
        } else {
            let wide: u128 = (self.transactions as u128) * 1000 / (elapsed_ms as u128);
            if wide > u64::MAX as u128 {
                u64::MAX
            } else {
                wide as u64
            }
        };
        BlockMetrics { transactions: self.transactions, elapsed_ms, transactions_per_second }
    }

    /// Finalizes the block: the commitment is the digest of every hash
    /// folded so far (the accumulator is not reset), it is recorded as the
    /// last known commitment that `info` reports, and the height advances
    /// by exactly one — the only place it ever changes. The returned height
    /// record must be persisted by the caller. Exclusive access to the
    /// accumulator comes with `&mut self`, so there is no degraded path
    /// that could pass off an empty commitment as "nothing applied": every
    /// commit returns the true digest.
    pub fn commit(&mut self) -> (r: CommitResult)
        requires
            old(self).height() < u64::MAX,
        ensures
            r.data@ == sha256_of(old(self).folded()),
            r.retain_height == 0,
            final(self).folded() == old(self).folded(),
            final(self).height() == old(self).height() + 1,
            r.height_record@ == spec_encode_height(final(self).height()),
            final(self).last_commitment() == r.data@,
            final(self).tx_count() == old(self).tx_count(),
            final(self).block_start_ms() == old(self).block_start_ms(),
            final(self).block_begun() == old(self).block_begun(),
    {
        let data = self.accumulator.finalize_snapshot();
        self.last_commitment = clone_bytes(&data);
        let (_new_height, height_record) = self.heights.increment_and_persist();
        CommitResult { data, retain_height: 0, height_record }
    }

    /// The current height, for read-only callers.
    pub fn current_height(&self) -> (h: u64)
        ensures
            h == self.height(),
    {
        self.heights.current()
    }

    /// Transactions applied so far in the current block, for callers that
    /// must respect `deliver_tx`'s counter bound.
    pub fn current_tx_count(&self) -> (c: u64)
        ensures
            c == self.tx_count(),
    {
        self.transactions
    }

    /// The record bytes that make the current height durable; what a fresh
    /// deployment writes to initialize storage.
    pub fn height_record(&self) -> (out: Vec<u8>)
        ensures
            out@ == spec_encode_height(self.height()),
    {
        self.heights.encode_record()
    }
}

/// Byte-for-byte equality of two byte vectors.
pub fn bytes_equal(a: &Vec<u8>, b: &Vec<u8>) -> (r: bool)
    ensures
        r == (a@ == b@),
{
    if a.len() != b.len() {
        proof {
            assert(a@ != b@);
        }
        return false;
    }
    let n = a.len();
    let mut i: usize = 0;
    while i < n
        invariant
            n == a@.len(),
            n == b@.len(),
            i <= n,
            forall|j: int| 0 <= j < i ==> a@[j] == b@[j],
        decreases n - i,
    {
        if a[i] != b[i] {
            return false;
        }
        i = i + 1;
    }
    proof {
        assert(a@ =~= b@);
    }
    true
}

/// A copy of a byte vector with the same contents.
pub fn clone_bytes(b: &Vec<u8>) -> (out: Vec<u8>)
    ensures
        out@ == b@,
{
    let mut out: Vec<u8> = Vec::new();
    let n = b.len();
    let mut i: usize = 0;
    while i < n
        invariant
            n == b@.len(),
            i <= n,
            out@ == b@.subrange(0, i as int),
        decreases n - i,
    {
        out.push(b[i]);
        proof {
            assert(out@ =~= b@.subrange(0, i + 1 as int));
        }
        i = i + 1;
    }
    proof {
        assert(out@ =~= b@);
    }
    out
}

} // verus!
