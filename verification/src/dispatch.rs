//! The request dispatcher: a total function from protocol request to
//! protocol response.
//!
//! Recognized requests map to the block-lifecycle operations; every other
//! request kind (flow-control pings, chain initialization, state-sync
//! snapshots) is deliberately accepted with a default acknowledgement — the
//! consensus engine treats an error response to those as fatal.
//!
//! The application step for a transaction needs the excluded validator's
//! verdict, so a `DeliverTx` request carries the transaction already parsed
//! by [`crate::tx::decode_transaction`] together with that verdict; the
//! caller obtains both before dispatching.

use vstd::prelude::*;
use crate::hashing::sha256_of;
use crate::height::spec_encode_height;
use crate::lifecycle::{StarknetApp, InfoResponse, QueryResponse, CheckTxResponse, DeliverTxResponse, BlockMetrics, CommitResult, spec_index_event, spec_function_event, spec_throughput};
use crate::tx::{Transaction, ProtocolError, spec_decode};

verus! {

/// A protocol request, as the dispatcher sees it: wire bytes already read,
/// the clock already sampled, the validator already consulted.
pub enum Request {
    Info,
    Query,
    CheckTx { raw: Vec<u8> },
    BeginBlock { now_ms: u64 },
    DeliverTx { tx: Transaction, recomputed: Result<Vec<u8>, String> },
    EndBlock { now_ms: u64 },
    Commit,
    Flush,
    Echo,
    InitChain,
    ListSnapshots,
    OfferSnapshot,
    LoadSnapshotChunk,
    ApplySnapshotChunk,
    SetOption,
}

/// Response to a SetOption request: a fixed "not applicable" acknowledgement.
pub struct SetOptionResponse {
    pub code: u32,
    pub log: String,
    pub info: String,
}

/// The response paired with each request kind.
pub enum Response {
    Info(InfoResponse),
    Query(QueryResponse),
    CheckTx(CheckTxResponse),
    BeginBlock { elapsed_since_previous_ms: u64 },
    DeliverTx(DeliverTxResponse),
    EndBlock(BlockMetrics),
    Commit(CommitResult),
    Flush,
    Echo,
    InitChain,
    ListSnapshots,
    OfferSnapshot,
    LoadSnapshotChunk,
    ApplySnapshotChunk,
    SetOption(SetOptionResponse),
}

/// True when the two states agree on everything a request can observe or
/// change: the folded hash history, the height, and the per-block counters.
pub open spec fn same_state(a: StarknetApp, b: StarknetApp) -> bool {
    &&& a.folded() == b.folded()
    &&& a.height() == b.height()
    &&& a.last_commitment() == b.last_commitment()
    &&& a.tx_count() == b.tx_count()
    &&& a.block_start_ms() == b.block_start_ms()
    &&& a.block_begun() == b.block_begun()
}

impl StarknetApp {
    /// Dispatches one request to its handler and produces the matching
    /// response variant. Only `BeginBlock`, `DeliverTx` and `Commit` may
    /// change state; an admission check, a query or any placeholder request
    /// leaves the state exactly as it was. The only error is the fatal
    /// protocol defect of malformed admission bytes.
    pub fn dispatch(&mut self, req: Request) -> (r: Result<Response, ProtocolError>)
        requires
            (req is Commit) ==> old(self).height() < u64::MAX,
            (req is DeliverTx) ==> old(self).tx_count() < u64::MAX,
        ensures
            match req {
                Request::Info => {
                    &&& same_state(*old(self), *final(self))
                    &&& match r {
                        Ok(resp) => resp matches Response::Info(i)
                            && i.last_block_height == old(self).height()
                            && i.last_block_app_hash@ == old(self).last_commitment(),
                        Err(_) => false,
                    }
                },
                Request::Query => {
                    &&& same_state(*old(self), *final(self))
                    &&& match r {
                        Ok(resp) => resp matches Response::Query(q) && q.code == 1,
                        Err(_) => false,
                    }
                },
                Request::CheckTx { raw } => {
                    &&& same_state(*old(self), *final(self))
                    &&& match r {
                        Ok(resp) => resp matches Response::CheckTx(c) && c.code == 0
                            && spec_decode(raw@) is Some,
                        Err(e) => spec_decode(raw@) is None
                            && e == ProtocolError::MalformedTransaction,
                    }
                },
                Request::BeginBlock { now_ms } => {
                    &&& final(self).tx_count() == 0
                    &&& final(self).block_start_ms() == now_ms
                    &&& final(self).block_begun()
                    &&& final(self).folded() == old(self).folded()
                    &&& final(self).height() == old(self).height()
                    &&& final(self).last_commitment() == old(self).last_commitment()
                    &&& match r {
                        Ok(resp) => resp matches Response::BeginBlock { elapsed_since_previous_ms }
                            && elapsed_since_previous_ms == if old(self).block_begun()
                                && now_ms >= old(self).block_start_ms() {
                                now_ms - old(self).block_start_ms()
                            } else {
                                0
                            },
                        Err(_) => false,
                    }
                },
                Request::DeliverTx { tx, recomputed } => {
                    &&& final(self).height() == old(self).height()
                    &&& final(self).block_start_ms() == old(self).block_start_ms()
                    &&& final(self).block_begun() == old(self).block_begun()
                    &&& final(self).last_commitment() == old(self).last_commitment()
                    &&& match r {
                        Ok(resp) => match resp {
                            Response::DeliverTx(d) => match recomputed {
                                Ok(h) => if h@ == tx.transaction_hash@ {
                                    &&& d.code == 0
                                    &&& d.data@ == tx.transaction_hash@
                                    &&& final(self).folded() == old(self).folded()
                                        + tx.transaction_hash@
                                    &&& final(self).tx_count() == old(self).tx_count() + 1
                                    &&& d.events@.len() == 2
                                    &&& d.events@[0]@ == spec_index_event(tx.transaction_hash@)
                                    &&& d.events@[1]@ == spec_function_event(tx.transaction_type@)
                                } else {
                                    &&& d.code == 1
                                    &&& final(self).folded() == old(self).folded()
                                    &&& final(self).tx_count() == old(self).tx_count()
                                },
                                Err(_) => {
                                    &&& d.code == 1
                                    &&& final(self).folded() == old(self).folded()
                                    &&& final(self).tx_count() == old(self).tx_count()
                                },
                            },
                            _ => false,
                        },
                        Err(_) => false,
                    }
                },
                Request::EndBlock { now_ms } => {
                    &&& same_state(*old(self), *final(self))
                    &&& match r {
                        Ok(resp) => resp matches Response::EndBlock(m)
                            && m.transactions == old(self).tx_count()
                            && m.elapsed_ms == (if now_ms >= old(self).block_start_ms() {
                                now_ms - old(self).block_start_ms()
                            } else {
                                0
                            })
                            && m.transactions_per_second == spec_throughput(m.transactions, m.elapsed_ms),
                        Err(_) => false,
                    }
                },
                Request::Commit => {
                    &&& final(self).folded() == old(self).folded()
                    &&& final(self).height() == old(self).height() + 1
                    &&& final(self).last_commitment() == sha256_of(old(self).folded())
                    &&& final(self).tx_count() == old(self).tx_count()
                    &&& final(self).block_start_ms() == old(self).block_start_ms()
                    &&& final(self).block_begun() == old(self).block_begun()
                    &&& match r {
                        Ok(resp) => resp matches Response::Commit(c)
                            && c.data@ == sha256_of(old(self).folded())
                            && c.retain_height == 0
                            && c.height_record@ == spec_encode_height(final(self).height()),
                        Err(_) => false,
                    }
                },
                Request::Flush => {
                    &&& same_state(*old(self), *final(self))
                    &&& (r matches Ok(resp) && resp is Flush)
                },
                Request::Echo => {
                    &&& same_state(*old(self), *final(self))
                    &&& (r matches Ok(resp) && resp is Echo)
                },
                Request::InitChain => {
                    &&& same_state(*old(self), *final(self))
                    &&& (r matches Ok(resp) && resp is InitChain)
                },
                Request::ListSnapshots => {
                    &&& same_state(*old(self), *final(self))
                    &&& (r matches Ok(resp) && resp is ListSnapshots)
                },
                Request::OfferSnapshot => {
                    &&& same_state(*old(self), *final(self))
                    &&& (r matches Ok(resp) && resp is OfferSnapshot)
                },
                Request::LoadSnapshotChunk => {
                    &&& same_state(*old(self), *final(self))
                    &&& (r matches Ok(resp) && resp is LoadSnapshotChunk)
                },
                Request::ApplySnapshotChunk => {
                    &&& same_state(*old(self), *final(self))
                    &&& (r matches Ok(resp) && resp is ApplySnapshotChunk)
                },
                Request::SetOption => {
                    &&& same_state(*old(self), *final(self))
                    &&& match r {
                        Ok(resp) => resp matches Response::SetOption(s) && s.code == 0
                            && s.log@ == "N/A"@ && s.info@ == "N/A"@,
                        Err(_) => false,
                    }
                },
            },
    {
        match req {
            Request::Info => Ok(Response::Info(self.info())),
            Request::Query => Ok(Response::Query(self.query())),
            Request::CheckTx { raw } => match self.check_tx(&raw) {
                Ok(resp) => Ok(Response::CheckTx(resp)),
                Err(e) => Err(e),
            },
            Request::BeginBlock { now_ms } => {
                let elapsed = self.begin_block(now_ms);
                Ok(Response::BeginBlock { elapsed_since_previous_ms: elapsed })
            },
            Request::DeliverTx { tx, recomputed } => Ok(Response::DeliverTx(
                self.deliver_tx(&tx, &recomputed),
            )),
            Request::EndBlock { now_ms } => Ok(Response::EndBlock(self.end_block(now_ms))),
            Request::Commit => Ok(Response::Commit(self.commit())),
            Request::Flush => Ok(Response::Flush),
            Request::Echo => Ok(Response::Echo),
            Request::InitChain => Ok(Response::InitChain),
            Request::ListSnapshots => Ok(Response::ListSnapshots),
            Request::OfferSnapshot => Ok(Response::OfferSnapshot),
            Request::LoadSnapshotChunk => Ok(Response::LoadSnapshotChunk),
            Request::ApplySnapshotChunk => Ok(Response::ApplySnapshotChunk),
            Request::SetOption => Ok(Response::SetOption(SetOptionResponse {
                code: 0,
                log: "N/A".to_owned(),
                info: "N/A".to_owned(),
            })),
        }
    }
}

} // verus!
