//! The lane topology: four independently scheduled, independently
//! backpressured request categories.
//!
//! Block-execution traffic is engine-trusted and must never be dropped, so
//! its lane is unbounded and strictly sequential. Admission (mempool) and
//! read-only (info) traffic is client-triggered and unbounded at the source,
//! so those lanes shed load once their bounded queues fill, and the info
//! lane additionally rations processing with a fixed requests-per-period
//! ceiling. Snapshot traffic passes through to no-op responses. Lanes
//! govern scheduling and admission only; all of them reach the same
//! application state.

use vstd::prelude::*;
use crate::dispatch::Request;

verus! {

/// Queue capacity of the admission (mempool) lane.
pub const MEMPOOL_QUEUE_CAPACITY: u64 = 10;

/// Queue capacity of the read-only (info) lane.
pub const INFO_QUEUE_CAPACITY: u64 = 100;

/// Requests the info lane may start per rate period.
pub const INFO_RATE_LIMIT: u64 = 50;

/// Length of the info lane's rate period, in milliseconds.
pub const INFO_RATE_PERIOD_MS: u64 = 1000;

/// The four request categories.
#[derive(Clone, Copy, Debug, PartialEq, Eq, Structural)]
pub enum Lane {
    /// Block execution: begin, deliver, end, commit, chain initialization.
    Consensus,
    /// Transaction admission.
    Mempool,
    /// Read-only traffic: info, query, pings, option setting.
    Info,
    /// State-sync snapshots.
    Snapshot,
}

/// The lane that carries each request kind.
pub open spec fn spec_lane_of(req: Request) -> Lane {
    match req {
        Request::InitChain => Lane::Consensus,
        Request::BeginBlock { .. } => Lane::Consensus,
        Request::DeliverTx { .. } => Lane::Consensus,
        Request::EndBlock { .. } => Lane::Consensus,
        Request::Commit => Lane::Consensus,
        Request::CheckTx { .. } => Lane::Mempool,
        Request::Info => Lane::Info,
        Request::Query => Lane::Info,
        Request::Echo => Lane::Info,
        Request::Flush => Lane::Info,
        Request::SetOption => Lane::Info,
        Request::ListSnapshots => Lane::Snapshot,
        Request::OfferSnapshot => Lane::Snapshot,
        Request::LoadSnapshotChunk => Lane::Snapshot,
        Request::ApplySnapshotChunk => Lane::Snapshot,
    }
}

/// Routes a request to its lane.
pub fn lane_of(req: &Request) -> (lane: Lane)
    ensures
        lane == spec_lane_of(*req),
{
    match req {
        Request::InitChain => Lane::Consensus,
        Request::BeginBlock { .. } => Lane::Consensus,
        Request::DeliverTx { .. } => Lane::Consensus,
        Request::EndBlock { .. } => Lane::Consensus,
        Request::Commit => Lane::Consensus,
        Request::CheckTx { .. } => Lane::Mempool,
        Request::Info => Lane::Info,
        Request::Query => Lane::Info,
        Request::Echo => Lane::Info,
        Request::Flush => Lane::Info,
        Request::SetOption => Lane::Info,
        Request::ListSnapshots => Lane::Snapshot,
        Request::OfferSnapshot => Lane::Snapshot,
        Request::LoadSnapshotChunk => Lane::Snapshot,
        Request::ApplySnapshotChunk => Lane::Snapshot,
    }
}

/// A bounded queue that sheds load: once full, new work is rejected
/// immediately rather than queued indefinitely.
pub struct BoundedQueue {
    capacity: u64,
    queued: u64,
}

impl BoundedQueue {
    /// The fixed capacity this queue was created with.
    pub closed spec fn capacity(self) -> u64 {
        self.capacity
    }

    /// Work currently queued.
    pub closed spec fn queued(self) -> u64 {
        self.queued
    }

    /// The queue never holds more than its capacity.
    pub open spec fn wf(self) -> bool {
        self.queued() <= self.capacity()
    }

    /// An empty queue of the given capacity.
    pub fn new(capacity: u64) -> (q: BoundedQueue)
        ensures
            q.capacity() == capacity,
            q.queued() == 0,
            q.wf(),
    {
        BoundedQueue { capacity, queued: 0 }
    }

    /// Admits new work exactly when the queue has room; a full queue sheds
    /// the work and is left unchanged.
    pub fn try_enqueue(&mut self) -> (admitted: bool)
        requires
            old(self).wf(),
        ensures
            final(self).wf(),
            final(self).capacity() == old(self).capacity(),
            admitted == (old(self).queued() < old(self).capacity()),
            final(self).queued() == if admitted {
                old(self).queued() + 1
            } else {
                old(self).queued() as int
            },
    {
        if self.queued < self.capacity {
            self.queued = self.queued + 1;
            true
        } else {
            false
        }
    }

    /// Marks one queued piece of work as finished.
    pub fn finish(&mut self)
        requires
            old(self).wf(),
            old(self).queued() > 0,
        ensures
            final(self).wf(),
            final(self).capacity() == old(self).capacity(),
            final(self).queued() == old(self).queued() - 1,
    {
        self.queued = self.queued - 1;
    }
}

/// A fixed-window rate limiter: at most `limit` starts per `period_ms`
/// window; a new window opens once the period has elapsed.
pub struct RateWindow {
    limit: u64,
    period_ms: u64,
    window_start_ms: u64,
    used: u64,
}

impl RateWindow {
    /// The per-window ceiling.
    pub closed spec fn limit(self) -> u64 {
        self.limit
    }

    /// The window length in milliseconds.
    pub closed spec fn period_ms(self) -> u64 {
        self.period_ms
    }

    /// When the current window opened.
    pub closed spec fn window_start_ms(self) -> u64 {
        self.window_start_ms
    }

    /// Starts already granted in the current window.
    pub closed spec fn used(self) -> u64 {
        self.used
    }

    /// Never more starts granted than the ceiling allows.
    pub open spec fn wf(self) -> bool {
        self.used() <= self.limit()
    }

    /// A fresh limiter whose first window opens at time zero.
    pub fn new(limit: u64, period_ms: u64) -> (w: RateWindow)
        ensures
            w.limit() == limit,
            w.period_ms() == period_ms,
            w.window_start_ms() == 0,
            w.used() == 0,
            w.wf(),
    {
        RateWindow { limit, period_ms, window_start_ms: 0, used: 0 }
    }

    /// Grants a start exactly when the current window (or the new window,
    /// once the period has elapsed) still has budget.
    pub fn try_accept(&mut self, now_ms: u64) -> (admitted: bool)
        requires
            old(self).wf(),
        ensures
            final(self).wf(),
            final(self).limit() == old(self).limit(),
            final(self).period_ms() == old(self).period_ms(),
            if old(self).window_start_ms() + old(self).period_ms() <= now_ms {
                &&& admitted == (old(self).limit() > 0)
                &&& final(self).window_start_ms() == now_ms
                &&& final(self).used() == if admitted { 1u64 } else { 0u64 }
            } else {
                &&& admitted == (old(self).used() < old(self).limit())
                &&& final(self).window_start_ms() == old(self).window_start_ms()
                &&& final(self).used() == if admitted {
                    old(self).used() + 1
                } else {
                    old(self).used() as int
                }
            },
    {
        let elapsed = now_ms >= self.window_start_ms
            && now_ms - self.window_start_ms >= self.period_ms;
        if elapsed {
            self.window_start_ms = now_ms;
            if self.limit > 0 {
                self.used = 1;
                true
            } else {
                self.used = 0;
                false
            }
        } else {
            if self.used < self.limit {
                self.used = self.used + 1;
                true
            } else {
                false
            }
        }
    }
}

/// The lane admission state: the mempool and info queues and the info
/// lane's rate limiter. The consensus and snapshot lanes carry no admission
/// state — consensus work is never shed and snapshots pass through.
pub struct LaneTopology {
    pub mempool_queue: BoundedQueue,
    pub info_queue: BoundedQueue,
    pub info_rate: RateWindow,
}

impl LaneTopology {
    /// Mempool-lane queue occupancy.
    pub open spec fn mempool_queued(self) -> u64 {
        self.mempool_queue.queued()
    }

    /// Info-lane queue occupancy.
    pub open spec fn info_queued(self) -> u64 {
        self.info_queue.queued()
    }

    /// Rate-budget units already spent in the info lane's current window.
    pub open spec fn info_rate_used(self) -> u64 {
        self.info_rate.used()
    }

    /// When the info lane's current rate window opened.
    pub open spec fn info_rate_window_start(self) -> u64 {
        self.info_rate.window_start_ms()
    }

    /// Both queues within capacity and the rate limiter within its ceiling,
    /// with the fixed per-lane policy parameters.
    pub open spec fn wf(self) -> bool {
        &&& self.mempool_queue.wf()
        &&& self.info_queue.wf()
        &&& self.info_rate.wf()
        &&& self.mempool_queue.capacity() == MEMPOOL_QUEUE_CAPACITY
        &&& self.info_queue.capacity() == INFO_QUEUE_CAPACITY
        &&& self.info_rate.limit() == INFO_RATE_LIMIT
        &&& self.info_rate.period_ms() == INFO_RATE_PERIOD_MS
    }

    /// The topology with the fixed per-lane policies: a small shedding
    /// queue for admissions, a larger shedding queue plus a rate ceiling
    /// for read-only traffic.
    pub fn new() -> (t: LaneTopology)
        ensures
            t.wf(),
            t.mempool_queued() == 0,
            t.info_queued() == 0,
            t.info_rate_used() == 0,
            t.info_rate_window_start() == 0,
    {
        LaneTopology {
            mempool_queue: BoundedQueue::new(MEMPOOL_QUEUE_CAPACITY),
            info_queue: BoundedQueue::new(INFO_QUEUE_CAPACITY),
            info_rate: RateWindow::new(INFO_RATE_LIMIT, INFO_RATE_PERIOD_MS),
        }
    }

    /// Decides whether new work on a lane is accepted. Consensus work is
    /// always accepted (unbounded trust, never dropped), snapshot work
    /// passes through, and mempool or info work is accepted exactly when
    /// its bounded queue has room.
    pub fn offer(&mut self, lane: Lane) -> (admitted: bool)
        requires
            old(self).wf(),
        ensures
            final(self).wf(),
            match lane {
                Lane::Consensus => admitted && *final(self) == *old(self),
                Lane::Snapshot => admitted && *final(self) == *old(self),
                Lane::Mempool => {
                    &&& admitted == (old(self).mempool_queued() < MEMPOOL_QUEUE_CAPACITY)
                    &&& final(self).mempool_queued() == if admitted {
                        old(self).mempool_queued() + 1
                    } else {
                        old(self).mempool_queued() as int
                    }
                    &&& final(self).info_queued() == old(self).info_queued()
                    &&& final(self).info_rate == old(self).info_rate
                },
                Lane::Info => {
                    &&& admitted == (old(self).info_queued() < INFO_QUEUE_CAPACITY)
                    &&& final(self).info_queued() == if admitted {
                        old(self).info_queued() + 1
                    } else {
                        old(self).info_queued() as int
                    }
                    &&& final(self).mempool_queued() == old(self).mempool_queued()
                    &&& final(self).info_rate == old(self).info_rate
                },
            },
    {
        match lane {
            Lane::Consensus => true,
            Lane::Snapshot => true,
            Lane::Mempool => self.mempool_queue.try_enqueue(),
            Lane::Info => self.info_queue.try_enqueue(),
        }
    }

    /// Decides whether the info lane may start processing queued work now,
    /// consuming one unit of the fixed requests-per-period budget: a grant
    /// comes exactly when the current window (or the new window, once the
    /// period has elapsed) still has budget under `INFO_RATE_LIMIT`.
    pub fn info_may_start(&mut self, now_ms: u64) -> (granted: bool)
        requires
            old(self).wf(),
        ensures
            final(self).wf(),
            final(self).mempool_queued() == old(self).mempool_queued(),
            final(self).info_queued() == old(self).info_queued(),
            if old(self).info_rate_window_start() + INFO_RATE_PERIOD_MS <= now_ms {
                &&& granted == (INFO_RATE_LIMIT > 0)
                &&& final(self).info_rate_window_start() == now_ms
                &&& final(self).info_rate_used() == if granted { 1u64 } else { 0u64 }
            } else {
                &&& granted == (old(self).info_rate_used() < INFO_RATE_LIMIT)
                &&& final(self).info_rate_window_start() == old(self).info_rate_window_start()
                &&& final(self).info_rate_used() == if granted {
                    old(self).info_rate_used() + 1
                } else {
                    old(self).info_rate_used() as int
                }
            },
    {
        self.info_rate.try_accept(now_ms)
    }

    /// Marks one piece of queued mempool or info work as finished; work on
    /// the unqueued lanes needs no bookkeeping.
    pub fn finish(&mut self, lane: Lane)
        requires
            old(self).wf(),
            lane == Lane::Mempool ==> old(self).mempool_queued() > 0,
            lane == Lane::Info ==> old(self).info_queued() > 0,
        ensures
            final(self).wf(),
            match lane {
                Lane::Consensus => *final(self) == *old(self),
                Lane::Snapshot => *final(self) == *old(self),
                Lane::Mempool => {
                    &&& final(self).mempool_queued() == old(self).mempool_queued() - 1
                    &&& final(self).info_queued() == old(self).info_queued()
                    &&& final(self).info_rate == old(self).info_rate
                },
                Lane::Info => {
                    &&& final(self).info_queued() == old(self).info_queued() - 1
                    &&& final(self).mempool_queued() == old(self).mempool_queued()
                    &&& final(self).info_rate == old(self).info_rate
                },
            },
    {
        match lane {
            Lane::Consensus => (),
            Lane::Snapshot => (),
            Lane::Mempool => self.mempool_queue.finish(),
            Lane::Info => self.info_queue.finish(),
        }
    }
}

} // verus!
