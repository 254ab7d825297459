//! The segmented transfer engine: chunk scheduling, the worker state machine
//! with shard-redirect retries, the offset-addressed write model, and a
//! deterministic end-to-end run against a modelled backend.
//!
//! The surrounding binary drives real workers over the network with these
//! same step functions; `run_transfer` exercises the identical logic against
//! an in-memory backend and carries the engine's correctness statement: a
//! completed transfer reproduces the remote object exactly, with every chunk
//! recorded once.

use vstd::prelude::*;
use vstd::arithmetic::div_mod::{
    lemma_fundamental_div_mod, lemma_fundamental_div_mod_converse, lemma_mod_add_multiples_vanish,
    lemma_mod_multiples_basic, lemma_mod_pos_bound,
};
use vstd::pervasive::unreached;

verus! {

/// The smaller of two lengths, used to clip the final chunk of an object.
pub open spec fn min64(a: int, b: int) -> int {
    if a <= b {
        a
    } else {
        b
    }
}

/// How many chunks of size `c` cover `total` bytes (the last one may be short).
pub open spec fn spec_num_chunks(total: u64, c: u64) -> int {
    (total + c - 1) as int / c as int
}

// ---------------------------------------------------------------------------
// Chunk scheduler
// ---------------------------------------------------------------------------

/// Hands out monotonically increasing chunk offsets, each a multiple of the
/// chunk size, exactly once. Workers share one scheduler per transfer.
pub struct ChunkScheduler {
    pub chunk_size: u64,
    pub total_size: u64,
    pub next_offset: u64,
}

impl ChunkScheduler {
    pub open spec fn wf(self) -> bool {
        &&& self.chunk_size >= 1
        &&& self.total_size + self.chunk_size <= u64::MAX
        &&& self.next_offset % self.chunk_size == 0
        &&& self.next_offset <= self.total_size + self.chunk_size
    }

    pub open spec fn chunk_size(self) -> u64 {
        self.chunk_size
    }

    pub open spec fn total_size(self) -> u64 {
        self.total_size
    }

    pub open spec fn next_offset(self) -> u64 {
        self.next_offset
    }

    /// Every offset below `total_size` has been handed out.
    pub open spec fn exhausted(self) -> bool {
        self.next_offset >= self.total_size
    }

    pub fn new(chunk_size: u64, total_size: u64) -> (r: Self)
        requires
            chunk_size >= 1,
            total_size + chunk_size <= u64::MAX,
        ensures
            r.wf(),
            r.chunk_size() == chunk_size,
            r.total_size() == total_size,
            r.next_offset() == 0,
    {
        proof {
            lemma_mod_multiples_basic(0, chunk_size as int);
        }
        ChunkScheduler { chunk_size, total_size, next_offset: 0 }
    }

    /// Hand out the next unclaimed offset, or `None` once every offset below
    /// `total_size` has been issued. No offset is ever issued twice, and none
    /// is issued after exhaustion.
    pub fn assign(&mut self) -> (r: Option<u64>)
        requires
            old(self).wf(),
        ensures
            final(self).wf(),
            final(self).chunk_size() == old(self).chunk_size(),
            final(self).total_size() == old(self).total_size(),
            match r {
                Some(off) => {
                    &&& off == old(self).next_offset()
                    &&& off < old(self).total_size()
                    &&& off % old(self).chunk_size() == 0
                    &&& final(self).next_offset() == off + old(self).chunk_size()
                },
                None => old(self).exhausted() && final(self).next_offset() == old(
                    self,
                ).next_offset(),
            },
    {
        if self.next_offset >= self.total_size {
            None
        } else {
            let off = self.next_offset;
            self.next_offset = off + self.chunk_size;
            proof {
                lemma_mod_add_multiples_vanish(off as int, self.chunk_size as int);
            }
            Some(off)
        }
    }
}

// ---------------------------------------------------------------------------
// Worker state machine
// ---------------------------------------------------------------------------

/// What one fetch attempt produced, as the backend reports it: chunk bytes,
/// an order to retry on another shard, or a fatal error code.
pub enum FetchOutcome {
    Data(Vec<u8>),
    Redirect(i32),
    Failed(i32),
}

/// What the worker loop does next after observing a fetch outcome.
pub enum WorkerEvent {
    /// Forward the chunk to the write coalescer.
    Deliver(u64, Vec<u8>),
    /// Fetch the same offset again, on the shard now remembered.
    RetryAt(u64),
    /// Stop the whole transfer with this error code.
    Fail(i32),
}

/// Per-worker state: the shard last known to hold the object, and an offset
/// that must be fetched again after a redirect.
pub struct WorkerState {
    pub shard: Option<i32>,
    pub retry: Option<u64>,
}

impl WorkerState {
    pub fn new() -> (r: Self)
        ensures
            r.shard is None,
            r.retry is None,
    {
        WorkerState { shard: None, retry: None }
    }
}

/// The offset a worker fetches next: a pending redirect retry takes priority
/// and does not advance the scheduler; otherwise the scheduler assigns a
/// fresh offset. `None` means the worker is done and stops cleanly.
pub fn worker_take_offset(ws: &mut WorkerState, sched: &mut ChunkScheduler) -> (r: Option<u64>)
    requires
        old(sched).wf(),
    ensures
        final(sched).wf(),
        final(sched).chunk_size() == old(sched).chunk_size(),
        final(sched).total_size() == old(sched).total_size(),
        final(ws).shard == old(ws).shard,
        final(ws).retry is None,
        match old(ws).retry {
            Some(off) => r == Some(off) && *final(sched) == *old(sched),
            None => {
                &&& match r {
                    Some(off) => {
                        &&& off == old(sched).next_offset()
                        &&& off < old(sched).total_size()
                        &&& off % old(sched).chunk_size() == 0
                        &&& final(sched).next_offset() == off + old(sched).chunk_size()
                    },
                    None => old(sched).exhausted() && final(sched).next_offset() == old(
                        sched,
                    ).next_offset(),
                }
            },
        },
{
    match ws.retry {
        Some(off) => {
            ws.retry = None;
            Some(off)
        },
        None => sched.assign(),
    }
}

/// The worker's reaction to one fetch outcome at `offset`: data is delivered,
/// a redirect pins the named shard and schedules the same offset for retry
/// (the sole re-fetch path), and anything else is fatal.
pub fn worker_observe(ws: &mut WorkerState, offset: u64, outcome: FetchOutcome) -> (r: WorkerEvent)
    ensures
        match outcome {
            FetchOutcome::Data(b) => {
                &&& r == WorkerEvent::Deliver(offset, b)
                &&& *final(ws) == *old(ws)
            },
            FetchOutcome::Redirect(s) => {
                &&& r == WorkerEvent::RetryAt(offset)
                &&& final(ws).shard == Some(s)
                &&& final(ws).retry == Some(offset)
            },
            FetchOutcome::Failed(code) => {
                &&& r == WorkerEvent::Fail(code)
                &&& *final(ws) == *old(ws)
            },
        },
{
    match outcome {
        FetchOutcome::Data(b) => WorkerEvent::Deliver(offset, b),
        FetchOutcome::Redirect(s) => {
            ws.shard = Some(s);
            ws.retry = Some(offset);
            WorkerEvent::RetryAt(offset)
        },
        FetchOutcome::Failed(code) => WorkerEvent::Fail(code),
    }
}

/// Classify an RPC error: the migration code with a target shard is the
/// transparent redirect; every other error is fatal for the transfer.
pub fn classify_rpc_error(code: i32, shard_hint: Option<i32>) -> (r: FetchOutcome)
    ensures
        match shard_hint {
            Some(s) => r == if code == 303 {
                FetchOutcome::Redirect(s)
            } else {
                FetchOutcome::Failed(code)
            },
            None => r == FetchOutcome::Failed(code),
        },
{
    if code == 303 {
        match shard_hint {
            Some(s) => FetchOutcome::Redirect(s),
            None => FetchOutcome::Failed(code),
        }
    } else {
        FetchOutcome::Failed(code)
    }
}

// ---------------------------------------------------------------------------
// Write coalescer model
// ---------------------------------------------------------------------------

/// The destination file as the single-writer coalescer sees it: preallocated
/// to its final size, then filled by offset-addressed chunk writes in any
/// order.
pub struct ChunkFile {
    data: Vec<u8>,
}

impl ChunkFile {
    pub closed spec fn view(self) -> Seq<u8> {
        self.data@
    }

    /// Create the file and preallocate `size` zero bytes, as the coalescer
    /// does before any chunk is known.
    pub fn preallocate(size: usize) -> (r: Self)
        ensures
            r@.len() == size,
            forall|j: int| 0 <= j < size ==> r@[j] == 0u8,
    {
        let mut data: Vec<u8> = Vec::new();
        let mut i: usize = 0;
        while i < size
            invariant
                i <= size,
                data@.len() == i,
                forall|j: int| 0 <= j < i ==> data@[j] == 0u8,
            decreases size - i,
        {
            data.push(0u8);
            i = i + 1;
        }
        ChunkFile { data }
    }

    pub fn len(&self) -> (r: usize)
        ensures
            r == self@.len(),
    {
        self.data.len()
    }

    /// Write one chunk at its own offset. Bytes outside the written range are
    /// untouched, so chunks may arrive in any order.
    pub fn write_chunk(&mut self, offset: usize, bytes: &Vec<u8>)
        requires
            offset + bytes@.len() <= old(self)@.len(),
        ensures
            final(self)@.len() == old(self)@.len(),
            forall|j: int|
                offset <= j < offset + bytes@.len() ==> final(self)@[j] == bytes@[j - offset],
            forall|j: int|
                0 <= j < old(self)@.len() && !(offset <= j < offset + bytes@.len()) ==> final(
                    self)@[j] == old(self)@[j],
    {
        let n = bytes.len();
        let cap = self.data.len();
        let mut i: usize = 0;
        while i < n
            invariant
                i <= n,
                cap == self@.len(),
                offset + n <= cap,
                n == bytes@.len(),
                self@.len() == old(self)@.len(),
                forall|j: int| offset <= j < offset + i ==> self@[j] == bytes@[j - offset],
                forall|j: int|
                    0 <= j < old(self)@.len() && !(offset <= j < offset + i) ==> self@[j] == old(
                        self)@[j],
            decreases n - i,
        {
            let b = bytes[i];
            self.data[offset + i] = b;
            i = i + 1;
        }
    }

    /// Hand the finished contents over (the completed destination file).
    pub fn into_bytes(self) -> (r: Vec<u8>)
        ensures
            r@ == self@,
    {
        self.data
    }
}

// ---------------------------------------------------------------------------
// Backend model
// ---------------------------------------------------------------------------

/// A model of the chunked file-serving backend: one remote object, a home
/// shard that answers for it, an optional initial-redirect behaviour, and an
/// optional offset whose fetch always fails fatally.
pub struct Backend {
    pub object: Vec<u8>,
    pub home_shard: i32,
    pub needs_redirect: bool,
    pub fail_at: Option<u64>,
    pub fail_code: i32,
}

impl Backend {
    /// The injected fatal error hits this fetch.
    pub open spec fn hits_fail(self, offset: u64) -> bool {
        match self.fail_at {
            Some(f) => offset == f,
            None => false,
        }
    }

    /// The caller is already talking to the shard that holds the object.
    pub open spec fn on_home(self, shard: Option<i32>) -> bool {
        shard == Some(self.home_shard)
    }

    /// The bytes one fetch at `offset` with size limit `limit` returns.
    pub open spec fn spec_chunk(self, offset: u64, limit: u64) -> Seq<u8> {
        self.object@.subrange(
            offset as int,
            min64(offset + limit, self.object@.len() as int),
        )
    }

    /// One fetch-chunk RPC: data, a redirect naming the home shard, or the
    /// injected fatal error.
    pub fn fetch(&self, offset: u64, limit: u64, shard: Option<i32>) -> (r: FetchOutcome)
        requires
            offset < self.object@.len(),
            self.object@.len() + limit <= u64::MAX,
            limit >= 1,
        ensures
            self.hits_fail(offset) ==> r == FetchOutcome::Failed(self.fail_code),
            !self.hits_fail(offset) && self.needs_redirect && !self.on_home(shard) ==> r
                == FetchOutcome::Redirect(self.home_shard),
            !self.hits_fail(offset) && (!self.needs_redirect || self.on_home(shard)) ==> (
            r matches FetchOutcome::Data(b) && b@ == self.spec_chunk(offset, limit)),
    {
        match self.fail_at {
            Some(f) => {
                if offset == f {
                    return FetchOutcome::Failed(self.fail_code);
                }
            },
            None => {},
        }
        let on_home_now = match shard {
            Some(s) => s == self.home_shard,
            None => false,
        };
        if self.needs_redirect && !on_home_now {
            return FetchOutcome::Redirect(self.home_shard);
        }
        let len = self.object.len();
        let start = offset as usize;
        let remaining = len - start;
        let take: usize = if limit < remaining as u64 {
            limit as usize
        } else {
            remaining
        };
        let mut bytes: Vec<u8> = Vec::new();
        let mut i: usize = 0;
        while i < take
            invariant
                i <= take,
                len == self.object@.len(),
                start + take <= len,
                bytes@.len() == i,
                forall|j: int| 0 <= j < i ==> bytes@[j] == self.object@[start + j],
            decreases take - i,
        {
            let b = self.object[start + i];
            bytes.push(b);
            i = i + 1;
        }
        proof {
            assert(bytes@ =~= self.spec_chunk(offset, limit));
        }
        FetchOutcome::Data(bytes)
    }
}

// ---------------------------------------------------------------------------
// A whole transfer, end to end
// ---------------------------------------------------------------------------

/// Counters a finished (or aborted) transfer reports: every chunk offset in
/// the order it was recorded, and how many shard redirects were followed.
pub struct TransferStats {
    pub delivered: Vec<u64>,
    pub redirects: u64,
}

/// How a transfer ended. Only a completed transfer keeps its destination
/// file; cancellation and failure delete the partial file, so neither carries
/// one.
pub enum TransferOutcome {
    Completed(Vec<u8>, TransferStats),
    Cancelled(TransferStats),
    Failed(i32, TransferStats),
}

impl TransferOutcome {
    pub open spec fn stats(self) -> TransferStats {
        match self {
            TransferOutcome::Completed(_, s) => s,
            TransferOutcome::Cancelled(s) => s,
            TransferOutcome::Failed(_, s) => s,
        }
    }
}

/// Every recorded offset is a chunk boundary inside the object.
pub open spec fn offsets_in_range(delivered: Seq<u64>, c: u64, total: u64) -> bool {
    forall|i: int|
        0 <= i < delivered.len() ==> #[trigger] delivered[i] % c == 0 && delivered[i] < total
}

/// No offset is ever recorded twice.
pub open spec fn offsets_distinct(delivered: Seq<u64>) -> bool {
    forall|i: int, j: int|
        0 <= i < j < delivered.len() ==> #[trigger] delivered[i] != #[trigger] delivered[j]
}

/// Every chunk boundary below `total` was recorded.
pub open spec fn offsets_complete(delivered: Seq<u64>, c: u64, total: u64) -> bool {
    forall|off: u64| off % c == 0 && off < total ==> #[trigger] delivered.contains(off)
}

/// The bytes of one recorded chunk stand correctly in the file.
pub open spec fn chunk_in_place(file: Seq<u8>, obj: Seq<u8>, off: u64, c: u64) -> bool {
    forall|j: int| off <= j < min64(off + c, obj.len() as int) ==> file[j] == obj[j]
}

/// Two distinct chunk boundaries are at least one chunk apart.
proof fn lemma_multiple_step(a: u64, b: u64, c: u64)
    requires
        c >= 1,
        a % c == 0,
        b % c == 0,
        a < b,
    ensures
        a + c <= b,
{
    lemma_fundamental_div_mod(a as int, c as int);
    lemma_fundamental_div_mod(b as int, c as int);
    let qa = a as int / c as int;
    let qb = b as int / c as int;
    assert(a + c <= b) by (nonlinear_arith)
        requires
            a as int == c as int * qa,
            b as int == c as int * qb,
            a < b,
            c >= 1,
    ;
}

/// A file whose every chunk is in place, with every chunk recorded, equals
/// the object byte for byte.
proof fn lemma_full_coverage(file: Seq<u8>, obj: Seq<u8>, delivered: Seq<u64>, c: u64, total: u64)
    requires
        c >= 1,
        total == obj.len(),
        file.len() == obj.len(),
        forall|i: int|
            0 <= i < delivered.len() ==> chunk_in_place(file, obj, #[trigger] delivered[i], c),
        offsets_complete(delivered, c, total),
    ensures
        file =~= obj,
{
    assert forall|j: int| 0 <= j < obj.len() implies file[j] == obj[j] by {
        lemma_fundamental_div_mod(j, c as int);
        lemma_mod_pos_bound(j, c as int);
        let q = j / c as int;
        let off_int = q * c as int;
        let off = off_int as u64;
        lemma_mod_multiples_basic(q, c as int);
        assert(off % c == 0);
        assert(delivered.contains(off));
        let i = choose|i: int| 0 <= i < delivered.len() && delivered[i] == off;
        assert(chunk_in_place(file, obj, delivered[i], c));
        assert(off_int <= j < off_int + c);
    }
}

/// Run one whole transfer against the modelled backend: `workers` worker
/// slots share one scheduler, fetch chunks (following at most one shard
/// redirect each, and re-fetching the same offset afterwards), and the write
/// coalescer places each delivered chunk at its own offset in a file
/// preallocated to the object's size.
///
/// `cancel_after` models the user pressing cancel: the signal is raised once
/// that many chunks are written, and the coalescer aborts — deleting the
/// file — when it next handles a chunk.
///
/// A completed transfer returns a file equal to the remote object, with every
/// chunk recorded exactly once; cancellation after `k` of more-than-`k`
/// chunks aborts with exactly `k` chunks written and no file; a fetch at the
/// injected failing offset ends the transfer with the backend's error code.
pub fn run_transfer(
    backend: &Backend,
    chunk_size: u64,
    workers: usize,
    cancel_after: Option<u64>,
) -> (r: TransferOutcome)
    requires
        chunk_size >= 1,
        workers >= 1,
        backend.object@.len() + chunk_size <= u64::MAX,
        match cancel_after {
            Some(k) => k >= 1,
            None => true,
        },
    ensures
        offsets_in_range(r.stats().delivered@, chunk_size, backend.object@.len() as u64),
        offsets_distinct(r.stats().delivered@),
        r matches TransferOutcome::Completed(file, stats) ==> {
            &&& file@ == backend.object@
            &&& stats.delivered@.len() == spec_num_chunks(
                backend.object@.len() as u64,
                chunk_size,
            )
            &&& offsets_complete(stats.delivered@, chunk_size, backend.object@.len() as u64)
        },
        r matches TransferOutcome::Cancelled(stats) ==> (match cancel_after {
            Some(k) => stats.delivered@.len() == k,
            None => false,
        }),
        r matches TransferOutcome::Failed(code, _) ==> backend.fail_at is Some && code
            == backend.fail_code,
        backend.fail_at matches Some(f) ==> !r.stats().delivered@.contains(f),
        backend.fail_at is None && (match cancel_after {
            None => true,
            Some(k) => k as int >= spec_num_chunks(backend.object@.len() as u64, chunk_size),
        }) ==> r is Completed,
        backend.fail_at is None && (match cancel_after {
            Some(k) => (k as int) < spec_num_chunks(backend.object@.len() as u64, chunk_size),
            None => false,
        }) ==> r is Cancelled,
        backend.fail_at matches Some(f) && f % chunk_size == 0 && f < backend.object@.len()
            && cancel_after is None ==> r is Failed,
        !backend.needs_redirect ==> r.stats().redirects == 0,
        backend.fail_at is None && workers == 1 && backend.needs_redirect
            && backend.object@.len() > 0 ==> r.stats().redirects == 1,
{
    let ghost obj = backend.object@;
    let total: u64 = backend.object.len() as u64;
    let mut sched = ChunkScheduler::new(chunk_size, total);
    let mut shards: Vec<Option<i32>> = Vec::new();
    let mut setup: usize = 0;
    while setup < workers
        invariant
            setup <= workers,
            shards@.len() == setup,
            forall|w: int| 0 <= w < setup ==> shards@[w] is None,
        decreases workers - setup,
    {
        shards.push(None);
        setup = setup + 1;
    }
    let mut file = ChunkFile::preallocate(backend.object.len());
    let mut delivered: Vec<u64> = Vec::new();
    let mut redirects: u64 = 0;
    let mut next_worker: usize = 0;
    let mut cancelled: bool = false;

    while sched.next_offset < total
        invariant
            sched.wf(),
            sched.chunk_size == chunk_size,
            sched.total_size == total,
            chunk_size >= 1,
            workers >= 1,
            total == obj.len(),
            obj == backend.object@,
            total + chunk_size <= u64::MAX,
            total <= usize::MAX as u64,
            match cancel_after {
                Some(k) => k >= 1,
                None => true,
            },
            shards@.len() == workers,
            next_worker < workers,
            forall|w: int|
                0 <= w < workers ==> (#[trigger] shards@[w] matches Some(s) ==> s
                    == backend.home_shard),
            file@.len() == total,
            offsets_in_range(delivered@, chunk_size, total),
            forall|i: int, j: int| 0 <= i < j < delivered@.len() ==> delivered@[i] < delivered@[j],
            forall|i: int|
                0 <= i < delivered@.len() ==> #[trigger] delivered@[i] < sched.next_offset,
            forall|i: int|
                0 <= i < delivered@.len() ==> chunk_in_place(
                    file@,
                    obj,
                    #[trigger] delivered@[i],
                    chunk_size,
                ),
            offsets_complete(delivered@, chunk_size, sched.next_offset),
            sched.next_offset == chunk_size * delivered@.len(),
            match cancel_after {
                None => !cancelled,
                Some(k) => delivered@.len() <= k && (cancelled <==> delivered@.len() == k),
            },
            match backend.fail_at {
                Some(f) => !delivered@.contains(f),
                None => true,
            },
            redirects <= delivered@.len(),
            !backend.needs_redirect ==> redirects == 0,
            workers == 1 ==> redirects == (if shards@[0] is Some {
                1u64
            } else {
                0u64
            }),
            workers == 1 && backend.needs_redirect && delivered@.len() > 0 ==> shards@[0] is Some,
        decreases total + chunk_size - sched.next_offset,
    {
        let offset = match sched.assign() {
            Some(off) => off,
            None => unreached(),
        };
        let w = next_worker;
        next_worker = if next_worker + 1 == workers {
            0
        } else {
            next_worker + 1
        };
        let shard_w = shards[w];
        let first = backend.fetch(offset, chunk_size, shard_w);
        let outcome = match first {
            FetchOutcome::Redirect(s) => {
                shards[w] = Some(s);
                proof {
                    // at most one redirect precedes each delivery
                    assert(delivered@.len() as int <= chunk_size as int * delivered@.len() as int)
                        by (nonlinear_arith)
                        requires
                            chunk_size >= 1,
                    ;
                }
                redirects = redirects + 1;
                backend.fetch(offset, chunk_size, Some(s))
            },
            other => other,
        };
        match outcome {
            FetchOutcome::Data(bytes) => {
                if cancelled {
                    proof {
                        // cancellation can only have been raised short of the
                        // final chunk: the scheduler still had work
                        let c = chunk_size as int;
                        let n = spec_num_chunks(total, chunk_size);
                        match cancel_after {
                            Some(k) => {
                                assert(delivered@.len() == k);
                                if k as int >= n {
                                    lemma_fundamental_div_mod(total as int + c - 1, c);
                                    lemma_mod_pos_bound(total as int + c - 1, c);
                                    assert(c * n >= total as int);
                                    assert(c * (k as int) >= c * n) by (nonlinear_arith)
                                        requires
                                            k as int >= n,
                                            c >= 1,
                                    ;
                                    assert(false);
                                }
                            },
                            None => {
                                assert(false);
                            },
                        }
                    }
                    return TransferOutcome::Cancelled(TransferStats { delivered, redirects });
                }
                let ghost pre = delivered@;
                let ghost prefile = file@;
                file.write_chunk(offset as usize, &bytes);
                delivered.push(offset);
                proof {
                    assert(delivered@ == pre.push(offset));
                    let written = bytes@.len() as int;
                    assert forall|j: int|
                        0 <= j < total && prefile[j] == obj[j] implies file@[j] == obj[j] by {
                        if offset <= j < offset + written {
                            assert(file@[j] == bytes@[j - offset]);
                            assert(bytes@[j - offset] == obj[j]);
                        } else {
                            assert(file@[j] == prefile[j]);
                        }
                    }
                    assert(chunk_in_place(file@, obj, offset, chunk_size)) by {
                        assert forall|j: int|
                            offset <= j < min64(
                                offset + chunk_size,
                                obj.len() as int,
                            ) implies file@[j] == obj[j] by {
                            assert(file@[j] == bytes@[j - offset]);
                            assert(bytes@[j - offset] == obj[j]);
                        }
                    }
                    assert forall|i: int|
                        0 <= i < delivered@.len() implies chunk_in_place(
                        file@,
                        obj,
                        #[trigger] delivered@[i],
                        chunk_size,
                    ) by {
                        if i < pre.len() {
                            assert(chunk_in_place(prefile, obj, pre[i], chunk_size));
                            assert forall|j: int|
                                pre[i] <= j < min64(
                                    pre[i] + chunk_size,
                                    obj.len() as int,
                                ) implies file@[j] == obj[j] by {
                                assert(prefile[j] == obj[j]);
                            }
                        } else {
                            assert(delivered@[i] == offset);
                        }
                    }
                    assert forall|off: u64|
                        off % chunk_size == 0 && off < sched.next_offset implies #[trigger] delivered@.contains(
                        off,
                    ) by {
                        if off == offset {
                            assert(delivered@[pre.len() as int] == off);
                        } else if off < offset {
                            assert(pre.contains(off));
                            let i = choose|i: int| 0 <= i < pre.len() && pre[i] == off;
                            assert(delivered@[i] == off);
                        } else {
                            lemma_multiple_step(offset, off, chunk_size);
                            assert(false);
                        }
                    }
                }
                proof {
                    assert(sched.next_offset == chunk_size * delivered@.len()) by (nonlinear_arith)
                        requires
                            sched.next_offset == offset + chunk_size,
                            offset == chunk_size * pre.len(),
                            delivered@.len() == pre.len() + 1,
                    ;
                }
                match cancel_after {
                    Some(k) => {
                        if delivered.len() as u64 == k {
                            cancelled = true;
                        }
                    },
                    None => {},
                }
            },
            FetchOutcome::Failed(code) => {
                return TransferOutcome::Failed(code, TransferStats { delivered, redirects });
            },
            FetchOutcome::Redirect(_) => {
                return unreached();
            },
        }
    }
    proof {
        lemma_full_coverage(file@, obj, delivered@, chunk_size, total);
        let len = delivered@.len() as int;
        let c = chunk_size as int;
        let x = total as int + c - 1;
        assert(c * len >= total as int);
        assert(c * len <= total as int + c - 1) by {
            if len > 0 {
                assert(c * len >= c) by (nonlinear_arith)
                    requires
                        c >= 1,
                        len >= 1,
                ;
                let last = (sched.next_offset - chunk_size) as u64;
                assert(last % chunk_size == 0) by {
                    lemma_mod_add_multiples_vanish(last as int, c);
                };
                assert(last < sched.next_offset);
                assert(delivered@.contains(last));
                let i = choose|i: int| 0 <= i < len && delivered@[i] == last;
                assert(delivered@[i] % chunk_size == 0 && delivered@[i] < total);
            } else {
                assert(sched.next_offset == 0);
            }
        };
        let r = x - c * len;
        assert(x == len * c + r) by (nonlinear_arith)
            requires
                r == x - c * len,
        ;
        lemma_fundamental_div_mod_converse(x, c, len, r);
        assert(len == spec_num_chunks(total, chunk_size));
    }
    TransferOutcome::Completed(file.into_bytes(), TransferStats { delivered, redirects })
}

} // verus!
