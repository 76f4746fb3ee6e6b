//! The transfer engine: a GET stream is consumed chunk by chunk, each chunk
//! checked against the cancellation flag before it is written, progress
//! published at most once per throttle window, and the transfer ended in a
//! terminal state. The network and file I/O live with the host; every
//! decision the streaming loop takes is here, as a verified state machine.

use vstd::prelude::*;
use vstd::string::*;

verus! {

/// Transfers larger than this are outside the engine's arithmetic bounds.
pub const MAX_TRANSFER_BYTES: i64 = 0x20_0000_0000_0000;

/// Event times beyond this bound are outside the engine's arithmetic bounds.
pub const MAX_EVENT_TIME_MS: u64 = 0x4000_0000_0000_0000;

/// The mathematical state of one running transfer.
pub ghost struct TransferView {
    pub id: Seq<char>,
    pub total: int,
    pub received: int,
    pub last_emit_ms: int,
    pub last_emit_bytes: int,
    pub emits: nat,
    pub cancelled: bool,
}

/// The mutable state of one running transfer task.
pub struct Transfer {
    pub id: String,
    pub total_bytes: i64,
    pub received_bytes: i64,
    pub last_emit_ms: u64,
    pub last_emit_bytes: i64,
    pub emits: u64,
    pub cancelled: bool,
}

impl View for Transfer {
    type V = TransferView;

    open spec fn view(&self) -> TransferView {
        TransferView {
            id: self.id@,
            total: self.total_bytes as int,
            received: self.received_bytes as int,
            last_emit_ms: self.last_emit_ms as int,
            last_emit_bytes: self.last_emit_bytes as int,
            emits: self.emits as nat,
            cancelled: self.cancelled,
        }
    }
}

/// One observed chunk arrival: its length, whether the cancellation flag was
/// seen raised when it arrived, and the wall-clock time of the observation.
#[derive(Clone, Copy, PartialEq, Eq, Structural)]
pub struct ChunkEvent {
    pub len: usize,
    pub cancel: bool,
    pub now_ms: u64,
}

impl View for ChunkEvent {
    type V = ChunkEvent;

    open spec fn view(&self) -> ChunkEvent {
        *self
    }
}

/// A progress notification: received bytes, probed total and instantaneous
/// speed in bytes per second.
pub struct ProgressUpdate {
    pub id: String,
    pub received_bytes: i64,
    pub total_bytes: i64,
    pub speed: i64,
    pub state: String,
}

/// The mathematical value of a progress notification.
pub ghost struct ProgressView {
    pub id: Seq<char>,
    pub received_bytes: int,
    pub total_bytes: int,
    pub speed: int,
    pub state: Seq<char>,
}

impl View for ProgressUpdate {
    type V = ProgressView;

    open spec fn view(&self) -> ProgressView {
        ProgressView {
            id: self.id@,
            received_bytes: self.received_bytes as int,
            total_bytes: self.total_bytes as int,
            speed: self.speed as int,
            state: self.state@,
        }
    }
}

/// What the streaming loop must do after one chunk arrival.
pub enum ChunkAction {
    /// The cancellation flag was observed: the chunk is not written, the
    /// partial file is deleted, and the task exits cancelled.
    Cancelled,
    /// Write the chunk; the throttle window has not passed, so no
    /// notification goes out however fast chunks arrive.
    Write,
    /// Write the chunk and publish the carried progress notification.
    WriteAndEmit(ProgressUpdate),
}

/// The starting state of a transfer task.
pub open spec fn spec_begin(id: Seq<char>, total: int, start_ms: int) -> TransferView {
    TransferView {
        id: id,
        total: total,
        received: 0,
        last_emit_ms: start_ms,
        last_emit_bytes: 0,
        emits: 0,
        cancelled: false,
    }
}

/// One chunk arrival: a cancelled transfer never moves again; an observed
/// flag cancels it; otherwise the bytes are counted and a notification fires
/// exactly when a full throttle window has passed since the previous one.
pub open spec fn spec_step(t: TransferView, c: ChunkEvent) -> TransferView {
    if t.cancelled {
        t
    } else if c.cancel {
        TransferView { cancelled: true, ..t }
    } else {
        let rec2 = t.received + c.len;
        if c.now_ms >= t.last_emit_ms + 250 {
            TransferView {
                received: rec2,
                last_emit_ms: c.now_ms as int,
                last_emit_bytes: rec2,
                emits: t.emits + 1,
                ..t
            }
        } else {
            TransferView { received: rec2, ..t }
        }
    }
}

/// The transfer state after a whole sequence of chunk arrivals.
pub open spec fn spec_run(t: TransferView, chunks: Seq<ChunkEvent>) -> TransferView
    decreases chunks.len(),
{
    if chunks.len() == 0 {
        t
    } else {
        spec_step(spec_run(t, chunks.drop_last()), chunks.last())
    }
}

/// The total length of a sequence of chunks.
pub open spec fn spec_sum_lens(chunks: Seq<ChunkEvent>) -> int
    decreases chunks.len(),
{
    if chunks.len() == 0 {
        0
    } else {
        spec_sum_lens(chunks.drop_last()) + chunks.last().len
    }
}

impl Transfer {
    /// The representation bounds that keep the engine's arithmetic exact.
    pub open spec fn wf(&self) -> bool {
        &&& 0 <= self@.received <= MAX_TRANSFER_BYTES
        &&& 0 <= self@.last_emit_bytes <= self@.received
        &&& self@.last_emit_ms <= MAX_EVENT_TIME_MS
        &&& (self@.emits > 0 ==> 250 * self@.emits <= self@.last_emit_ms)
    }

    /// A transfer task about to consume its stream.
    pub fn begin(id: String, total_bytes: i64, start_ms: u64) -> (r: Self)
        requires
            start_ms <= MAX_EVENT_TIME_MS,
        ensures
            r.wf(),
            r@ == spec_begin(id@, total_bytes as int, start_ms as int),
    {
        Transfer {
            id: id,
            total_bytes: total_bytes,
            received_bytes: 0,
            last_emit_ms: start_ms,
            last_emit_bytes: 0,
            emits: 0,
            cancelled: false,
        }
    }

    /// Consumes one chunk arrival and says what the loop must do with it.
    /// The notification, when one fires, carries the byte count, the probed
    /// total, and the speed computed from the byte delta and the elapsed
    /// time since the previous notification.
    pub fn on_chunk(&mut self, len: usize, cancel: bool, now_ms: u64) -> (r: ChunkAction)
        requires
            old(self).wf(),
            old(self)@.received + len <= MAX_TRANSFER_BYTES,
            now_ms <= MAX_EVENT_TIME_MS,
        ensures
            final(self).wf(),
            final(self)@ == spec_step(
                old(self)@,
                (ChunkEvent { len: len, cancel: cancel, now_ms: now_ms }),
            ),
            match r {
                ChunkAction::Cancelled => old(self)@.cancelled || cancel,
                ChunkAction::Write => !old(self)@.cancelled && !cancel && !(now_ms >= old(
                    self,
                )@.last_emit_ms + 250),
                ChunkAction::WriteAndEmit(p) => !old(self)@.cancelled && !cancel && now_ms >= old(
                    self,
                )@.last_emit_ms + 250 && p@ == (ProgressView {
                    id: old(self)@.id,
                    received_bytes: old(self)@.received + len,
                    total_bytes: old(self)@.total,
                    speed: (old(self)@.received + len - old(self)@.last_emit_bytes) * 1000 / (
                    now_ms - old(self)@.last_emit_ms),
                    state: "progressing"@,
                }),
            },
    {
        if self.cancelled {
            return ChunkAction::Cancelled;
        }
        if cancel {
            self.cancelled = true;
            return ChunkAction::Cancelled;
        }
        let rec2: i64 = self.received_bytes + len as i64;
        self.received_bytes = rec2;
        if now_ms >= self.last_emit_ms && now_ms - self.last_emit_ms >= 250 {
            let elapsed: i64 = (now_ms - self.last_emit_ms) as i64;
            let diff: i64 = rec2 - self.last_emit_bytes;
            let speed: i64 = diff * 1000 / elapsed;
            self.last_emit_ms = now_ms;
            self.last_emit_bytes = rec2;
            self.emits = self.emits + 1;
            ChunkAction::WriteAndEmit(
                ProgressUpdate {
                    id: self.id.clone(),
                    received_bytes: rec2,
                    total_bytes: self.total_bytes,
                    speed: speed,
                    state: String::from_str("progressing"),
                },
            )
        } else {
            ChunkAction::Write
        }
    }
}

proof fn lemma_sum_split(chunks: Seq<ChunkEvent>, i: int)
    requires
        0 <= i <= chunks.len(),
    ensures
        spec_sum_lens(chunks) == spec_sum_lens(chunks.subrange(0, i)) + spec_sum_lens(
            chunks.subrange(i, chunks.len() as int),
        ),
    decreases chunks.len(),
{
    if chunks.len() == 0 {
        assert(chunks.subrange(0, 0) =~= chunks);
    } else if i == chunks.len() {
        assert(chunks.subrange(0, i) =~= chunks);
        assert(spec_sum_lens(chunks.subrange(i, i)) == 0);
    } else {
        let d = chunks.drop_last();
        lemma_sum_split(d, i);
        assert(d.subrange(0, i) =~= chunks.subrange(0, i));
        let tail = chunks.subrange(i, chunks.len() as int);
        assert(tail.drop_last() =~= d.subrange(i, d.len() as int));
        assert(tail.last() == chunks.last());
    }
}

proof fn lemma_sum_nonneg(chunks: Seq<ChunkEvent>)
    ensures
        spec_sum_lens(chunks) >= 0,
    decreases chunks.len(),
{
    if chunks.len() > 0 {
        lemma_sum_nonneg(chunks.drop_last());
    }
}

/// A transfer that observed its cancellation flag stays cancelled and
/// unchanged under any further arrivals.
proof fn lemma_run_frozen(t0: TransferView, chunks: Seq<ChunkEvent>, i: int)
    requires
        0 <= i <= chunks.len(),
        spec_run(t0, chunks.subrange(0, i)).cancelled,
    ensures
        spec_run(t0, chunks) == spec_run(t0, chunks.subrange(0, i)),
    decreases chunks.len() - i,
{
    if i == chunks.len() {
        assert(chunks.subrange(0, i) =~= chunks);
    } else {
        assert(chunks.subrange(0, i + 1).drop_last() =~= chunks.subrange(0, i));
        assert(chunks.subrange(0, i + 1).last() == chunks[i]);
        lemma_run_frozen(t0, chunks, i + 1);
    }
}

proof fn lemma_run_uncancelled(t: TransferView, chunks: Seq<ChunkEvent>)
    requires
        forall|i: int| 0 <= i < chunks.len() ==> !(#[trigger] chunks[i]).cancel,
        !t.cancelled,
    ensures
        !spec_run(t, chunks).cancelled,
        spec_run(t, chunks).received == t.received + spec_sum_lens(chunks),
    decreases chunks.len(),
{
    if chunks.len() > 0 {
        let d = chunks.drop_last();
        lemma_run_uncancelled(t, d);
        assert(chunks[chunks.len() - 1] == chunks.last());
    }
}

/// A completed stream whose flag never rose delivers every byte: the final
/// state is uncancelled with the full length received.
pub proof fn law_run_completes(
    id: Seq<char>,
    total: int,
    start_ms: int,
    chunks: Seq<ChunkEvent>,
)
    requires
        forall|i: int| 0 <= i < chunks.len() ==> !(#[trigger] chunks[i]).cancel,
    ensures
        !spec_run(spec_begin(id, total, start_ms), chunks).cancelled,
        spec_run(spec_begin(id, total, start_ms), chunks).received == spec_sum_lens(chunks),
{
    lemma_run_uncancelled(spec_begin(id, total, start_ms), chunks);
}

/// A flag first observed at position `k` cancels the transfer with exactly
/// the bytes before `k` received: the chunk that saw the flag, and all after
/// it, are never counted or written.
pub proof fn law_run_cancelled(
    id: Seq<char>,
    total: int,
    start_ms: int,
    chunks: Seq<ChunkEvent>,
    k: int,
)
    requires
        0 <= k < chunks.len(),
        chunks[k].cancel,
        forall|j: int| 0 <= j < k ==> !(#[trigger] chunks[j]).cancel,
    ensures
        spec_run(spec_begin(id, total, start_ms), chunks).cancelled,
        spec_run(spec_begin(id, total, start_ms), chunks).received == spec_sum_lens(
            chunks.subrange(0, k),
        ),
{
    let t0 = spec_begin(id, total, start_ms);
    let pre = chunks.subrange(0, k);
    assert forall|j: int| 0 <= j < pre.len() implies !(#[trigger] pre[j]).cancel by {
        assert(pre[j] == chunks[j]);
    }
    lemma_run_uncancelled(t0, pre);
    assert(chunks.subrange(0, k + 1).drop_last() =~= pre);
    assert(chunks.subrange(0, k + 1).last() == chunks[k]);
    assert(spec_run(t0, chunks.subrange(0, k + 1)).cancelled);
    assert(spec_run(t0, chunks.subrange(0, k + 1)).received == spec_run(t0, pre).received);
    lemma_run_frozen(t0, chunks, k + 1);
}

proof fn lemma_throttle_invariant(t: TransferView, chunks: Seq<ChunkEvent>, start: int, t_end: int)
    requires
        forall|i: int| 0 <= i < chunks.len() ==> (#[trigger] chunks[i]).now_ms <= t_end,
        start <= t_end,
        t.emits == 0 ==> t.last_emit_ms >= start,
        t.emits > 0 ==> t.last_emit_ms >= start + 250 * t.emits && t.last_emit_ms <= t_end,
    ensures
        spec_run(t, chunks).emits == 0 ==> spec_run(t, chunks).last_emit_ms >= start,
        spec_run(t, chunks).emits > 0 ==> spec_run(t, chunks).last_emit_ms >= start + 250
            * spec_run(t, chunks).emits && spec_run(t, chunks).last_emit_ms <= t_end,
        spec_run(t, chunks).emits >= t.emits,
    decreases chunks.len(),
{
    if chunks.len() > 0 {
        let d = chunks.drop_last();
        lemma_throttle_invariant(t, d, start, t_end);
        assert(chunks[chunks.len() - 1] == chunks.last());
    }
}

/// Progress is throttled: over any stream whose arrivals all fall before
/// `t_end`, the number of notifications is bounded by the elapsed time in
/// throttle windows — it grows with time, never with chunk count.
pub proof fn law_progress_throttled(
    id: Seq<char>,
    total: int,
    start_ms: int,
    chunks: Seq<ChunkEvent>,
    t_end: int,
)
    requires
        forall|i: int| 0 <= i < chunks.len() ==> (#[trigger] chunks[i]).now_ms <= t_end,
        start_ms <= t_end,
    ensures
        250 * spec_run(spec_begin(id, total, start_ms), chunks).emits <= t_end - start_ms,
{
    lemma_throttle_invariant(spec_begin(id, total, start_ms), chunks, start_ms, t_end);
}

/// The outcome of one simulated or replayed stream: the terminal state, the
/// bytes received, whether the partial file was deleted, and every progress
/// notification that went out, in order.
pub struct TransferRun {
    pub state: String,
    pub received_bytes: i64,
    pub file_deleted: bool,
    pub progress: Vec<ProgressUpdate>,
}

/// Consumes a whole sequence of chunk arrivals through the engine: each
/// chunk is checked against the flag before it counts, notifications are
/// throttled, and the run ends cancelled (with the partial file deleted) or
/// completed. Notifications are monotonically non-decreasing in received
/// bytes.
pub fn run_transfer(id: String, total_bytes: i64, start_ms: u64, chunks: &Vec<ChunkEvent>) -> (r:
    TransferRun)
    requires
        spec_sum_lens(chunks@) <= MAX_TRANSFER_BYTES,
        start_ms <= MAX_EVENT_TIME_MS,
        forall|i: int| 0 <= i < chunks@.len() ==> (#[trigger] chunks@[i]).now_ms
            <= MAX_EVENT_TIME_MS,
    ensures
        r.received_bytes as int == spec_run(
            spec_begin(id@, total_bytes as int, start_ms as int),
            chunks@,
        ).received,
        r.file_deleted == spec_run(
            spec_begin(id@, total_bytes as int, start_ms as int),
            chunks@,
        ).cancelled,
        r.state@ == if spec_run(
            spec_begin(id@, total_bytes as int, start_ms as int),
            chunks@,
        ).cancelled {
            "cancelled"@
        } else {
            "completed"@
        },
        r.progress@.len() == spec_run(
            spec_begin(id@, total_bytes as int, start_ms as int),
            chunks@,
        ).emits,
        forall|a: int, b: int|
            0 <= a < b < r.progress@.len() ==> (#[trigger] r.progress@[a])@.received_bytes <= (
            #[trigger] r.progress@[b])@.received_bytes,
        forall|a: int|
            0 <= a < r.progress@.len() ==> (#[trigger] r.progress@[a])@.id == id@ && r.progress@[a]@.total_bytes
                == total_bytes as int && r.progress@[a]@.state == "progressing"@,
{
    let ghost t0 = spec_begin(id@, total_bytes as int, start_ms as int);
    let n = chunks.len();
    let mut tr = Transfer::begin(id, total_bytes, start_ms);
    let mut progress: Vec<ProgressUpdate> = Vec::new();
    let mut cancelled = false;
    let mut i: usize = 0;
    while i < n && !cancelled
        invariant
            n == chunks@.len(),
            i <= n,
            spec_sum_lens(chunks@) <= MAX_TRANSFER_BYTES,
            forall|k: int| 0 <= k < chunks@.len() ==> (#[trigger] chunks@[k]).now_ms
                <= MAX_EVENT_TIME_MS,
            tr.wf(),
            tr@ == spec_run(t0, chunks@.subrange(0, i as int)),
            tr@.id == t0.id,
            tr@.total == t0.total,
            cancelled == tr@.cancelled,
            tr@.received <= spec_sum_lens(chunks@.subrange(0, i as int)),
            progress@.len() == tr@.emits,
            forall|a: int| 0 <= a < progress@.len() ==> (#[trigger] progress@[a])@.received_bytes
                <= tr@.received,
            forall|a: int, b: int|
                0 <= a < b < progress@.len() ==> (#[trigger] progress@[a])@.received_bytes <= (
                #[trigger] progress@[b])@.received_bytes,
            forall|a: int|
                0 <= a < progress@.len() ==> (#[trigger] progress@[a])@.id == t0.id && progress@[a]@.total_bytes
                    == t0.total && progress@[a]@.state == "progressing"@,
        decreases n - i,
    {
        let c = chunks[i];
        proof {
            lemma_sum_split(chunks@, i as int);
            lemma_sum_nonneg(chunks@.subrange(i as int, n as int));
            assert(chunks@.subrange(0, i + 1).drop_last() =~= chunks@.subrange(0, i as int));
            assert(chunks@.subrange(0, i + 1).last() == chunks@[i as int]);
            lemma_sum_split(chunks@, i + 1);
            lemma_sum_nonneg(chunks@.subrange(i + 1, n as int));
            assert(spec_sum_lens(chunks@.subrange(0, i + 1)) == spec_sum_lens(
                chunks@.subrange(0, i as int),
            ) + c.len);
        }
        let act = tr.on_chunk(c.len, c.cancel, c.now_ms);
        match act {
            ChunkAction::Cancelled => {
                cancelled = true;
            },
            ChunkAction::Write => {},
            ChunkAction::WriteAndEmit(p) => {
                progress.push(p);
            },
        }
        i += 1;
    }
    proof {
        if cancelled {
            lemma_run_frozen(t0, chunks@, i as int);
        } else {
            assert(i == n);
            assert(chunks@.subrange(0, n as int) =~= chunks@);
        }
    }
    let state = if cancelled {
        String::from_str("cancelled")
    } else {
        String::from_str("completed")
    };
    TransferRun {
        state: state,
        received_bytes: tr.received_bytes,
        file_deleted: cancelled,
        progress: progress,
    }
}

} // verus!
