//! The TTS engine: queues requests, gathers batches, and decides what becomes
//! of the requests and of the worker.
//!
//! Times are nanoseconds since some fixed instant, durations are nanoseconds.

use crate::buffer;
use crate::proto::{
    Response, ResponseView, TtsRequest, ST_GENERATION_FAILED, ST_MODEL_MISSING, ST_OK,
};
use crate::server::batching;
use crate::server::batching::{BatchKey, PendingItem};
use crate::server::holder;
use crate::text;
use bytes::Bytes;
use std::collections::VecDeque;
use std::path::PathBuf;
use vstd::prelude::*;
use vstd::utf8::*;

verus! {

/// The batch window that stands in for none: 300 milliseconds.
pub const DEFAULT_BATCH_GRACE: u128 = 300_000_000;

/// What became of a request.
#[derive(Debug)]
pub enum TtsResult {
    Done(Bytes),
    ModelMissing(String),
    Cancelled,
    Failed(String),
}

/// What became of a request.
#[verifier::ext_equal]
pub enum TtsResultView {
    Done(Seq<u8>),
    ModelMissing(Seq<char>),
    Cancelled,
    Failed(Seq<char>),
}

impl View for TtsResult {
    type V = TtsResultView;

    open spec fn view(&self) -> TtsResultView {
        match self {
            TtsResult::Done(payload) => TtsResultView::Done(buffer::bytes_of(*payload)),
            TtsResult::ModelMissing(msg) => TtsResultView::ModelMissing(msg@),
            TtsResult::Cancelled => TtsResultView::Cancelled,
            TtsResult::Failed(msg) => TtsResultView::Failed(msg@),
        }
    }
}

/// The text that a payload holds.
pub fn payload_str(b: &Bytes) -> (s: String)
    ensures
        s@ == text::readable(buffer::bytes_of(*b)),
{
    text::utf8_lossy(buffer::as_slice(b))
}

/// What a worker's response means for the request.
pub open spec fn classified(resp: ResponseView) -> TtsResultView {
    if resp.status == ST_OK {
        TtsResultView::Done(resp.payload)
    } else if resp.status == ST_MODEL_MISSING {
        TtsResultView::ModelMissing(text::readable(resp.payload))
    } else if resp.status == ST_GENERATION_FAILED && resp.payload == encode_utf8("cancelled"@) {
        TtsResultView::Cancelled
    } else {
        TtsResultView::Failed(text::readable(resp.payload))
    }
}

/// What a worker's response means for the request.
pub fn classify(resp: &Response) -> (r: TtsResult)
    ensures
        r@ == classified(resp@),
{
    if resp.status == ST_OK {
        TtsResult::Done(resp.payload.clone())
    } else if resp.status == ST_MODEL_MISSING {
        TtsResult::ModelMissing(payload_str(&resp.payload))
    } else if resp.status == ST_GENERATION_FAILED && buffer::same_bytes(
        buffer::as_slice(&resp.payload),
        "cancelled".as_bytes(),
    ) {
        TtsResult::Cancelled
    } else {
        TtsResult::Failed(payload_str(&resp.payload))
    }
}

/// How the attempt to run a batch ended.
#[derive(Debug)]
pub enum BatchEnd {
    /// No worker could be started.
    SpawnFailed(String),
    /// The worker had exited before the batch was sent.
    Exited,
    /// The batch could not be sent.
    WriteFailed(String),
    /// No answer could be read.
    ReadFailed(String),
    /// The worker answered.
    Answered(Vec<Response>),
}

/// What becomes of the worker.
#[derive(Debug, Clone, Copy, PartialEq, Eq, Structural)]
pub enum Fate {
    /// It stays, and has just been used.
    Used,
    /// It is let go; the next request starts another.
    Dropped,
}

/// How far the work on a batch or a stream has come.
#[derive(Debug, Clone, Copy, PartialEq, Eq, Structural)]
pub enum Phase {
    /// A worker is being started.
    Spawning,
    /// The worker is being looked at.
    Checking,
    /// The request is being sent.
    Sending,
    /// The answer is awaited.
    Receiving,
    Ended,
}

/// What the `i`th request of a batch is answered, if it is.
pub open spec fn reply(end: BatchEnd, i: int) -> Option<TtsResultView> {
    match end {
        BatchEnd::SpawnFailed(msg) => Some(TtsResultView::ModelMissing(msg@)),
        BatchEnd::Exited => None,
        BatchEnd::WriteFailed(msg) => Some(TtsResultView::Failed("worker pipe error: "@ + msg@)),
        BatchEnd::ReadFailed(msg) => Some(TtsResultView::Failed("worker pipe error: "@ + msg@)),
        BatchEnd::Answered(responses) => if i < responses@.len() {
            Some(classified(responses@[i]@))
        } else {
            Some(TtsResultView::Failed("dispatcher dropped request"@))
        },
    }
}

/// What the `i`th request of a batch is answered.
fn reply_to(end: &BatchEnd, i: usize) -> (r: TtsResult)
    requires
        !(end is Exited),
    ensures
        reply(*end, i as int) == Some(r@),
{
    match end {
        BatchEnd::SpawnFailed(msg) => TtsResult::ModelMissing(msg.clone()),
        BatchEnd::WriteFailed(msg) | BatchEnd::ReadFailed(msg) => TtsResult::Failed(
            text::join("worker pipe error: ", msg.as_str()),
        ),
        BatchEnd::Answered(responses) => if i < responses.len() {
            classify(&responses[i])
        } else {
            TtsResult::Failed("dispatcher dropped request".to_owned())
        },
        BatchEnd::Exited => TtsResult::Cancelled,
    }
}

/// A batch that is being gathered.
#[derive(Debug)]
pub struct Round<T> {
    pub key: BatchKey,
    pub batch: Vec<PendingItem<T>>,
}

/// What to do with a batch that is being gathered.
#[derive(Debug, Clone, Copy, PartialEq, Eq, Structural)]
pub enum Gather {
    /// Run it.
    Dispatch,
    /// Wait for more requests, but no longer than this.
    Wait(u128),
}

/// The engine. `T` is how a request's client is answered.
#[derive(Debug)]
pub struct TtsEngine<T> {
    pub model_dir: PathBuf,
    pub cpu: bool,
    pub ttl: u128,
    /// The most requests that run as one batch.
    pub parallel: usize,
    /// How long a batch waits for more requests.
    pub batch_window: u128,
    /// The requests that wait, oldest first.
    pub queue: VecDeque<PendingItem<T>>,
}

impl<T> TtsEngine<T> {
    /// Whether the settings are in range.
    pub open spec fn wf(self) -> bool {
        self.parallel >= 1 && self.batch_window > 0
    }

    /// Whether the settings are those of another engine.
    pub open spec fn same_settings(self, other: TtsEngine<T>) -> bool {
        &&& self.model_dir == other.model_dir
        &&& self.cpu == other.cpu
        &&& self.ttl == other.ttl
        &&& self.parallel == other.parallel
        &&& self.batch_window == other.batch_window
    }

    /// An engine with an empty queue. At least one request runs at a time, and
    /// no batch window means the default one.
    pub fn new(
        model_dir: PathBuf,
        ttl: u128,
        cpu: bool,
        parallel: usize,
        batch_window: u128,
    ) -> (engine: Self)
        ensures
            engine.wf(),
            engine.model_dir == model_dir,
            engine.cpu == cpu,
            engine.ttl == ttl,
            engine.parallel == if parallel == 0 {
                1
            } else {
                parallel
            },
            engine.batch_window == if batch_window == 0 {
                DEFAULT_BATCH_GRACE
            } else {
                batch_window
            },
            engine.queue@.len() == 0,
    {
        TtsEngine {
            model_dir,
            cpu,
            ttl,
            parallel: if parallel == 0 {
                1
            } else {
                parallel
            },
            batch_window: if batch_window == 0 {
                DEFAULT_BATCH_GRACE
            } else {
                batch_window
            },
            queue: VecDeque::new(),
        }
    }

    /// Submits a request: `parsed` is what its JSON says. A request whose JSON
    /// is no request is answered at once; any other waits behind all others,
    /// with its bytes as they came.
    pub fn generate(
        &mut self,
        json: Bytes,
        audio: Option<Bytes>,
        parsed: Result<TtsRequest, String>,
        handle: T,
    ) -> (r: Option<(T, TtsResult)>)
        ensures
            final(self).same_settings(*old(self)),
            match parsed {
                Ok(req) => r is None && final(self).queue@ == old(self).queue@.push(
                    (PendingItem { json, audio, key: BatchKey::of(req@), handle }),
                ),
                Err(e) => final(self).queue@ == old(self).queue@ && (r matches Some(reply)
                    && reply.0 == handle && reply.1@ == TtsResultView::Failed(
                    "invalid tts json: "@ + e@,
                )),
            },
    {
        match parsed {
            Ok(req) => {
                let key = BatchKey::from_request(&req);
                self.queue.push_back(PendingItem { json, audio, key, handle });
                None
            },
            Err(e) => {
                let msg = text::join("invalid tts json: ", e.as_str());
                Some((handle, TtsResult::Failed(msg)))
            },
        }
    }

    /// Starts a batch with the oldest request, if one waits, and adds those
    /// that wait already and may run with it.
    pub fn begin_round(&mut self) -> (r: Option<Round<T>>)
        ensures
            final(self).same_settings(*old(self)),
            match r {
                None => old(self).queue@.len() == 0 && final(self).queue@ == old(self).queue@,
                Some(round) => {
                    let first = old(self).queue@[0];
                    let more = old(self).queue@.skip(1);
                    let room = batching::room(1, old(self).parallel as nat);
                    &&& old(self).queue@.len() > 0
                    &&& round.key == first.key
                    &&& round.batch@ == seq![first] + batching::picked(more, first.key, room)
                    &&& final(self).queue@ == batching::left(more, first.key, room)
                },
            },
    {
        match self.queue.pop_front() {
            None => None,
            Some(first) => {
                let key = first.key;
                let mut batch: Vec<PendingItem<T>> = Vec::new();
                batch.push(first);
                let max: usize = self.parallel;
                assert(self.queue@ =~= old(self).queue@.skip(1));
                assert(batch@ =~= seq![old(self).queue@[0]]);
                batching::drain_matching(&mut self.queue, &mut batch, key, max);
                Some(Round { key, batch })
            },
        }
    }

    /// Adds requests that came in since and may run with the batch.
    pub fn fill(&mut self, round: &mut Round<T>)
        ensures
            final(self).same_settings(*old(self)),
            final(round).key == old(round).key,
            final(round).batch@ == old(round).batch@ + batching::picked(
                old(self).queue@,
                old(round).key,
                batching::room(old(round).batch@.len(), old(self).parallel as nat),
            ),
            final(self).queue@ == batching::left(
                old(self).queue@,
                old(round).key,
                batching::room(old(round).batch@.len(), old(self).parallel as nat),
            ),
    {
        let key = round.key;
        let max: usize = self.parallel;
        batching::drain_matching(&mut self.queue, &mut round.batch, key, max);
    }

    /// What to do with a batch for which the window has been open for
    /// `waited`: it runs when it is full or the window has closed.
    pub open spec fn gather(self, len: nat, waited: u128) -> Gather {
        if len >= self.parallel || waited >= self.batch_window {
            Gather::Dispatch
        } else {
            Gather::Wait((self.batch_window - waited) as u128)
        }
    }

    /// What to do with a batch for which the window has been open for
    /// `waited`.
    pub fn next_step(&self, round: &Round<T>, waited: u128) -> (step: Gather)
        ensures
            step == self.gather(round.batch@.len(), waited),
    {
        if round.batch.len() >= self.parallel || waited >= self.batch_window {
            Gather::Dispatch
        } else {
            Gather::Wait(self.batch_window - waited)
        }
    }

    /// How often to look whether the worker is idle: never if it is to stay.
    pub fn eviction_tick(&self) -> (tick: Option<u128>)
        ensures
            tick == holder::tick_of(self.ttl),
    {
        holder::eviction_tick(self.ttl)
    }

    /// Whether the worker is to go: there is one, and it has been idle for long
    /// enough.
    pub fn evicts(&self, last_used: Option<u128>, now: u128) -> (r: bool)
        ensures
            r == match last_used {
                Some(t) => holder::is_due(self.ttl, t, now),
                None => false,
            },
    {
        match last_used {
            Some(t) => holder::due(self.ttl, t, now),
            None => false,
        }
    }

    /// Ends a batch: the answers to its requests, and what becomes of the
    /// worker. If the worker had exited, the requests wait again, ahead of all
    /// others.
    pub fn conclude(&mut self, batch: Vec<PendingItem<T>>, end: BatchEnd) -> (r: (
        Vec<(T, TtsResult)>,
        Fate,
    ))
        ensures
            final(self).same_settings(*old(self)),
            r.1 == if end is Answered {
                Fate::Used
            } else {
                Fate::Dropped
            },
            match end {
                BatchEnd::Exited => r.0@.len() == 0 && final(self).queue@ == batch@
                    + old(self).queue@,
                _ => {
                    &&& final(self).queue@ == old(self).queue@
                    &&& r.0@.len() == batch@.len()
                    &&& forall|i: int|
                        0 <= i < batch@.len() ==> (#[trigger] r.0@[i]).0 == batch@[i].handle
                            && reply(end, i) == Some(r.0@[i].1@)
                },
            },
    {
        let mut replies: Vec<(T, TtsResult)> = Vec::new();
        if let BatchEnd::Exited = end {
            batching::requeue_front(&mut self.queue, batch);
            return (replies, Fate::Dropped);
        }
        let fate = match end {
            BatchEnd::Answered(_) => Fate::Used,
            _ => Fate::Dropped,
        };
        let n: usize = batch.len();
        let mut i: usize = 0;
        for item in it: batch
            invariant
                !(end is Exited),
                n == batch@.len(),
                i == it.index(),
                it.seq() == batch@,
                replies@.len() == i,
                forall|k: int|
                    0 <= k < i ==> (#[trigger] replies@[k]).0 == batch@[k].handle && reply(end, k)
                        == Some(replies@[k].1@),
        {
            let r = reply_to(&end, i);
            replies.push((item.handle, r));
            i += 1;
        }
        (replies, fate)
    }
}

/// One word of the command that starts a worker.
#[derive(Debug, Clone, Copy)]
pub enum WorkerArg {
    Word(&'static str),
    /// The model's directory stands here.
    ModelDir,
}

/// One word of the command that starts a worker.
pub enum WorkerArgView {
    Word(Seq<char>),
    ModelDir,
}

impl View for WorkerArg {
    type V = WorkerArgView;

    open spec fn view(&self) -> WorkerArgView {
        match self {
            WorkerArg::Word(w) => WorkerArgView::Word(w@),
            WorkerArg::ModelDir => WorkerArgView::ModelDir,
        }
    }
}

/// The words behind the program's name that start a worker.
pub open spec fn worker_words(cpu: bool) -> Seq<WorkerArgView> {
    let words = seq![
        WorkerArgView::Word("tts-worker"@),
        WorkerArgView::Word("--tts-dir"@),
        WorkerArgView::ModelDir,
    ];
    if cpu {
        words.push(WorkerArgView::Word("--cpu"@))
    } else {
        words
    }
}

/// The words behind the program's name that start a worker.
pub fn worker_args(cpu: bool) -> (args: Vec<WorkerArg>)
    ensures
        args@.map_values(|a: WorkerArg| a@) == worker_words(cpu),
{
    let mut args: Vec<WorkerArg> = Vec::new();
    args.push(WorkerArg::Word("tts-worker"));
    args.push(WorkerArg::Word("--tts-dir"));
    args.push(WorkerArg::ModelDir);
    if cpu {
        args.push(WorkerArg::Word("--cpu"));
    }
    assert(args@.map_values(|a: WorkerArg| a@) =~= worker_words(cpu));
    args
}

/// What a worker is told to log, unless the environment says so already.
pub fn worker_log_level(set: bool) -> (level: Option<&'static str>)
    ensures
        match level {
            Some(l) => !set && l@ == "info"@,
            None => set,
        },
{
    if set {
        None
    } else {
        Some("info")
    }
}

/// How long a worker that is to go has for it before it is killed.
pub const EXIT_GRACE: u128 = 3_000_000_000;

/// The byte that a worker sends when it is ready.
pub const READY: u8 = 0;

/// Judges the first byte that a worker sends, or why there was none.
pub fn check_ready(first: Result<u8, String>) -> (r: Result<(), String>)
    ensures
        match (first, r) {
            (Ok(b), Ok(_)) => b == READY,
            (Ok(b), Err(msg)) => b != READY && msg@ == "worker sent unexpected ready byte: "@
                + text::decimal(b as nat),
            (Err(e), Err(msg)) => msg@ == "worker did not become ready: "@ + e@,
            (Err(e), Ok(_)) => false,
        },
{
    match first {
        Ok(b) => if b == READY {
            Ok(())
        } else {
            Err(text::label_number("worker sent unexpected ready byte: ", b as u64))
        },
        Err(e) => Err(text::join("worker did not become ready: ", e.as_str())),
    }
}

/// Whether a batch may run as one: it is not empty and not too large, and all
/// its requests share a key.
pub open spec fn runs_as_one<T>(batch: Seq<PendingItem<T>>, key: BatchKey, parallel: nat) -> bool {
    &&& batch.len() >= 1
    &&& batch.len() <= parallel
    &&& forall|i: int| 0 <= i < batch.len() ==> (#[trigger] batch[i]).key == key
}

/// A batch that is started may run as one. It starts with the request that has
/// waited longest, no request is lost or doubled, and the requests that stay
/// behind keep their order.
pub proof fn round_begins_well<T>(queue: Seq<PendingItem<T>>, parallel: nat)
    requires
        queue.len() > 0,
        parallel >= 1,
    ensures
        ({
            let key = queue[0].key;
            let room = batching::room(1, parallel);
            let batch = seq![queue[0]] + batching::picked(queue.skip(1), key, room);
            let rest = batching::left(queue.skip(1), key, room);
            &&& runs_as_one(batch, key, parallel)
            &&& batch.to_multiset().add(rest.to_multiset()) == queue.to_multiset()
            &&& batching::without_key(rest, key) == batching::without_key(queue, key)
            &&& batch + batching::with_key(rest, key) == batching::with_key(queue, key)
            &&& batch.len() < parallel ==> batching::with_key(rest, key).len() == 0
        }),
{
    broadcast use vstd::seq_lib::group_to_multiset_ensures;

    let key = queue[0].key;
    let room = batching::room(1, parallel);
    let more = queue.skip(1);
    let p = batching::picked(more, key, room);
    let rest = batching::left(more, key, room);
    let batch = seq![queue[0]] + p;
    batching::draining_is_fair(more, key, room);
    batching::draining_keeps_items(more, key, room);
    assert forall|i: int| 0 <= i < batch.len() implies (#[trigger] batch[i]).key == key by {
        if i > 0 {
            assert(batch[i] == p[i - 1]);
        }
    }
    vstd::seq_lib::lemma_multiset_commutative(seq![queue[0]], p);
    vstd::seq_lib::lemma_multiset_commutative(seq![queue[0]], more);
    assert(queue =~= seq![queue[0]] + more);
    assert(batch.to_multiset().add(rest.to_multiset()) =~= queue.to_multiset());
    assert(batch + batching::with_key(rest, key) =~= seq![queue[0]] + (p + batching::with_key(
        rest,
        key,
    )));
}

/// A batch that may run as one still may when requests that came in since have
/// been added; no request is lost or doubled, and those that stay behind keep
/// their order.
pub proof fn round_fills_well<T>(
    batch: Seq<PendingItem<T>>,
    key: BatchKey,
    queue: Seq<PendingItem<T>>,
    parallel: nat,
)
    requires
        runs_as_one(batch, key, parallel),
    ensures
        ({
            let room = batching::room(batch.len(), parallel);
            let fuller = batch + batching::picked(queue, key, room);
            let rest = batching::left(queue, key, room);
            &&& runs_as_one(fuller, key, parallel)
            &&& fuller.to_multiset().add(rest.to_multiset()) == batch.to_multiset().add(
                queue.to_multiset(),
            )
            &&& batching::without_key(rest, key) == batching::without_key(queue, key)
        }),
{
    let room = batching::room(batch.len(), parallel);
    let p = batching::picked(queue, key, room);
    let rest = batching::left(queue, key, room);
    let fuller = batch + p;
    batching::draining_is_fair(queue, key, room);
    batching::draining_keeps_items(queue, key, room);
    assert forall|i: int| 0 <= i < fuller.len() implies (#[trigger] fuller[i]).key == key by {
        if i >= batch.len() {
            assert(fuller[i] == p[i - batch.len()]);
        }
    }
    vstd::seq_lib::lemma_multiset_commutative(batch, p);
    assert(fuller.to_multiset().add(rest.to_multiset()) =~= batch.to_multiset().add(
        queue.to_multiset(),
    ));
}

/// A batch that is put back because the worker had exited leaves the queue as
/// it was if requests run one at a time. Otherwise its requests come first, in
/// their order, and no request is lost or doubled.
pub proof fn requeue_restores<T>(queue: Seq<PendingItem<T>>, parallel: nat)
    requires
        queue.len() > 0,
        parallel >= 1,
    ensures
        ({
            let key = queue[0].key;
            let room = batching::room(1, parallel);
            let batch = seq![queue[0]] + batching::picked(queue.skip(1), key, room);
            let requeued = batch + batching::left(queue.skip(1), key, room);
            &&& parallel == 1 ==> requeued == queue
            &&& requeued[0] == queue[0]
            &&& requeued.to_multiset() == queue.to_multiset()
            &&& batching::with_key(requeued, key) == batching::with_key(queue, key)
            &&& batching::without_key(requeued, key) == batching::without_key(queue, key)
        }),
{
    let key = queue[0].key;
    let room = batching::room(1, parallel);
    let more = queue.skip(1);
    let batch = seq![queue[0]] + batching::picked(more, key, room);
    let rest = batching::left(more, key, room);
    round_begins_well(queue, parallel);
    vstd::seq_lib::lemma_multiset_commutative(batch, rest);
    if parallel == 1 {
        assert(batch + rest =~= queue);
    }
    keys_after_batch(batch, rest, key);
}

/// Requests that share a key, put ahead of others, do not change the order of
/// those with another key.
proof fn keys_after_batch<T>(
    batch: Seq<PendingItem<T>>,
    rest: Seq<PendingItem<T>>,
    key: BatchKey,
)
    requires
        forall|i: int| 0 <= i < batch.len() ==> (#[trigger] batch[i]).key == key,
    ensures
        batching::with_key(batch + rest, key) == batch + batching::with_key(rest, key),
        batching::without_key(batch + rest, key) == batching::without_key(rest, key),
    decreases batch.len(),
{
    let all = batch + rest;
    if batch.len() == 0 {
        assert(all =~= rest);
        assert(batch + batching::with_key(rest, key) =~= batching::with_key(rest, key));
    } else {
        let tail = batch.skip(1);
        assert forall|i: int| 0 <= i < tail.len() implies (#[trigger] tail[i]).key == key by {
            assert(tail[i] == batch[i + 1]);
        }
        keys_after_batch(tail, rest, key);
        assert(all.skip(1) =~= tail + rest);
        assert(seq![batch[0]] + (tail + batching::with_key(rest, key)) =~= batch
            + batching::with_key(rest, key));
    }
}

/// A batch waits only while it may still grow: never once it is full, so never
/// at all if requests run one at a time, and for no longer than is left of the
/// window.
pub proof fn waiting_is_bounded<T>(engine: TtsEngine<T>, len: nat, waited: u128)
    ensures
        match engine.gather(len, waited) {
            Gather::Dispatch => len >= engine.parallel || waited >= engine.batch_window,
            Gather::Wait(n) => len < engine.parallel && n > 0 && waited + n
                == engine.batch_window,
        },
        len >= 1 && engine.parallel == 1 ==> engine.gather(len, waited) == Gather::Dispatch,
{
}

/// What a worker's response means: audio if it succeeded, a missing model with
/// the response's text, a cancelled request if it failed with just that word,
/// and else a failure with the response's text. The text is exact if it is
/// UTF-8.
pub proof fn responses_are_classified(resp: ResponseView, msg: Seq<char>)
    ensures
        resp.status == 0 <==> classified(resp) is Done,
        resp.status == 0 ==> classified(resp) == TtsResultView::Done(resp.payload),
        resp.status == 2 <==> classified(resp) is ModelMissing,
        resp.status == 3 && resp.payload == encode_utf8("cancelled"@) <==> classified(
            resp,
        ) is Cancelled,
        resp.payload == encode_utf8(msg) ==> match classified(resp) {
            TtsResultView::ModelMissing(text) => text == msg,
            TtsResultView::Failed(text) => text == msg,
            _ => true,
        },
        !valid_utf8(resp.payload) ==> match classified(resp) {
            TtsResultView::ModelMissing(text) => text == text::lossy_text(resp.payload),
            TtsResultView::Failed(text) => text == text::lossy_text(resp.payload),
            _ => true,
        },
{
    text::readable_reads_back(msg);
}

/// What became of a request is what the result holds.
pub proof fn results_hold_their_fields(payload: Bytes, msg: String)
    ensures
        TtsResult::Done(payload)@ == TtsResultView::Done(buffer::bytes_of(payload)),
        TtsResult::ModelMissing(msg)@ == TtsResultView::ModelMissing(msg@),
        TtsResult::Cancelled@ == TtsResultView::Cancelled,
        TtsResult::Failed(msg)@ == TtsResultView::Failed(msg@),
{
}

/// Every request of a batch is answered the same if the batch did not get
/// through, with the reason; each gets its own answer if the worker answered,
/// and those that it left out are told so; none is answered if the batch waits
/// again.
pub proof fn replies_follow_the_end(msg: String, responses: Vec<Response>, i: int)
    requires
        0 <= i,
    ensures
        reply(BatchEnd::SpawnFailed(msg), i) == Some(TtsResultView::ModelMissing(msg@)),
        reply(BatchEnd::Exited, i) is None,
        reply(BatchEnd::WriteFailed(msg), i) == Some(
            TtsResultView::Failed("worker pipe error: "@ + msg@),
        ),
        reply(BatchEnd::ReadFailed(msg), i) == Some(
            TtsResultView::Failed("worker pipe error: "@ + msg@),
        ),
        i < responses@.len() ==> reply(BatchEnd::Answered(responses), i) == Some(
            classified(responses@[i]@),
        ),
        i >= responses@.len() ==> reply(BatchEnd::Answered(responses), i) == Some(
            TtsResultView::Failed("dispatcher dropped request"@),
        ),
{
}

/// A batch runs at once if it is full or the window has closed, and else waits
/// for just what is left of the window.
pub proof fn gathering_fills_the_window<T>(engine: TtsEngine<T>, len: nat, waited: u128)
    ensures
        engine.gather(len, waited) == Gather::Dispatch <==> len >= engine.parallel || waited
            >= engine.batch_window,
        engine.gather(len, waited) matches Gather::Wait(n) ==> n == engine.batch_window - waited,
{
}

/// A worker is started by its subcommand, with the directory of the model, and
/// on the CPU if and only if that is asked for.
pub proof fn worker_is_started_with(cpu: bool)
    ensures
        worker_words(cpu).len() == if cpu {
            4int
        } else {
            3
        },
        worker_words(cpu)[0] == WorkerArgView::Word("tts-worker"@),
        worker_words(cpu)[1] == WorkerArgView::Word("--tts-dir"@),
        worker_words(cpu)[2] == WorkerArgView::ModelDir,
        cpu ==> worker_words(cpu)[3] == WorkerArgView::Word("--cpu"@),
{
}

/// A request that is submitted waits behind all others with its own JSON, audio
/// and handle, and with its own options to be batched by. One whose JSON is no
/// request does not wait: it is answered at once.
pub proof fn requests_wait_as_they_came<T>(
    engine: &mut TtsEngine<T>,
    json: Bytes,
    audio: Option<Bytes>,
    parsed: Result<TtsRequest, String>,
    handle: T,
    r: Option<(T, TtsResult)>,
)
    requires
        call_ensures(TtsEngine::<T>::generate, (engine, json, audio, parsed, handle), r),
    ensures
        parsed matches Ok(req) ==> {
            let queue = final(engine).queue@;
            &&& r is None
            &&& queue.len() == old(engine).queue@.len() + 1
            &&& queue.drop_last() == old(engine).queue@
            &&& queue.last().json == json
            &&& queue.last().audio == audio
            &&& queue.last().handle == handle
            &&& queue.last().key.cfg_bits == req.cfg_bits
            &&& queue.last().key.steps == req.steps
        },
        parsed matches Err(reason) ==> {
            &&& final(engine).queue@ == old(engine).queue@
            &&& r matches Some(reply) && reply.0 == handle && (reply.1 matches TtsResult::Failed(
                msg,
            ) && msg@ == "invalid tts json: "@ + reason@)
        },
        final(engine).parallel == old(engine).parallel,
        final(engine).batch_window == old(engine).batch_window,
        final(engine).ttl == old(engine).ttl,
        final(engine).cpu == old(engine).cpu,
        final(engine).model_dir == old(engine).model_dir,
{
    if parsed is Ok {
        let queue = final(engine).queue@;
        assert(queue.drop_last() =~= old(engine).queue@);
    }
}

/// A batch begins with the oldest request and takes, from the front of the
/// queue, those with its options, in their order, as many as may run at a time.
/// The others stay in theirs. All that is told by how far the queue was looked
/// through.
pub proof fn rounds_take_the_oldest<T>(engine: &mut TtsEngine<T>, r: Option<Round<T>>) -> (n: int)
    requires
        call_ensures(TtsEngine::<T>::begin_round, (engine,), r),
    ensures
        r is None <==> old(engine).queue@.len() == 0,
        r matches Some(round) ==> {
            let first = old(engine).queue@[0];
            let more = old(engine).queue@.skip(1);
            &&& 0 <= n <= more.len()
            &&& round.key == first.key
            &&& round.batch@ == seq![first] + more.take(n).filter(
                |p: PendingItem<T>| p.key == first.key,
            )
            &&& final(engine).queue@ == more.take(n).filter(
                |p: PendingItem<T>| p.key != first.key,
            ) + more.skip(n)
            &&& round.batch@.len() <= 1 || round.batch@.len() <= old(engine).parallel
            &&& n < more.len() ==> round.batch@.len() >= old(engine).parallel
        },
{
    if r is Some {
        let first = old(engine).queue@[0];
        let more = old(engine).queue@.skip(1);
        let room = batching::room(1, old(engine).parallel as nat);
        batching::draining_goes_from_the_front(more, first.key, room)
    } else {
        0
    }
}

/// A batch that waits takes, from the front of the queue, those requests with
/// its options that it has room for, behind those that it has.
pub proof fn waiting_rounds_are_filled<T>(
    engine: &mut TtsEngine<T>,
    round: &mut Round<T>,
) -> (n: int)
    requires
        call_ensures(TtsEngine::<T>::fill, (engine, round), ()),
        old(round).batch@.len() <= old(engine).parallel,
    ensures
        ({
            let queue = old(engine).queue@;
            let key = old(round).key;
            &&& 0 <= n <= queue.len()
            &&& final(round).key == key
            &&& final(round).batch@ == old(round).batch@ + queue.take(n).filter(
                |p: PendingItem<T>| p.key == key,
            )
            &&& final(engine).queue@ == queue.take(n).filter(|p: PendingItem<T>| p.key != key)
                + queue.skip(n)
            &&& final(round).batch@.len() <= old(engine).parallel
            &&& n < queue.len() ==> final(round).batch@.len() == old(engine).parallel
        }),
{
    let room = batching::room(old(round).batch@.len(), old(engine).parallel as nat);
    batching::draining_goes_from_the_front(old(engine).queue@, old(round).key, room)
}

/// When a batch has been answered, each of its requests is answered at its own
/// handle by the response at its own place: with the audio if that is what the
/// response is, and never with that of another. The worker stays.
pub proof fn answers_go_to_their_requests<T>(
    engine: &mut TtsEngine<T>,
    batch: Vec<PendingItem<T>>,
    responses: Vec<Response>,
    r: (Vec<(T, TtsResult)>, Fate),
    i: int,
)
    requires
        call_ensures(
            TtsEngine::<T>::conclude,
            (engine, batch, BatchEnd::Answered(responses)),
            r,
        ),
        0 <= i < batch@.len(),
    ensures
        r.1 == Fate::Used,
        final(engine).queue@ == old(engine).queue@,
        r.0@.len() == batch@.len(),
        r.0@[i].0 == batch@[i].handle,
        i < responses@.len() && responses@[i].status == 0 ==> (r.0@[i].1 matches TtsResult::Done(
            audio,
        ) && buffer::bytes_of(audio) == buffer::bytes_of(responses@[i].payload)),
        i < responses@.len() && responses@[i].status == 2 ==> r.0@[i].1 is ModelMissing,
        i < responses@.len() && responses@[i].status != 0 && responses@[i].status != 2
            ==> r.0@[i].1 is Failed || r.0@[i].1 is Cancelled,
        i >= responses@.len() ==> (r.0@[i].1 matches TtsResult::Failed(msg) && msg@
            == "dispatcher dropped request"@),
{
    assert(r.0@[i].0 == batch@[i].handle);
}

/// When a worker had exited before it got a batch, nobody is answered, the
/// requests wait again in their order and ahead of all others, and the worker
/// is let go. When a batch failed in another way, all of its requests are
/// answered with the reason, and the worker is let go.
pub proof fn failed_batches_are_settled<T>(
    engine: &mut TtsEngine<T>,
    batch: Vec<PendingItem<T>>,
    end: BatchEnd,
    r: (Vec<(T, TtsResult)>, Fate),
    i: int,
)
    requires
        call_ensures(TtsEngine::<T>::conclude, (engine, batch, end), r),
        !(end is Answered),
        0 <= i < batch@.len(),
    ensures
        r.1 == Fate::Dropped,
        end is Exited ==> r.0@.len() == 0 && final(engine).queue@.take(batch@.len() as int)
            == batch@ && final(engine).queue@.skip(batch@.len() as int) == old(engine).queue@,
        !(end is Exited) ==> {
            &&& final(engine).queue@ == old(engine).queue@
            &&& r.0@.len() == batch@.len()
            &&& r.0@[i].0 == batch@[i].handle
            &&& end matches BatchEnd::SpawnFailed(reason) ==> (
            r.0@[i].1 matches TtsResult::ModelMissing(msg) && msg@ == reason@)
            &&& end matches BatchEnd::WriteFailed(reason) ==> (
            r.0@[i].1 matches TtsResult::Failed(msg) && msg@ == "worker pipe error: "@ + reason@)
            &&& end matches BatchEnd::ReadFailed(reason) ==> (
            r.0@[i].1 matches TtsResult::Failed(msg) && msg@ == "worker pipe error: "@ + reason@)
        },
{
    if end is Exited {
        let queue = final(engine).queue@;
        assert(queue.take(batch@.len() as int) =~= batch@);
        assert(queue.skip(batch@.len() as int) =~= old(engine).queue@);
    } else {
        assert(r.0@[i].0 == batch@[i].handle);
    }
}

/// A worker that was used is to go once it has been idle for the time to live,
/// if there is such a time; where there is no worker, none is to go.
pub proof fn idle_workers_go<T>(engine: TtsEngine<T>, last_used: Option<u128>, now: u128, r: bool)
    requires
        call_ensures(TtsEngine::<T>::evicts, (&engine, last_used, now), r),
    ensures
        r <==> (last_used matches Some(t) && engine.ttl > 0 && now >= t + engine.ttl),
{
}

/// A worker is ready if and only if it said so, and it is told at which level
/// to log if and only if nothing else says so.
pub proof fn workers_say_they_are_ready(
    first: Result<u8, String>,
    r: Result<(), String>,
    set: bool,
    level: Option<&'static str>,
)
    requires
        call_ensures(check_ready, (first,), r),
        call_ensures(worker_log_level, (set,), level),
    ensures
        r is Ok <==> first == Ok::<u8, String>(READY),
        first matches Err(reason) ==> (r matches Err(msg) && msg@
            == "worker did not become ready: "@ + reason@),
        first matches Ok(b) ==> (r matches Err(msg) ==> msg@
            == "worker sent unexpected ready byte: "@ + text::decimal(b as nat)),
        level is Some <==> !set,
        level matches Some(l) ==> l@ == "info"@,
{
}

/// An engine begins with nobody waiting and with the settings it is given: at
/// least one request at a time, and a window of 300 milliseconds unless it is
/// given one.
pub proof fn engines_begin_as_set<T>(
    model_dir: PathBuf,
    ttl: u128,
    cpu: bool,
    parallel: usize,
    batch_window: u128,
    engine: TtsEngine<T>,
)
    requires
        call_ensures(TtsEngine::<T>::new, (model_dir, ttl, cpu, parallel, batch_window), engine),
    ensures
        engine.queue@.len() == 0,
        engine.model_dir == model_dir,
        engine.ttl == ttl,
        engine.cpu == cpu,
        engine.parallel >= 1,
        parallel >= 1 ==> engine.parallel == parallel,
        parallel == 0 ==> engine.parallel == 1,
        batch_window > 0 ==> engine.batch_window == batch_window,
        batch_window == 0 ==> engine.batch_window == 300_000_000,
{
}

} // verus!
