//! Runs one batch: from a batch that has been gathered to how it ended.

use crate::buffer;
use crate::proto::batch;
use crate::proto::item;
use crate::proto::wire;
use crate::proto::{BatchItem, BatchItemView, Part, ProtoError, Response, MAX_BATCH};
use crate::server::batching::PendingItem;
use crate::server::tts;
use crate::server::tts::{BatchEnd, Phase};
use crate::text;
use vstd::prelude::*;

verus! {

/// What the worker gets of the requests of a batch.
pub open spec fn payloads<T>(batch: Seq<PendingItem<T>>) -> Seq<BatchItemView> {
    batch.map_values(|p: PendingItem<T>| p.payload())
}

/// The message that asks the worker to run a batch.
pub fn batch_message<T>(batch: &Vec<PendingItem<T>>) -> (r: Result<Vec<u8>, ProtoError>)
    ensures
        match r {
            Ok(out) => batch@.len() <= MAX_BATCH && out@ == batch::batch_request_bytes(
                payloads(batch@),
            ),
            Err(e) => batch@.len() > MAX_BATCH && e == ProtoError::BatchTooLarge(
                batch.len(),
            ),
        },
{
    let mut items: Vec<BatchItem> = Vec::new();
    for i in 0..batch.len()
        invariant
            items@.len() == i,
            forall|k: int| 0 <= k < i ==> (#[trigger] items@[k])@ == batch@[k].payload(),
    {
        items.push(batch[i].to_batch_item());
    }
    assert(batch::items_view(items@) =~= payloads(batch@));
    batch::write_batch_request(items.as_slice())
}

/// Counts the clients of a running batch that have gone away. A batch can only
/// be cancelled as a whole, so the worker is told when nobody listens any more.
#[derive(Debug, Clone, Copy, PartialEq, Eq, Structural)]
pub struct CancelTally {
    pub total: usize,
    pub gone: usize,
}

impl CancelTally {
    /// Whether no more clients are gone than there are.
    pub open spec fn wf(self) -> bool {
        self.gone <= self.total
    }

    /// A tally for a batch of `total` requests.
    pub fn new(total: usize) -> (tally: Self)
        ensures
            tally.wf(),
            tally == (CancelTally { total, gone: 0 }),
    {
        CancelTally { total, gone: 0 }
    }

    /// The tally after one more client has gone away.
    pub open spec fn next(self) -> CancelTally {
        if self.gone < self.total {
            CancelTally { total: self.total, gone: (self.gone + 1) as usize }
        } else {
            self
        }
    }

    /// One more client has gone away. Whether that was the last.
    pub fn leave(&mut self) -> (last: bool)
        ensures
            *final(self) == old(self).next(),
            last == (old(self).gone + 1 == old(self).total),
    {
        if self.gone < self.total {
            self.gone = self.gone + 1;
            self.gone == self.total
        } else {
            false
        }
    }
}

/// What happens while a batch runs.
#[derive(Debug)]
pub enum RunEvent {
    /// A worker has been started.
    Spawned,
    /// No worker could be started.
    SpawnFailed(String),
    /// The worker is alive.
    Running,
    /// The worker has exited.
    Exited,
    /// The batch has been sent.
    Sent,
    /// The batch could not be sent.
    SendFailed(String),
    /// The worker has answered.
    Answered(Vec<Response>),
    /// No answer could be read.
    ReadFailed(String),
    /// A client has gone away.
    ClientGone,
}

/// What to do next about a batch.
#[derive(Debug)]
pub enum RunAction {
    /// Start a worker.
    Spawn,
    /// Look whether the worker is alive.
    Check,
    /// Send this to the worker.
    Send(Vec<u8>),
    /// Wait for the worker's answer, or for a client to go away.
    Receive,
    /// Tell the worker to cancel.
    Signal,
    /// Go on as before.
    Ignore,
    /// The batch has ended.
    End(BatchEnd),
}

/// Runs one batch.
#[derive(Debug, Clone, Copy, PartialEq, Eq, Structural)]
pub struct BatchRun {
    pub phase: Phase,
    pub tally: CancelTally,
}

impl BatchRun {
    /// Whether no more clients are gone than there are.
    pub open spec fn wf(self) -> bool {
        self.tally.wf()
    }

    /// The run in another phase.
    pub open spec fn at(self, phase: Phase) -> BatchRun {
        BatchRun { phase, tally: self.tally }
    }

    /// Starts the run of a batch of `total` requests: a worker is needed first,
    /// and it has to be alive.
    pub fn start(has_worker: bool, total: usize) -> (r: (BatchRun, RunAction))
        ensures
            r.0.wf(),
            r.0.tally == (CancelTally { total, gone: 0 }),
            r.0.phase == if has_worker {
                Phase::Checking
            } else {
                Phase::Spawning
            },
            r.1 == if has_worker {
                RunAction::Check
            } else {
                RunAction::Spawn
            },
    {
        let tally = CancelTally::new(total);
        if has_worker {
            (BatchRun { phase: Phase::Checking, tally }, RunAction::Check)
        } else {
            (BatchRun { phase: Phase::Spawning, tally }, RunAction::Spawn)
        }
    }

    /// The run after an event, of a batch of `len` requests. An event that does
    /// not belong to the phase changes nothing.
    pub open spec fn next(self, len: nat, event: RunEvent) -> BatchRun {
        match (self.phase, event) {
            (Phase::Spawning, RunEvent::Spawned) => self.at(Phase::Checking),
            (Phase::Spawning, RunEvent::SpawnFailed(_)) => self.at(Phase::Ended),
            (Phase::Checking, RunEvent::Running) => if len <= MAX_BATCH {
                self.at(Phase::Sending)
            } else {
                self.at(Phase::Ended)
            },
            (Phase::Checking, RunEvent::Exited) => self.at(Phase::Ended),
            (Phase::Sending, RunEvent::Sent) => self.at(Phase::Receiving),
            (Phase::Sending, RunEvent::SendFailed(_)) => self.at(Phase::Ended),
            (Phase::Receiving, RunEvent::Answered(_)) => self.at(Phase::Ended),
            (Phase::Receiving, RunEvent::ReadFailed(_)) => self.at(Phase::Ended),
            (Phase::Receiving, RunEvent::ClientGone) => BatchRun {
                phase: self.phase,
                tally: self.tally.next(),
            },
            _ => self,
        }
    }

    /// Whether an event calls for the worker to be told to cancel.
    pub open spec fn signals(self, event: RunEvent) -> bool {
        self.phase == Phase::Receiving && event is ClientGone && self.tally.gone + 1
            == self.tally.total
    }

    /// Whether an action is what an event calls for.
    pub open spec fn calls_for<T>(
        self,
        batch: Seq<PendingItem<T>>,
        event: RunEvent,
        action: RunAction,
    ) -> bool {
        match (self.phase, event) {
            (Phase::Spawning, RunEvent::Spawned) => action == RunAction::Check,
            (Phase::Spawning, RunEvent::SpawnFailed(msg)) => action == RunAction::End(
                BatchEnd::SpawnFailed(msg),
            ),
            (Phase::Checking, RunEvent::Running) => if batch.len() <= MAX_BATCH {
                action matches RunAction::Send(message) && message@ == batch::batch_request_bytes(
                    payloads(batch),
                )
            } else {
                action matches RunAction::End(BatchEnd::WriteFailed(msg)) && msg@
                    == ProtoError::BatchTooLarge(batch.len() as usize).text()
            },
            (Phase::Checking, RunEvent::Exited) => action == RunAction::End(BatchEnd::Exited),
            (Phase::Sending, RunEvent::Sent) => action == RunAction::Receive,
            (Phase::Sending, RunEvent::SendFailed(msg)) => action == RunAction::End(
                BatchEnd::WriteFailed(msg),
            ),
            (Phase::Receiving, RunEvent::Answered(responses)) => action == RunAction::End(
                BatchEnd::Answered(responses),
            ),
            (Phase::Receiving, RunEvent::ReadFailed(msg)) => action == RunAction::End(
                BatchEnd::ReadFailed(msg),
            ),
            _ => action == if self.signals(event) {
                RunAction::Signal
            } else {
                RunAction::Ignore
            },
        }
    }

    /// What to do on an event.
    pub fn step<T>(&mut self, batch: &Vec<PendingItem<T>>, event: RunEvent) -> (action: RunAction)
        ensures
            old(self).wf() ==> final(self).wf(),
            *final(self) == old(self).next(batch@.len(), event),
            old(self).calls_for(batch@, event, action),
    {
        match (self.phase, event) {
            (Phase::Spawning, RunEvent::Spawned) => {
                self.phase = Phase::Checking;
                RunAction::Check
            },
            (Phase::Spawning, RunEvent::SpawnFailed(msg)) => {
                self.phase = Phase::Ended;
                RunAction::End(BatchEnd::SpawnFailed(msg))
            },
            (Phase::Checking, RunEvent::Running) => match batch_message(batch) {
                Ok(message) => {
                    self.phase = Phase::Sending;
                    RunAction::Send(message)
                },
                Err(e) => {
                    self.phase = Phase::Ended;
                    RunAction::End(BatchEnd::WriteFailed(e.message()))
                },
            },
            (Phase::Checking, RunEvent::Exited) => {
                self.phase = Phase::Ended;
                RunAction::End(BatchEnd::Exited)
            },
            (Phase::Sending, RunEvent::Sent) => {
                self.phase = Phase::Receiving;
                RunAction::Receive
            },
            (Phase::Sending, RunEvent::SendFailed(msg)) => {
                self.phase = Phase::Ended;
                RunAction::End(BatchEnd::WriteFailed(msg))
            },
            (Phase::Receiving, RunEvent::Answered(responses)) => {
                self.phase = Phase::Ended;
                RunAction::End(BatchEnd::Answered(responses))
            },
            (Phase::Receiving, RunEvent::ReadFailed(msg)) => {
                self.phase = Phase::Ended;
                RunAction::End(BatchEnd::ReadFailed(msg))
            },
            (Phase::Receiving, RunEvent::ClientGone) => {
                if self.tally.leave() {
                    RunAction::Signal
                } else {
                    RunAction::Ignore
                }
            },
            _ => RunAction::Ignore,
        }
    }
}

/// How often the worker is told to cancel in the course of some events.
pub open spec fn signals_in(run: BatchRun, len: nat, events: Seq<RunEvent>) -> nat
    decreases events.len(),
{
    if events.len() == 0 {
        0
    } else {
        (if run.signals(events[0]) {
            1nat
        } else {
            0nat
        }) + signals_in(run.next(len, events[0]), len, events.skip(1))
    }
}

/// How many clients go away in the course of some events.
pub open spec fn clients_gone(events: Seq<RunEvent>) -> nat
    decreases events.len(),
{
    if events.len() == 0 {
        0
    } else {
        (if events[0] is ClientGone {
            1nat
        } else {
            0nat
        }) + clients_gone(events.skip(1))
    }
}

/// A batch is cancelled at most once, and not before the last of its clients
/// has gone away.
pub proof fn cancel_needs_all(run: BatchRun, len: nat, events: Seq<RunEvent>)
    requires
        run.wf(),
    ensures
        signals_in(run, len, events) <= 1,
        run.tally.gone == run.tally.total ==> signals_in(run, len, events) == 0,
        run.tally.gone + clients_gone(events) < run.tally.total ==> signals_in(run, len, events)
            == 0,
    decreases events.len(),
{
    if events.len() > 0 {
        cancel_needs_all(run.next(len, events[0]), len, events.skip(1));
    }
}

/// While the worker's answer is awaited, the going away of the last client
/// cancels the batch.
pub proof fn cancel_follows_all(run: BatchRun, len: nat, events: Seq<RunEvent>)
    requires
        run.wf(),
        run.phase == Phase::Receiving,
        run.tally.gone < run.tally.total,
        forall|i: int| 0 <= i < events.len() ==> (#[trigger] events[i]) is ClientGone,
        events.len() == run.tally.total - run.tally.gone,
    ensures
        signals_in(run, len, events) == 1,
    decreases events.len(),
{
    let next = run.next(len, events[0]);
    let more = events.skip(1);
    assert(events[0] is ClientGone);
    assert forall|i: int| 0 <= i < more.len() implies (#[trigger] more[i]) is ClientGone by {
        assert(more[i] == events[i + 1]);
    }
    if events.len() > 1 {
        cancel_follows_all(next, len, more);
    } else {
        assert(signals_in(next, len, more) == 0);
    }
}

/// A run that has ended stays as it is, whatever happens.
pub proof fn ended_stays_ended(run: BatchRun, len: nat, event: RunEvent)
    requires
        run.phase == Phase::Ended,
    ensures
        run.next(len, event) == run,
        !run.signals(event),
{
}

/// A batch reaches the worker whole: it reads the requests that were sent, in
/// their order, with empty audio taken for none.
pub proof fn batch_reaches_worker<T>(batch: Seq<PendingItem<T>>, rest: Seq<u8>)
    requires
        batch.len() <= MAX_BATCH,
        batch::items_fit(payloads(batch)),
    ensures
        ({
            let message = batch::batch_request_bytes(payloads(batch));
            batch::parse_batch_request_body((message + rest).skip(2)) == wire::Parsed::Done(
                batch::canonical_items(payloads(batch)),
                (message.len() - 2) as nat,
            )
        }),
{
    batch::batch_request_reads_back(payloads(batch), rest);
}

/// The worker's answers reach the requests that they are for: the one that
/// stands at the place of a request in the message is the one it gets.
pub proof fn answers_reach_requests(responses: Vec<Response>, rest: Seq<u8>, i: int)
    requires
        responses@.len() <= MAX_BATCH,
        batch::responses_fit(batch::responses_view(responses@)),
        0 <= i < responses@.len(),
    ensures
        ({
            let views = batch::responses_view(responses@);
            let message = batch::batch_response_bytes(views);
            &&& batch::parse_batch_response(message + rest) == wire::Parsed::Done(
                views,
                message.len(),
            )
            &&& tts::reply(BatchEnd::Answered(responses), i) == Some(tts::classified(views[i]))
        }),
{
    batch::batch_response_reads_back(batch::responses_view(responses@), rest);
}

/// The worker reads, at the place of each request of a batch, the JSON and the
/// audio with which that request came in, where empty audio counts as none.
/// This goes for every batch of at most 1024 requests whose JSON and audio are
/// within the limits: what is sent when the worker is found alive is a message,
/// and this is what the message says.
pub proof fn worker_reads_what_came_in<T>(
    run: BatchRun,
    batch: Seq<PendingItem<T>>,
    action: RunAction,
    rest: Seq<u8>,
)
    requires
        run.phase == Phase::Checking,
        run.calls_for(batch, RunEvent::Running, action),
        batch.len() <= 1024,
        forall|i: int|
            0 <= i < batch.len() ==> buffer::bytes_of((#[trigger] batch[i]).json).len() <= 1024
                * 1024,
        forall|i: int|
            0 <= i < batch.len() ==> ((#[trigger] batch[i]).audio matches Some(a)
                ==> buffer::bytes_of(a).len() <= 256 * 1024 * 1024),
    ensures
        action matches RunAction::Send(message) && message@.len() >= 2 && message@[0] == 1
            && message@[1] == 4 && (batch::parse_batch_request_body((message@ + rest).skip(2))
            matches wire::Parsed::Done(items, n) && n == message@.len() - 2 && items.len()
            == batch.len() && forall|i: int|
            0 <= i < batch.len() ==> (#[trigger] items[i]).json == buffer::bytes_of(batch[i].json)
                && items[i].audio == match batch[i].audio {
                Some(a) => if buffer::bytes_of(a).len() > 0 {
                    Some(buffer::bytes_of(a))
                } else {
                    None
                },
                None => None,
            }),
{
    let views = payloads(batch);
    assert forall|i: int| 0 <= i < views.len() implies item::fits(
        #[trigger] views[i],
        Part::BatchJson,
        Part::BatchAudio,
    ) by {
        let p = batch[i];
        assert(views[i] == p.payload());
    }
    batch::batch_request_reads_back(views, rest);
    batch::batch_layout(views, Seq::empty());
    let items = batch::canonical_items(views);
    assert forall|i: int| 0 <= i < batch.len() implies (#[trigger] items[i]).json
        == buffer::bytes_of(batch[i].json) && items[i].audio == match batch[i].audio {
        Some(a) => if buffer::bytes_of(a).len() > 0 {
            Some(buffer::bytes_of(a))
        } else {
            None
        },
        None => None,
    } by {
        assert(views[i] == batch[i].payload());
    }
}

/// A batch that is too large is not sent; its requests are told why.
pub proof fn large_batches_are_not_sent<T>(
    run: BatchRun,
    batch: Seq<PendingItem<T>>,
    action: RunAction,
)
    requires
        run.phase == Phase::Checking,
        run.calls_for(batch, RunEvent::Running, action),
        1024 < batch.len() <= usize::MAX,
    ensures
        action matches RunAction::End(BatchEnd::WriteFailed(msg)) && msg@ == "batch too large: "@
            + text::decimal(batch.len()),
        run.next(batch.len(), RunEvent::Running).phase == Phase::Ended,
{
}

/// A batch ends as what happened to it says, with the same reason or the same
/// answers, and in no other way.
pub proof fn runs_end_as_things_happen<T>(
    run: BatchRun,
    batch: Seq<PendingItem<T>>,
    event: RunEvent,
    action: RunAction,
)
    requires
        run.calls_for(batch, event, action),
        batch.len() <= 1024,
    ensures
        run.next(batch.len(), event).phase == Phase::Ended <==> action is End || run.phase
            == Phase::Ended,
        action matches RunAction::End(end) ==> match end {
            BatchEnd::SpawnFailed(msg) => run.phase == Phase::Spawning && event
                == RunEvent::SpawnFailed(msg),
            BatchEnd::Exited => run.phase == Phase::Checking && event == RunEvent::Exited,
            BatchEnd::WriteFailed(msg) => run.phase == Phase::Sending && event
                == RunEvent::SendFailed(msg),
            BatchEnd::ReadFailed(msg) => run.phase == Phase::Receiving && event
                == RunEvent::ReadFailed(msg),
            BatchEnd::Answered(responses) => run.phase == Phase::Receiving && event
                == RunEvent::Answered(responses),
        },
        run.phase == Phase::Spawning && event is SpawnFailed ==> action is End,
        run.phase == Phase::Checking && event is Exited ==> action is End,
        run.phase == Phase::Sending && event is SendFailed ==> action is End,
        run.phase == Phase::Receiving && (event is ReadFailed || event is Answered)
            ==> action is End,
        run.next(batch.len(), event).tally.total == run.tally.total,
{
}

/// As long as nothing goes wrong, a batch goes from one step to the next: a
/// worker is started, looked at, sent the batch, and listened to. Nothing else
/// takes it further, and only the going away of a client is counted.
pub proof fn runs_go_step_by_step<T>(
    run: BatchRun,
    batch: Seq<PendingItem<T>>,
    event: RunEvent,
    action: RunAction,
)
    requires
        run.calls_for(batch, event, action),
        batch.len() <= 1024,
    ensures
        action is Check <==> run.phase == Phase::Spawning && event is Spawned,
        action is Send <==> run.phase == Phase::Checking && event is Running,
        action is Receive <==> run.phase == Phase::Sending && event is Sent,
        !(action is Spawn),
        action is Signal <==> run.phase == Phase::Receiving && event is ClientGone && run.tally.gone
            + 1 == run.tally.total,
        ({
            let next = run.next(batch.len(), event);
            &&& action is Check ==> next.phase == Phase::Checking
            &&& action is Send ==> next.phase == Phase::Sending
            &&& action is Receive ==> next.phase == Phase::Receiving
            &&& action is Signal || action is Ignore ==> next.phase == run.phase
            &&& next.tally.gone == if run.phase == Phase::Receiving && event is ClientGone
                && run.tally.gone < run.tally.total {
                run.tally.gone + 1
            } else {
                run.tally.gone as int
            }
        }),
{
}

/// What a run does when the worker is found alive is to send the batch: what it
/// sends reads, at the place of each request, as the JSON and the audio of that
/// request.
pub proof fn a_step_sends_what_came_in<T>(
    run: &mut BatchRun,
    batch: Vec<PendingItem<T>>,
    action: RunAction,
    rest: Seq<u8>,
)
    requires
        call_ensures(BatchRun::step::<T>, (run, &batch, RunEvent::Running), action),
        old(run).phase == Phase::Checking,
        batch@.len() <= 1024,
        forall|i: int|
            0 <= i < batch@.len() ==> buffer::bytes_of((#[trigger] batch@[i]).json).len() <= 1024
                * 1024,
        forall|i: int|
            0 <= i < batch@.len() ==> ((#[trigger] batch@[i]).audio matches Some(a)
                ==> buffer::bytes_of(a).len() <= 256 * 1024 * 1024),
    ensures
        final(run).phase == Phase::Sending,
        final(run).tally == old(run).tally,
        action matches RunAction::Send(message) && (batch::parse_batch_request_body(
            (message@ + rest).skip(2),
        ) matches wire::Parsed::Done(items, n) && items.len() == batch@.len() && forall|i: int|
            0 <= i < batch@.len() ==> (#[trigger] items[i]).json == buffer::bytes_of(batch@[i].json)
                && items[i].audio == match batch@[i].audio {
                Some(a) => if buffer::bytes_of(a).len() > 0 {
                    Some(buffer::bytes_of(a))
                } else {
                    None
                },
                None => None,
            }),
{
    worker_reads_what_came_in(*old(run), batch@, action, rest);
}

/// A worker is told to cancel when the last of the clients has gone away, and
/// not before or again.
pub proof fn the_last_client_cancels(tally: &mut CancelTally, last: bool)
    requires
        call_ensures(CancelTally::leave, (tally,), last),
        old(tally).wf(),
    ensures
        final(tally).wf(),
        final(tally).total == old(tally).total,
        old(tally).gone < old(tally).total ==> final(tally).gone == old(tally).gone + 1,
        old(tally).gone == old(tally).total ==> final(tally).gone == old(tally).gone && !last,
        last ==> final(tally).gone == final(tally).total,
        last <==> old(tally).gone < old(tally).total && final(tally).gone == final(tally).total,
{
}

/// A run begins by looking at the worker if there is one, and else by starting
/// one; all clients are there.
pub proof fn runs_begin_with_a_worker(has_worker: bool, total: usize, r: (BatchRun, RunAction))
    requires
        call_ensures(BatchRun::start, (has_worker, total), r),
    ensures
        r.0.phase == Phase::Checking <==> has_worker,
        r.0.phase == Phase::Spawning <==> !has_worker,
        r.1 is Check <==> has_worker,
        r.1 is Spawn <==> !has_worker,
        r.0.tally.total == total,
        r.0.tally.gone == 0,
{
}

} // verus!
