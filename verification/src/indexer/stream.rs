//! The log stream of one window.
//!
//! A stream does no work of its own. It says what is due (a fetch, a look at
//! the head of the chain, a sleep), is told what came of it, and answers with
//! what it yields to its consumer. A historical stream fetches its window once
//! and ends. A live stream goes on: it polls the head, fetches the blocks that
//! are new, and sleeps with a growing delay while nothing is.

use vstd::prelude::*;
use crate::indexer::error::FatalFetch;
use crate::indexer::log::Log;
use crate::indexer::window::Window;

verus! {

/// The first delay of a backoff, in milliseconds.
pub const INITIAL_BACKOFF_MS: u64 = 200;

/// The longest delay of a backoff, in milliseconds.
pub const MAX_BACKOFF_MS: u64 = 10_000;

/// How many failures in a row a stream answers with a retry. One more ends it.
pub const MAX_RETRIES: u32 = 5;

/// What the driver of a stream has to do next.
#[derive(Clone, Copy, Debug, PartialEq, Eq, Structural)]
pub enum StreamAction {
    /// Ask the provider for the logs of the blocks `from` to `to`.
    Fetch { from: u64, to: u64 },
    /// Ask the provider for the number of the newest block.
    PollHead,
    /// Wait for so many milliseconds.
    Sleep { millis: u64 },
    /// Nothing: the stream has ended.
    Stop,
}

/// What came of the action that was due.
#[derive(Clone, Debug, PartialEq, Eq)]
pub enum StreamEvent {
    /// The provider returned these logs for the fetch.
    Logs(Vec<Log>),
    /// The provider returned this number for the newest block.
    Head(u64),
    /// The sleep is over.
    Woke,
    /// The provider failed in a way that may pass: a timeout, a rate limit,
    /// a fault on its side.
    TransientError,
    /// The provider returned a log that cannot be read.
    MalformedLog,
}

/// What a stream yields to its consumer.
#[derive(Clone, Debug, PartialEq, Eq)]
pub enum StreamItem {
    /// The logs of one fetch, in the provider's order.
    Batch(Vec<Log>),
    /// A failure that the stream will retry.
    Transient,
    /// A failure that ended the stream.
    Fatal(FatalFetch),
}

/// The state of a stream.
#[derive(Clone, Copy, Debug, PartialEq, Eq, Structural)]
pub struct StreamState {
    /// Whether the stream goes on after its window.
    pub live: bool,
    /// Whether the window is done and the stream follows the head.
    pub tailing: bool,
    /// What the driver has to do next.
    pub due: StreamAction,
    /// The fetch to repeat once the sleep that is due is over.
    pub retry: Option<Window>,
    /// The first block that no fetch has covered yet; `None` once the last
    /// block that a `u64` can number is covered.
    pub next_block: Option<u64>,
    /// The next delay of the backoff between polls that find nothing.
    pub idle_ms: u64,
    /// How many times in a row the provider has failed.
    pub failures: u32,
}

/// The block after `block`, if a `u64` can number it.
pub open spec fn after_block(block: u64) -> Option<u64> {
    if block < u64::MAX {
        Some((block + 1) as u64)
    } else {
        None
    }
}

/// Twice the delay, but no more than the longest delay.
pub open spec fn doubled(millis: u64) -> u64 {
    if millis * 2 <= MAX_BACKOFF_MS {
        (millis * 2) as u64
    } else {
        MAX_BACKOFF_MS
    }
}

/// The delay before the retry that follows the `failures`-th failure in a
/// row: the first delay, doubled with every further failure, up to the
/// longest delay.
pub open spec fn retry_delay(failures: nat) -> u64
    decreases failures,
{
    if failures <= 1 {
        INITIAL_BACKOFF_MS
    } else {
        doubled(retry_delay((failures - 1) as nat))
    }
}

impl StreamState {
    /// The first block that the stream has not covered, as a number.
    pub open spec fn cursor(self) -> int {
        match self.next_block {
            Some(block) => block as int,
            None => u64::MAX + 1,
        }
    }

    /// The states that a stream can be in.
    pub open spec fn wf(self) -> bool {
        &&& INITIAL_BACKOFF_MS <= self.idle_ms <= MAX_BACKOFF_MS
        &&& self.failures <= MAX_RETRIES
        &&& self.tailing ==> self.live
        &&& match self.due {
            StreamAction::Fetch { from, to } => from <= to && self.next_block == Some(from)
                && self.retry is None,
            StreamAction::PollHead => self.tailing && self.next_block is Some && self.retry is None,
            StreamAction::Sleep { millis } => INITIAL_BACKOFF_MS <= millis <= MAX_BACKOFF_MS
                && match self.retry {
                Some(w) => w.valid() && self.next_block == Some(w.start),
                None => self.tailing && self.next_block is Some,
            },
            StreamAction::Stop => self.retry is None,
        }
    }

    /// The stream of `window`: the fetch of the window is due.
    pub open spec fn opening(window: Window, live: bool) -> StreamState {
        StreamState {
            live,
            tailing: false,
            due: StreamAction::Fetch { from: window.start, to: window.end },
            retry: None,
            next_block: Some(window.start),
            idle_ms: INITIAL_BACKOFF_MS,
            failures: 0,
        }
    }

    /// The live stream without a window, which follows the head from the
    /// block after `last` on.
    pub open spec fn following(last: u64) -> StreamState {
        StreamState {
            live: true,
            tailing: true,
            due: if last < u64::MAX {
                StreamAction::PollHead
            } else {
                StreamAction::Stop
            },
            retry: None,
            next_block: after_block(last),
            idle_ms: INITIAL_BACKOFF_MS,
            failures: 0,
        }
    }

    /// The state with the stream ended.
    pub open spec fn ended(self) -> StreamState {
        StreamState { due: StreamAction::Stop, retry: None, ..self }
    }

    /// The state after a fetch up to block `to` returned `count` logs.
    ///
    /// A historical stream ends. A live stream turns to the head; if it was
    /// following the head already and found nothing, it sleeps first and the
    /// delay grows, and if it found something the delay starts over.
    pub open spec fn after_logs(self, to: u64, count: nat) -> StreamState {
        let covered = StreamState {
            retry: None,
            next_block: after_block(to),
            failures: 0,
            idle_ms: if count > 0 {
                INITIAL_BACKOFF_MS
            } else {
                self.idle_ms
            },
            ..self
        };
        if !self.live || to == u64::MAX {
            StreamState { due: StreamAction::Stop, ..covered }
        } else if !self.tailing || count > 0 {
            StreamState { tailing: true, due: StreamAction::PollHead, ..covered }
        } else {
            StreamState {
                due: StreamAction::Sleep { millis: self.idle_ms },
                idle_ms: doubled(self.idle_ms),
                ..covered
            }
        }
    }

    /// The state after the head was found at block `head`: the blocks that
    /// are new are fetched, and if none is, the stream sleeps and the delay
    /// grows.
    pub open spec fn after_head(self, head: u64) -> StreamState {
        if self.next_block is Some && head >= self.next_block->0 {
            StreamState {
                due: StreamAction::Fetch { from: self.next_block->0, to: head },
                failures: 0,
                ..self
            }
        } else {
            StreamState {
                due: StreamAction::Sleep { millis: self.idle_ms },
                idle_ms: doubled(self.idle_ms),
                failures: 0,
                ..self
            }
        }
    }

    /// The state after the provider failed. Up to `MAX_RETRIES` failures in a
    /// row the stream sleeps and then repeats what failed (`retry` holds a
    /// fetch, `None` stands for a look at the head); the next one ends it.
    pub open spec fn after_failure(self, retry: Option<Window>) -> StreamState {
        if self.failures >= MAX_RETRIES {
            self.ended()
        } else {
            StreamState {
                due: StreamAction::Sleep { millis: retry_delay((self.failures + 1) as nat) },
                failures: (self.failures + 1) as u32,
                retry,
                ..self
            }
        }
    }

    /// The state after a sleep: the fetch that failed is repeated, or else the
    /// head is polled.
    pub open spec fn after_wake(self) -> StreamState {
        match self.retry {
            Some(w) => StreamState {
                due: StreamAction::Fetch { from: w.start, to: w.end },
                retry: None,
                ..self
            },
            None => StreamState { due: StreamAction::PollHead, ..self },
        }
    }

    /// The state after `event`. An event that does not answer what was due
    /// changes nothing.
    pub open spec fn next(self, event: StreamEvent) -> StreamState {
        match (self.due, event) {
            (StreamAction::Fetch { from, to }, StreamEvent::Logs(logs)) => self.after_logs(
                to,
                logs@.len(),
            ),
            (StreamAction::Fetch { from, to }, StreamEvent::MalformedLog) => self.ended(),
            (StreamAction::Fetch { from, to }, StreamEvent::TransientError) => self.after_failure(
                Some(Window { start: from, end: to }),
            ),
            (StreamAction::PollHead, StreamEvent::Head(head)) => self.after_head(head),
            (StreamAction::PollHead, StreamEvent::TransientError) => self.after_failure(None),
            (StreamAction::Sleep { millis }, StreamEvent::Woke) => self.after_wake(),
            _ => self,
        }
    }

    /// What the stream yields on `event`.
    ///
    /// The logs of the window are always yielded, even if there are none;
    /// while the stream follows the head, only fetches that found something
    /// are. A failure is yielded as `Transient` while the stream retries and
    /// as `Fatal` once it gives up; a log that cannot be read is fatal at
    /// once.
    pub open spec fn yields(self, event: StreamEvent) -> Option<StreamItem> {
        match (self.due, event) {
            (StreamAction::Fetch { from, to }, StreamEvent::Logs(logs)) => if !self.tailing
                || logs@.len() > 0 {
                Some(StreamItem::Batch(logs))
            } else {
                None
            },
            (StreamAction::Fetch { from, to }, StreamEvent::MalformedLog) => Some(
                StreamItem::Fatal(FatalFetch::MalformedLog),
            ),
            (StreamAction::Fetch { from, to }, StreamEvent::TransientError) => Some(
                self.failure_item(),
            ),
            (StreamAction::PollHead, StreamEvent::TransientError) => Some(self.failure_item()),
            _ => None,
        }
    }

    /// What a failure of the provider is yielded as.
    pub open spec fn failure_item(self) -> StreamItem {
        if self.failures >= MAX_RETRIES {
            StreamItem::Fatal(FatalFetch::RetriesExhausted)
        } else {
            StreamItem::Transient
        }
    }
}

/// Every event leads from a state that a stream can be in to another such
/// state, and never lowers the first block that is not covered.
pub proof fn lemma_next_preserves_wf(s: StreamState, event: StreamEvent)
    requires
        s.wf(),
    ensures
        s.next(event).wf(),
        s.next(event).cursor() >= s.cursor(),
        s.next(event).live == s.live,
{
    lemma_retry_delay_bounds((s.failures + 1) as nat);
}

/// Every retry delay lies between the first and the longest delay.
pub proof fn lemma_retry_delay_bounds(failures: nat)
    ensures
        INITIAL_BACKOFF_MS <= retry_delay(failures) <= MAX_BACKOFF_MS,
    decreases failures,
{
    if failures > 1 {
        lemma_retry_delay_bounds((failures - 1) as nat);
    }
}

/// The state of a stream in which the provider failed `n` times in a row,
/// each failure followed by the sleep that the stream asked for.
pub open spec fn retried(s: StreamState, n: nat) -> StreamState
    decreases n,
{
    if n == 0 {
        s
    } else {
        retried(s, (n - 1) as nat).next(StreamEvent::TransientError).next(StreamEvent::Woke)
    }
}

/// Retries. While the provider has failed no more than `MAX_RETRIES` times in
/// a row, the stream is where it was, but for the count of failures: the
/// same fetch, or the same look at the head, is due again, and nothing was
/// lost or skipped. Every one of these failures was yielded as one that
/// passes and was followed by a sleep of the delay for its place in the row.
/// One failure more is fatal and ends the stream.
pub proof fn lemma_retries_then_gives_up(s: StreamState, n: nat)
    requires
        s.wf(),
        s.due is Fetch || s.due is PollHead,
        s.failures + n <= MAX_RETRIES,
    ensures
        retried(s, n) == (StreamState { failures: (s.failures + n) as u32, ..s }),
        n > 0 ==> {
            let before = retried(s, (n - 1) as nat);
            &&& before.yields(StreamEvent::TransientError) == Some(StreamItem::Transient)
            &&& before.next(StreamEvent::TransientError).due == (StreamAction::Sleep {
                millis: retry_delay((s.failures + n) as nat),
            })
        },
        s.failures + n == MAX_RETRIES ==> {
            &&& retried(s, n).yields(StreamEvent::TransientError) == Some(
                StreamItem::Fatal(FatalFetch::RetriesExhausted),
            )
            &&& retried(s, n).next(StreamEvent::TransientError).due == StreamAction::Stop
        },
    decreases n,
{
    if n > 0 {
        lemma_retries_then_gives_up(s, (n - 1) as nat);
        lemma_retry_delay_bounds((s.failures + n) as nat);
    }
}

/// One batch that a stream yielded: the window that was fetched and the logs
/// that came back.
pub struct Fetched {
    pub window: Window,
    pub logs: Seq<Log>,
}

impl Fetched {
    /// Whether every log lies in the window that was asked for.
    pub open spec fn within_window(self) -> bool {
        forall|k: int|
            0 <= k < self.logs.len() ==> self.window.contains(
                (#[trigger] self.logs[k]).block_number as int,
            )
    }
}

/// The state of a stream that started in `s` and was told `events`, in order.
pub open spec fn run(s: StreamState, events: Seq<StreamEvent>) -> StreamState
    decreases events.len(),
{
    if events.len() == 0 {
        s
    } else {
        run(s, events.drop_last()).next(events.last())
    }
}

/// The batches that a stream yielded which started in `s` and was told
/// `events`, oldest first.
pub open spec fn batches(s: StreamState, events: Seq<StreamEvent>) -> Seq<Fetched>
    decreases events.len(),
{
    if events.len() == 0 {
        Seq::empty()
    } else {
        let before = run(s, events.drop_last());
        let earlier = batches(s, events.drop_last());
        match (before.due, events.last()) {
            (StreamAction::Fetch { from, to }, StreamEvent::Logs(logs)) => if !before.tailing
                || logs@.len() > 0 {
                earlier.push(Fetched { window: Window { start: from, end: to }, logs: logs@ })
            } else {
                earlier
            },
            _ => earlier,
        }
    }
}

/// A stream never asks for a block twice: the windows of the batches that it
/// yields lie at or after the block it started at, each one wholly before the
/// next, and all of them before the first block that is not covered yet.
pub proof fn lemma_batches_ascend(s: StreamState, events: Seq<StreamEvent>)
    requires
        s.wf(),
    ensures
        run(s, events).wf(),
        run(s, events).cursor() >= s.cursor(),
        forall|i: int|
            0 <= i < batches(s, events).len() ==> {
                let w = (#[trigger] batches(s, events)[i]).window;
                w.valid() && s.cursor() <= w.start && w.end < run(s, events).cursor()
            },
        forall|i: int, j: int|
            0 <= i < j < batches(s, events).len() ==> (#[trigger] batches(s, events)[i]).window.end
                < (#[trigger] batches(s, events)[j]).window.start,
    decreases events.len(),
{
    if events.len() > 0 {
        let before = run(s, events.drop_last());
        let earlier = batches(s, events.drop_last());
        lemma_batches_ascend(s, events.drop_last());
        lemma_next_preserves_wf(before, events.last());
        let all = batches(s, events);
        assert forall|i: int| 0 <= i < all.len() implies {
            let w = (#[trigger] all[i]).window;
            w.valid() && s.cursor() <= w.start && w.end < run(s, events).cursor()
        } by {
            if i < earlier.len() {
                assert(all[i] == earlier[i]);
            }
        }
        assert forall|i: int, j: int| 0 <= i < j < all.len() implies (#[trigger] all[i]).window.end
            < (#[trigger] all[j]).window.start by {
            assert(all[i] == earlier[i]);
            if j < earlier.len() {
                assert(all[j] == earlier[j]);
            }
        }
    }
}

/// Live monotonicity. Take two batches that a stream yielded, one before the
/// other, and a log of each, both in the window their batch was fetched for.
/// Then the later log lies in a higher block: what is delivered only moves
/// up the chain, and no block is delivered from twice. So the two are not
/// the same log either: if a transaction belongs to one block, they differ in
/// transaction hash or in log index.
pub proof fn lemma_delivery_moves_forward(
    s: StreamState,
    events: Seq<StreamEvent>,
    i: int,
    j: int,
    earlier: Log,
    later: Log,
)
    requires
        s.wf(),
        0 <= i < j < batches(s, events).len(),
        batches(s, events)[i].within_window(),
        batches(s, events)[j].within_window(),
        batches(s, events)[i].logs.contains(earlier),
        batches(s, events)[j].logs.contains(later),
    ensures
        earlier.block_number < later.block_number,
        (earlier.transaction_hash == later.transaction_hash ==> earlier.block_number
            == later.block_number) ==> !(earlier.transaction_hash == later.transaction_hash
            && earlier.log_index == later.log_index),
{
    lemma_batches_ascend(s, events);
    let a = batches(s, events)[i];
    let b = batches(s, events)[j];
    let ka = choose|k: int| 0 <= k < a.logs.len() && a.logs[k] == earlier;
    let kb = choose|k: int| 0 <= k < b.logs.len() && b.logs[k] == later;
    assert(a.window.contains(a.logs[ka].block_number as int));
    assert(b.window.contains(b.logs[kb].block_number as int));
}

/// The delay that follows `millis` in a backoff.
pub fn next_delay(millis: u64) -> (next: u64)
    ensures
        next == doubled(millis),
{
    if millis <= MAX_BACKOFF_MS / 2 {
        millis * 2
    } else {
        MAX_BACKOFF_MS
    }
}

/// The delay before the retry that follows the `failures`-th failure in a
/// row.
pub fn delay_before_retry(failures: u32) -> (millis: u64)
    ensures
        millis == retry_delay(failures as nat),
{
    let mut millis = INITIAL_BACKOFF_MS;
    let mut k: u32 = 1;
    while k < failures
        invariant
            1 <= k,
            k <= failures || k == 1,
            millis == retry_delay(k as nat),
        decreases failures - k,
    {
        k += 1;
        millis = next_delay(millis);
    }
    assert(retry_delay(0) == retry_delay(1));
    millis
}

/// The log stream of one window, or of the head of the chain.
#[derive(Debug)]
pub struct LogStream {
    state: StreamState,
}

impl View for LogStream {
    type V = StreamState;

    closed spec fn view(&self) -> StreamState {
        self.state
    }
}

impl LogStream {
    #[verifier::type_invariant]
    spec fn well_formed(self) -> bool {
        self.state.wf()
    }

    /// The stream of `window`. With `live` it goes on after the window and
    /// follows the head of the chain.
    pub fn new(window: Window, live: bool) -> (stream: LogStream)
        requires
            window.valid(),
        ensures
            stream@ == StreamState::opening(window, live),
    {
        LogStream {
            state: StreamState {
                live,
                tailing: false,
                due: StreamAction::Fetch { from: window.start, to: window.end },
                retry: None,
                next_block: Some(window.start),
                idle_ms: INITIAL_BACKOFF_MS,
                failures: 0,
            },
        }
    }

    /// The live stream without a window: it follows the head from the block
    /// after `last` on.
    pub fn follow(last: u64) -> (stream: LogStream)
        ensures
            stream@ == StreamState::following(last),
    {
        if last < u64::MAX {
            LogStream {
                state: StreamState {
                    live: true,
                    tailing: true,
                    due: StreamAction::PollHead,
                    retry: None,
                    next_block: Some(last + 1),
                    idle_ms: INITIAL_BACKOFF_MS,
                    failures: 0,
                },
            }
        } else {
            LogStream {
                state: StreamState {
                    live: true,
                    tailing: true,
                    due: StreamAction::Stop,
                    retry: None,
                    next_block: None,
                    idle_ms: INITIAL_BACKOFF_MS,
                    failures: 0,
                },
            }
        }
    }

    /// The state of the stream. It is always one that a stream can be in.
    pub fn state(&self) -> (state: StreamState)
        ensures
            state == self@,
            state.wf(),
    {
        proof {
            use_type_invariant(self);
        }
        self.state
    }

    /// What the driver has to do next.
    pub fn due(&self) -> (action: StreamAction)
        ensures
            action == self@.due,
    {
        self.state.due
    }

    /// Whether the stream has ended.
    pub fn is_done(&self) -> (done: bool)
        ensures
            done == (self@.due == StreamAction::Stop),
    {
        match self.state.due {
            StreamAction::Stop => true,
            _ => false,
        }
    }

    /// Tells the stream what came of the action that was due. The stream
    /// moves to its next state and answers with what it yields, if anything.
    pub fn step(&mut self, event: StreamEvent) -> (item: Option<StreamItem>)
        ensures
            final(self)@ == old(self)@.next(event),
            item == old(self)@.yields(event),
            final(self)@.wf(),
    {
        proof {
            use_type_invariant(&*self);
            lemma_next_preserves_wf(self.state, event);
        }
        let s = self.state;
        match (s.due, event) {
            (StreamAction::Fetch { from, to }, StreamEvent::Logs(logs)) => {
                let found = logs.len() > 0;
                let next_block = if to < u64::MAX {
                    Some(to + 1)
                } else {
                    None
                };
                let idle_ms = if found {
                    INITIAL_BACKOFF_MS
                } else {
                    s.idle_ms
                };
                if !s.live || to == u64::MAX {
                    self.state = StreamState {
                        due: StreamAction::Stop,
                        retry: None,
                        next_block,
                        failures: 0,
                        idle_ms,
                        ..s
                    };
                } else if !s.tailing || found {
                    self.state = StreamState {
                        tailing: true,
                        due: StreamAction::PollHead,
                        retry: None,
                        next_block,
                        failures: 0,
                        idle_ms,
                        ..s
                    };
                } else {
                    self.state = StreamState {
                        due: StreamAction::Sleep { millis: s.idle_ms },
                        retry: None,
                        next_block,
                        failures: 0,
                        idle_ms: next_delay(s.idle_ms),
                        ..s
                    };
                }
                if !s.tailing || found {
                    Some(StreamItem::Batch(logs))
                } else {
                    None
                }
            },
            (StreamAction::Fetch { from, to }, StreamEvent::MalformedLog) => {
                self.state = StreamState { due: StreamAction::Stop, retry: None, ..s };
                Some(StreamItem::Fatal(FatalFetch::MalformedLog))
            },
            (StreamAction::Fetch { from, to }, StreamEvent::TransientError) => {
                self.fail(Some(Window { start: from, end: to }))
            },
            (StreamAction::PollHead, StreamEvent::Head(head)) => {
                match s.next_block {
                    Some(next) if head >= next => {
                        self.state = StreamState {
                            due: StreamAction::Fetch { from: next, to: head },
                            failures: 0,
                            ..s
                        };
                    },
                    _ => {
                        self.state = StreamState {
                            due: StreamAction::Sleep { millis: s.idle_ms },
                            idle_ms: next_delay(s.idle_ms),
                            failures: 0,
                            ..s
                        };
                    },
                }
                None
            },
            (StreamAction::PollHead, StreamEvent::TransientError) => { self.fail(None) },
            (StreamAction::Sleep { millis }, StreamEvent::Woke) => {
                match s.retry {
                    Some(w) => {
                        self.state = StreamState {
                            due: StreamAction::Fetch { from: w.start, to: w.end },
                            retry: None,
                            ..s
                        };
                    },
                    None => {
                        self.state = StreamState { due: StreamAction::PollHead, ..s };
                    },
                }
                None
            },
            _ => None,
        }
    }

    /// Records a failure of the provider: a retry after a sleep, or the end.
    fn fail(&mut self, retry: Option<Window>) -> (item: Option<StreamItem>)
        requires
            old(self)@.after_failure(retry).wf(),
        ensures
            final(self)@ == old(self)@.after_failure(retry),
            item == Some(old(self)@.failure_item()),
    {
        proof {
            use_type_invariant(&*self);
        }
        let s = self.state;
        if s.failures >= MAX_RETRIES {
            self.state = StreamState { due: StreamAction::Stop, retry: None, ..s };
            Some(StreamItem::Fatal(FatalFetch::RetriesExhausted))
        } else {
            self.state = StreamState {
                due: StreamAction::Sleep { millis: delay_before_retry(s.failures + 1) },
                failures: s.failures + 1,
                retry,
                ..s
            };
            Some(StreamItem::Transient)
        }
    }
}

} // verus!
