//! Processing the logs of one window: a stream, the filter it fetches with,
//! and the dispatcher that consumes it, as one task.
//!
//! The task is driven from outside. The driver asks what is requested,
//! performs it (a call to the provider, a sleep), and hands back what came of
//! it; the task answers with what is to be delivered.

use vstd::prelude::*;
use crate::indexer::dispatch::{dispatch, is_dispatch_of, CallbackRegistry, Dispatch};
use crate::indexer::error::FatalFetch;
use crate::indexer::filter::{LogFilter, LogFilterView};
use crate::indexer::log::ContractRef;
use crate::indexer::stream::{LogStream, StreamAction, StreamEvent, StreamItem, StreamState};
use crate::indexer::window::Window;

verus! {

/// What the driver of a task has to do next.
#[derive(Clone, Debug, PartialEq, Eq)]
pub enum TaskRequest {
    /// Ask the provider for the logs that pass this filter.
    GetLogs(LogFilter),
    /// Ask the provider for the number of the newest block.
    LatestBlock,
    /// Wait for so many milliseconds.
    Sleep { millis: u64 },
    /// Nothing: the task is over.
    Done,
}

/// How a task ended.
#[derive(Clone, Copy, Debug, PartialEq, Eq, Structural)]
pub struct TaskOutcome {
    /// The first block that the task was to look at.
    pub first_block: u64,
    /// Why its stream ended fatally, if it did.
    pub failure: Option<FatalFetch>,
}

/// The processing of the logs of one window.
#[derive(Debug)]
pub struct WindowTask {
    topic_id: String,
    contract: ContractRef,
    filter: LogFilter,
    in_order: bool,
    first_block: u64,
    stream: LogStream,
    failure: Option<FatalFetch>,
}

impl WindowTask {
    /// The topic whose callback receives the logs.
    pub closed spec fn topic(self) -> Seq<char> {
        self.topic_id@
    }

    /// The contract that the results are delivered for.
    pub closed spec fn contract(self) -> ContractRef {
        self.contract
    }

    /// The filter that the task fetches with. Its block range is replaced
    /// for every fetch.
    pub closed spec fn filter(self) -> LogFilterView {
        self.filter@
    }

    /// Whether batches are delivered whole, one after the other.
    pub closed spec fn in_order(self) -> bool {
        self.in_order
    }

    /// The state of the stream.
    pub closed spec fn stream(self) -> StreamState {
        self.stream@
    }

    /// How the task has gone so far.
    pub closed spec fn outcome(self) -> TaskOutcome {
        TaskOutcome { first_block: self.first_block, failure: self.failure }
    }

    /// What the driver has to do next: what is due for the stream, with the
    /// filter laid over the blocks of a fetch.
    pub fn request(&self) -> (request: TaskRequest)
        ensures
            match self.stream().due {
                StreamAction::Fetch { from, to } => request matches TaskRequest::GetLogs(f) && f@
                    == self.filter().over(from, to),
                StreamAction::PollHead => request is LatestBlock,
                StreamAction::Sleep { millis } => request == (TaskRequest::Sleep { millis }),
                StreamAction::Stop => request is Done,
            },
    {
        match self.stream.due() {
            StreamAction::Fetch { from, to } => TaskRequest::GetLogs(
                self.filter.for_blocks(from, to),
            ),
            StreamAction::PollHead => TaskRequest::LatestBlock,
            StreamAction::Sleep { millis } => TaskRequest::Sleep { millis },
            StreamAction::Stop => TaskRequest::Done,
        }
    }

    /// Takes what came of the last request. The stream moves on, and what it
    /// yields is dispatched to the callback of the topic. A fatal end of the
    /// stream is kept for the outcome.
    pub fn handle(&mut self, registry: &CallbackRegistry, event: StreamEvent) -> (step: Dispatch)
        ensures
            final(self).stream() == old(self).stream().next(event),
            final(self).stream().wf(),
            is_dispatch_of(
                step,
                registry@,
                old(self).topic(),
                old(self).contract(),
                old(self).stream().yields(event),
                old(self).in_order(),
            ),
            final(self).topic() == old(self).topic(),
            final(self).contract() == old(self).contract(),
            final(self).filter() == old(self).filter(),
            final(self).in_order() == old(self).in_order(),
            final(self).outcome() == (TaskOutcome {
                first_block: old(self).outcome().first_block,
                failure: match old(self).stream().yields(event) {
                    Some(StreamItem::Fatal(cause)) => Some(cause),
                    _ => old(self).outcome().failure,
                },
            }),
    {
        let item = self.stream.step(event);
        if let Some(StreamItem::Fatal(cause)) = &item {
            self.failure = Some(*cause);
        }
        dispatch(registry, &self.topic_id, self.contract, item, self.in_order)
    }

    /// Whether the task is over.
    pub fn is_done(&self) -> (done: bool)
        ensures
            done == (self.stream().due == StreamAction::Stop),
    {
        self.stream.is_done()
    }

    /// How the task has gone so far.
    pub fn report(&self) -> (outcome: TaskOutcome)
        ensures
            outcome == self.outcome(),
    {
        TaskOutcome { first_block: self.first_block, failure: self.failure }
    }

    /// Whether batches are delivered whole, one after the other.
    pub fn delivers_in_order(&self) -> (in_order: bool)
        ensures
            in_order == self.in_order(),
    {
        self.in_order
    }
}

/// Starts processing the logs of `window` for the event `topic_id` on
/// `network_contract`. The task fetches with `filter`, whose block range it
/// sets itself, and goes on after the window if `live_indexing` is set.
pub fn process_logs(
    topic_id: String,
    network_contract: ContractRef,
    filter: LogFilter,
    window: Window,
    execute_events_logs_in_order: bool,
    live_indexing: bool,
) -> (task: WindowTask)
    requires
        window.valid(),
    ensures
        task.topic() == topic_id@,
        task.contract() == network_contract,
        task.filter() == filter@,
        task.in_order() == execute_events_logs_in_order,
        task.stream() == StreamState::opening(window, live_indexing),
        task.outcome() == (TaskOutcome { first_block: window.start, failure: None }),
{
    WindowTask {
        topic_id,
        contract: network_contract,
        filter,
        in_order: execute_events_logs_in_order,
        first_block: window.start,
        stream: LogStream::new(window, live_indexing),
        failure: None,
    }
}

/// Starts processing the logs that appear after block `last`, for a
/// subscription that has no blocks of the past to go through.
pub fn process_new_logs(
    topic_id: String,
    network_contract: ContractRef,
    filter: LogFilter,
    last: u64,
    execute_events_logs_in_order: bool,
) -> (task: WindowTask)
    ensures
        task.topic() == topic_id@,
        task.contract() == network_contract,
        task.filter() == filter@,
        task.in_order() == execute_events_logs_in_order,
        task.stream() == StreamState::following(last),
        task.outcome() == (TaskOutcome {
            first_block: if last < u64::MAX {
                (last + 1) as u64
            } else {
                last
            },
            failure: None,
        }),
{
    WindowTask {
        topic_id,
        contract: network_contract,
        filter,
        in_order: execute_events_logs_in_order,
        first_block: if last < u64::MAX {
            last + 1
        } else {
            last
        },
        stream: LogStream::follow(last),
        failure: None,
    }
}

} // verus!
