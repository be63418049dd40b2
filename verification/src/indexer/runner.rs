//! The event runner: for one event on one contract, it walks the windows of
//! the block range in ascending order and launches one task for each, when
//! the permit pool lets it.
//!
//! A sequential runner has one task in flight at a time. A concurrent runner
//! launches as many as it gets permits for. Either way the runner only
//! decides; the tasks are run by whoever drives it.

use vstd::prelude::*;
use crate::indexer::error::{ConfigError, FatalFetch};
use crate::indexer::filter::{build_filter, built, AddressOrFilter, LogFilter, LogFilterView};
use crate::indexer::log::ContractRef;
use crate::indexer::permit::{outstanding_after, Permit, PermitOp, PermitPool};
use crate::indexer::process::{process_logs, process_new_logs, TaskOutcome, WindowTask};
use crate::indexer::stream::StreamState;
use crate::indexer::window::{partition, piece_end, Window};

verus! {

/// What a runner is made from.
#[derive(Debug)]
pub struct EventProcessingConfig {
    pub topic_id: String,
    pub network_contract: ContractRef,
    pub address_or_filter: AddressOrFilter,
    pub start_block: u64,
    pub end_block: u64,
    pub max_block_range: u64,
    pub execute_event_logs_in_order: bool,
    pub live_indexing: bool,
}

/// A task that ended fatally.
#[derive(Clone, Copy, Debug, PartialEq, Eq, Structural)]
pub struct TaskFailure {
    /// The first block that the task was to look at.
    pub first_block: u64,
    /// Why its stream ended.
    pub cause: FatalFetch,
}

/// The state of a runner.
#[derive(Clone, Copy, Debug, PartialEq, Eq, Structural)]
pub struct RunnerState {
    /// Whether a task is launched only once the one before it is over.
    pub sequential: bool,
    /// Whether the stream of the last window goes on and follows the head.
    pub live: bool,
    /// The most blocks that a window holds.
    pub max_block_range: u64,
    /// The blocks for which no task has been launched yet.
    pub rest: Option<Window>,
    /// The block after which a stream without a window is still to follow
    /// the head.
    pub tail: Option<u64>,
    /// The number of tasks that were launched and are not over.
    pub in_flight: u64,
    /// The failure to report: of the tasks that failed, the one that began
    /// at the lowest block.
    pub failure: Option<TaskFailure>,
}

impl RunnerState {
    /// The states that a runner can be in.
    pub open spec fn wf(self) -> bool {
        &&& self.max_block_range >= 1
        &&& self.rest matches Some(r) ==> r.valid()
        &&& self.tail is Some ==> self.live && self.rest is None
    }

    /// The state of a new runner for the blocks `start` to `end`. If there
    /// are none (`start > end`) and the runner is live, it goes straight to
    /// the blocks after `end`.
    pub open spec fn initial(
        sequential: bool,
        live: bool,
        max_block_range: u64,
        start: u64,
        end: u64,
    ) -> RunnerState {
        RunnerState {
            sequential,
            live,
            max_block_range,
            rest: if start <= end {
                Some(Window { start, end })
            } else {
                None
            },
            tail: if start > end && live {
                Some(end)
            } else {
                None
            },
            in_flight: 0,
            failure: None,
        }
    }

    /// The windows for which no task has been launched yet, in the order in
    /// which they will be.
    pub open spec fn pending(self) -> Seq<Window> {
        match self.rest {
            Some(r) => partition(r.start as int, r.end as int, self.max_block_range as int),
            None => Seq::empty(),
        }
    }

    /// The window of the next task.
    pub open spec fn next_piece(self) -> Window {
        let r = self.rest->0;
        Window {
            start: r.start,
            end: piece_end(r.start as int, r.end as int, self.max_block_range as int) as u64,
        }
    }

    /// The blocks that are left once the next task is launched.
    pub open spec fn remainder(self) -> Option<Window> {
        let r = self.rest->0;
        let piece = self.next_piece();
        if self.rest is Some && piece.end < r.end {
            Some(Window { start: (piece.end + 1) as u64, end: r.end })
        } else {
            None
        }
    }

    /// Whether the runner would launch a task now: there is one left to
    /// launch, and a sequential runner has none in flight.
    pub open spec fn wants_launch(self) -> bool {
        &&& self.rest is Some || self.tail is Some
        &&& !self.sequential || self.in_flight == 0
        &&& self.in_flight < u64::MAX
    }

    /// The state after the next task is launched.
    pub open spec fn after_launch(self) -> RunnerState {
        RunnerState {
            rest: self.remainder(),
            tail: if self.rest is Some {
                self.tail
            } else {
                None
            },
            in_flight: (self.in_flight + 1) as u64,
            ..self
        }
    }

    /// The stream of the next task: that of the next window, which goes on
    /// after the window if the runner is live and the window is the last, or
    /// else the stream that follows the head.
    pub open spec fn next_stream(self) -> StreamState {
        match self.rest {
            Some(r) => StreamState::opening(
                self.next_piece(),
                self.live && self.remainder() is None,
            ),
            None => StreamState::following(self.tail->0),
        }
    }

    /// The blocks that the filter of the next task is made for: those of its
    /// window, or the block that its stream follows the head from.
    pub open spec fn next_blocks(self) -> Window {
        match self.rest {
            Some(r) => self.next_piece(),
            None => Window { start: self.tail->0, end: self.tail->0 },
        }
    }

    /// The first block that the next task looks at: the start of its window,
    /// or the block after the one that its stream follows the head from.
    pub open spec fn next_first_block(self) -> u64 {
        match self.rest {
            Some(r) => r.start,
            None => if self.tail->0 < u64::MAX {
                (self.tail->0 + 1) as u64
            } else {
                self.tail->0
            },
        }
    }

    /// The failure to report once `outcome` is known as well.
    pub open spec fn failure_with(self, outcome: TaskOutcome) -> Option<TaskFailure> {
        match outcome.failure {
            None => self.failure,
            Some(cause) => match self.failure {
                Some(known) if known.first_block <= outcome.first_block => self.failure,
                _ => Some(TaskFailure { first_block: outcome.first_block, cause }),
            },
        }
    }

    /// The state after a task ended with `outcome`. A sequential runner
    /// launches nothing more after a failure; a concurrent one lets the
    /// remaining windows run.
    pub open spec fn after_outcome(self, outcome: TaskOutcome) -> RunnerState {
        let stop = self.sequential && outcome.failure is Some;
        RunnerState {
            rest: if stop {
                None
            } else {
                self.rest
            },
            tail: if stop {
                None
            } else {
                self.tail
            },
            in_flight: if self.in_flight > 0 {
                (self.in_flight - 1) as u64
            } else {
                0
            },
            failure: self.failure_with(outcome),
            ..self
        }
    }
}

/// The windows of a runner are walked in order: the next task is for the
/// first of the windows that are pending, and the others stay pending.
pub proof fn lemma_launch_takes_first_window(s: RunnerState)
    requires
        s.wf(),
        s.rest is Some,
    ensures
        s.pending() == seq![s.next_piece()] + s.after_launch().pending(),
        s.after_launch().wf(),
{
    let r = s.rest->0;
    let max = s.max_block_range as int;
    let stop = piece_end(r.start as int, r.end as int, max);
    if stop >= r.end {
        assert(partition(stop + 1, r.end as int, max) =~= Seq::<Window>::empty());
    }
}

/// A sequential runner has one task in flight at a time: it launches only
/// with none in flight, and after a launch it launches nothing until that
/// task is over. So its tasks, and with them its deliveries, follow one
/// another in the order of the windows.
pub proof fn lemma_sequential_runner_runs_one_task(s: RunnerState)
    requires
        s.sequential,
        s.wants_launch(),
    ensures
        s.in_flight == 0,
        s.after_launch().in_flight == 1,
        !s.after_launch().wants_launch(),
{
}

/// The state of a runner after `n` launches.
pub open spec fn after_launches(s: RunnerState, n: nat) -> RunnerState
    decreases n,
{
    if n == 0 {
        s
    } else {
        after_launches(s, (n - 1) as nat).after_launch()
    }
}

/// A runner walks the partition of its range: its launches are for the
/// windows of the partition, one by one and in ascending order, and there is
/// one launch for each.
pub proof fn lemma_runner_walks_partition(s: RunnerState, k: nat)
    requires
        s.wf(),
        k <= s.pending().len(),
    ensures
        after_launches(s, k).wf(),
        after_launches(s, k).pending() == s.pending().skip(k as int),
        k < s.pending().len() ==> after_launches(s, k).rest is Some && after_launches(
            s,
            k,
        ).next_piece() == s.pending()[k as int],
        k == s.pending().len() ==> after_launches(s, k).rest is None,
    decreases k,
{
    if k == 0 {
        assert(s.pending().skip(0) =~= s.pending());
    } else {
        lemma_runner_walks_partition(s, (k - 1) as nat);
        let before = after_launches(s, (k - 1) as nat);
        lemma_launch_takes_first_window(before);
        assert(s.pending().skip(k as int) =~= s.pending().skip(k - 1).skip(1));
        assert(before.after_launch().pending() =~= before.pending().skip(1));
    }
    let now = after_launches(s, k);
    if k < s.pending().len() {
        assert(now.pending().len() > 0);
        lemma_launch_takes_first_window(now);
        assert(now.pending()[0] == s.pending()[k as int]);
    } else {
        assert(now.pending().len() == 0);
        if now.rest is Some {
            lemma_launch_takes_first_window(now);
        }
    }
}

/// What the driver of a runner has to do next.
#[derive(Debug)]
pub enum RunnerAction {
    /// Run the task, which holds the permit, and report its outcome with
    /// the permit when it is over.
    Launch { task: WindowTask, permit: Permit },
    /// Wait until a permit is given back to the pool, then ask again.
    AwaitPermit,
    /// Wait until a task is over and report it, then ask again.
    AwaitTask,
    /// Nothing: every task is over. The failure, if any, is the result.
    Finished(Option<TaskFailure>),
}

/// The runner of one event on one contract.
#[derive(Debug)]
pub struct EventRunner {
    topic_id: String,
    contract: ContractRef,
    base: LogFilter,
    in_order: bool,
    state: RunnerState,
}

impl EventRunner {
    #[verifier::type_invariant]
    spec fn well_formed(self) -> bool {
        self.state.wf()
    }

    /// The topic of the event.
    pub closed spec fn topic(self) -> Seq<char> {
        self.topic_id@
    }

    /// The contract of the event.
    pub closed spec fn contract(self) -> ContractRef {
        self.contract
    }

    /// The filter of the event. Every task fetches with it, over its own
    /// blocks.
    pub closed spec fn filter(self) -> LogFilterView {
        self.base@
    }

    /// Whether batches are delivered whole, one after the other.
    pub closed spec fn in_order(self) -> bool {
        self.in_order
    }

    /// The state of the runner.
    pub closed spec fn state(self) -> RunnerState {
        self.state
    }

    /// Whether `task` is the next task of this runner.
    pub open spec fn launches(self, task: WindowTask) -> bool {
        &&& task.topic() == self.topic()
        &&& task.contract() == self.contract()
        &&& task.in_order() == self.in_order()
        &&& task.filter() == self.filter().over(
            self.state().next_blocks().start,
            self.state().next_blocks().end,
        )
        &&& task.stream() == self.state().next_stream()
        &&& task.outcome() == (TaskOutcome {
            first_block: self.state().next_first_block(),
            failure: None,
        })
    }

    /// Whether `runner` is what making a runner for `config` owes: the
    /// error with which the filter of the subscription cannot be built, or
    /// else a runner with that filter that has launched nothing yet.
    pub open spec fn is_made_for(
        runner: Result<EventRunner, ConfigError>,
        config: EventProcessingConfig,
        sequential: bool,
    ) -> bool {
        let filter = built(
            config.topic_id@,
            config.address_or_filter@,
            config.start_block,
            config.end_block,
        );
        match runner {
            Ok(r) => {
                &&& filter == Ok::<LogFilterView, ConfigError>(r.filter())
                &&& r.topic() == config.topic_id@
                &&& r.contract() == config.network_contract
                &&& r.in_order() == config.execute_event_logs_in_order
                &&& r.state() == RunnerState::initial(
                    sequential,
                    config.live_indexing,
                    config.max_block_range,
                    config.start_block,
                    config.end_block,
                )
            },
            Err(e) => filter == Err::<LogFilterView, ConfigError>(e),
        }
    }

    /// A runner for `config`. It fails where the address or the topic of
    /// the subscription cannot be read.
    pub fn new(config: EventProcessingConfig, sequential: bool) -> (runner: Result<
        EventRunner,
        ConfigError,
    >)
        requires
            config.max_block_range >= 1,
        ensures
            EventRunner::is_made_for(runner, config, sequential),
    {
        let base = build_filter(
            config.topic_id.as_str(),
            &config.address_or_filter,
            config.start_block,
            config.end_block,
        );
        match base {
            Err(e) => Err(e),
            Ok(base) => {
                let rest = Window::new(config.start_block, config.end_block);
                let tail = if config.start_block > config.end_block && config.live_indexing {
                    Some(config.end_block)
                } else {
                    None
                };
                Ok(
                    EventRunner {
                        topic_id: config.topic_id,
                        contract: config.network_contract,
                        base,
                        in_order: config.execute_event_logs_in_order,
                        state: RunnerState {
                            sequential,
                            live: config.live_indexing,
                            max_block_range: config.max_block_range,
                            rest,
                            tail,
                            in_flight: 0,
                            failure: None,
                        },
                    },
                )
            },
        }
    }

    /// The state of the runner. It is always one that a runner can be in.
    pub fn snapshot(&self) -> (state: RunnerState)
        ensures
            state == self.state(),
            state.wf(),
    {
        proof {
            use_type_invariant(self);
        }
        self.state
    }

    /// Decides what is done next.
    ///
    /// Where a task is left to launch and may be launched, the runner takes
    /// a permit and launches it, or waits for a permit if none is free.
    /// With nothing to launch it waits for the tasks in flight, and finishes
    /// once there are none.
    pub fn poll(&mut self, pool: &mut PermitPool) -> (action: RunnerAction)
        ensures
            final(self).topic() == old(self).topic(),
            final(self).contract() == old(self).contract(),
            final(self).filter() == old(self).filter(),
            final(self).in_order() == old(self).in_order(),
            final(pool).capacity() == old(pool).capacity(),
            final(self).state().wf(),
            match action {
                RunnerAction::Launch { task, permit } => {
                    &&& old(self).state().wants_launch()
                    &&& old(pool).outstanding() < old(pool).capacity()
                    &&& final(pool).outstanding() == old(pool).outstanding() + 1
                    &&& final(self).state() == old(self).state().after_launch()
                    &&& old(self).launches(task)
                },
                RunnerAction::AwaitPermit => {
                    &&& old(self).state().wants_launch()
                    &&& old(pool).outstanding() == old(pool).capacity()
                    &&& final(pool).outstanding() == old(pool).outstanding()
                    &&& final(self).state() == old(self).state()
                },
                RunnerAction::AwaitTask => {
                    &&& !old(self).state().wants_launch()
                    &&& old(self).state().in_flight > 0
                    &&& final(pool).outstanding() == old(pool).outstanding()
                    &&& final(self).state() == old(self).state()
                },
                RunnerAction::Finished(failure) => {
                    &&& !old(self).state().wants_launch()
                    &&& old(self).state().in_flight == 0
                    &&& failure == old(self).state().failure
                    &&& final(pool).outstanding() == old(pool).outstanding()
                    &&& final(self).state() == old(self).state()
                },
            },
    {
        proof {
            use_type_invariant(&*self);
        }
        let s = self.state;
        let has_next = s.rest.is_some() || s.tail.is_some();
        if has_next && (!s.sequential || s.in_flight == 0) && s.in_flight < u64::MAX {
            match pool.try_acquire() {
                None => RunnerAction::AwaitPermit,
                Some(permit) => {
                    let task = match s.rest {
                        Some(r) => {
                            let piece = r.first_piece(s.max_block_range);
                            let rest = r.rest_after(piece.end);
                            proof {
                                lemma_launch_takes_first_window(s);
                            }
                            self.state = RunnerState { rest, in_flight: s.in_flight + 1, ..s };
                            process_logs(
                                self.topic_id.clone(),
                                self.contract,
                                self.base.for_blocks(piece.start, piece.end),
                                piece,
                                self.in_order,
                                s.live && rest.is_none(),
                            )
                        },
                        None => {
                            let last = s.tail.unwrap();
                            self.state = RunnerState {
                                tail: None,
                                in_flight: s.in_flight + 1,
                                ..s
                            };
                            process_new_logs(
                                self.topic_id.clone(),
                                self.contract,
                                self.base.for_blocks(last, last),
                                last,
                                self.in_order,
                            )
                        },
                    };
                    RunnerAction::Launch { task, permit }
                },
            }
        } else if s.in_flight > 0 {
            RunnerAction::AwaitTask
        } else {
            RunnerAction::Finished(s.failure)
        }
    }

    /// Takes the outcome of a task that is over, and gives its permit back
    /// to the pool.
    pub fn complete(&mut self, pool: &mut PermitPool, permit: Permit, outcome: TaskOutcome)
        ensures
            final(self).topic() == old(self).topic(),
            final(self).contract() == old(self).contract(),
            final(self).filter() == old(self).filter(),
            final(self).in_order() == old(self).in_order(),
            final(self).state() == old(self).state().after_outcome(outcome),
            final(self).state().wf(),
            final(pool).capacity() == old(pool).capacity(),
            final(pool).outstanding() == outstanding_after(
                old(pool).capacity(),
                old(pool).outstanding(),
                PermitOp::Release,
            ),
    {
        proof {
            use_type_invariant(&*self);
        }
        pool.release(permit);
        let s = self.state;
        let stop = s.sequential && outcome.failure.is_some();
        let failure = match outcome.failure {
            None => s.failure,
            Some(cause) => match s.failure {
                Some(known) if known.first_block <= outcome.first_block => s.failure,
                _ => Some(TaskFailure { first_block: outcome.first_block, cause }),
            },
        };
        self.state = RunnerState {
            rest: if stop {
                None
            } else {
                s.rest
            },
            tail: if stop {
                None
            } else {
                s.tail
            },
            in_flight: if s.in_flight > 0 {
                s.in_flight - 1
            } else {
                0
            },
            failure,
            ..s
        };
    }
}

/// A runner for `config` that has one task in flight at a time: the windows
/// are processed one after the other, in ascending order.
pub fn process_event_sequentially(event_processing_config: EventProcessingConfig) -> (runner:
    Result<EventRunner, ConfigError>)
    requires
        event_processing_config.max_block_range >= 1,
    ensures
        EventRunner::is_made_for(runner, event_processing_config, true),
{
    EventRunner::new(event_processing_config, true)
}

/// A runner for `config` that launches the windows in ascending order, as
/// many at a time as the permit pool lets it.
pub fn process_event_concurrently(event_processing_config: EventProcessingConfig) -> (runner:
    Result<EventRunner, ConfigError>)
    requires
        event_processing_config.max_block_range >= 1,
    ensures
        EventRunner::is_made_for(runner, event_processing_config, false),
{
    EventRunner::new(event_processing_config, false)
}

} // verus!
