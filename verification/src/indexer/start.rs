//! The indexing supervisor: it goes through the registered events and their
//! contracts, resolves the block range of each against the head of the chain,
//! and starts one runner for each.
//!
//! Like the runner, the supervisor only decides. Whoever drives it looks up
//! the head, runs the runners and reports how they ended.

use vstd::prelude::*;
use crate::indexer::error::{ConfigError, IndexingError};
use crate::indexer::filter::{built, AddressOrFilter, LogFilterView};
use crate::indexer::log::ContractRef;
use crate::indexer::permit::{PermitPool, DEFAULT_MAX_CONCURRENCY};
use crate::indexer::runner::{EventProcessingConfig, EventRunner, RunnerState, TaskFailure};

verus! {

/// The most blocks of one window, unless the settings say otherwise.
pub const DEFAULT_MAX_BLOCK_RANGE: u64 = 2000;

/// How much may run side by side.
#[derive(Debug)]
pub struct ConcurrentSettings {
    /// The most fetches that are in flight at one time, over all events.
    max_concurrency: u32,
}

impl ConcurrentSettings {
    #[verifier::type_invariant]
    spec fn at_least_one(self) -> bool {
        self.max_concurrency >= 1
    }

    /// The most fetches that are in flight at one time.
    pub closed spec fn limit(self) -> nat {
        self.max_concurrency as nat
    }

    /// The settings that are used where none are given: up to 100 fetches at
    /// a time.
    pub fn default() -> (settings: Self)
        ensures
            settings.limit() == 100,
    {
        Self { max_concurrency: DEFAULT_MAX_CONCURRENCY }
    }

    /// Settings that allow `max_concurrency` fetches at a time. None at all
    /// is refused.
    pub fn new(max_concurrency: u32) -> (settings: Result<Self, ConfigError>)
        ensures
            max_concurrency == 0 ==> settings == Err::<Self, ConfigError>(
                ConfigError::ZeroConcurrency,
            ),
            max_concurrency > 0 ==> settings is Ok && settings->Ok_0.limit() == max_concurrency,
    {
        if max_concurrency == 0 {
            Err(ConfigError::ZeroConcurrency)
        } else {
            Ok(Self { max_concurrency })
        }
    }

    /// The most fetches that are in flight at one time.
    pub fn max_concurrency(&self) -> (n: u32)
        ensures
            n == self.limit(),
            n >= 1,
    {
        proof {
            use_type_invariant(self);
        }
        self.max_concurrency
    }
}

/// How indexing is to run.
#[derive(Debug)]
pub struct StartIndexingSettings {
    concurrent: Option<ConcurrentSettings>,
    /// If events rely on the data of other events, they are processed one
    /// after the other, in the order in which they are registered.
    execute_in_event_order: bool,
    /// If the order of the logs of an event matters, they are delivered in
    /// the order in which they come in.
    execute_event_logs_in_order: bool,
    /// The most blocks that one request to a provider covers.
    max_block_range: u64,
}

impl StartIndexingSettings {
    #[verifier::type_invariant]
    spec fn windows_hold_a_block(self) -> bool {
        self.max_block_range >= 1
    }

    /// The most fetches that are in flight at one time: what the concurrency
    /// settings say, or 100 without them.
    pub closed spec fn limit(self) -> nat {
        match self.concurrent {
            Some(c) => c.limit(),
            None => DEFAULT_MAX_CONCURRENCY as nat,
        }
    }

    /// Whether events are processed one after the other.
    pub closed spec fn event_order(self) -> bool {
        self.execute_in_event_order
    }

    /// Whether the logs of an event are delivered in order.
    pub closed spec fn logs_order(self) -> bool {
        self.execute_event_logs_in_order
    }

    /// The most blocks of one window.
    pub closed spec fn block_range(self) -> nat {
        self.max_block_range as nat
    }

    /// The settings that favour speed: up to 100 fetches at a time, no
    /// ordering of events or logs, windows of 2000 blocks.
    pub fn default() -> (settings: Self)
        ensures
            settings.limit() == 100,
            !settings.event_order(),
            !settings.logs_order(),
            settings.block_range() == 2000,
    {
        Self {
            concurrent: Some(ConcurrentSettings::default()),
            execute_in_event_order: false,
            execute_event_logs_in_order: false,
            max_block_range: DEFAULT_MAX_BLOCK_RANGE,
        }
    }

    /// These settings with other concurrency settings, or with none.
    pub fn with_concurrent(self, concurrent: Option<ConcurrentSettings>) -> (settings: Self)
        ensures
            settings.limit() == match concurrent {
                Some(c) => c.limit(),
                None => 100,
            },
            settings.event_order() == self.event_order(),
            settings.logs_order() == self.logs_order(),
            settings.block_range() == self.block_range(),
    {
        proof {
            use_type_invariant(&self);
        }
        Self {
            concurrent,
            execute_in_event_order: self.execute_in_event_order,
            execute_event_logs_in_order: self.execute_event_logs_in_order,
            max_block_range: self.max_block_range,
        }
    }

    /// These settings with events processed one after the other, or not.
    pub fn with_event_order(self, execute_in_event_order: bool) -> (settings: Self)
        ensures
            settings.limit() == self.limit(),
            settings.event_order() == execute_in_event_order,
            settings.logs_order() == self.logs_order(),
            settings.block_range() == self.block_range(),
    {
        proof {
            use_type_invariant(&self);
        }
        Self {
            concurrent: self.concurrent,
            execute_in_event_order,
            execute_event_logs_in_order: self.execute_event_logs_in_order,
            max_block_range: self.max_block_range,
        }
    }

    /// These settings with the logs of an event delivered in order, or not.
    pub fn with_logs_order(self, execute_event_logs_in_order: bool) -> (settings: Self)
        ensures
            settings.limit() == self.limit(),
            settings.event_order() == self.event_order(),
            settings.logs_order() == execute_event_logs_in_order,
            settings.block_range() == self.block_range(),
    {
        proof {
            use_type_invariant(&self);
        }
        Self {
            concurrent: self.concurrent,
            execute_in_event_order: self.execute_in_event_order,
            execute_event_logs_in_order,
            max_block_range: self.max_block_range,
        }
    }

    /// These settings with windows of up to `max_block_range` blocks.
    pub fn with_max_block_range(self, max_block_range: u64) -> (settings: Self)
        requires
            max_block_range >= 1,
        ensures
            settings.limit() == self.limit(),
            settings.event_order() == self.event_order(),
            settings.logs_order() == self.logs_order(),
            settings.block_range() == max_block_range,
    {
        Self {
            concurrent: self.concurrent,
            execute_in_event_order: self.execute_in_event_order,
            execute_event_logs_in_order: self.execute_event_logs_in_order,
            max_block_range,
        }
    }

    /// The most fetches that are in flight at one time.
    pub fn max_concurrency(&self) -> (n: u32)
        ensures
            n == self.limit(),
            n >= 1,
    {
        match &self.concurrent {
            Some(c) => c.max_concurrency(),
            None => DEFAULT_MAX_CONCURRENCY,
        }
    }

    /// Whether events are processed one after the other.
    pub fn execute_in_event_order(&self) -> (flag: bool)
        ensures
            flag == self.event_order(),
    {
        self.execute_in_event_order
    }

    /// Whether the logs of an event are delivered in order.
    pub fn execute_event_logs_in_order(&self) -> (flag: bool)
        ensures
            flag == self.logs_order(),
    {
        self.execute_event_logs_in_order
    }

    /// The most blocks of one window.
    pub fn max_block_range(&self) -> (n: u64)
        ensures
            n == self.block_range(),
            n >= 1,
    {
        proof {
            use_type_invariant(self);
        }
        self.max_block_range
    }
}

/// A contract, or a filter template, that an event is indexed on.
#[derive(Clone, Debug, PartialEq, Eq)]
pub struct NetworkContract {
    /// The name of the network that the contract lives on.
    pub network: String,
    pub address_or_filter: AddressOrFilter,
    /// The first block to index; the head of the chain where none is given.
    pub start_block: Option<u64>,
    /// The last block to index. Where none is given, indexing goes on as
    /// the chain grows.
    pub end_block: Option<u64>,
}

/// An event and the contracts it is indexed on.
#[derive(Clone, Debug, PartialEq, Eq)]
pub struct EventSubscription {
    pub topic_id: String,
    pub contracts: Vec<NetworkContract>,
}

/// The blocks that are indexed for one contract, once the head is known.
#[derive(Clone, Copy, Debug, PartialEq, Eq, Structural)]
pub struct ResolvedRange {
    pub start_block: u64,
    pub end_block: u64,
    pub live_indexing: bool,
}

/// The blocks to index where the head of the chain is at `head`.
///
/// Indexing starts at `start_block`, or at the head where none is given. It
/// ends at `end_block` but never beyond the head, and at the head where none
/// is given; in that case it is live, that is, it goes on from there.
pub open spec fn resolved(
    start_block: Option<u64>,
    end_block: Option<u64>,
    head: u64,
) -> ResolvedRange {
    ResolvedRange {
        start_block: match start_block {
            Some(start) => start,
            None => head,
        },
        end_block: match end_block {
            Some(end) if end <= head => end,
            _ => head,
        },
        live_indexing: end_block is None,
    }
}

/// Resolves the blocks to index against the head of the chain.
pub fn resolve_range(start_block: Option<u64>, end_block: Option<u64>, head: u64) -> (range:
    ResolvedRange)
    ensures
        range == resolved(start_block, end_block, head),
{
    ResolvedRange {
        start_block: match start_block {
            Some(start) => start,
            None => head,
        },
        end_block: match end_block {
            Some(end) => if end <= head {
                end
            } else {
                head
            },
            None => head,
        },
        live_indexing: end_block.is_none(),
    }
}

/// Head clamping: no block beyond the head is part of the range. An end
/// block beyond the head is cut back to the head, and since an end block was
/// given, indexing is not live.
pub proof fn lemma_head_clamping(start_block: Option<u64>, end_block: Option<u64>, head: u64)
    ensures
        resolved(start_block, end_block, head).end_block <= head,
        end_block matches Some(end) ==> !resolved(start_block, end_block, head).live_indexing,
        end_block matches Some(end) ==> (end > head ==> resolved(
            start_block,
            end_block,
            head,
        ).end_block == head),
        end_block is None ==> resolved(start_block, end_block, head).live_indexing && resolved(
            start_block,
            end_block,
            head,
        ).end_block == head,
{
}

/// The first place at or after contract `contract` of event `event` that
/// holds a contract, where event `k` has `shape[k]` contracts.
pub open spec fn unit_from(shape: Seq<nat>, event: nat, contract: nat) -> Option<ContractRef>
    decreases shape.len() - event,
{
    if event >= shape.len() {
        None
    } else if contract < shape[event as int] {
        Some(ContractRef { event: event as usize, contract: contract as usize })
    } else {
        unit_from(shape, event + 1, 0)
    }
}

/// Where no subscription has a contract, and so where there is no
/// subscription at all, no contract is next: the supervisor finishes at once
/// and without a failure.
pub proof fn lemma_nothing_to_index(shape: Seq<nat>, event: nat, contract: nat)
    requires
        forall|k: int| 0 <= k < shape.len() ==> shape[k] == 0,
    ensures
        unit_from(shape, event, contract) is None,
    decreases shape.len() - event,
{
    if event < shape.len() {
        lemma_nothing_to_index(shape, event + 1, 0);
    }
}

/// How many contracts each subscription has.
pub open spec fn shape_of(subscriptions: Seq<EventSubscription>) -> Seq<nat> {
    Seq::new(subscriptions.len(), |k: int| subscriptions[k].contracts@.len())
}

/// Whether `a` comes before `b` in the order in which runners are started.
pub open spec fn starts_before(a: ContractRef, b: ContractRef) -> bool {
    a.event < b.event || (a.event == b.event && a.contract < b.contract)
}

impl IndexingError {
    /// The contract that the error came from.
    pub open spec fn origin(self) -> ContractRef {
        match self {
            IndexingError::Config { event, contract, .. } => ContractRef { event, contract },
            IndexingError::HeadUnavailable { event, contract } => ContractRef { event, contract },
            IndexingError::Fetch { event, contract, .. } => ContractRef { event, contract },
        }
    }

    /// The contract that the error came from.
    pub fn source(&self) -> (unit: ContractRef)
        ensures
            unit == self.origin(),
    {
        match self {
            IndexingError::Config { event, contract, .. } => ContractRef {
                event: *event,
                contract: *contract,
            },
            IndexingError::HeadUnavailable { event, contract } => ContractRef {
                event: *event,
                contract: *contract,
            },
            IndexingError::Fetch { event, contract, .. } => ContractRef {
                event: *event,
                contract: *contract,
            },
        }
    }
}

/// The state of a supervisor.
#[derive(Clone, Copy, Debug, PartialEq, Eq, Structural)]
pub struct SupervisorState {
    /// Whether a runner is started only once the one before it is over.
    pub sequential: bool,
    /// The contract whose runner is started next.
    pub next: Option<ContractRef>,
    /// The number of runners that were started and are not over.
    pub running: u64,
    /// The failure to report: of those that occurred, the one of the
    /// contract that comes first.
    pub failure: Option<IndexingError>,
}

impl SupervisorState {
    /// Whether the supervisor would start a runner now: there is a contract
    /// left, nothing has failed, and a sequential supervisor has no runner
    /// that is not over.
    pub open spec fn wants_start(self) -> bool {
        &&& self.next is Some
        &&& self.failure is None
        &&& !self.sequential || self.running == 0
        &&& self.running < u64::MAX
    }

    /// The failure to report once `error` is known as well.
    pub open spec fn failure_with(self, error: IndexingError) -> Option<IndexingError> {
        match self.failure {
            Some(known) if !starts_before(error.origin(), known.origin()) => self.failure,
            _ => Some(error),
        }
    }

    /// The state after a runner was started for the contract that was next,
    /// where `following` is the contract after it.
    pub open spec fn after_start(self, following: Option<ContractRef>) -> SupervisorState {
        SupervisorState { next: following, running: (self.running + 1) as u64, ..self }
    }

    /// The state after `error` kept the runner of a contract from starting.
    pub open spec fn after_refusal(self, error: IndexingError) -> SupervisorState {
        SupervisorState { failure: self.failure_with(error), ..self }
    }

    /// The state after the runner of `unit` ended, with `failure` if a task
    /// of it failed.
    pub open spec fn after_runner(
        self,
        unit: ContractRef,
        failure: Option<TaskFailure>,
    ) -> SupervisorState {
        SupervisorState {
            running: if self.running > 0 {
                (self.running - 1) as u64
            } else {
                0
            },
            failure: match failure {
                None => self.failure,
                Some(f) => self.failure_with(
                    IndexingError::Fetch {
                        event: unit.event,
                        contract: unit.contract,
                        window_start: f.first_block,
                        cause: f.cause,
                    },
                ),
            },
            ..self
        }
    }
}

/// What the driver of a supervisor has to do next.
#[derive(Clone, Copy, Debug, PartialEq, Eq, Structural)]
pub enum SupervisorAction {
    /// Ask the provider of this contract for the number of the newest block
    /// and hand it to `resolve`.
    QueryHead(ContractRef),
    /// Wait until a runner is over and report it, then ask again.
    AwaitRunner,
    /// Nothing: every runner is over. The failure, if any, is the result.
    Finished(Option<IndexingError>),
}

/// The supervisor of one indexing session.
#[derive(Debug)]
pub struct IndexingSupervisor {
    subscriptions: Vec<EventSubscription>,
    max_block_range: u64,
    in_order: bool,
    state: SupervisorState,
}

impl IndexingSupervisor {
    #[verifier::type_invariant]
    spec fn well_formed(self) -> bool {
        &&& self.max_block_range >= 1
        &&& self.state.next matches Some(unit) ==> unit.event < self.subscriptions@.len()
            && unit.contract < self.subscriptions@[unit.event as int].contracts@.len()
    }

    /// The events that are indexed.
    pub closed spec fn subscriptions(self) -> Seq<EventSubscription> {
        self.subscriptions@
    }

    /// The most blocks of one window.
    pub closed spec fn block_range(self) -> u64 {
        self.max_block_range
    }

    /// Whether the logs of an event are delivered in order.
    pub closed spec fn logs_order(self) -> bool {
        self.in_order
    }

    /// The state of the supervisor.
    pub closed spec fn state(self) -> SupervisorState {
        self.state
    }

    /// Whether `unit` names a contract of a subscription.
    pub open spec fn has(self, unit: ContractRef) -> bool {
        &&& unit.event < self.subscriptions().len()
        &&& unit.contract < self.subscriptions()[unit.event as int].contracts@.len()
    }

    /// The contract that `unit` names.
    pub open spec fn contract_of(self, unit: ContractRef) -> NetworkContract {
        self.subscriptions()[unit.event as int].contracts@[unit.contract as int]
    }

    /// The filter of `unit` over the blocks that are resolved with the head
    /// at `head`, or the reason why there is none.
    pub open spec fn filter_of(self, unit: ContractRef, head: u64) -> Result<
        LogFilterView,
        ConfigError,
    > {
        let contract = self.contract_of(unit);
        let range = resolved(contract.start_block, contract.end_block, head);
        built(
            self.subscriptions()[unit.event as int].topic_id@,
            contract.address_or_filter@,
            range.start_block,
            range.end_block,
        )
    }

    /// The state of a new runner for `unit` with the head at `head`.
    pub open spec fn runner_state_of(self, unit: ContractRef, head: u64) -> RunnerState {
        let contract = self.contract_of(unit);
        let range = resolved(contract.start_block, contract.end_block, head);
        RunnerState::initial(
            self.state().sequential,
            range.live_indexing,
            self.block_range(),
            range.start_block,
            range.end_block,
        )
    }

    /// The first contract at or after the given place.
    fn unit_at(&self, event: usize, contract: usize) -> (unit: Option<ContractRef>)
        ensures
            unit == unit_from(shape_of(self.subscriptions()), event as nat, contract as nat),
            unit matches Some(u) ==> self.has(u),
    {
        let mut event = event;
        let mut contract = contract;
        let ghost shape = shape_of(self.subscriptions());
        let ghost wanted = unit_from(shape, event as nat, contract as nat);
        let mut found: Option<ContractRef> = None;
        while found.is_none() && event < self.subscriptions.len()
            invariant
                shape == shape_of(self.subscriptions()),
                found is None ==> wanted == unit_from(shape, event as nat, contract as nat),
                found matches Some(u) ==> wanted == found && self.has(u),
            decreases (if found is None { 1int } else { 0int }) + self.subscriptions.len() - event,
        {
            assert(shape[event as int] == self.subscriptions()[event as int].contracts@.len());
            if contract < self.subscriptions[event].contracts.len() {
                found = Some(ContractRef { event, contract });
            } else {
                event += 1;
                contract = 0;
            }
        }
        found
    }

    /// A supervisor for `subscriptions`. Nothing is started yet; the first
    /// contract of the first event that has one is next.
    pub fn new(
        subscriptions: Vec<EventSubscription>,
        settings: &StartIndexingSettings,
    ) -> (supervisor: IndexingSupervisor)
        ensures
            supervisor.subscriptions() == subscriptions@,
            supervisor.block_range() == settings.block_range(),
            supervisor.logs_order() == settings.logs_order(),
            supervisor.state() == (SupervisorState {
                sequential: settings.event_order(),
                next: unit_from(shape_of(subscriptions@), 0, 0),
                running: 0,
                failure: None,
            }),
    {
        let mut supervisor = IndexingSupervisor {
            subscriptions,
            max_block_range: settings.max_block_range(),
            in_order: settings.execute_event_logs_in_order(),
            state: SupervisorState {
                sequential: settings.execute_in_event_order(),
                next: None,
                running: 0,
                failure: None,
            },
        };
        let first = supervisor.unit_at(0, 0);
        supervisor.state = SupervisorState { next: first, ..supervisor.state };
        supervisor
    }

    /// The events that are indexed.
    pub fn events(&self) -> (subscriptions: &Vec<EventSubscription>)
        ensures
            subscriptions@ == self.subscriptions(),
    {
        &self.subscriptions
    }

    /// The state of the supervisor.
    pub fn snapshot(&self) -> (state: SupervisorState)
        ensures
            state == self.state(),
    {
        self.state
    }

    /// Decides what is done next.
    ///
    /// While a contract is left and nothing has failed, the head of its chain
    /// is asked for, one contract at a time if events are processed in order.
    /// After that the supervisor waits for the runners, and finishes once
    /// none is left, with the failure to report if there is one.
    pub fn poll(&self) -> (action: SupervisorAction)
        ensures
            action == if self.state().wants_start() {
                SupervisorAction::QueryHead(self.state().next->0)
            } else if self.state().running > 0 {
                SupervisorAction::AwaitRunner
            } else {
                SupervisorAction::Finished(self.state().failure)
            },
            action matches SupervisorAction::QueryHead(unit) ==> self.has(unit),
    {
        proof {
            use_type_invariant(self);
        }
        let s = self.state;
        match s.next {
            Some(unit) if s.failure.is_none() && (!s.sequential || s.running == 0) && s.running
                < u64::MAX => SupervisorAction::QueryHead(unit),
            _ => if s.running > 0 {
                SupervisorAction::AwaitRunner
            } else {
                SupervisorAction::Finished(s.failure)
            },
        }
    }

    /// The contract whose runner is started after that of `unit`.
    pub open spec fn unit_after(self, unit: ContractRef) -> Option<ContractRef> {
        unit_from(shape_of(self.subscriptions()), unit.event as nat, (unit.contract + 1) as nat)
    }

    /// Whether `runner` is a new runner for `unit` with the head at `head`.
    pub open spec fn is_runner_of(self, runner: EventRunner, unit: ContractRef, head: u64) -> bool {
        &&& self.filter_of(unit, head) == Ok::<LogFilterView, ConfigError>(runner.filter())
        &&& runner.topic() == self.subscriptions()[unit.event as int].topic_id@
        &&& runner.contract() == unit
        &&& runner.in_order() == self.logs_order()
        &&& runner.state() == self.runner_state_of(unit, head)
    }

    /// The state after the head of the chain of the contract that is next
    /// was looked up, with `head` or, for `None`, in vain.
    ///
    /// Without a head, or with an address or a topic that cannot be read,
    /// the failure is kept. Otherwise a runner is started and the contract
    /// after this one is next. Where no runner may be started, nothing
    /// changes.
    pub open spec fn state_after_head(self, head: Option<u64>) -> SupervisorState {
        let s = self.state();
        let unit = s.next->0;
        if !s.wants_start() {
            s
        } else {
            match head {
                None => s.after_refusal(
                    IndexingError::HeadUnavailable { event: unit.event, contract: unit.contract },
                ),
                Some(h) => match self.filter_of(unit, h) {
                    Err(fault) => s.after_refusal(
                        IndexingError::Config { event: unit.event, contract: unit.contract, fault },
                    ),
                    Ok(_) => s.after_start(self.unit_after(unit)),
                },
            }
        }
    }

    /// Whether a runner is started once the head is looked up.
    pub open spec fn starts_runner(self, head: Option<u64>) -> bool {
        &&& self.state().wants_start()
        &&& head is Some
        &&& self.filter_of(self.state().next->0, head->0) is Ok
    }

    /// Takes the head of the chain of the contract that is next, `None` if
    /// it could not be read, and makes the runner of that contract.
    ///
    /// Without a head, or with an address or a topic that cannot be read,
    /// there is no runner: the failure is kept and nothing more is started.
    /// Called when no runner may be started, it does nothing.
    pub fn resolve(&mut self, head: Option<u64>) -> (runner: Option<EventRunner>)
        ensures
            final(self).subscriptions() == old(self).subscriptions(),
            final(self).block_range() == old(self).block_range(),
            final(self).logs_order() == old(self).logs_order(),
            final(self).state() == old(self).state_after_head(head),
            match runner {
                Some(r) => old(self).starts_runner(head) && old(self).is_runner_of(
                    r,
                    old(self).state().next->0,
                    head->0,
                ),
                None => !old(self).starts_runner(head),
            },
    {
        proof {
            use_type_invariant(&*self);
        }
        let s = self.state;
        let may_start = s.next.is_some() && s.failure.is_none() && (!s.sequential || s.running == 0)
            && s.running < u64::MAX;
        if !may_start {
            None
        } else {
            let unit = s.next.unwrap();
            match head {
                None => {
                    self.state = SupervisorState {
                        failure: Some(
                            IndexingError::HeadUnavailable {
                                event: unit.event,
                                contract: unit.contract,
                            },
                        ),
                        ..s
                    };
                    None
                },
                Some(head) => {
                    let made = self.runner_for(unit, head);
                    match made {
                        Err(fault) => {
                            self.state = SupervisorState {
                                failure: Some(
                                    IndexingError::Config {
                                        event: unit.event,
                                        contract: unit.contract,
                                        fault,
                                    },
                                ),
                                ..s
                            };
                            None
                        },
                        Ok(runner) => {
                            let count = self.subscriptions[unit.event].contracts.len();
                            assert(unit.contract < count);
                            let following = self.unit_at(unit.event, unit.contract + 1);
                            self.state = SupervisorState {
                                next: following,
                                running: s.running + 1,
                                ..s
                            };
                            Some(runner)
                        },
                    }
                },
            }
        }
    }

    /// Makes the runner of `unit` for the head at `head`.
    fn runner_for(&self, unit: ContractRef, head: u64) -> (runner: Result<EventRunner, ConfigError>)
        requires
            self.has(unit),
        ensures
            match runner {
                Ok(r) => self.is_runner_of(r, unit, head),
                Err(fault) => self.filter_of(unit, head) == Err::<LogFilterView, ConfigError>(
                    fault,
                ),
            },
    {
        proof {
            use_type_invariant(self);
        }
        let subscription = &self.subscriptions[unit.event];
        let contract = &subscription.contracts[unit.contract];
        let range = resolve_range(contract.start_block, contract.end_block, head);
        let config = EventProcessingConfig {
            topic_id: subscription.topic_id.clone(),
            network_contract: unit,
            address_or_filter: contract.address_or_filter.duplicate(),
            start_block: range.start_block,
            end_block: range.end_block,
            max_block_range: self.max_block_range,
            execute_event_logs_in_order: self.in_order,
            live_indexing: range.live_indexing,
        };
        EventRunner::new(config, self.state.sequential)
    }

    /// Takes the end of the runner of `unit`, with the failure of its tasks
    /// if there was one.
    pub fn runner_finished(&mut self, unit: ContractRef, failure: Option<TaskFailure>)
        ensures
            final(self).subscriptions() == old(self).subscriptions(),
            final(self).block_range() == old(self).block_range(),
            final(self).logs_order() == old(self).logs_order(),
            final(self).state() == old(self).state().after_runner(unit, failure),
    {
        proof {
            use_type_invariant(&*self);
        }
        let s = self.state;
        let merged = match failure {
            None => s.failure,
            Some(f) => {
                let error = IndexingError::Fetch {
                    event: unit.event,
                    contract: unit.contract,
                    window_start: f.first_block,
                    cause: f.cause,
                };
                match s.failure {
                    Some(known) => {
                        let origin = known.source();
                        if unit.event < origin.event || (unit.event == origin.event && unit.contract
                            < origin.contract) {
                            Some(error)
                        } else {
                            s.failure
                        }
                    },
                    None => Some(error),
                }
            },
        };
        self.state = SupervisorState {
            running: if s.running > 0 {
                s.running - 1
            } else {
                0
            },
            failure: merged,
            ..s
        };
    }
}

/// What `start_indexing` sets up: the supervisor and the permit pool that
/// all its runners share.
#[derive(Debug)]
pub struct Indexing {
    pub supervisor: IndexingSupervisor,
    pub pool: PermitPool,
}

/// Starts indexing the events of `subscriptions`: sets up the permit pool,
/// sized by the settings, and the supervisor, with nothing started yet.
pub fn start_indexing(
    subscriptions: Vec<EventSubscription>,
    settings: StartIndexingSettings,
) -> (indexing: Result<Indexing, ConfigError>)
    ensures
        indexing matches Ok(i) && i.pool.capacity() == settings.limit() && i.pool.outstanding() == 0
            && i.supervisor.subscriptions() == subscriptions@ && i.supervisor.block_range()
            == settings.block_range() && i.supervisor.logs_order() == settings.logs_order()
            && i.supervisor.state() == (SupervisorState {
            sequential: settings.event_order(),
            next: unit_from(shape_of(subscriptions@), 0, 0),
            running: 0,
            failure: None,
        }),
{
    let pool = PermitPool::new(settings.max_concurrency());
    match pool {
        Err(e) => Err(e),
        Ok(pool) => Ok(
            Indexing { supervisor: IndexingSupervisor::new(subscriptions, &settings), pool },
        ),
    }
}

} // verus!
