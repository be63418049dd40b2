use rindexer_core::indexer::dispatch::{CallbackRegistry, Dispatch};
use rindexer_core::indexer::error::{ConfigError, FatalFetch, IndexingError};
use rindexer_core::indexer::filter::{AddressOrFilter, Constraint, LogFilter};
use rindexer_core::indexer::log::{ContractRef, EventResult, Log};
use rindexer_core::indexer::permit::{Permit, PermitPool};
use rindexer_core::indexer::process::{
    process_logs, process_new_logs, TaskOutcome, TaskRequest, WindowTask,
};
use rindexer_core::indexer::runner::{
    process_event_concurrently, process_event_sequentially, EventProcessingConfig, EventRunner,
    RunnerAction, TaskFailure,
};
use rindexer_core::indexer::start::{
    start_indexing, ConcurrentSettings, EventSubscription, Indexing, IndexingSupervisor,
    NetworkContract, StartIndexingSettings, SupervisorAction,
};
use rindexer_core::indexer::stream::StreamEvent;
use rindexer_core::indexer::window::Window;

const USDT: &str = "0xdAC17F958D2ee523a2206206994597C13D831ec7";
const TRANSFER: &str = "0xddf252ad1be2c89b69c2b068fc378daa952ba7f163c4a11628f55a4df523b3ef";
const APPROVAL: &str = "0x8c5be1e5ebec7d5bd14f71427d1e84f3dd0314c0f7b2291e5b200ac8c7c3b925";

fn usdt() -> [u8; 20] {
    [
        0xda, 0xc1, 0x7f, 0x95, 0x8d, 0x2e, 0xe5, 0x23, 0xa2, 0x20, 0x62, 0x06, 0x99, 0x45, 0x97,
        0xc1, 0x3d, 0x83, 0x1e, 0xc7,
    ]
}

fn transfer() -> [u8; 32] {
    [
        0xdd, 0xf2, 0x52, 0xad, 0x1b, 0xe2, 0xc8, 0x9b, 0x69, 0xc2, 0xb0, 0x68, 0xfc, 0x37, 0x8d,
        0xaa, 0x95, 0x2b, 0xa7, 0xf1, 0x63, 0xc4, 0xa1, 0x16, 0x28, 0xf5, 0x5a, 0x4d, 0xf5, 0x23,
        0xb3, 0xef,
    ]
}

fn approval() -> [u8; 32] {
    [
        0x8c, 0x5b, 0xe1, 0xe5, 0xeb, 0xec, 0x7d, 0x5b, 0xd1, 0x4f, 0x71, 0x42, 0x7d, 0x1e, 0x84,
        0xf3, 0xdd, 0x03, 0x14, 0xc0, 0xf7, 0xb2, 0x29, 0x1e, 0x5b, 0x20, 0x0a, 0xc8, 0xc7, 0xc3,
        0xb9, 0x25,
    ]
}

fn log_of(topic: [u8; 32], block_number: u64, log_index: u64) -> Log {
    let mut transaction_hash = [0u8; 32];
    transaction_hash[..8].copy_from_slice(&block_number.to_be_bytes());
    Log {
        address: usdt(),
        topics: vec![topic],
        data: Vec::new(),
        block_number,
        transaction_hash,
        log_index,
    }
}

fn transfer_at(block_number: u64) -> Log {
    log_of(transfer(), block_number, 0)
}

/// A chain that answers from memory.
struct Chain {
    logs: Vec<Log>,
    /// The answers to the looks at the head, in turn; the last one stays.
    heads: Vec<u64>,
    looks: usize,
    /// Fetches that start at this block fail.
    broken_from: Option<u64>,
    /// So many fetches fail before the first one works.
    failures_first: usize,
    fetches: Vec<(u64, u64)>,
}

impl Chain {
    fn new(heads: Vec<u64>, logs: Vec<Log>) -> Chain {
        Chain { logs, heads, looks: 0, broken_from: None, failures_first: 0, fetches: Vec::new() }
    }

    fn latest_block(&mut self) -> u64 {
        let head = self.heads[self.looks.min(self.heads.len() - 1)];
        self.looks += 1;
        head
    }

    fn passes<const N: usize>(constraint: &Constraint<[u8; N]>, value: Option<&[u8; N]>) -> bool {
        match constraint {
            Constraint::Any => true,
            Constraint::One(wanted) => value == Some(wanted),
            Constraint::AnyOf(wanted) => value.map_or(false, |v| wanted.contains(v)),
        }
    }

    fn get_logs(&mut self, filter: &LogFilter) -> Option<Vec<Log>> {
        let from = filter.from_block.unwrap();
        let to = filter.to_block.unwrap();
        self.fetches.push((from, to));
        if self.broken_from == Some(from) {
            return None;
        }
        if self.failures_first > 0 {
            self.failures_first -= 1;
            return None;
        }
        Some(
            self.logs
                .iter()
                .filter(|log| {
                    from <= log.block_number
                        && log.block_number <= to
                        && Chain::passes(&filter.address, Some(&log.address))
                        && Chain::passes(&filter.topic0, log.topics.first())
                        && Chain::passes(&filter.topic1, log.topics.get(1))
                })
                .cloned()
                .collect(),
        )
    }
}

/// What was seen while indexing ran.
struct Seen {
    /// The calls of callbacks, in the order in which they were made.
    calls: Vec<(usize, Vec<EventResult>)>,
    sleeps: Vec<u64>,
    retries: usize,
    most_in_flight: u32,
    /// The result, unless the run was cut off.
    result: Option<Option<IndexingError>>,
}

impl Seen {
    fn blocks(&self) -> Vec<u64> {
        self.calls
            .iter()
            .flat_map(|(_, results)| results.iter().map(|r| r.log.block_number))
            .collect()
    }
}

fn step_task(
    task: &mut WindowTask,
    registry: &CallbackRegistry,
    chain: &mut Chain,
    seen: &mut Seen,
) {
    let event = match task.request() {
        TaskRequest::GetLogs(filter) => match chain.get_logs(&filter) {
            Some(logs) => StreamEvent::Logs(logs),
            None => StreamEvent::TransientError,
        },
        TaskRequest::LatestBlock => StreamEvent::Head(chain.latest_block()),
        TaskRequest::Sleep { millis } => {
            seen.sleeps.push(millis);
            StreamEvent::Woke
        }
        TaskRequest::Done => return,
    };
    match task.handle(registry, event) {
        Dispatch::Deliver { callback, deliveries } => {
            for delivery in deliveries {
                seen.calls.push((callback, delivery));
            }
        }
        Dispatch::Retrying => seen.retries += 1,
        Dispatch::NoSubscriber | Dispatch::Idle | Dispatch::Stop(_) => {}
    }
}

/// Runs indexing to its end, or until `budget` rounds have passed.
fn drive(
    subscriptions: Vec<EventSubscription>,
    settings: StartIndexingSettings,
    registry: &CallbackRegistry,
    chain: &mut Chain,
    budget: usize,
) -> Seen {
    let Indexing { mut supervisor, mut pool } = start_indexing(subscriptions, settings).unwrap();
    let mut seen =
        Seen { calls: Vec::new(), sleeps: Vec::new(), retries: 0, most_in_flight: 0, result: None };
    let mut runners: Vec<(ContractRef, EventRunner, Vec<(WindowTask, Permit)>)> = Vec::new();
    for _ in 0..budget {
        match supervisor.poll() {
            SupervisorAction::Finished(failure) => {
                seen.result = Some(failure);
                return seen;
            }
            SupervisorAction::QueryHead(unit) => {
                let head = chain.latest_block();
                if let Some(runner) = supervisor.resolve(Some(head)) {
                    runners.push((unit, runner, Vec::new()));
                }
            }
            SupervisorAction::AwaitRunner => {
                let mut i = 0;
                while i < runners.len() {
                    let (unit, runner, tasks) = &mut runners[i];
                    match runner.poll(&mut pool) {
                        RunnerAction::Launch { task, permit } => tasks.push((task, permit)),
                        RunnerAction::Finished(failure) => {
                            supervisor.runner_finished(*unit, failure);
                            runners.remove(i);
                            continue;
                        }
                        RunnerAction::AwaitPermit | RunnerAction::AwaitTask => {
                            let mut k = 0;
                            while k < tasks.len() {
                                step_task(&mut tasks[k].0, registry, chain, &mut seen);
                                if tasks[k].0.is_done() {
                                    let (task, permit) = tasks.remove(k);
                                    runner.complete(&mut pool, permit, task.report());
                                } else {
                                    k += 1;
                                }
                            }
                        }
                    }
                    seen.most_in_flight = seen.most_in_flight.max(pool.in_use());
                    i += 1;
                }
            }
        }
    }
    seen
}

fn contract(start_block: Option<u64>, end_block: Option<u64>) -> NetworkContract {
    NetworkContract {
        network: String::from("mainnet"),
        address_or_filter: AddressOrFilter::Address(String::from(USDT)),
        start_block,
        end_block,
    }
}

fn transfers(start_block: Option<u64>, end_block: Option<u64>) -> Vec<EventSubscription> {
    vec![EventSubscription {
        topic_id: String::from(TRANSFER),
        contracts: vec![contract(start_block, end_block)],
    }]
}

fn transfer_registry() -> CallbackRegistry {
    let mut registry = CallbackRegistry::new();
    registry.register(String::from(TRANSFER));
    registry
}

fn settings(max_block_range: u64, event_order: bool, logs_order: bool) -> StartIndexingSettings {
    StartIndexingSettings::default()
        .with_max_block_range(max_block_range)
        .with_event_order(event_order)
        .with_logs_order(logs_order)
}

fn config(
    start_block: u64,
    end_block: u64,
    max_block_range: u64,
    live: bool,
) -> EventProcessingConfig {
    EventProcessingConfig {
        topic_id: String::from(TRANSFER),
        network_contract: ContractRef { event: 0, contract: 0 },
        address_or_filter: AddressOrFilter::Address(String::from(USDT)),
        start_block,
        end_block,
        max_block_range,
        execute_event_logs_in_order: true,
        live_indexing: live,
    }
}

fn launch(runner: &mut EventRunner, pool: &mut PermitPool) -> (WindowTask, Permit) {
    match runner.poll(pool) {
        RunnerAction::Launch { task, permit } => (task, permit),
        other => panic!("a launch was due, not {:?}", other),
    }
}

fn fetch_of(task: &WindowTask) -> (u64, u64) {
    match task.request() {
        TaskRequest::GetLogs(filter) => (filter.from_block.unwrap(), filter.to_block.unwrap()),
        other => panic!("a fetch was due, not {:?}", other),
    }
}

// Whole runs, from the first look at the head to the result.

#[test]
fn a_single_window_delivers_its_log_once() {
    for (event_order, logs_order) in [(false, false), (true, true), (true, false), (false, true)] {
        let mut chain = Chain::new(vec![1000], vec![transfer_at(42)]);
        let seen = drive(
            transfers(Some(0), Some(500)),
            settings(1000, event_order, logs_order),
            &transfer_registry(),
            &mut chain,
            1000,
        );
        assert_eq!(seen.result, Some(None));
        assert_eq!(
            seen.calls,
            vec![(
                0,
                vec![EventResult {
                    network_contract: ContractRef { event: 0, contract: 0 },
                    log: transfer_at(42)
                }]
            )]
        );
        assert_eq!(chain.fetches, vec![(0, 500)]);
        assert!(seen.sleeps.is_empty());
    }
}

#[test]
fn windows_in_sequence_deliver_in_block_order() {
    let logs = vec![transfer_at(2400), transfer_at(10), transfer_at(1500)];
    let mut chain = Chain::new(vec![3000], logs);
    let seen = drive(
        transfers(Some(0), Some(2500)),
        settings(1000, true, true),
        &transfer_registry(),
        &mut chain,
        1000,
    );
    assert_eq!(seen.result, Some(None));
    assert_eq!(chain.fetches, vec![(0, 999), (1000, 1999), (2000, 2500)]);
    assert_eq!(seen.calls.len(), 3);
    assert_eq!(seen.blocks(), vec![10, 1500, 2400]);
    assert_eq!(seen.most_in_flight, 1);
}

#[test]
fn concurrent_windows_deliver_every_log_once() {
    let logs: Vec<Log> = (0..100u64).map(|i| log_of(transfer(), (i * 1117) % 2501, i)).collect();
    let mut chain = Chain::new(vec![2500], logs.clone());
    let seen = drive(
        transfers(Some(0), Some(2500)),
        settings(1000, false, false),
        &transfer_registry(),
        &mut chain,
        1000,
    );
    assert_eq!(seen.result, Some(None));
    assert_eq!(seen.calls.len(), 100);
    assert!(seen.calls.iter().all(|(callback, results)| *callback == 0 && results.len() == 1));
    let mut delivered: Vec<(u64, u64)> =
        seen.calls.iter().map(|(_, r)| (r[0].log.block_number, r[0].log.log_index)).collect();
    let mut expected: Vec<(u64, u64)> =
        logs.iter().map(|l| (l.block_number, l.log_index)).collect();
    delivered.sort();
    expected.sort();
    assert_eq!(delivered, expected);
    assert_eq!(seen.most_in_flight, 3);
}

#[test]
fn a_live_subscription_hands_over_to_the_head() {
    // The head is seen at 100, at 100 again, then at 103.
    let mut chain = Chain::new(vec![100, 100, 103], vec![transfer_at(102)]);
    let seen = drive(
        transfers(None, None),
        settings(1000, false, false),
        &transfer_registry(),
        &mut chain,
        12,
    );
    // A live run has no end of its own.
    assert_eq!(seen.result, None);
    assert_eq!(chain.fetches[..2], [(100, 100), (101, 103)]);
    assert_eq!(seen.blocks(), vec![102]);
    assert_eq!(seen.sleeps[0], 200);
    // Nothing is fetched twice however long the run goes on.
    let mut fetched = chain.fetches.clone();
    fetched.dedup();
    assert_eq!(fetched, chain.fetches);
    assert!(chain.fetches.windows(2).all(|pair| pair[0].1 < pair[1].0));
}

#[test]
fn a_failure_that_passes_costs_sleeps_but_no_log() {
    let mut chain = Chain::new(vec![1000], vec![transfer_at(42)]);
    chain.failures_first = 3;
    let seen = drive(
        transfers(Some(0), Some(500)),
        settings(1000, true, true),
        &transfer_registry(),
        &mut chain,
        1000,
    );
    assert_eq!(seen.result, Some(None));
    assert_eq!(seen.blocks(), vec![42]);
    assert_eq!(seen.calls.len(), 1);
    assert_eq!(seen.sleeps, vec![200, 400, 800]);
    assert_eq!(seen.retries, 3);
    assert_eq!(chain.fetches, vec![(0, 500); 4]);
}

#[test]
fn a_window_that_keeps_failing_fails_the_run_but_not_its_siblings() {
    let logs = vec![transfer_at(10), transfer_at(1500), transfer_at(2400)];
    let mut chain = Chain::new(vec![3000], logs);
    chain.broken_from = Some(1000);
    let seen = drive(
        transfers(Some(0), Some(2500)),
        settings(1000, false, true),
        &transfer_registry(),
        &mut chain,
        1000,
    );
    assert_eq!(
        seen.result,
        Some(Some(IndexingError::Fetch {
            event: 0,
            contract: 0,
            window_start: 1000,
            cause: FatalFetch::RetriesExhausted
        }))
    );
    let mut blocks = seen.blocks();
    blocks.sort();
    assert_eq!(blocks, vec![10, 2400]);
    assert_eq!(chain.fetches.iter().filter(|f| **f == (1000, 1999)).count(), 6);
    assert_eq!(seen.sleeps, vec![200, 400, 800, 1600, 3200]);
}

#[test]
fn in_sequence_a_failed_window_ends_the_event() {
    let logs = vec![transfer_at(10), transfer_at(1500), transfer_at(2400)];
    let mut chain = Chain::new(vec![3000], logs);
    chain.broken_from = Some(1000);
    let seen = drive(
        transfers(Some(0), Some(2500)),
        settings(1000, true, true),
        &transfer_registry(),
        &mut chain,
        1000,
    );
    assert_eq!(
        seen.result,
        Some(Some(IndexingError::Fetch {
            event: 0,
            contract: 0,
            window_start: 1000,
            cause: FatalFetch::RetriesExhausted
        }))
    );
    assert_eq!(seen.blocks(), vec![10]);
    assert!(!chain.fetches.contains(&(2000, 2500)));
}

#[test]
fn a_topic_without_a_callback_is_indexed_all_the_same() {
    let mut chain = Chain::new(vec![3000], vec![transfer_at(10), transfer_at(1500)]);
    let seen = drive(
        transfers(Some(0), Some(2500)),
        settings(1000, true, true),
        &CallbackRegistry::new(),
        &mut chain,
        1000,
    );
    assert_eq!(seen.result, Some(None));
    assert!(seen.calls.is_empty());
    assert_eq!(chain.fetches, vec![(0, 999), (1000, 1999), (2000, 2500)]);
}

#[test]
fn an_end_beyond_the_head_stops_at_the_head_and_is_not_live() {
    let mut chain = Chain::new(vec![1200, 5000], vec![transfer_at(1100), transfer_at(1300)]);
    let seen = drive(
        transfers(Some(0), Some(9000)),
        settings(1000, true, true),
        &transfer_registry(),
        &mut chain,
        1000,
    );
    assert_eq!(seen.result, Some(None));
    assert_eq!(chain.fetches, vec![(0, 999), (1000, 1200)]);
    assert_eq!(seen.blocks(), vec![1100]);
    assert_eq!(chain.looks, 1);
}

#[test]
fn no_subscriptions_are_a_success() {
    let mut chain = Chain::new(vec![0], Vec::new());
    let registry = transfer_registry();
    let seen = drive(Vec::new(), StartIndexingSettings::default(), &registry, &mut chain, 10);
    assert_eq!(seen.result, Some(None));
    assert_eq!(chain.looks, 0);
    let no_contracts =
        vec![EventSubscription { topic_id: String::from(TRANSFER), contracts: Vec::new() }];
    let seen = drive(no_contracts, StartIndexingSettings::default(), &registry, &mut chain, 10);
    assert_eq!(seen.result, Some(None));
    assert_eq!(chain.looks, 0);
}

#[test]
fn a_start_beyond_the_end_does_nothing_unless_live() {
    let mut chain = Chain::new(vec![100], vec![transfer_at(50)]);
    let seen = drive(
        transfers(Some(70), Some(60)),
        settings(10, true, true),
        &transfer_registry(),
        &mut chain,
        100,
    );
    assert_eq!(seen.result, Some(None));
    assert!(chain.fetches.is_empty());
    assert!(seen.calls.is_empty());
}

#[test]
fn a_live_start_beyond_the_head_follows_the_head_at_once() {
    let mut chain = Chain::new(vec![100, 100, 130], vec![transfer_at(101), transfer_at(129)]);
    let seen = drive(
        transfers(Some(120), None),
        settings(10, true, true),
        &transfer_registry(),
        &mut chain,
        12,
    );
    assert_eq!(seen.result, None);
    assert_eq!(chain.fetches[0], (101, 130));
    assert_eq!(seen.calls.len(), 1);
    assert_eq!(seen.blocks(), vec![101, 129]);
}

#[test]
fn events_in_order_run_one_after_the_other() {
    let subscriptions = vec![
        EventSubscription {
            topic_id: String::from(TRANSFER),
            contracts: vec![contract(Some(0), Some(199)), contract(Some(300), Some(399))],
        },
        EventSubscription {
            topic_id: String::from(APPROVAL),
            contracts: vec![contract(Some(0), Some(99))],
        },
    ];
    let logs = vec![
        log_of(approval(), 5, 0),
        log_of(transfer(), 350, 0),
        log_of(transfer(), 150, 0),
        log_of(transfer(), 20, 0),
    ];
    let mut registry = CallbackRegistry::new();
    registry.register(String::from(APPROVAL));
    registry.register(String::from(TRANSFER));
    let mut chain = Chain::new(vec![1000], logs);
    let seen = drive(subscriptions, settings(100, true, true), &registry, &mut chain, 1000);
    assert_eq!(seen.result, Some(None));
    assert_eq!(chain.fetches, vec![(0, 99), (100, 199), (300, 399), (0, 99)]);
    let calls: Vec<(usize, ContractRef, Vec<u64>)> = seen
        .calls
        .iter()
        .map(|(callback, results)| {
            (
                *callback,
                results[0].network_contract,
                results.iter().map(|r| r.log.block_number).collect(),
            )
        })
        .collect();
    assert_eq!(
        calls,
        vec![
            (1, ContractRef { event: 0, contract: 0 }, vec![20]),
            (1, ContractRef { event: 0, contract: 0 }, vec![150]),
            (1, ContractRef { event: 0, contract: 1 }, vec![350]),
            (0, ContractRef { event: 1, contract: 0 }, vec![5]),
        ]
    );
    assert_eq!(seen.most_in_flight, 1);
}

#[test]
fn the_pool_bounds_what_is_in_flight() {
    let concurrent = Some(ConcurrentSettings::new(2).unwrap());
    let subscriptions = vec![
        EventSubscription {
            topic_id: String::from(TRANSFER),
            contracts: vec![contract(Some(0), Some(999)), contract(Some(0), Some(999))],
        },
    ];
    let logs: Vec<Log> = (0..50u64).map(|i| log_of(transfer(), i * 20, i)).collect();
    let mut chain = Chain::new(vec![1000], logs);
    let seen = drive(
        subscriptions,
        settings(100, false, false).with_concurrent(concurrent),
        &transfer_registry(),
        &mut chain,
        10_000,
    );
    assert_eq!(seen.result, Some(None));
    assert_eq!(seen.most_in_flight, 2);
    assert_eq!(seen.calls.len(), 100);
    assert_eq!(chain.fetches.len(), 20);
}

#[test]
fn a_template_is_indexed_with_its_constraints() {
    let mut with_topic1 = transfer_at(30);
    with_topic1.topics.push([7u8; 32]);
    let mut with_other_topic1 = transfer_at(31);
    with_other_topic1.topics.push([8u8; 32]);
    let template = LogFilter { topic1: Constraint::One([7u8; 32]), ..LogFilter::new() };
    let subscriptions = vec![EventSubscription {
        topic_id: String::from(TRANSFER),
        contracts: vec![NetworkContract {
            network: String::from("mainnet"),
            address_or_filter: AddressOrFilter::Filter(template),
            start_block: Some(0),
            end_block: Some(100),
        }],
    }];
    let logs = vec![transfer_at(29), with_topic1.clone(), with_other_topic1];
    let mut chain = Chain::new(vec![1000], logs);
    let registry = transfer_registry();
    let seen = drive(subscriptions, settings(1000, true, true), &registry, &mut chain, 100);
    assert_eq!(seen.result, Some(None));
    assert_eq!(seen.calls.len(), 1);
    assert_eq!(seen.calls[0].1.len(), 1);
    assert_eq!(seen.calls[0].1[0].log, with_topic1);
}

// The supervisor on its own.

fn supervisor_of(subscriptions: Vec<EventSubscription>, event_order: bool) -> IndexingSupervisor {
    start_indexing(subscriptions, settings(100, event_order, false)).unwrap().supervisor
}

#[test]
fn start_indexing_sizes_the_pool_by_the_settings() {
    let indexing = start_indexing(Vec::new(), StartIndexingSettings::default()).unwrap();
    assert_eq!(indexing.pool.max_concurrency(), 100);
    assert_eq!(indexing.pool.in_use(), 0);
    let three = ConcurrentSettings::new(3).unwrap();
    let sized = StartIndexingSettings::default().with_concurrent(Some(three));
    let indexing = start_indexing(transfers(None, None), sized).unwrap();
    assert_eq!(indexing.pool.max_concurrency(), 3);
    assert_eq!(indexing.supervisor.events(), &transfers(None, None));
    assert_eq!(
        indexing.supervisor.poll(),
        SupervisorAction::QueryHead(ContractRef { event: 0, contract: 0 })
    );
}

#[test]
fn contracts_are_taken_in_the_order_of_their_registration() {
    let subscriptions = vec![
        EventSubscription { topic_id: String::from(TRANSFER), contracts: Vec::new() },
        EventSubscription {
            topic_id: String::from(TRANSFER),
            contracts: vec![contract(Some(0), Some(1)), contract(Some(0), Some(1))],
        },
        EventSubscription { topic_id: String::from(APPROVAL), contracts: Vec::new() },
        EventSubscription {
            topic_id: String::from(APPROVAL),
            contracts: vec![contract(Some(0), Some(1))],
        },
    ];
    let mut supervisor = supervisor_of(subscriptions, false);
    let mut asked = Vec::new();
    while let SupervisorAction::QueryHead(unit) = supervisor.poll() {
        asked.push((unit.event, unit.contract));
        assert!(supervisor.resolve(Some(10)).is_some());
    }
    assert_eq!(asked, vec![(1, 0), (1, 1), (3, 0)]);
    assert_eq!(supervisor.poll(), SupervisorAction::AwaitRunner);
    assert_eq!(supervisor.snapshot().running, 3);
    assert_eq!(supervisor.snapshot().next, None);
}

#[test]
fn in_event_order_the_next_runner_waits_for_the_one_before() {
    let subscriptions = vec![EventSubscription {
        topic_id: String::from(TRANSFER),
        contracts: vec![contract(Some(0), Some(1)), contract(Some(0), Some(1))],
    }];
    let mut supervisor = supervisor_of(subscriptions, true);
    let first = ContractRef { event: 0, contract: 0 };
    let second = ContractRef { event: 0, contract: 1 };
    assert_eq!(supervisor.poll(), SupervisorAction::QueryHead(first));
    assert!(supervisor.resolve(Some(10)).is_some());
    assert_eq!(supervisor.poll(), SupervisorAction::AwaitRunner);
    // Nothing is made while a runner is out.
    assert!(supervisor.resolve(Some(10)).is_none());
    assert_eq!(supervisor.snapshot().running, 1);
    supervisor.runner_finished(first, None);
    assert_eq!(supervisor.poll(), SupervisorAction::QueryHead(second));
    assert!(supervisor.resolve(Some(10)).is_some());
    supervisor.runner_finished(second, None);
    assert_eq!(supervisor.poll(), SupervisorAction::Finished(None));
}

#[test]
fn a_head_that_cannot_be_read_fails_the_run() {
    let subscriptions = vec![EventSubscription {
        topic_id: String::from(TRANSFER),
        contracts: vec![
            contract(Some(0), Some(1)),
            contract(Some(0), Some(1)),
            contract(None, None),
        ],
    }];
    let mut supervisor = supervisor_of(subscriptions, false);
    assert!(supervisor.resolve(Some(10)).is_some());
    assert!(supervisor.resolve(None).is_none());
    let failure = IndexingError::HeadUnavailable { event: 0, contract: 1 };
    // The runner that is out is waited for, and nothing more is started.
    assert_eq!(supervisor.poll(), SupervisorAction::AwaitRunner);
    assert!(supervisor.resolve(Some(10)).is_none());
    supervisor.runner_finished(ContractRef { event: 0, contract: 0 }, None);
    assert_eq!(supervisor.poll(), SupervisorAction::Finished(Some(failure)));
    assert_eq!(failure.source(), ContractRef { event: 0, contract: 1 });
}

#[test]
fn a_subscription_that_cannot_be_read_fails_the_run() {
    let broken_address = vec![EventSubscription {
        topic_id: String::from(TRANSFER),
        contracts: vec![NetworkContract {
            network: String::from("mainnet"),
            address_or_filter: AddressOrFilter::Address(String::from("0x00")),
            start_block: None,
            end_block: None,
        }],
    }];
    let mut supervisor = supervisor_of(broken_address, false);
    assert!(supervisor.resolve(Some(10)).is_none());
    assert_eq!(
        supervisor.poll(),
        SupervisorAction::Finished(Some(IndexingError::Config {
            event: 0,
            contract: 0,
            fault: ConfigError::InvalidAddress
        }))
    );
    let broken_topic = vec![
        EventSubscription {
            topic_id: String::from(TRANSFER),
            contracts: vec![contract(None, None)],
        },
        EventSubscription {
            topic_id: String::from("Transfer"),
            contracts: vec![contract(None, None)],
        },
    ];
    let mut supervisor = supervisor_of(broken_topic, false);
    assert!(supervisor.resolve(Some(10)).is_some());
    assert!(supervisor.resolve(Some(10)).is_none());
    supervisor.runner_finished(ContractRef { event: 0, contract: 0 }, None);
    assert_eq!(
        supervisor.poll(),
        SupervisorAction::Finished(Some(IndexingError::Config {
            event: 1,
            contract: 0,
            fault: ConfigError::InvalidTopic
        }))
    );
}

#[test]
fn of_several_failures_the_first_in_order_is_the_result() {
    let subscriptions = vec![EventSubscription {
        topic_id: String::from(TRANSFER),
        contracts: vec![contract(None, None), contract(None, None), contract(None, None)],
    }];
    let mut supervisor = supervisor_of(subscriptions, false);
    for _ in 0..3 {
        assert!(supervisor.resolve(Some(10)).is_some());
    }
    let failed = |first_block, cause| Some(TaskFailure { first_block, cause });
    let last = ContractRef { event: 0, contract: 2 };
    let middle = ContractRef { event: 0, contract: 1 };
    supervisor.runner_finished(last, failed(5, FatalFetch::MalformedLog));
    supervisor.runner_finished(middle, failed(7, FatalFetch::RetriesExhausted));
    assert_eq!(supervisor.poll(), SupervisorAction::AwaitRunner);
    supervisor.runner_finished(ContractRef { event: 0, contract: 0 }, None);
    assert_eq!(
        supervisor.poll(),
        SupervisorAction::Finished(Some(IndexingError::Fetch {
            event: 0,
            contract: 1,
            window_start: 7,
            cause: FatalFetch::RetriesExhausted
        }))
    );
}

// The runner on its own.

#[test]
fn a_sequential_runner_has_one_task_in_flight() {
    let mut pool = PermitPool::new(10).unwrap();
    let mut runner = process_event_sequentially(config(0, 2500, 1000, false)).unwrap();
    assert!(runner.snapshot().sequential);
    let (first, permit) = launch(&mut runner, &mut pool);
    assert_eq!(fetch_of(&first), (0, 999));
    assert_eq!(pool.in_use(), 1);
    assert!(matches!(runner.poll(&mut pool), RunnerAction::AwaitTask));
    assert_eq!(runner.snapshot().in_flight, 1);
    assert_eq!(runner.snapshot().rest, Some(Window { start: 1000, end: 2500 }));
    runner.complete(&mut pool, permit, first.report());
    assert_eq!(pool.in_use(), 0);
    let (second, permit) = launch(&mut runner, &mut pool);
    assert_eq!(fetch_of(&second), (1000, 1999));
    runner.complete(&mut pool, permit, second.report());
    let (third, permit) = launch(&mut runner, &mut pool);
    assert_eq!(fetch_of(&third), (2000, 2500));
    assert_eq!(third.report(), TaskOutcome { first_block: 2000, failure: None });
    runner.complete(&mut pool, permit, third.report());
    assert!(matches!(runner.poll(&mut pool), RunnerAction::Finished(None)));
}

#[test]
fn a_concurrent_runner_launches_while_permits_last() {
    let mut pool = PermitPool::new(2).unwrap();
    let mut runner = process_event_concurrently(config(0, 2500, 1000, false)).unwrap();
    assert!(!runner.snapshot().sequential);
    let (first, first_permit) = launch(&mut runner, &mut pool);
    let (second, second_permit) = launch(&mut runner, &mut pool);
    assert_eq!(fetch_of(&first), (0, 999));
    assert_eq!(fetch_of(&second), (1000, 1999));
    assert!(matches!(runner.poll(&mut pool), RunnerAction::AwaitPermit));
    assert_eq!(pool.in_use(), 2);
    assert_eq!(runner.snapshot().in_flight, 2);
    runner.complete(&mut pool, second_permit, second.report());
    let (third, third_permit) = launch(&mut runner, &mut pool);
    assert_eq!(fetch_of(&third), (2000, 2500));
    assert!(matches!(runner.poll(&mut pool), RunnerAction::AwaitTask));
    runner.complete(&mut pool, first_permit, first.report());
    runner.complete(&mut pool, third_permit, third.report());
    assert!(matches!(runner.poll(&mut pool), RunnerAction::Finished(None)));
    assert_eq!(pool.in_use(), 0);
}

#[test]
fn only_the_last_window_of_a_live_runner_goes_on() {
    let registry = transfer_registry();
    let mut pool = PermitPool::new(10).unwrap();
    let mut runner = process_event_concurrently(config(0, 15, 10, true)).unwrap();
    let (mut first, _first_permit) = launch(&mut runner, &mut pool);
    let (mut last, _last_permit) = launch(&mut runner, &mut pool);
    first.handle(&registry, StreamEvent::Logs(Vec::new()));
    assert!(first.is_done());
    last.handle(&registry, StreamEvent::Logs(Vec::new()));
    assert!(!last.is_done());
    assert_eq!(last.request(), TaskRequest::LatestBlock);
    assert!(matches!(runner.poll(&mut pool), RunnerAction::AwaitTask));
}

#[test]
fn a_runner_without_blocks_follows_the_head_if_it_is_live() {
    let mut pool = PermitPool::new(10).unwrap();
    let mut idle = process_event_concurrently(config(70, 60, 10, false)).unwrap();
    assert!(matches!(idle.poll(&mut pool), RunnerAction::Finished(None)));
    let mut live = process_event_concurrently(config(70, 60, 10, true)).unwrap();
    let (task, _permit) = launch(&mut live, &mut pool);
    assert_eq!(task.request(), TaskRequest::LatestBlock);
    assert_eq!(task.report(), TaskOutcome { first_block: 61, failure: None });
    assert!(matches!(live.poll(&mut pool), RunnerAction::AwaitTask));
}

#[test]
fn a_runner_is_not_made_from_texts_that_cannot_be_read() {
    let mut broken = config(0, 10, 10, false);
    broken.address_or_filter = AddressOrFilter::Address(String::from("usdt"));
    assert_eq!(process_event_sequentially(broken).unwrap_err(), ConfigError::InvalidAddress);
    let mut broken = config(0, 10, 10, false);
    broken.topic_id = String::from("0xddf2");
    assert_eq!(process_event_concurrently(broken).unwrap_err(), ConfigError::InvalidTopic);
    let mut broken = config(70, 60, 10, false);
    broken.topic_id = String::new();
    assert_eq!(EventRunner::new(broken, true).unwrap_err(), ConfigError::InvalidTopic);
}

#[test]
fn a_runner_reports_the_failure_of_its_lowest_window() {
    let mut pool = PermitPool::new(10).unwrap();
    let mut runner = process_event_concurrently(config(0, 29, 10, false)).unwrap();
    let (_, lowest) = launch(&mut runner, &mut pool);
    let (_, middle) = launch(&mut runner, &mut pool);
    let (_, highest) = launch(&mut runner, &mut pool);
    runner.complete(
        &mut pool,
        highest,
        TaskOutcome { first_block: 20, failure: Some(FatalFetch::MalformedLog) },
    );
    runner.complete(
        &mut pool,
        middle,
        TaskOutcome { first_block: 10, failure: Some(FatalFetch::RetriesExhausted) },
    );
    runner.complete(&mut pool, lowest, TaskOutcome { first_block: 0, failure: None });
    match runner.poll(&mut pool) {
        RunnerAction::Finished(failure) => assert_eq!(
            failure,
            Some(TaskFailure { first_block: 10, cause: FatalFetch::RetriesExhausted })
        ),
        other => panic!("the end was due, not {:?}", other),
    }
}

#[test]
fn a_sequential_runner_stops_at_a_failure() {
    let mut pool = PermitPool::new(10).unwrap();
    let mut runner = process_event_sequentially(config(0, 29, 10, true)).unwrap();
    let (_, permit) = launch(&mut runner, &mut pool);
    let failed = TaskOutcome { first_block: 0, failure: Some(FatalFetch::MalformedLog) };
    runner.complete(&mut pool, permit, failed);
    assert_eq!(runner.snapshot().rest, None);
    match runner.poll(&mut pool) {
        RunnerAction::Finished(failure) => {
            let cause = FatalFetch::MalformedLog;
            assert_eq!(failure, Some(TaskFailure { first_block: 0, cause }))
        }
        other => panic!("the end was due, not {:?}", other),
    }
}

// Tasks on their own.

#[test]
fn a_task_fetches_with_its_filter_over_the_blocks_that_are_due() {
    let filter = LogFilter {
        address: Constraint::One(usdt()),
        topic0: Constraint::One(transfer()),
        topic1: Constraint::AnyOf(vec![[1u8; 32]]),
        ..LogFilter::new()
    };
    let registry = transfer_registry();
    let unit = ContractRef { event: 4, contract: 2 };
    let mut task = process_logs(
        String::from(TRANSFER),
        unit,
        filter.clone(),
        Window { start: 5, end: 9 },
        true,
        true,
    );
    assert!(task.delivers_in_order());
    assert_eq!(
        task.request(),
        TaskRequest::GetLogs(LogFilter { from_block: Some(5), to_block: Some(9), ..filter.clone() })
    );
    assert_eq!(
        task.handle(&registry, StreamEvent::Logs(vec![transfer_at(6), transfer_at(8)])),
        Dispatch::Deliver {
            callback: 0,
            deliveries: vec![vec![
                EventResult { network_contract: unit, log: transfer_at(6) },
                EventResult { network_contract: unit, log: transfer_at(8) }
            ]]
        }
    );
    assert_eq!(task.request(), TaskRequest::LatestBlock);
    assert_eq!(task.handle(&registry, StreamEvent::Head(9)), Dispatch::Idle);
    assert_eq!(task.request(), TaskRequest::Sleep { millis: 200 });
    assert_eq!(task.handle(&registry, StreamEvent::Woke), Dispatch::Idle);
    assert_eq!(task.handle(&registry, StreamEvent::Head(12)), Dispatch::Idle);
    assert_eq!(
        task.request(),
        TaskRequest::GetLogs(LogFilter { from_block: Some(10), to_block: Some(12), ..filter })
    );
    assert_eq!(task.handle(&registry, StreamEvent::TransientError), Dispatch::Retrying);
    assert_eq!(task.report(), TaskOutcome { first_block: 5, failure: None });
    assert_eq!(task.handle(&registry, StreamEvent::Woke), Dispatch::Idle);
    assert_eq!(
        task.handle(&registry, StreamEvent::MalformedLog),
        Dispatch::Stop(FatalFetch::MalformedLog)
    );
    assert!(task.is_done());
    assert_eq!(task.request(), TaskRequest::Done);
    assert_eq!(
        task.report(),
        TaskOutcome { first_block: 5, failure: Some(FatalFetch::MalformedLog) }
    );
}

#[test]
fn a_task_for_new_logs_starts_at_the_head() {
    let registry = transfer_registry();
    let unit = ContractRef { event: 0, contract: 0 };
    let mut task = process_new_logs(String::from(APPROVAL), unit, LogFilter::new(), 99, false);
    assert!(!task.delivers_in_order());
    assert_eq!(task.request(), TaskRequest::LatestBlock);
    assert_eq!(task.report(), TaskOutcome { first_block: 100, failure: None });
    task.handle(&registry, StreamEvent::Head(100));
    assert_eq!(
        task.request(),
        TaskRequest::GetLogs(LogFilter {
            from_block: Some(100),
            to_block: Some(100),
            ..LogFilter::new()
        })
    );
    // Nobody has registered for approvals.
    assert_eq!(
        task.handle(&registry, StreamEvent::Logs(vec![log_of(approval(), 100, 0)])),
        Dispatch::NoSubscriber
    );
    let at_the_end =
        process_new_logs(String::from(APPROVAL), unit, LogFilter::new(), u64::MAX, false);
    assert!(at_the_end.is_done());
    assert_eq!(at_the_end.report(), TaskOutcome { first_block: u64::MAX, failure: None });
}
