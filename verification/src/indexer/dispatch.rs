//! The log dispatcher: how what a stream yields is turned into calls of the
//! callback that is registered for a topic.

use vstd::prelude::*;
use crate::indexer::error::FatalFetch;
use crate::indexer::log::{ContractRef, EventResult, Log};
use crate::indexer::stream::StreamItem;

verus! {

/// The results that carry `logs` for `contract`, in the order of the logs.
pub open spec fn results_of(contract: ContractRef, logs: Seq<Log>) -> Seq<EventResult> {
    Seq::new(logs.len(), |i: int| EventResult { network_contract: contract, log: logs[i] })
}

/// One delivery for every one of the first `n` logs of `batch`.
pub open spec fn singles(contract: ContractRef, batch: Seq<Log>, n: int) -> Seq<Seq<EventResult>> {
    Seq::new(n as nat, |i: int| seq![EventResult { network_contract: contract, log: batch[i] }])
}

/// The deliveries that one batch is turned into, each of them the argument
/// of one call of the callback. In order, the batch is delivered whole, as
/// one call. Otherwise every log is delivered on its own.
pub open spec fn deliveries(contract: ContractRef, batch: Seq<Log>, in_order: bool) -> Seq<
    Seq<EventResult>,
> {
    if in_order {
        seq![results_of(contract, batch)]
    } else {
        singles(contract, batch, batch.len() as int)
    }
}

/// The logs of one delivery.
pub open spec fn logs_in(delivery: Seq<EventResult>) -> Seq<Log> {
    Seq::new(delivery.len(), |k: int| delivery[k].log)
}

/// The logs of a row of deliveries, one delivery after the other.
pub open spec fn logs_of(plan: Seq<Seq<EventResult>>) -> Seq<Log>
    decreases plan.len(),
{
    if plan.len() == 0 {
        Seq::empty()
    } else {
        logs_of(plan.drop_last()) + logs_in(plan.last())
    }
}

/// The batches of a stream, one after the other.
pub open spec fn joined(batches: Seq<Seq<Log>>) -> Seq<Log>
    decreases batches.len(),
{
    if batches.len() == 0 {
        Seq::empty()
    } else {
        joined(batches.drop_last()) + batches.last()
    }
}

/// The deliveries that a row of batches is turned into.
pub open spec fn delivered(contract: ContractRef, batches: Seq<Seq<Log>>, in_order: bool) -> Seq<
    Seq<EventResult>,
>
    decreases batches.len(),
{
    if batches.len() == 0 {
        Seq::empty()
    } else {
        delivered(contract, batches.drop_last(), in_order) + deliveries(
            contract,
            batches.last(),
            in_order,
        )
    }
}

/// The contents of a plan.
pub open spec fn views_of(plan: Seq<Vec<EventResult>>) -> Seq<Seq<EventResult>> {
    Seq::new(plan.len(), |i: int| plan[i]@)
}

/// Turns a batch into deliveries.
pub fn plan_deliveries(contract: ContractRef, batch: Vec<Log>, in_order: bool) -> (plan: Vec<
    Vec<EventResult>,
>)
    ensures
        views_of(plan@) == deliveries(contract, batch@, in_order),
{
    let ghost logs = batch@;
    let ghost mut seen: Seq<Log> = Seq::empty();
    let mut plan: Vec<Vec<EventResult>> = Vec::new();
    if in_order {
        let mut whole: Vec<EventResult> = Vec::new();
        for log in it: batch
            invariant
                seen == it.history(),
                whole@ == results_of(contract, seen),
        {
            whole.push(EventResult::new(contract, log));
            proof {
                seen = seen.push(log);
            }
        }
        assert(seen =~= logs);
        plan.push(whole);
        assert(views_of(plan@) =~= seq![results_of(contract, logs)]);
    } else {
        for log in it: batch
            invariant
                seen == it.history(),
                views_of(plan@) == singles(contract, seen, seen.len() as int),
        {
            let ghost before = views_of(plan@);
            let mut single: Vec<EventResult> = Vec::new();
            single.push(EventResult::new(contract, log));
            plan.push(single);
            proof {
                seen = seen.push(log);
                assert(views_of(plan@) =~= before.push(single@));
                assert(views_of(plan@) =~= singles(contract, seen, seen.len() as int));
            }
        }
        assert(seen =~= logs);
    }
    plan
}

/// The logs of two rows of deliveries are those of the first row, then those
/// of the second.
pub proof fn lemma_logs_of_concat(a: Seq<Seq<EventResult>>, b: Seq<Seq<EventResult>>)
    ensures
        logs_of(a + b) == logs_of(a) + logs_of(b),
    decreases b.len(),
{
    if b.len() == 0 {
        assert(a + b =~= a);
    } else {
        lemma_logs_of_concat(a, b.drop_last());
        assert((a + b).drop_last() =~= a + b.drop_last());
        assert((a + b).last() == b.last());
    }
}

/// Every log of a batch is delivered exactly once, and the deliveries hold
/// the logs in the order of the batch, whichever way the batch is cut.
pub proof fn lemma_deliveries_keep_logs(contract: ContractRef, batch: Seq<Log>, in_order: bool)
    ensures
        logs_of(deliveries(contract, batch, in_order)) == batch,
{
    if in_order {
        let plan = seq![results_of(contract, batch)];
        assert(plan.drop_last() =~= Seq::<Seq<EventResult>>::empty());
        assert(logs_in(plan.last()) =~= batch);
        assert(logs_of(plan.drop_last()) =~= Seq::<Log>::empty());
    } else {
        lemma_singles_keep_logs(contract, batch, batch.len() as int);
        assert(batch.take(batch.len() as int) =~= batch);
    }
}

/// The deliveries of the first `n` logs, one log each, hold those logs in
/// their order.
pub proof fn lemma_singles_keep_logs(contract: ContractRef, batch: Seq<Log>, n: int)
    requires
        0 <= n <= batch.len(),
    ensures
        logs_of(singles(contract, batch, n)) == batch.take(n),
    decreases n,
{
    if n == 0 {
        assert(batch.take(0) =~= Seq::<Log>::empty());
    } else {
        lemma_singles_keep_logs(contract, batch, n - 1);
        let plan = singles(contract, batch, n);
        assert(plan.drop_last() =~= singles(contract, batch, n - 1));
        assert(logs_in(plan.last()) =~= seq![batch[n - 1]]);
        assert(batch.take(n) =~= batch.take(n - 1) + seq![batch[n - 1]]);
    }
}

/// Order guarantee. The logs that are delivered for a row of batches are the
/// batches joined end to end: nothing is lost, doubled or moved. In order,
/// there is moreover one delivery for each batch, which holds that batch
/// whole.
pub proof fn lemma_delivered_in_order(contract: ContractRef, batches: Seq<Seq<Log>>, in_order: bool)
    ensures
        logs_of(delivered(contract, batches, in_order)) == joined(batches),
        in_order ==> delivered(contract, batches, in_order).len() == batches.len(),
        in_order ==> forall|i: int|
            0 <= i < batches.len() ==> #[trigger] delivered(contract, batches, in_order)[i]
                == results_of(contract, batches[i]),
    decreases batches.len(),
{
    if batches.len() > 0 {
        let earlier = delivered(contract, batches.drop_last(), in_order);
        let last = deliveries(contract, batches.last(), in_order);
        lemma_delivered_in_order(contract, batches.drop_last(), in_order);
        lemma_logs_of_concat(earlier, last);
        lemma_deliveries_keep_logs(contract, batches.last(), in_order);
        if in_order {
            let all = delivered(contract, batches, in_order);
            assert forall|i: int| 0 <= i < batches.len() implies #[trigger] all[i] == results_of(
                contract,
                batches[i],
            ) by {
                if i < batches.len() - 1 {
                    assert(all[i] == earlier[i]);
                    assert(batches.drop_last()[i] == batches[i]);
                }
            }
        }
    }
}

/// The topics that callbacks are registered for. The callback of a topic is
/// known by its slot, the position at which the topic was registered.
#[derive(Debug)]
pub struct CallbackRegistry {
    topics: Vec<String>,
}

impl View for CallbackRegistry {
    type V = Seq<Seq<char>>;

    closed spec fn view(&self) -> Seq<Seq<char>> {
        Seq::new(self.topics@.len(), |i: int| self.topics@[i]@)
    }
}

/// Whether `slot` is where `topic` is looked up to: the first slot that was
/// registered for the topic, or none if the topic was never registered.
pub open spec fn is_slot_of(topics: Seq<Seq<char>>, topic: Seq<char>, slot: Option<usize>) -> bool {
    match slot {
        Some(k) => k < topics.len() && topics[k as int] == topic && forall|j: int|
            0 <= j < k ==> topics[j] != topic,
        None => forall|j: int| 0 <= j < topics.len() ==> topics[j] != topic,
    }
}

impl CallbackRegistry {
    /// A registry without callbacks.
    pub fn new() -> (registry: CallbackRegistry)
        ensures
            registry@ == Seq::<Seq<char>>::empty(),
    {
        let registry = CallbackRegistry { topics: Vec::new() };
        assert(registry@ =~= Seq::<Seq<char>>::empty());
        registry
    }

    /// Registers a callback for `topic_id` and returns its slot.
    pub fn register(&mut self, topic_id: String) -> (slot: usize)
        ensures
            final(self)@ == old(self)@.push(topic_id@),
            slot == old(self)@.len(),
    {
        let slot = self.topics.len();
        self.topics.push(topic_id);
        assert(self@ =~= old(self)@.push(topic_id@));
        slot
    }

    /// The number of callbacks.
    pub fn len(&self) -> (n: usize)
        ensures
            n == self@.len(),
    {
        self.topics.len()
    }

    /// The slot of the callback for `topic_id`, if there is one.
    pub fn find(&self, topic_id: &String) -> (slot: Option<usize>)
        ensures
            is_slot_of(self@, topic_id@, slot),
    {
        let mut k: usize = 0;
        while k < self.topics.len()
            invariant
                k <= self.topics.len(),
                forall|j: int| 0 <= j < k ==> self@[j] != topic_id@,
            decreases self.topics.len() - k,
        {
            if self.topics[k] == *topic_id {
                assert(self@[k as int] == topic_id@);
                return Some(k);
            }
            assert(self@[k as int] != topic_id@);
            k += 1;
        }
        None
    }
}

/// What the dispatcher does with what a stream yielded.
#[derive(Clone, Debug, PartialEq, Eq)]
pub enum Dispatch {
    /// Call the callback in `callback` once for each delivery.
    Deliver { callback: usize, deliveries: Vec<Vec<EventResult>> },
    /// The batch has no subscriber and is dropped.
    NoSubscriber,
    /// The provider failed and the stream retries: report it and go on.
    Retrying,
    /// Nothing was yielded.
    Idle,
    /// The stream ended fatally: report it and stop.
    Stop(FatalFetch),
}

/// Whether `step` is what the dispatcher owes for `item`, which a stream
/// yielded for `topic`.
///
/// A batch goes to the callback of the topic, cut into deliveries as
/// `deliveries` says, and is dropped if the topic has no callback. A failure
/// that the stream retries is only reported. A fatal one stops the
/// dispatcher.
pub open spec fn is_dispatch_of(
    step: Dispatch,
    topics: Seq<Seq<char>>,
    topic: Seq<char>,
    contract: ContractRef,
    item: Option<StreamItem>,
    in_order: bool,
) -> bool {
    match item {
        None => step is Idle,
        Some(StreamItem::Transient) => step is Retrying,
        Some(StreamItem::Fatal(cause)) => step == Dispatch::Stop(cause),
        Some(StreamItem::Batch(logs)) => match step {
            Dispatch::Deliver { callback, deliveries: plan } => is_slot_of(
                topics,
                topic,
                Some(callback),
            ) && views_of(plan@) == deliveries(contract, logs@, in_order),
            Dispatch::NoSubscriber => is_slot_of(topics, topic, None),
            _ => false,
        },
    }
}

/// Decides what is done with what a stream yielded for `topic_id`.
pub fn dispatch(
    registry: &CallbackRegistry,
    topic_id: &String,
    contract: ContractRef,
    item: Option<StreamItem>,
    in_order: bool,
) -> (step: Dispatch)
    ensures
        is_dispatch_of(step, registry@, topic_id@, contract, item, in_order),
{
    match item {
        None => Dispatch::Idle,
        Some(StreamItem::Transient) => Dispatch::Retrying,
        Some(StreamItem::Fatal(cause)) => Dispatch::Stop(cause),
        Some(StreamItem::Batch(logs)) => match registry.find(topic_id) {
            Some(callback) => Dispatch::Deliver {
                callback,
                deliveries: plan_deliveries(contract, logs, in_order),
            },
            None => Dispatch::NoSubscriber,
        },
    }
}

/// Unknown-topic isolation: a topic without a callback neither stops the
/// dispatcher nor fails it. Its batches are dropped, and the dispatcher stops
/// only where it would have stopped anyway, on a fatal end of the stream.
pub proof fn lemma_unknown_topic_goes_on(
    step: Dispatch,
    topics: Seq<Seq<char>>,
    topic: Seq<char>,
    contract: ContractRef,
    item: Option<StreamItem>,
    in_order: bool,
)
    requires
        is_dispatch_of(step, topics, topic, contract, item, in_order),
        is_slot_of(topics, topic, None),
    ensures
        step is Stop <==> item matches Some(StreamItem::Fatal(_)),
        item matches Some(StreamItem::Batch(_)) ==> step is NoSubscriber,
{
    if let Dispatch::Deliver { callback, deliveries: plan } = step {
        if let Some(StreamItem::Batch(logs)) = item {
            assert(topics[callback as int] == topic);
        }
    }
}

} // verus!
