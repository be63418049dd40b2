//! Logs as the indexer sees them, and what it hands to callbacks.

use vstd::prelude::*;
use crate::indexer::filter::{Address, Hash32};

verus! {

/// A record that a contract emitted while a transaction ran.
#[derive(Clone, Debug, PartialEq, Eq)]
pub struct Log {
    pub address: Address,
    pub topics: Vec<Hash32>,
    pub data: Vec<u8>,
    pub block_number: u64,
    pub transaction_hash: Hash32,
    pub log_index: u64,
}

/// Names one contract of one subscription: the position of the subscription
/// in the registry and of the contract in the subscription. It is a handle,
/// so that many results share one contract without copying it.
#[derive(Clone, Copy, Debug, PartialEq, Eq, Structural)]
pub struct ContractRef {
    pub event: usize,
    pub contract: usize,
}

/// What a callback receives for one log.
#[derive(Clone, Debug, PartialEq, Eq)]
pub struct EventResult {
    pub network_contract: ContractRef,
    pub log: Log,
}

impl EventResult {
    /// The result that carries `log` for `network_contract`.
    pub fn new(network_contract: ContractRef, log: Log) -> (result: EventResult)
        ensures
            result == (EventResult { network_contract, log }),
    {
        EventResult { network_contract, log }
    }
}

} // verus!
