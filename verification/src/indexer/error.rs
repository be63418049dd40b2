//! The ways in which indexing can fail.

use vstd::prelude::*;
use crate::indexer::window::Window;

verus! {

/// A fault in the configuration. It is found before any block is fetched.
#[derive(Clone, Copy, Debug, PartialEq, Eq, Structural)]
pub enum ConfigError {
    /// A contract address is not the hex form of 20 bytes.
    InvalidAddress,
    /// A topic identifier is not the hex form of 32 bytes.
    InvalidTopic,
    /// The permit pool was asked to hold no permit at all.
    ZeroConcurrency,
}

/// Why a log stream gave up.
#[derive(Clone, Copy, Debug, PartialEq, Eq, Structural)]
pub enum FatalFetch {
    /// A log that the provider returned could not be read.
    MalformedLog,
    /// The provider failed more often in a row than the stream retries.
    RetriesExhausted,
}

/// Why `start_indexing` failed: the first fatal cause, with the place it
/// came from.
#[derive(Clone, Copy, Debug, PartialEq, Eq, Structural)]
pub enum IndexingError {
    /// The subscription at `event`, contract `contract`, is misconfigured.
    Config { event: usize, contract: usize, fault: ConfigError },
    /// The head block of the chain could not be read for this contract.
    HeadUnavailable { event: usize, contract: usize },
    /// The stream of the window that starts at `window_start` ended fatally.
    /// A stream that only follows the head has no window of its own and
    /// reports the first block it was to look at.
    Fetch { event: usize, contract: usize, window_start: u64, cause: FatalFetch },
}

impl ConfigError {
    /// The message shown for this error.
    pub fn message(&self) -> (text: &'static str)
        ensures
            text@ == match *self {
                ConfigError::InvalidAddress => "invalid contract address"@,
                ConfigError::InvalidTopic => "invalid topic id"@,
                ConfigError::ZeroConcurrency => "max_concurrency must be at least 1"@,
            },
    {
        match self {
            ConfigError::InvalidAddress => "invalid contract address",
            ConfigError::InvalidTopic => "invalid topic id",
            ConfigError::ZeroConcurrency => "max_concurrency must be at least 1",
        }
    }
}

} // verus!
