//! The core of an indexer for the events of smart contracts.
//!
//! `indexer` holds the indexing itself: block windows, log filters, the log
//! stream of a window, the permit pool, the dispatcher, the runner of an
//! event and the supervisor over all of them. Each is a state machine that
//! decides and leaves the waiting to its driver. `helpers`, `generator` and
//! `api` hold what the code of a project is made with.

pub mod api;
pub mod generator;
pub mod helpers;
pub mod indexer;
pub mod text;
