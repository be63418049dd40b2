//! Indexing: from a set of subscriptions to the calls of their callbacks.

pub mod dispatch;
pub mod error;
pub mod filter;
pub mod log;
pub mod permit;
pub mod process;
pub mod runner;
pub mod start;
pub mod stream;
pub mod window;
