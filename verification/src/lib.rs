//! A verified core for a chat-bot that fetches remote files over a chunked,
//! shard-aware RPC backend and stores them locally.
//!
//! The library holds the decision logic: chunk scheduling, the worker state
//! machine with redirect retries, out-of-order reassembly, the cancellation
//! registry with its one-byte token space, progress throttling and rendering,
//! the event correlator, and message routing. The surrounding binary performs
//! the network and file I/O and feeds plain values back into these functions.

pub mod config;
pub mod correlate;
pub mod manager;
pub mod numfmt;
pub mod progress;
pub mod routing;
pub mod transfer;
