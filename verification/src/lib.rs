//! Resumable consumer for an ordered, potentially forking stream of
//! blockchain blocks.
//!
//! The crate models the whole pipeline: a reconnecting stream driver that
//! turns transport messages into apply/undo events, a driver loop that feeds
//! those events to a cache-style sink and checkpoints a resume cursor after
//! every applied event, and the configuration parsing (block ranges, package
//! references) that sets a session up.

use vstd::prelude::*;

pub mod checkpoint;
pub mod driver;
pub mod driver_loop;
pub mod event;
pub mod package;
pub mod range;
pub mod retry;
pub mod sink;
pub mod text;
pub mod textnum;

verus! {

/// Retry backoff: base delay in milliseconds for the first reconnect attempt.
pub const BACKOFF_BASE_MS: u64 = 500;

/// Retry backoff: ceiling in milliseconds that the delay never exceeds.
pub const BACKOFF_MAX_MS: u64 = 45 * 1000;

} // verus!
