//! Verified core of an asynchronous-workflow runtime: cancellation sources and
//! tokens, the per-thread cancellation scope, object monitors, task and thread
//! state machines, the outcome of a computation, and the scheduling decisions
//! (sleep slicing, poll-depth throttling, immediate start) that the async
//! plumbing around them follows.
#![allow(non_snake_case)]

pub mod cancellation;
pub mod monitor;
pub mod outcome;
pub mod schedule;
pub mod scope;
pub mod task;
pub mod thread;
