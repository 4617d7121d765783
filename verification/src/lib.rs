//! Verified core of a durable-execution SDK for AWS Lambda: operation records,
//! checkpoint updates, replay decisions, completion criteria for concurrent
//! work, retry strategies and the Lambda invocation envelope.
use vstd::prelude::*;

pub mod client;
pub mod concurrency;
pub mod config;
pub mod context;
pub mod duration;
pub mod error;
pub mod handlers;
pub mod lambda;
pub mod operation;
pub mod serdes;
pub mod state;
pub mod text;

verus! {

} // verus!
