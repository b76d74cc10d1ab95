//! A staged, backpressure-propagating data pipeline, as verified decision logic.
//!
//! Producers feed a bounded channel of messages, batch combiners group those
//! messages and feed a bounded channel of batches, and layer-2 processors drain
//! the batches under a simulated cost. Every worker samples its own throughput
//! and a reporter gathers the samples into a performance table. This crate holds
//! each worker's state and its decisions; the tasks, channels and clocks that
//! drive them live in the program around it.
use vstd::prelude::*;

pub mod combiner;
pub mod config;
pub mod dashboard;
pub mod lifecycle;
pub mod monitor;
pub mod processor;
pub mod producer;
pub mod rate;
pub mod reporter;

pub use dashboard::MyApp;

verus! {

/// Number of producers the pipeline starts with unless told otherwise.
pub const DEFAULT_PRODUCERS: usize = 5;

/// Number of batch combiners the pipeline starts with unless told otherwise.
pub const DEFAULT_COMBINERS: usize = 4;

/// Number of layer-2 processors the pipeline starts with unless told otherwise.
pub const DEFAULT_PROCESSORS: usize = 1;

/// Capacity of each of the two bounded channels unless told otherwise.
pub const DEFAULT_CHANNEL_CAPACITY: usize = 500_000;

} // verus!
