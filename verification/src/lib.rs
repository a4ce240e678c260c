use vstd::prelude::*;

pub mod text;
pub mod json;
pub mod logging;
pub mod strmap;
pub mod routing;
pub mod observability;
pub mod settings;
pub mod cli;
pub mod config;
pub mod features;
pub mod fusion;
pub mod context;
pub mod parser;
pub mod search;
pub mod sorting;
pub mod serialization;
pub mod sse;
pub mod stats;
pub mod telemetry;
pub mod embedding;
pub mod lifestats;
pub mod indexer;
pub mod setup;
pub mod pipeline;
pub mod indexer_metrics;
pub mod lifestats_metrics;

verus! {

} // verus!
