//! Tracing core of a telemetry SDK.
//!
//! Spans are started under a configuration that names a sampler, a generator
//! of identifiers and limits; they collect attributes, events and links in
//! bounded containers; and when they end they go to a span processor, which
//! passes them to an exporter at once or in batches.

pub mod common;
pub mod config;
pub mod error;
pub mod evicted_hash_map;
pub mod evicted_queue;
pub mod id_generator;
pub mod ids;
pub mod metrics;
pub mod processors;
pub mod propagation;
pub mod resource;
pub mod response;
pub mod sampler;
pub mod span;
pub mod span_processor;
pub mod testing;
pub mod tracer;
pub mod zpages;
