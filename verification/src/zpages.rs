//! Queries, answers and errors of the tracez debug page.

use vstd::prelude::*;

verus! {

/// The counts of one span name: finished spans by latency bucket, running
/// spans and failed spans.
#[derive(Clone, Debug)]
pub struct TracezCounts {
    /// The span name.
    pub spanname: String,
    /// The number of sampled spans in each latency bucket.
    pub latency: Vec<u32>,
    /// The number of sampled spans that are running.
    pub running: u32,
    /// The number of sampled spans that failed.
    pub error: u32,
}

/// A finished span, as sampled for a latency bucket.
#[derive(Clone, Debug)]
pub struct LatencyData {
    /// The trace identifier, as bytes.
    pub traceid: Vec<u8>,
    /// The span identifier, as bytes.
    pub spanid: Vec<u8>,
    /// The parent's span identifier, as bytes.
    pub parentid: Vec<u8>,
    /// The start time, in nanoseconds since the Unix epoch.
    pub starttime: u64,
    /// The end time, in nanoseconds since the Unix epoch.
    pub endtime: u64,
}

/// A running span.
#[derive(Clone, Debug)]
pub struct RunningData {
    /// The trace identifier, as bytes.
    pub traceid: Vec<u8>,
    /// The span identifier, as bytes.
    pub spanid: Vec<u8>,
    /// The parent's span identifier, as bytes.
    pub parentid: Vec<u8>,
    /// The start time, in nanoseconds since the Unix epoch.
    pub starttime: u64,
}

/// A failed span.
#[derive(Clone, Debug)]
pub struct ErrorData {
    /// The trace identifier, as bytes.
    pub traceid: Vec<u8>,
    /// The span identifier, as bytes.
    pub spanid: Vec<u8>,
    /// The parent's span identifier, as bytes.
    pub parentid: Vec<u8>,
    /// The start time, in nanoseconds since the Unix epoch.
    pub starttime: u64,
    /// The end time, in nanoseconds since the Unix epoch.
    pub endtime: u64,
    /// The description of the failure.
    pub description: String,
}

/// The questions the tracez page can ask.
#[derive(Debug)]
pub enum TracezQuery {
    /// The counts for every span name.
    Aggregation,
    /// The sampled spans of one latency bucket of a span name.
    Latency {
        /// The index of the bucket.
        bucket_index: usize,
        /// The span name.
        span_name: String,
    },
    /// The running spans of a span name.
    Running {
        /// The span name.
        span_name: String,
    },
    /// The failed spans of a span name.
    Error {
        /// The span name.
        span_name: String,
    },
}

/// The answers to the questions of the tracez page.
#[derive(Debug)]
pub enum TracezResponse {
    /// The counts for every span name.
    Aggregation(Vec<TracezCounts>),
    /// The sampled spans of a latency bucket.
    Latency(Vec<LatencyData>),
    /// The running spans.
    Running(Vec<RunningData>),
    /// The failed spans.
    Error(Vec<ErrorData>),
}

impl TracezResponse {
    /// The number of records in the answer.
    pub fn len(&self) -> (n: usize)
        ensures
            n == match self {
                TracezResponse::Aggregation(data) => data@.len(),
                TracezResponse::Latency(data) => data@.len(),
                TracezResponse::Running(data) => data@.len(),
                TracezResponse::Error(data) => data@.len(),
            },
    {
        match self {
            TracezResponse::Aggregation(data) => data.len(),
            TracezResponse::Latency(data) => data.len(),
            TracezResponse::Running(data) => data.len(),
            TracezResponse::Error(data) => data.len(),
        }
    }
}

/// What can go wrong when the tracez page is asked.
#[derive(Debug)]
pub enum TracezError {
    /// The question was malformed.
    InvalidArgument {
        /// The question that was asked.
        api: &'static str,
        /// What is wrong with it.
        message: &'static str,
    },
    /// There is nothing under the name that was asked for.
    NotFound {
        /// The question that was asked.
        api: &'static str,
    },
    /// The answer could not be written as JSON.
    Serialization,
    /// The aggregator was gone when the question arrived.
    AggregatorDropped,
}

impl TracezError {
    /// The error in words.
    pub fn message(&self) -> (text: String)
        ensures
            text@ == match self {
                TracezError::InvalidArgument { api: _, message } => message@,
                TracezError::NotFound { api: _ } => "the requested resource is not founded"@,
                TracezError::Serialization => "cannot serialize the response into json"@,
                TracezError::AggregatorDropped =>
                    "the span aggregator is already dropped when querying"@,
            },
    {
        match self {
            TracezError::InvalidArgument { api: _, message } => (*message).to_owned(),
            TracezError::NotFound { api: _ } => "the requested resource is not founded".to_owned(),
            TracezError::Serialization => "cannot serialize the response into json".to_owned(),
            TracezError::AggregatorDropped => "the span aggregator is already dropped when querying"
                .to_owned(),
        }
    }
}

} // verus!
