//! The errors of the tracing pipeline.

use vstd::prelude::*;

verus! {

/// A failure in the tracing pipeline. None of them is fatal: the pipeline
/// goes on after each.
#[derive(Debug)]
pub enum TraceError {
    /// An exporter reported that it could not deliver a batch.
    ExportFailed {
        /// The exporter's name.
        exporter_name: String,
        /// The exporter's description of the failure.
        message: String,
    },
    /// An export did not finish within the time allowed for it.
    ExportTimedOut {
        /// The time that was allowed, in milliseconds.
        timeout_millis: u64,
    },
    /// A span was dropped because the queue of a batch processor was full.
    QueueFull,
    /// Any other failure.
    Other(String),
}

impl TraceError {
    /// Whether the error reports a failed or timed-out export.
    pub fn is_export_error(&self) -> (b: bool)
        ensures
            b == (*self is ExportFailed || *self is ExportTimedOut),
    {
        match self {
            TraceError::ExportFailed { .. } => true,
            TraceError::ExportTimedOut { .. } => true,
            _ => false,
        }
    }

    /// The failure in words.
    pub fn message(&self) -> (text: String)
        ensures
            *self is QueueFull ==> text@ == "span dropped: the queue is full"@,
            *self is ExportTimedOut ==> text@ == "export timed out"@,
            *self is ExportFailed ==> text@ == self->ExportFailed_message@,
            *self is Other ==> text@ == self->Other_0@,
    {
        match self {
            TraceError::ExportFailed { exporter_name: _, message } => message.clone(),
            TraceError::ExportTimedOut { .. } => "export timed out".to_owned(),
            TraceError::QueueFull => "span dropped: the queue is full".to_owned(),
            TraceError::Other(text) => text.clone(),
        }
    }
}

} // verus!
