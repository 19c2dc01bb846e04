//! Exporters and span data for trying out a pipeline.

use crate::common::{InstrumentationLibrary, Value};
use crate::config::{service_name_key, Config};
use crate::error::TraceError;
use crate::evicted_hash_map::EvictedHashMap;
use crate::evicted_queue::EvictedQueue;
use crate::ids::{SpanContext, SpanId, TraceFlags, TraceId, TraceState};
use crate::span::{now, Event, Link, SpanData, SpanKind, Status};
use crate::span_processor::SpanExporter;
use vstd::prelude::*;

verus! {

/// A span as a tracer with the default configuration would record it: span 1
/// of trace 1, sampled, local, without parent, attributes, events or links.
pub fn new_test_export_span_data() -> (span: SpanData)
    ensures
        span.span_context.spec_trace_id() == TraceId(1),
        span.span_context.spec_span_id() == SpanId(1),
        span.span_context.spec_trace_flags() == TraceFlags(1),
        span.span_context.spec_is_sampled(),
        !span.span_context.spec_is_remote(),
        span.span_context.spec_trace_state() == Seq::<(Seq<char>, Seq<char>)>::empty(),
        span.parent_span_id == SpanId(0),
        span.span_kind == SpanKind::Internal,
        span.name@ == "opentelemetry"@,
        span.attributes.wf(),
        span.attributes@ == Map::<Seq<char>, Value>::empty(),
        span.attributes.spec_len() == 0,
        span.attributes.dropped() == 0,
        span.attributes.capacity() == 128,
        span.events.wf(),
        span.events@ == Seq::<Event>::empty(),
        span.events.dropped() == 0,
        span.events.capacity() == 128,
        span.links.wf(),
        span.links@ == Seq::<Link>::empty(),
        span.links.dropped() == 0,
        span.links.capacity() == 128,
        span.status is Unset,
        span.resource.wf(),
        span.resource@.dom() == set![service_name_key()],
        span.resource@[service_name_key()].text() == "unknown_service"@,
        span.instrumentation_lib.name@ == Seq::<char>::empty(),
        span.instrumentation_lib.version is None,
        span.instrumentation_lib.schema_url is None,
{
    let config = Config::default();
    SpanData {
        span_context: SpanContext::new(
            TraceId::from_u128(1),
            SpanId::from_u64(1),
            TraceFlags::sampled_only(),
            false,
            TraceState::default(),
        ),
        parent_span_id: SpanId::invalid(),
        span_kind: SpanKind::Internal,
        name: "opentelemetry".to_owned(),
        start_time: now(),
        end_time: now(),
        attributes: EvictedHashMap::new(config.span_limits.max_attributes_per_span as usize),
        events: EvictedQueue::new(config.span_limits.max_events_per_span as usize),
        links: EvictedQueue::new(config.span_limits.max_links_per_span as usize),
        status: Status::Unset,
        resource: config.resource,
        instrumentation_lib: InstrumentationLibrary::default(),
    }
}

/// An exporter that accepts every batch and does nothing with it.
#[derive(Clone, Copy, Debug, Default)]
pub struct NoopSpanExporter {
    _private: (),
}

impl NoopSpanExporter {
    /// Create a new noop span exporter.
    pub fn new() -> (e: Self) {
        NoopSpanExporter { _private: () }
    }
}

impl SpanExporter for NoopSpanExporter {
    /// Succeeds at once and leaves the exporter as it is.
    fn export(&mut self, batch: Vec<SpanData>) -> (result: Result<(), TraceError>)
        ensures
            result is Ok,
            *final(self) == *old(self),
    {
        Ok(())
    }

    fn shutdown(&mut self)
        ensures
            *final(self) == *old(self),
    {
    }
}

/// The failure that a test exporter reports.
#[derive(Debug)]
pub struct TestExportError(pub String);

impl TestExportError {
    /// The name under which the test exporter reports failures.
    pub fn exporter_name(&self) -> (name: String)
        ensures
            name@ == "test"@,
    {
        "test".to_owned()
    }

    /// The description of the failure.
    pub fn message(&self) -> (text: String)
        ensures
            text@ == self.0@,
    {
        self.0.clone()
    }

    /// The failure as an error of the pipeline.
    pub fn into_trace_error(self) -> (error: TraceError)
        ensures
            error is ExportFailed,
            error->ExportFailed_exporter_name@ == "test"@,
            error->ExportFailed_message@ == self.0@,
    {
        TraceError::ExportFailed { exporter_name: "test".to_owned(), message: self.0 }
    }
}

/// An exporter that keeps every span it is given, in order, for the caller to
/// look at. It can be told to report every export as failed.
#[derive(Debug)]
pub struct TestSpanExporter {
    spans: Vec<SpanData>,
    shut_down: bool,
    failure: Option<String>,
}

impl TestSpanExporter {
    /// Every span the exporter was given, oldest first.
    pub closed spec fn received(&self) -> Seq<SpanData> {
        self.spans@
    }

    /// Whether the exporter was shut down.
    pub closed spec fn is_shut_down(&self) -> bool {
        self.shut_down
    }

    /// The failure the exporter reports for every export, if any.
    pub closed spec fn failure(&self) -> Option<Seq<char>> {
        match self.failure {
            Some(text) => Some(text@),
            None => None,
        }
    }

    /// An exporter that has received nothing and reports success.
    pub fn new() -> (e: Self)
        ensures
            e.received() == Seq::<SpanData>::empty(),
            !e.is_shut_down(),
            e.failure() is None,
    {
        TestSpanExporter { spans: Vec::new(), shut_down: false, failure: None }
    }

    /// An exporter that has received nothing and reports every export as
    /// failed, with the given description.
    pub fn failing(message: String) -> (e: Self)
        ensures
            e.received() == Seq::<SpanData>::empty(),
            !e.is_shut_down(),
            e.failure() == Some(message@),
    {
        TestSpanExporter { spans: Vec::new(), shut_down: false, failure: Some(message) }
    }

    /// The number of spans received so far.
    pub fn len(&self) -> (n: usize)
        ensures
            n == self.received().len(),
    {
        self.spans.len()
    }

    /// The span received at position `index`, counted from the first.
    pub fn get(&self, index: usize) -> (span: Option<&SpanData>)
        ensures
            index < self.received().len() ==> span == Some(&self.received()[index as int]),
            index >= self.received().len() ==> span is None,
    {
        if index < self.spans.len() {
            Some(&self.spans[index])
        } else {
            None
        }
    }

    /// Whether the exporter was shut down.
    pub fn was_shut_down(&self) -> (b: bool)
        ensures
            b == self.is_shut_down(),
    {
        self.shut_down
    }
}

impl SpanExporter for TestSpanExporter {
    /// Keep the spans of the batch, in order, and report success or the
    /// failure the exporter was created with.
    fn export(&mut self, batch: Vec<SpanData>) -> (result: Result<(), TraceError>)
        ensures
            final(self).received() == old(self).received() + batch@,
            final(self).is_shut_down() == old(self).is_shut_down(),
            final(self).failure() == old(self).failure(),
            result is Ok <==> old(self).failure() is None,
            result is Err ==> result->Err_0 is ExportFailed
                && result->Err_0->ExportFailed_exporter_name@ == "test"@ && Some(
                result->Err_0->ExportFailed_message@,
            ) == old(self).failure(),
    {
        let mut batch = batch;
        self.spans.append(&mut batch);
        match &self.failure {
            Some(message) => Err(TestExportError(message.clone()).into_trace_error()),
            None => Ok(()),
        }
    }

    fn shutdown(&mut self)
        ensures
            final(self).is_shut_down(),
            final(self).received() == old(self).received(),
            final(self).failure() == old(self).failure(),
    {
        self.shut_down = true;
    }
}

} // verus!
