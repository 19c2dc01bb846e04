//! Starting spans: where sampling, identifiers and limits come together.

use crate::common::{InstrumentationLibrary, KeyValue, Value};
use crate::config::{Config, SpanLimits};
use crate::error::TraceError;
use crate::evicted_hash_map::EvictedHashMap;
use crate::evicted_queue::{keep_last, overflow_of, saturate, EvictedQueue};
use crate::id_generator::IdGenerator;
use crate::ids::{SpanContext, SpanId, TraceFlags, TraceId};
use crate::resource::Resource;
use crate::processors::SpanProcessor;
use crate::sampler::SamplingDecision;
use crate::span::{
    dropped_attributes, kept_attributes, Event, Link, SpanData, SpanKind, Status,
};
use crate::span_processor::accepts;
use vstd::prelude::*;

verus! {

/// The sampled flag of the parent, if the span has one.
pub open spec fn parent_flag(parent: Option<&SpanContext>) -> Option<bool> {
    match parent {
        Some(p) => Some(p.spec_is_sampled()),
        None => None,
    }
}

/// Whether a span inherits its trace from the given parent: it has a parent
/// and the parent's context is valid.
pub open spec fn inherits_trace(parent: Option<&SpanContext>) -> bool {
    parent is Some && parent.unwrap().spec_is_valid()
}

/// Whether `s` is the span that is built when a span of trace `trace_id`
/// starts and the sampler's decision is `decision`: its own identifier is
/// valid, its flags are the sampled flag alone exactly if the span is both
/// recorded and sampled, it is local, it carries the trace state of its
/// parent and the configured resource, and its containers are empty, have
/// dropped nothing and hold as much as the limits allow. Its end time is its
/// start time until it is ended.
pub open spec fn is_started_span(
    s: SpanData,
    limits: SpanLimits,
    resource: Resource,
    parent: Option<&SpanContext>,
    trace_id: TraceId,
    parent_span_id: SpanId,
    name: String,
    span_kind: SpanKind,
    start_time: u64,
    decision: SamplingDecision,
) -> bool {
    &&& s.span_context.spec_trace_id() == trace_id
    &&& s.span_context.spec_span_id().is_valid()
    &&& s.span_context.spec_trace_flags() == TraceFlags(
        if decision == SamplingDecision::RecordAndSample {
            1
        } else {
            0
        },
    )
    &&& s.span_context.spec_is_sampled() == (decision == SamplingDecision::RecordAndSample)
    &&& !s.span_context.spec_is_remote()
    &&& s.span_context.spec_trace_state() == match parent {
        Some(p) => p.spec_trace_state(),
        None => Seq::<(Seq<char>, Seq<char>)>::empty(),
    }
    &&& s.parent_span_id == parent_span_id
    &&& s.span_kind == span_kind
    &&& s.name == name
    &&& s.start_time == start_time
    &&& s.end_time == start_time
    &&& s.attributes.wf()
    &&& s.attributes@ == Map::<Seq<char>, Value>::empty()
    &&& s.attributes.spec_len() == 0
    &&& s.attributes.dropped() == 0
    &&& s.attributes.capacity() == limits.max_attributes_per_span
    &&& s.events.wf()
    &&& s.events@ == Seq::<Event>::empty()
    &&& s.events.dropped() == 0
    &&& s.events.capacity() == limits.max_events_per_span
    &&& s.links.wf()
    &&& s.links@ == Seq::<Link>::empty()
    &&& s.links.dropped() == 0
    &&& s.links.capacity() == limits.max_links_per_span
    &&& s.status is Unset
    &&& s.resource@ == resource@
    &&& s.resource.wf() == resource.wf()
    &&& s.instrumentation_lib.name@ == Seq::<char>::empty()
    &&& s.instrumentation_lib.version is None
    &&& s.instrumentation_lib.schema_url is None
}

/// Start a span in the trace `trace_id`, as a child of the span
/// `parent_span_id` or as a root if that is the invalid identifier.
///
/// The sampler decides on the parent's sampled flag and the trace
/// identifier. A span that is dropped is not built at all: nothing is
/// returned, no identifier is drawn and no container is set up. Any other
/// span is built, with a fresh span identifier.
pub fn start_span_in_trace<G: IdGenerator>(
    config: &mut Config<G>,
    parent: Option<&SpanContext>,
    trace_id: TraceId,
    parent_span_id: SpanId,
    name: String,
    span_kind: SpanKind,
    start_time: u64,
) -> (span: Option<SpanData>)
    ensures
        final(config).sampler == old(config).sampler,
        final(config).span_limits == old(config).span_limits,
        final(config).resource == old(config).resource,
        span is None <==> old(config).sampler.decision(parent_flag(parent), trace_id.0)
            == SamplingDecision::Drop,
        span is None ==> final(config).id_generator == old(config).id_generator,
        span is Some ==> is_started_span(
            span.unwrap(),
            old(config).span_limits,
            old(config).resource,
            parent,
            trace_id,
            parent_span_id,
            name,
            span_kind,
            start_time,
            old(config).sampler.decision(parent_flag(parent), trace_id.0),
        ),
{
    let result =
        config.sampler.should_sample(parent, trace_id, name.as_str(), &span_kind, &[], &[]);
    match result.decision {
        SamplingDecision::Drop => None,
        decision => {
            let span_id = config.id_generator.new_span_id();
            let flags = if decision.is_sampled() {
                TraceFlags::sampled_only()
            } else {
                TraceFlags::not_sampled()
            };
            Some(
                SpanData {
                    span_context: SpanContext::new(
                        trace_id,
                        span_id,
                        flags,
                        false,
                        result.trace_state,
                    ),
                    parent_span_id,
                    span_kind,
                    name,
                    start_time,
                    end_time: start_time,
                    attributes: EvictedHashMap::new(
                        config.span_limits.max_attributes_per_span as usize,
                    ),
                    events: EvictedQueue::new(config.span_limits.max_events_per_span as usize),
                    links: EvictedQueue::new(config.span_limits.max_links_per_span as usize),
                    status: Status::Unset,
                    resource: config.resource.clone(),
                    instrumentation_lib: InstrumentationLibrary::default(),
                },
            )
        },
    }
}

/// Start a span under the given configuration.
///
/// A span with a valid parent joins the parent's trace. Any other span
/// starts a trace of its own: the generator is asked for a trace identifier
/// and the span is a root. From there on the span is started as
/// `start_span_in_trace` starts it: the sampler decides on the parent's
/// sampled flag and the trace identifier, a dropped span is not built, and
/// any other is built with empty containers under the configured limits.
pub fn start_span<G: IdGenerator>(
    config: &mut Config<G>,
    parent: Option<&SpanContext>,
    name: String,
    span_kind: SpanKind,
    start_time: u64,
) -> (span: Option<SpanData>)
    ensures
        final(config).sampler == old(config).sampler,
        final(config).span_limits == old(config).span_limits,
        final(config).resource == old(config).resource,
        inherits_trace(parent) ==> {
            let decision = old(config).sampler.decision(
                parent_flag(parent),
                parent.unwrap().spec_trace_id().0,
            );
            &&& span is None <==> decision == SamplingDecision::Drop
            &&& span is None ==> final(config).id_generator == old(config).id_generator
            &&& span is Some ==> is_started_span(
                span.unwrap(),
                old(config).span_limits,
                old(config).resource,
                parent,
                parent.unwrap().spec_trace_id(),
                parent.unwrap().spec_span_id(),
                name,
                span_kind,
                start_time,
                decision,
            )
        },
        !inherits_trace(parent) && span is Some ==> {
            let trace_id = span.unwrap().span_context.spec_trace_id();
            let decision = old(config).sampler.decision(parent_flag(parent), trace_id.0);
            &&& trace_id.is_valid()
            &&& decision != SamplingDecision::Drop
            &&& is_started_span(
                span.unwrap(),
                old(config).span_limits,
                old(config).resource,
                parent,
                trace_id,
                SpanId(0),
                name,
                span_kind,
                start_time,
                decision,
            )
        },
        !inherits_trace(parent) && span is None ==> exists|fresh: u128|
            fresh != 0 && #[trigger] old(config).sampler.decision(parent_flag(parent), fresh)
                == SamplingDecision::Drop,
{
    let inherited = match parent {
        Some(p) => if p.is_valid() {
            Some((p.trace_id(), p.span_id()))
        } else {
            None
        },
        None => None,
    };
    match inherited {
        Some((trace_id, parent_span_id)) => start_span_in_trace(
            config,
            parent,
            trace_id,
            parent_span_id,
            name,
            span_kind,
            start_time,
        ),
        None => {
            let trace_id = config.id_generator.new_trace_id();
            let span = start_span_in_trace(
                config,
                parent,
                trace_id,
                SpanId::invalid(),
                name,
                span_kind,
                start_time,
            );
            assert(span is None ==> trace_id.0 != 0 && old(config).sampler.decision(
                parent_flag(parent),
                trace_id.0,
            ) == SamplingDecision::Drop);
            span
        },
    }
}

/// Whether the containers of a span respect their limits.
pub open spec fn recordable(span: SpanData) -> bool {
    span.attributes.wf() && span.events.wf() && span.links.wf()
}

/// Record an attribute on a span that has not ended. A key that is present
/// takes the new value; a new key is added while the span has room for
/// attributes and is counted as dropped otherwise.
pub fn set_attribute(span: &mut SpanData, attribute: KeyValue)
    requires
        recordable(*old(span)),
    ensures
        recordable(*final(span)),
        final(span).attributes@ == if old(span).attributes.takes(attribute.key@) {
            old(span).attributes@.insert(attribute.key@, attribute.value)
        } else {
            old(span).attributes@
        },
        final(span).attributes.dropped() == if old(span).attributes.takes(attribute.key@) {
            old(span).attributes.dropped()
        } else {
            saturate(old(span).attributes.dropped() + 1)
        },
        final(span).attributes.capacity() == old(span).attributes.capacity(),
        final(span).events == old(span).events,
        final(span).links == old(span).links,
        final(span).span_context == old(span).span_context,
        final(span).end_time == old(span).end_time,
{
    span.attributes.insert(attribute);
}

/// Record an event on a span that has not ended. The event keeps the first
/// attributes up to the limit per event; the span keeps the latest events up
/// to its own limit and counts the ones it lets go.
pub fn add_event(
    span: &mut SpanData,
    name: String,
    timestamp: u64,
    attributes: Vec<KeyValue>,
    limits: &SpanLimits,
)
    requires
        recordable(*old(span)),
    ensures
        recordable(*final(span)),
        final(span).events.capacity() == old(span).events.capacity(),
        exists|event: Event|
            {
                &&& event.name == name
                &&& event.timestamp == timestamp
                &&& event.attributes@ == kept_attributes(
                    attributes@,
                    limits.max_attributes_per_event,
                )
                &&& event.dropped_attributes_count == dropped_attributes(
                    attributes@.len(),
                    limits.max_attributes_per_event,
                )
                &&& #[trigger] keep_last(old(span).events@.push(event), old(span).events.capacity())
                    == final(span).events@
            },
        final(span).events.dropped() == saturate(
            old(span).events.dropped() + overflow_of(
                old(span).events@.len() + 1,
                old(span).events.capacity(),
            ),
        ),
        final(span).attributes == old(span).attributes,
        final(span).links == old(span).links,
        final(span).span_context == old(span).span_context,
        final(span).end_time == old(span).end_time,
{
    let event = Event::new(name, timestamp, attributes, limits.max_attributes_per_event);
    let ghost recorded = event;
    span.events.push_back(event);
    assert(keep_last(old(span).events@.push(recorded), old(span).events.capacity())
        == span.events@);
}

/// Record a link on a span that has not ended. The link keeps the first
/// attributes up to the limit per link; the span keeps the latest links up
/// to its own limit and counts the ones it lets go.
pub fn add_link(
    span: &mut SpanData,
    span_context: SpanContext,
    attributes: Vec<KeyValue>,
    limits: &SpanLimits,
)
    requires
        recordable(*old(span)),
    ensures
        recordable(*final(span)),
        final(span).links.capacity() == old(span).links.capacity(),
        exists|link: Link|
            {
                &&& link.span_context == span_context
                &&& link.attributes@ == kept_attributes(attributes@, limits.max_attributes_per_link)
                &&& link.dropped_attributes_count == dropped_attributes(
                    attributes@.len(),
                    limits.max_attributes_per_link,
                )
                &&& #[trigger] keep_last(old(span).links@.push(link), old(span).links.capacity())
                    == final(span).links@
            },
        final(span).links.dropped() == saturate(
            old(span).links.dropped() + overflow_of(
                old(span).links@.len() + 1,
                old(span).links.capacity(),
            ),
        ),
        final(span).attributes == old(span).attributes,
        final(span).events == old(span).events,
        final(span).span_context == old(span).span_context,
        final(span).end_time == old(span).end_time,
{
    let link = Link::new(span_context, attributes, limits.max_attributes_per_link);
    let ghost recorded = link;
    span.links.push_back(link);
    assert(keep_last(old(span).links@.push(recorded), old(span).links.capacity()) == span.links@);
}

/// End a span: set its end time and hand it to the processor, which owns it
/// from then on. The processor's answer is handed back.
pub fn end_span<P: SpanProcessor>(span: SpanData, end_time: u64, processor: &mut P) -> (result:
    Result<(), TraceError>)
    requires
        old(processor).wf(),
    ensures
        final(processor).wf(),
        final(processor).lifecycle() == old(processor).lifecycle(),
        !accepts(
            old(processor).lifecycle(),
            span.span_context.spec_is_sampled(),
        ) ==> {
            &&& result is Ok
            &&& final(processor).handed_over() == old(processor).handed_over()
            &&& final(processor).buffered() == old(processor).buffered()
        },
        accepts(
            old(processor).lifecycle(),
            span.span_context.spec_is_sampled(),
        ) ==> {
            ||| (final(processor).handed_over() + final(processor).buffered() == (old(
                processor,
            ).handed_over() + old(processor).buffered()).push(ended(span, end_time)))
            ||| (result is Err && final(processor).handed_over() == old(processor).handed_over()
                && final(processor).buffered() == old(processor).buffered())
        },
{
    let mut span = span;
    span.end_time = end_time;
    processor.on_end(span)
}

/// A span with its end time set.
pub open spec fn ended(span: SpanData, end_time: u64) -> SpanData {
    SpanData { end_time, ..span }
}

} // verus!
