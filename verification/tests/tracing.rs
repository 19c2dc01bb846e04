use opentelemetry_sdk::common::{KeyValue, Value};
use opentelemetry_sdk::config::config;
use opentelemetry_sdk::id_generator::{IdGenerator, RandomIdGenerator};
use opentelemetry_sdk::ids::{SpanContext, SpanId, TraceFlags, TraceId, TraceState};
use opentelemetry_sdk::processors::{BatchSpanProcessor, SpanProcessor};
use opentelemetry_sdk::resource::Resource;
use opentelemetry_sdk::sampler::{Sampler, SamplingRatio};
use opentelemetry_sdk::span::{Event, Link, SpanKind, Status};
use opentelemetry_sdk::span_processor::BatchConfig;
use opentelemetry_sdk::testing::TestSpanExporter;
use opentelemetry_sdk::config::SpanLimits;
use opentelemetry_sdk::processors::SimpleSpanProcessor;
use opentelemetry_sdk::tracer::{
    add_event, add_link, end_span, set_attribute, start_span, start_span_in_trace,
};

fn attrs(n: i64) -> Vec<KeyValue> {
    (0..n).map(|i| KeyValue::new(format!("k{}", i), Value::I64(i))).collect()
}

fn remote_parent(sampled: bool) -> SpanContext {
    let flags = if sampled { TraceFlags::sampled_only() } else { TraceFlags::not_sampled() };
    let state = TraceState::from_key_value(vec![("vendor".to_string(), "v".to_string())]);
    SpanContext::new(TraceId::from_u128(77), SpanId::from_u64(5), flags, true, state)
}

#[test]
fn events_keep_the_first_attributes_up_to_the_limit() {
    let event = Event::new("e".to_string(), 12, attrs(5), 3);
    assert_eq!(event.name, "e");
    assert_eq!(event.timestamp, 12);
    assert_eq!(event.attributes.len(), 3);
    assert_eq!(event.attributes[0].key, "k0");
    assert_eq!(event.attributes[2].key, "k2");
    assert_eq!(event.dropped_attributes_count, 2);
    let all = Event::new("e".to_string(), 12, attrs(3), 3);
    assert_eq!(all.attributes.len(), 3);
    assert_eq!(all.dropped_attributes_count, 0);
    let none = Event::new("e".to_string(), 12, attrs(4), 0);
    assert!(none.attributes.is_empty());
    assert_eq!(none.dropped_attributes_count, 4);
}

#[test]
fn links_keep_the_first_attributes_up_to_the_limit() {
    let link = Link::new(remote_parent(true), attrs(4), 1);
    assert_eq!(link.span_context.span_id(), SpanId::from_u64(5));
    assert_eq!(link.attributes.len(), 1);
    assert_eq!(link.attributes[0].key, "k0");
    assert_eq!(link.dropped_attributes_count, 3);
    let link = Link::new(remote_parent(true), Vec::new(), 1);
    assert_eq!(link.dropped_attributes_count, 0);
}

#[test]
fn a_root_span_starts_a_trace_of_its_own() {
    let mut c = config().with_id_generator(RandomIdGenerator::new(1));
    let span = start_span(&mut c, None, "root".to_string(), SpanKind::Server, 1000).unwrap();
    assert_eq!(
        span.span_context.trace_id(),
        TraceId::from_u128((0x40822041u128 << 64) | 0x100041060c011441u128)
    );
    assert!(span.span_context.is_valid());
    assert!(span.span_context.is_sampled());
    assert!(!span.span_context.is_remote());
    assert_eq!(span.parent_span_id, SpanId::invalid());
    assert_eq!(span.span_kind, SpanKind::Server);
    assert_eq!(span.name, "root");
    assert_eq!(span.start_time, 1000);
    assert_eq!(span.end_time, 1000);
    assert!(span.attributes.is_empty());
    assert_eq!(span.events.max_len(), 128);
    assert_eq!(span.links.max_len(), 128);
    assert!(matches!(span.status, Status::Unset));
    assert_eq!(span.resource.len(), 1);
    assert_eq!(span.span_context.trace_state().len(), 0);
}

#[test]
fn a_child_joins_the_trace_of_its_parent() {
    let mut c = config().with_max_events_per_span(2);
    let parent = remote_parent(true);
    let span = start_span(&mut c, Some(&parent), "child".to_string(), SpanKind::Client, 5).unwrap();
    assert_eq!(span.span_context.trace_id(), TraceId::from_u128(77));
    assert_eq!(span.parent_span_id, SpanId::from_u64(5));
    assert_ne!(span.span_context.span_id(), SpanId::from_u64(5));
    assert!(span.span_context.is_sampled());
    assert!(!span.span_context.is_remote());
    assert_eq!(span.span_context.trace_state().get(&"vendor".to_string()), Some(&"v".to_string()));
    assert_eq!(span.events.max_len(), 2);
}

#[test]
fn a_dropped_span_is_not_built() {
    let mut c = config();
    let parent = remote_parent(false);
    assert!(start_span(&mut c, Some(&parent), "child".to_string(), SpanKind::Client, 5).is_none());
    let mut off = config().with_sampler(Sampler::AlwaysOff);
    assert!(start_span(&mut off, None, "root".to_string(), SpanKind::Internal, 5).is_none());
    let mut never = config().with_sampler(Sampler::TraceIdRatioBased(SamplingRatio::zero()));
    assert!(start_span(&mut never, None, "root".to_string(), SpanKind::Internal, 5).is_none());
    let p = remote_parent(true);
    assert!(start_span(&mut never, Some(&p), "c".to_string(), SpanKind::Internal, 5).is_none());
}

#[test]
fn a_span_with_an_invalid_parent_starts_a_trace_of_its_own() {
    let mut c = config().with_sampler(Sampler::AlwaysOn);
    let invalid = SpanContext::empty_context();
    let span = start_span(&mut c, Some(&invalid), "s".to_string(), SpanKind::Internal, 5).unwrap();
    assert!(span.span_context.is_valid());
    assert_eq!(span.parent_span_id, SpanId::invalid());
}

#[test]
fn started_spans_flow_through_a_processor() {
    let mut c = config();
    let batch = BatchConfig::default().with_max_queue_size(4).with_max_export_batch_size(4);
    let mut processor = BatchSpanProcessor::new(TestSpanExporter::new(), batch);
    let mut ids = Vec::new();
    for i in 0..3u64 {
        let mut span = start_span(&mut c, None, format!("s{}", i), SpanKind::Internal, i).unwrap();
        span.attributes.insert(KeyValue::new("n".to_string(), Value::I64(i as i64)));
        span.events.push_back(Event::new("started".to_string(), i, Vec::new(), 8));
        span.end_time = i + 10;
        ids.push(span.span_context.span_id());
        assert!(processor.on_end(span).is_ok());
    }
    assert!(processor.force_flush().is_ok());
    let exporter = processor.exporter_ref();
    assert_eq!(exporter.len(), 3);
    for (i, id) in ids.iter().enumerate() {
        let got = exporter.get(i).unwrap();
        assert_eq!(got.span_context.span_id(), *id);
        assert_eq!(got.end_time, i as u64 + 10);
        assert_eq!(got.events.len(), 1);
        assert_eq!(got.attributes.len(), 1);
    }
}

#[test]
fn clones_are_equal() {
    let kv = KeyValue::new("k".to_string(), Value::String("v".to_string()));
    let copy = kv.clone();
    assert_eq!(copy.key, "k");
    assert_eq!(copy.value.to_text(), "v");
    assert_eq!(Value::I64(5).clone().to_text(), "5");
    assert_eq!(Value::Bool(true).clone().to_text(), "true");
    let resource = Resource::new(vec![kv, KeyValue::new("n".to_string(), Value::I64(1))]);
    let copy = resource.clone();
    assert_eq!(copy.len(), 2);
    assert_eq!(copy.get(&"k".to_string()).map(|v| v.to_text()), Some("v".to_string()));
    assert_eq!(copy.get(&"n".to_string()).map(|v| v.to_text()), Some("1".to_string()));
}

struct Counting(u64);

impl IdGenerator for Counting {
    fn new_trace_id(&mut self) -> TraceId {
        self.0 += 1;
        TraceId::from_u128(self.0 as u128)
    }

    fn new_span_id(&mut self) -> SpanId {
        self.0 += 1;
        SpanId::from_u64(self.0)
    }
}

#[test]
fn identifier_generators_can_be_supplied_by_the_caller() {
    let mut c = config().with_id_generator(Counting(100));
    let root = start_span(&mut c, None, "root".to_string(), SpanKind::Internal, 0).unwrap();
    assert_eq!(root.span_context.trace_id(), TraceId::from_u128(101));
    assert_eq!(root.span_context.span_id(), SpanId::from_u64(102));
    let child = start_span(&mut c, Some(&root.span_context), "c".to_string(), SpanKind::Internal, 1)
        .unwrap();
    assert_eq!(child.span_context.trace_id(), TraceId::from_u128(101));
    assert_eq!(child.span_context.span_id(), SpanId::from_u64(103));
    assert_eq!(child.parent_span_id, SpanId::from_u64(102));
    assert!(child.span_context.is_sampled());
}

#[test]
fn a_span_records_within_its_limits() {
    let limits = SpanLimits {
        max_events_per_span: 2,
        max_attributes_per_span: 2,
        max_links_per_span: 1,
        max_attributes_per_event: 1,
        max_attributes_per_link: 0,
    };
    let mut c = config().with_span_limits(limits);
    let mut span = start_span(&mut c, None, "s".to_string(), SpanKind::Internal, 0).unwrap();
    for i in 0..3 {
        set_attribute(&mut span, KeyValue::new(format!("a{}", i), Value::I64(i)));
    }
    set_attribute(&mut span, KeyValue::new("a0".to_string(), Value::I64(10)));
    assert_eq!(span.attributes.len(), 2);
    assert_eq!(span.attributes.dropped_count(), 1);
    assert_eq!(span.attributes.get(&"a0".to_string()).map(|v| v.to_text()), Some("10".to_string()));
    assert!(span.attributes.get(&"a2".to_string()).is_none());

    for i in 0..3u64 {
        add_event(&mut span, format!("e{}", i), i, attrs(2), &limits);
    }
    assert_eq!(span.events.len(), 2);
    assert_eq!(span.events.dropped_count(), 1);
    assert_eq!(span.events.get(0).unwrap().name, "e1");
    assert_eq!(span.events.get(1).unwrap().name, "e2");
    assert_eq!(span.events.get(1).unwrap().timestamp, 2);
    assert_eq!(span.events.get(1).unwrap().attributes.len(), 1);
    assert_eq!(span.events.get(1).unwrap().dropped_attributes_count, 1);

    add_link(&mut span, remote_parent(true), attrs(2), &limits);
    add_link(&mut span, remote_parent(false), attrs(3), &limits);
    assert_eq!(span.links.len(), 1);
    assert_eq!(span.links.dropped_count(), 1);
    assert!(!span.links.get(0).unwrap().span_context.is_sampled());
    assert!(span.links.get(0).unwrap().attributes.is_empty());
    assert_eq!(span.links.get(0).unwrap().dropped_attributes_count, 3);
}

#[test]
fn an_ended_span_goes_to_the_processor() {
    let mut c = config();
    let mut processor = SimpleSpanProcessor::new(TestSpanExporter::new());
    let span = start_span(&mut c, None, "s".to_string(), SpanKind::Internal, 5).unwrap();
    let id = span.span_context.span_id();
    assert!(end_span(span, 9, &mut processor).is_ok());
    let exporter = processor.exporter_ref();
    assert_eq!(exporter.len(), 1);
    assert_eq!(exporter.get(0).unwrap().span_context.span_id(), id);
    assert_eq!(exporter.get(0).unwrap().start_time, 5);
    assert_eq!(exporter.get(0).unwrap().end_time, 9);
    assert!(processor.shutdown().is_ok());
    let late = start_span(&mut c, None, "late".to_string(), SpanKind::Internal, 5).unwrap();
    assert!(end_span(late, 9, &mut processor).is_ok());
    assert_eq!(processor.exporter_ref().len(), 1);
}

#[test]
fn a_span_in_a_given_trace_is_kept_or_dropped_by_its_trace_identifier() {
    let half = Sampler::TraceIdRatioBased(SamplingRatio::from_fraction(1, 2).unwrap());
    let mut c = config().with_sampler(half).with_id_generator(Counting(0));
    let kept: u128 = ((1u128 << 62) - 1) << 1;
    let dropped: u128 = (1u128 << 62) << 1;
    let span = start_span_in_trace(
        &mut c,
        None,
        TraceId::from_u128(kept),
        SpanId::invalid(),
        "kept".to_string(),
        SpanKind::Internal,
        3,
    )
    .unwrap();
    assert_eq!(span.span_context.trace_id(), TraceId::from_u128(kept));
    assert_eq!(span.span_context.span_id(), SpanId::from_u64(1));
    assert_eq!(span.span_context.trace_flags(), TraceFlags::sampled_only());
    assert_eq!(span.parent_span_id, SpanId::invalid());
    assert_eq!(span.attributes.dropped_count(), 0);
    assert_eq!(span.events.dropped_count(), 0);
    assert_eq!(span.links.dropped_count(), 0);
    assert_eq!(span.start_time, 3);
    assert_eq!(span.end_time, 3);
    let none = start_span_in_trace(
        &mut c,
        None,
        TraceId::from_u128(dropped),
        SpanId::invalid(),
        "dropped".to_string(),
        SpanKind::Internal,
        3,
    );
    assert!(none.is_none());
    // No identifier was drawn for the span that was dropped.
    let next = start_span_in_trace(
        &mut c,
        None,
        TraceId::from_u128(kept),
        SpanId::from_u64(77),
        "next".to_string(),
        SpanKind::Client,
        4,
    )
    .unwrap();
    assert_eq!(next.span_context.span_id(), SpanId::from_u64(2));
    assert_eq!(next.parent_span_id, SpanId::from_u64(77));
    assert_eq!(next.span_kind, SpanKind::Client);
}

#[test]
fn root_spans_are_kept_or_dropped_by_the_identifier_that_was_drawn() {
    let half = Sampler::TraceIdRatioBased(SamplingRatio::from_fraction(1, 2).unwrap());
    let mut c = config().with_sampler(half).with_id_generator(RandomIdGenerator::new(7));
    let mut check = RandomIdGenerator::new(7);
    let mut kept = 0;
    let mut dropped = 0;
    for _ in 0..200 {
        let expected = check.new_trace_id();
        let low = (expected.to_u128() & 0xffff_ffff_ffff_ffff) as u64;
        let keep = (low >> 1) < (1u64 << 62);
        match start_span(&mut c, None, "root".to_string(), SpanKind::Internal, 0) {
            Some(span) => {
                assert!(keep);
                assert_eq!(span.span_context.trace_id(), expected);
                assert_eq!(span.span_context.span_id(), check.new_span_id());
                assert_eq!(span.span_context.trace_flags(), TraceFlags::sampled_only());
                kept += 1;
            }
            None => {
                assert!(!keep);
                dropped += 1;
            }
        }
    }
    assert!(kept > 0);
    assert!(dropped > 0);
}

#[test]
fn an_unsampled_recorded_span_has_no_flag() {
    // No sampler of this library records without sampling, so the flags of a
    // kept span are the sampled flag alone.
    let mut c = config();
    let span = start_span(&mut c, None, "s".to_string(), SpanKind::Internal, 0).unwrap();
    assert_eq!(span.span_context.trace_flags().to_u8(), 1);
}
