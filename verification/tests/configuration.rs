use opentelemetry_sdk::common::{InstrumentationLibrary, KeyValue, Value};
use opentelemetry_sdk::config::{config, override_limit, parse_limit, Config, SpanLimits};
use opentelemetry_sdk::id_generator::{IdGenerator, RandomIdGenerator};
use opentelemetry_sdk::ids::SpanId;
use opentelemetry_sdk::metrics::{
    inexpensive, Aggregation, InstrumentKind, InstrumentRequest, InstrumentSelector, MeterImpl,
    NoopAsyncInstrument, NoopMeterCore, NoopMeterProvider, NoopSyncInstrument, NumberKind, View,
};
use opentelemetry_sdk::resource::Resource;
use opentelemetry_sdk::sampler::Sampler;
use opentelemetry_sdk::zpages::{TracezCounts, TracezError, TracezQuery, TracezResponse};

#[test]
fn default_configuration() {
    let c = config();
    assert!(matches!(&c.sampler, Sampler::ParentBased(inner) if matches!(**inner, Sampler::AlwaysOn)));
    assert_eq!(c.span_limits, SpanLimits::default());
    assert_eq!(c.span_limits.max_events_per_span, 128);
    assert_eq!(c.span_limits.max_attributes_per_span, 128);
    assert_eq!(c.span_limits.max_links_per_span, 128);
    assert_eq!(c.span_limits.max_attributes_per_event, 128);
    assert_eq!(c.span_limits.max_attributes_per_link, 128);
    assert_eq!(c.get_service_name(), "unknown_service");
    let d = Config::default();
    assert_eq!(d.get_service_name(), "unknown_service");
}

#[test]
fn configuration_builders_change_one_thing() {
    let c = config()
        .with_max_events_per_span(1)
        .with_max_attributes_per_span(2)
        .with_max_links_per_span(3)
        .with_max_attributes_per_event(4)
        .with_max_attributes_per_link(5);
    assert_eq!(
        c.span_limits,
        SpanLimits {
            max_events_per_span: 1,
            max_attributes_per_span: 2,
            max_links_per_span: 3,
            max_attributes_per_event: 4,
            max_attributes_per_link: 5,
        }
    );
    let c = c.with_span_limits(SpanLimits::default());
    assert_eq!(c.span_limits, SpanLimits::default());
    let c = c.with_sampler(Sampler::AlwaysOff);
    assert!(matches!(c.sampler, Sampler::AlwaysOff));
    let mut c = c.with_id_generator(RandomIdGenerator::new(1));
    assert_eq!(c.id_generator.new_span_id(), SpanId::from_u64(0x40822041));
    assert_eq!(c.get_service_name(), "unknown_service");
}

#[test]
fn configuration_resource_is_merged() {
    let extra = Resource::new(vec![
        KeyValue::new("service.name".to_string(), Value::String("checkout".to_string())),
        KeyValue::new("replicas".to_string(), Value::I64(3)),
    ]);
    let c = config().with_resource(extra);
    assert_eq!(c.get_service_name(), "checkout");
    assert_eq!(c.resource.len(), 2);
    let c = c.with_resource(Resource::new(vec![]));
    assert_eq!(c.get_service_name(), "checkout");
    let c = c.with_resource(Resource::new(vec![KeyValue::new(
        "service.name".to_string(),
        Value::I64(12),
    )]));
    assert_eq!(c.get_service_name(), "12");
}

#[test]
fn limits_are_read_from_text() {
    assert_eq!(parse_limit("0"), Some(0));
    assert_eq!(parse_limit("64"), Some(64));
    assert_eq!(parse_limit("+64"), Some(64));
    assert_eq!(parse_limit("007"), Some(7));
    assert_eq!(parse_limit("4294967295"), Some(u32::MAX));
    assert_eq!(parse_limit("4294967296"), None);
    assert_eq!(parse_limit("99999999999999999999999999"), None);
    assert_eq!(parse_limit(""), None);
    assert_eq!(parse_limit("+"), None);
    assert_eq!(parse_limit("-1"), None);
    assert_eq!(parse_limit("12a"), None);
    assert_eq!(parse_limit(" 12"), None);
    assert_eq!(parse_limit("1_000"), None);
    assert_eq!(parse_limit("++1"), None);
    assert_eq!(override_limit(128, Some("5")), 5);
    assert_eq!(override_limit(128, Some("five")), 128);
    assert_eq!(override_limit(128, None), 128);
    for text in ["0", "1", "42", "+9", "x", "", "4294967295", "4294967296", "18446744073709551616"] {
        assert_eq!(parse_limit(text), text.parse::<u32>().ok());
    }
}

#[test]
fn limit_overrides_apply_where_they_parse() {
    let c = config().with_limit_overrides(Some("10"), Some("many"), None);
    assert_eq!(c.span_limits.max_attributes_per_span, 10);
    assert_eq!(c.span_limits.max_events_per_span, 128);
    assert_eq!(c.span_limits.max_links_per_span, 128);
    assert_eq!(c.span_limits.max_attributes_per_event, 128);
    let c = c.with_limit_overrides(None, Some("20"), Some("30"));
    assert_eq!(c.span_limits.max_attributes_per_span, 10);
    assert_eq!(c.span_limits.max_events_per_span, 20);
    assert_eq!(c.span_limits.max_links_per_span, 30);
}

#[test]
fn instrumentation_library_parts() {
    let lib = InstrumentationLibrary::new("lib".to_string(), Some("1.0".to_string()), None);
    assert_eq!(lib.name, "lib");
    assert_eq!(lib.version, Some("1.0".to_string()));
    assert_eq!(lib.schema_url, None);
    let none = InstrumentationLibrary::default();
    assert_eq!(none.name, "");
    assert_eq!(none.version, None);
}

#[test]
fn selectors_are_built_step_by_step() {
    let all = InstrumentSelector::default();
    assert_eq!(all.instrument_name, "*");
    assert_eq!(all.instrument_kind, None);
    let s = InstrumentSelector::instrument_name("latency".to_string())
        .with_instrument_kind(InstrumentKind::Histogram)
        .with_instrument_unit("ms".to_string())
        .with_meter_name("http".to_string())
        .with_meter_version("1".to_string())
        .with_meter_schema_url("https://example.com".to_string());
    assert_eq!(s.instrument_name, "latency");
    assert_eq!(s.instrument_kind, Some(InstrumentKind::Histogram));
    assert_eq!(s.instrument_unit, Some("ms".to_string()));
    assert_eq!(s.meter_name, Some("http".to_string()));
    assert_eq!(s.meter_version, Some("1".to_string()));
    assert_eq!(s.meter_schema_url, Some("https://example.com".to_string()));
    assert!(s.is_match(&"latency".to_string(), &Some("ms".to_string()), InstrumentKind::Histogram));
    assert!(s.is_match(&"latency".to_string(), &None, InstrumentKind::Histogram));
    assert!(!s.is_match(&"latency".to_string(), &Some("s".to_string()), InstrumentKind::Histogram));
    assert!(!s.is_match(&"latency".to_string(), &Some("ms".to_string()), InstrumentKind::Counter));
    assert!(!s.is_match(&"size".to_string(), &Some("ms".to_string()), InstrumentKind::Histogram));
    assert!(all.is_match(&"size".to_string(), &None, InstrumentKind::Counter));
}

#[test]
fn views_are_built_step_by_step() {
    let view = View::new(InstrumentSelector::instrument_name("latency".to_string()));
    assert_eq!(view.view_name, None);
    assert_eq!(view.metrics_stream_desc, None);
    assert!(view.exported_attribute_keys.is_empty());
    assert_eq!(view.aggregation_builder(), None);
    assert_eq!(view.selector.instrument_name, "latency");
    let view = view
        .with_name("request latency".to_string())
        .with_description("how long requests take".to_string())
        .with_exported_attributes(vec!["route".to_string()])
        .with_aggregation(Aggregation::Histogram);
    assert_eq!(view.view_name, Some("request latency".to_string()));
    assert_eq!(view.metrics_stream_desc, Some("how long requests take".to_string()));
    assert_eq!(view.exported_attribute_keys, vec!["route".to_string()]);
    assert_eq!(view.aggregation_builder(), Some(Aggregation::Histogram));
    assert_eq!(view.selector.instrument_name, "latency");
}

#[test]
fn the_first_matching_view_decides_the_aggregation() {
    let views = vec![
        View::new(InstrumentSelector::instrument_name("size".to_string()))
            .with_aggregation(Aggregation::Histogram),
        View::new(
            InstrumentSelector::default().with_instrument_kind(InstrumentKind::Counter),
        )
        .with_aggregation(Aggregation::LastValue),
        View::new(InstrumentSelector::instrument_name("plain".to_string())),
        View::new(InstrumentSelector::default()).with_aggregation(Aggregation::Sum),
    ];
    let meter = MeterImpl::new(views);
    let pick = |name: &str, kind| meter.select_views(&name.to_string(), &None, kind);
    assert_eq!(pick("size", InstrumentKind::Counter), Aggregation::Histogram);
    assert_eq!(pick("hits", InstrumentKind::Counter), Aggregation::LastValue);
    assert_eq!(pick("plain", InstrumentKind::Histogram), Aggregation::Histogram);
    assert_eq!(pick("plain", InstrumentKind::GaugeObserver), Aggregation::LastValue);
    assert_eq!(pick("other", InstrumentKind::Histogram), Aggregation::Sum);
    let empty = MeterImpl::new(Vec::new());
    let name = "x".to_string();
    assert_eq!(empty.select_views(&name, &None, InstrumentKind::Histogram), Aggregation::Histogram);
    assert_eq!(empty.select_views(&name, &None, InstrumentKind::GaugeObserver), Aggregation::LastValue);
    assert_eq!(empty.select_views(&name, &None, InstrumentKind::UpDownCounter), Aggregation::Sum);
}

#[test]
fn inexpensive_selector_and_noop_meters() {
    let selector = inexpensive();
    assert_eq!(selector.aggregator_for(InstrumentKind::GaugeObserver), Some(Aggregation::LastValue));
    assert_eq!(selector.aggregator_for(InstrumentKind::Histogram), Some(Aggregation::Sum));
    assert_eq!(selector.aggregator_for(InstrumentKind::Counter), Some(Aggregation::Sum));
    assert_eq!(InstrumentKind::Histogram.default_aggregator_builder(), Aggregation::Histogram);
    let provider = NoopMeterProvider::new();
    let _core: NoopMeterCore = provider.versioned_meter("lib", None, None);
    let _ = NoopMeterCore::new();
    NoopSyncInstrument::new().record(1u64, &[]);
    NoopAsyncInstrument::new().observe(-1i64, &[]);
}

#[test]
fn tracez_answers_and_errors() {
    let counts = TracezCounts { spanname: "a".to_string(), latency: vec![1, 2], running: 0, error: 1 };
    assert_eq!(TracezResponse::Aggregation(vec![counts.clone(), counts]).len(), 2);
    assert_eq!(TracezResponse::Latency(Vec::new()).len(), 0);
    assert_eq!(TracezResponse::Running(Vec::new()).len(), 0);
    assert_eq!(TracezResponse::Error(Vec::new()).len(), 0);
    let query = TracezQuery::Latency { bucket_index: 2, span_name: "a".to_string() };
    assert!(matches!(query, TracezQuery::Latency { bucket_index: 2, .. }));
    assert_eq!(
        TracezError::InvalidArgument { api: "latency", message: "bad bucket" }.message(),
        "bad bucket"
    );
    assert_eq!(
        TracezError::NotFound { api: "latency" }.message(),
        "the requested resource is not founded"
    );
    assert_eq!(TracezError::Serialization.message(), "cannot serialize the response into json");
    assert_eq!(
        TracezError::AggregatorDropped.message(),
        "the span aggregator is already dropped when querying"
    );
}

#[test]
fn meters_ask_for_instruments_of_the_right_kind() {
    let views = vec![
        View::new(InstrumentSelector::instrument_name("latency".to_string()))
            .with_aggregation(Aggregation::LastValue),
    ];
    let meter = MeterImpl::new(views);
    let ask = |r: InstrumentRequest| {
        (r.descriptor.instrument_kind, r.descriptor.number_kind, r.aggregation, r.synchronous)
    };
    let n = || "hits".to_string();
    assert_eq!(
        ask(meter.u64_counter(n(), None, None)),
        (InstrumentKind::Counter, NumberKind::U64, Aggregation::Sum, true)
    );
    assert_eq!(
        ask(meter.f64_counter(n(), None, None)),
        (InstrumentKind::Counter, NumberKind::F64, Aggregation::Sum, true)
    );
    assert_eq!(
        ask(meter.u64_observable_counter(n(), None, None)),
        (InstrumentKind::CounterObserver, NumberKind::U64, Aggregation::Sum, false)
    );
    assert_eq!(
        ask(meter.f64_observable_counter(n(), None, None)),
        (InstrumentKind::CounterObserver, NumberKind::F64, Aggregation::Sum, false)
    );
    assert_eq!(
        ask(meter.i64_up_down_counter(n(), None, None)),
        (InstrumentKind::UpDownCounter, NumberKind::I64, Aggregation::Sum, true)
    );
    assert_eq!(
        ask(meter.f64_up_down_counter(n(), None, None)),
        (InstrumentKind::UpDownCounter, NumberKind::F64, Aggregation::Sum, true)
    );
    assert_eq!(
        ask(meter.i64_observable_up_down_counter(n(), None, None)),
        (InstrumentKind::UpDownCounterObserver, NumberKind::I64, Aggregation::Sum, false)
    );
    assert_eq!(
        ask(meter.f64_observable_up_down_counter(n(), None, None)),
        (InstrumentKind::UpDownCounterObserver, NumberKind::F64, Aggregation::Sum, false)
    );
    assert_eq!(
        ask(meter.u64_observable_gauge(n(), None, None)),
        (InstrumentKind::GaugeObserver, NumberKind::U64, Aggregation::LastValue, false)
    );
    assert_eq!(
        ask(meter.i64_observable_gauge(n(), None, None)),
        (InstrumentKind::GaugeObserver, NumberKind::I64, Aggregation::LastValue, false)
    );
    assert_eq!(
        ask(meter.f64_observable_gauge(n(), None, None)),
        (InstrumentKind::GaugeObserver, NumberKind::F64, Aggregation::LastValue, false)
    );
    assert_eq!(
        ask(meter.f64_histogram(n(), None, None)),
        (InstrumentKind::Histogram, NumberKind::F64, Aggregation::Histogram, true)
    );
    assert_eq!(
        ask(meter.u64_histogram(n(), None, None)),
        (InstrumentKind::Histogram, NumberKind::U64, Aggregation::Histogram, true)
    );
    assert_eq!(
        ask(meter.i64_histogram(n(), None, None)),
        (InstrumentKind::Histogram, NumberKind::I64, Aggregation::Histogram, true)
    );
    let request = meter.f64_histogram(
        "latency".to_string(),
        Some("how long requests take".to_string()),
        Some("ms".to_string()),
    );
    assert_eq!(request.descriptor.name, "latency");
    assert_eq!(request.descriptor.description, Some("how long requests take".to_string()));
    assert_eq!(request.descriptor.unit, Some("ms".to_string()));
    assert_eq!(request.aggregation, Aggregation::LastValue);
    assert!(InstrumentKind::Histogram.synchronous());
    assert!(!InstrumentKind::GaugeObserver.synchronous());
}

#[test]
fn selectors_count_the_conditions_they_leave_open() {
    assert_eq!(InstrumentSelector::default().selector_num(), 6);
    assert_eq!(InstrumentSelector::instrument_name("*".to_string()).selector_num(), 6);
    assert_eq!(InstrumentSelector::instrument_name("a".to_string()).selector_num(), 5);
    let full = InstrumentSelector::instrument_name("a".to_string())
        .with_instrument_kind(InstrumentKind::Counter)
        .with_instrument_unit("ms".to_string())
        .with_meter_name("m".to_string())
        .with_meter_version("1".to_string())
        .with_meter_schema_url("u".to_string());
    assert_eq!(full.selector_num(), 0);
    assert_eq!(
        InstrumentSelector::default().with_instrument_kind(InstrumentKind::Counter).selector_num(),
        5
    );
}

#[test]
fn meters_try_the_more_specific_views_first() {
    let name = "latency".to_string();
    let views = vec![
        View::new(InstrumentSelector::default()).with_aggregation(Aggregation::LastValue),
        View::new(InstrumentSelector::instrument_name(name.clone()))
            .with_aggregation(Aggregation::Sum),
        View::new(
            InstrumentSelector::instrument_name(name.clone())
                .with_instrument_kind(InstrumentKind::Histogram),
        )
        .with_aggregation(Aggregation::Histogram),
        View::new(InstrumentSelector::instrument_name("size".to_string()))
            .with_aggregation(Aggregation::Histogram),
    ];
    let meter = MeterImpl::new(views);
    // The view with name and kind comes first, then the two with a name in
    // the order given, then the one that matches everything.
    assert_eq!(meter.select_views(&name, &None, InstrumentKind::Histogram), Aggregation::Histogram);
    assert_eq!(meter.select_views(&name, &None, InstrumentKind::Counter), Aggregation::Sum);
    let size = "size".to_string();
    assert_eq!(meter.select_views(&size, &None, InstrumentKind::Counter), Aggregation::Histogram);
    let other = "other".to_string();
    assert_eq!(meter.select_views(&other, &None, InstrumentKind::Counter), Aggregation::LastValue);
}

#[test]
fn views_of_equal_specificity_keep_their_order() {
    let name = "hits".to_string();
    let first = MeterImpl::new(vec![
        View::new(InstrumentSelector::instrument_name(name.clone()))
            .with_aggregation(Aggregation::LastValue),
        View::new(InstrumentSelector::default().with_instrument_kind(InstrumentKind::Counter))
            .with_aggregation(Aggregation::Histogram),
    ]);
    assert_eq!(first.select_views(&name, &None, InstrumentKind::Counter), Aggregation::LastValue);
    let second = MeterImpl::new(vec![
        View::new(InstrumentSelector::default().with_instrument_kind(InstrumentKind::Counter))
            .with_aggregation(Aggregation::Histogram),
        View::new(InstrumentSelector::instrument_name(name.clone()))
            .with_aggregation(Aggregation::LastValue),
    ]);
    assert_eq!(second.select_views(&name, &None, InstrumentKind::Counter), Aggregation::Histogram);
}
