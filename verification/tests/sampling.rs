use opentelemetry_sdk::id_generator::{IdGenerator, RandomIdGenerator};
use opentelemetry_sdk::ids::{SpanContext, SpanId, TraceFlags, TraceId, TraceState};
use opentelemetry_sdk::sampler::{
    Sampler, SamplingDecision, SamplingRatio, FULL_BOUND,
};
use opentelemetry_sdk::span::SpanKind;

fn parent(sampled: bool, remote: bool) -> SpanContext {
    let flags = if sampled { TraceFlags::sampled_only() } else { TraceFlags::not_sampled() };
    let state = TraceState::from_key_value(vec![("vendor".to_string(), "v1".to_string())]);
    SpanContext::new(TraceId::from_u128(7), SpanId::from_u64(9), flags, remote, state)
}

fn decide(sampler: &Sampler, parent: Option<&SpanContext>, trace_id: u128) -> SamplingDecision {
    sampler
        .should_sample(parent, TraceId::from_u128(trace_id), "span", &SpanKind::Internal, &[], &[])
        .decision
}

fn some_trace_ids() -> Vec<u128> {
    vec![1, 2, 3, 0xffff_ffff_ffff_ffff, u128::MAX, 1 << 64, 0x1234_5678_9abc_def0, 42]
}

#[test]
fn always_on_and_always_off() {
    for id in some_trace_ids() {
        assert_eq!(decide(&Sampler::AlwaysOn, None, id), SamplingDecision::RecordAndSample);
        assert_eq!(decide(&Sampler::AlwaysOff, None, id), SamplingDecision::Drop);
        let p = parent(false, true);
        assert_eq!(decide(&Sampler::AlwaysOn, Some(&p), id), SamplingDecision::RecordAndSample);
        let q = parent(true, true);
        assert_eq!(decide(&Sampler::AlwaysOff, Some(&q), id), SamplingDecision::Drop);
    }
}

#[test]
fn ratio_zero_drops_and_ratio_one_keeps() {
    let none = Sampler::TraceIdRatioBased(SamplingRatio::zero());
    let all = Sampler::TraceIdRatioBased(SamplingRatio::one());
    for id in some_trace_ids() {
        assert_eq!(decide(&none, None, id), SamplingDecision::Drop);
        assert_eq!(decide(&all, None, id), SamplingDecision::RecordAndSample);
    }
}

#[test]
fn ratio_is_deterministic() {
    let half = SamplingRatio::from_fraction(1, 2).unwrap();
    let first = Sampler::TraceIdRatioBased(half);
    let second = Sampler::TraceIdRatioBased(half);
    for id in some_trace_ids() {
        let a = decide(&first, None, id);
        assert_eq!(a, decide(&first, None, id));
        assert_eq!(a, decide(&second, None, id));
    }
}

#[test]
fn ratio_compares_the_low_bits_with_the_bound() {
    let half = Sampler::TraceIdRatioBased(SamplingRatio::from_fraction(1, 2).unwrap());
    // The number of a trace is its low 64 bits shifted right by one.
    let just_below: u128 = ((1u128 << 62) - 1) << 1;
    let at_bound: u128 = (1u128 << 62) << 1;
    assert_eq!(decide(&half, None, just_below), SamplingDecision::RecordAndSample);
    assert_eq!(decide(&half, None, just_below | 1), SamplingDecision::RecordAndSample);
    assert_eq!(decide(&half, None, at_bound), SamplingDecision::Drop);
    // The high 64 bits play no part.
    assert_eq!(decide(&half, None, just_below | (0xabcd << 64)), SamplingDecision::RecordAndSample);
    assert_eq!(decide(&half, None, at_bound | (0xabcd << 64)), SamplingDecision::Drop);
}

#[test]
fn ratio_bounds_are_exact() {
    assert_eq!(FULL_BOUND, 1u64 << 63);
    assert_eq!(SamplingRatio::zero().upper_bound(), 0);
    assert_eq!(SamplingRatio::one().upper_bound(), 1u64 << 63);
    assert_eq!(SamplingRatio::from_fraction(1, 2).unwrap().upper_bound(), 4611686018427387904);
    assert_eq!(SamplingRatio::from_fraction(3, 4).unwrap().upper_bound(), 6917529027641081856);
    assert_eq!(SamplingRatio::from_fraction(1, 3).unwrap().upper_bound(), 3074457345618258602);
    assert_eq!(SamplingRatio::from_fraction(0, 5).unwrap().upper_bound(), 0);
    assert_eq!(SamplingRatio::from_fraction(5, 5).unwrap().upper_bound(), 1u64 << 63);
    assert_eq!(
        SamplingRatio::from_fraction(u64::MAX, u64::MAX).unwrap().upper_bound(),
        1u64 << 63
    );
    assert!(SamplingRatio::from_fraction(1, 0).is_none());
    assert!(SamplingRatio::from_fraction(0, 0).is_none());
    assert!(SamplingRatio::from_fraction(3, 2).is_none());
    assert_eq!(SamplingRatio::from_bound(17).upper_bound(), 17);
    assert_eq!(SamplingRatio::from_bound(u64::MAX).upper_bound(), 1u64 << 63);
}

#[test]
fn parent_based_follows_a_remote_sampled_parent() {
    let p = parent(true, true);
    for delegate in [Sampler::AlwaysOn, Sampler::AlwaysOff] {
        let sampler = Sampler::ParentBased(Box::new(delegate));
        for id in some_trace_ids() {
            assert_eq!(decide(&sampler, Some(&p), id), SamplingDecision::RecordAndSample);
        }
    }
    let never = Sampler::ParentBased(Box::new(Sampler::TraceIdRatioBased(SamplingRatio::zero())));
    assert_eq!(decide(&never, Some(&p), 5), SamplingDecision::RecordAndSample);
}

#[test]
fn parent_based_follows_an_unsampled_or_local_parent() {
    let sampler = Sampler::ParentBased(Box::new(Sampler::AlwaysOn));
    assert_eq!(decide(&sampler, Some(&parent(false, true)), 5), SamplingDecision::Drop);
    assert_eq!(decide(&sampler, Some(&parent(false, false)), 5), SamplingDecision::Drop);
    let off = Sampler::ParentBased(Box::new(Sampler::AlwaysOff));
    assert_eq!(decide(&off, Some(&parent(true, false)), 5), SamplingDecision::RecordAndSample);
}

#[test]
fn parent_based_defers_to_the_delegate_for_roots() {
    let half = SamplingRatio::from_fraction(1, 2).unwrap();
    for id in some_trace_ids() {
        let delegate = Sampler::TraceIdRatioBased(half);
        let sampler = Sampler::ParentBased(Box::new(Sampler::TraceIdRatioBased(half)));
        assert_eq!(decide(&sampler, None, id), decide(&delegate, None, id));
        let on = Sampler::ParentBased(Box::new(Sampler::AlwaysOn));
        assert_eq!(decide(&on, None, id), SamplingDecision::RecordAndSample);
        let off = Sampler::ParentBased(Box::new(Sampler::AlwaysOff));
        assert_eq!(decide(&off, None, id), SamplingDecision::Drop);
        let nested = Sampler::ParentBased(Box::new(Sampler::ParentBased(Box::new(
            Sampler::AlwaysOff,
        ))));
        assert_eq!(decide(&nested, None, id), SamplingDecision::Drop);
    }
}

#[test]
fn sampling_result_carries_the_parent_trace_state() {
    let p = parent(true, false);
    let key = "vendor".to_string();
    let result = Sampler::AlwaysOn.should_sample(
        Some(&p),
        TraceId::from_u128(3),
        "span",
        &SpanKind::Server,
        &[],
        &[],
    );
    assert!(result.attributes.is_empty());
    assert_eq!(result.trace_state.len(), 1);
    assert_eq!(result.trace_state.get(&key), Some(&"v1".to_string()));
    let root = Sampler::AlwaysOn.should_sample(
        None,
        TraceId::from_u128(3),
        "span",
        &SpanKind::Server,
        &[],
        &[],
    );
    assert_eq!(root.trace_state.len(), 0);
    assert_eq!(root.trace_state.get(&key), None);
}

#[test]
fn decisions_say_what_is_recorded() {
    assert!(!SamplingDecision::Drop.is_recording());
    assert!(SamplingDecision::RecordOnly.is_recording());
    assert!(SamplingDecision::RecordAndSample.is_recording());
    assert!(!SamplingDecision::Drop.is_sampled());
    assert!(!SamplingDecision::RecordOnly.is_sampled());
    assert!(SamplingDecision::RecordAndSample.is_sampled());
}

#[test]
fn identifiers_and_flags() {
    assert_eq!(TraceId::invalid().to_u128(), 0);
    assert_eq!(SpanId::invalid().to_u64(), 0);
    assert_eq!(TraceId::from_candidate(0), None);
    assert_eq!(TraceId::from_candidate(5), Some(TraceId::from_u128(5)));
    assert_eq!(SpanId::from_candidate(0), None);
    assert_eq!(SpanId::from_candidate(5), Some(SpanId::from_u64(5)));
    assert!(TraceFlags::sampled_only().is_sampled());
    assert!(!TraceFlags::not_sampled().is_sampled());
    assert_eq!(TraceFlags::new(0xfe).with_sampled(true).to_u8(), 0xff);
    assert_eq!(TraceFlags::new(0xff).with_sampled(false).to_u8(), 0xfe);
    assert_eq!(TraceFlags::new(0x02).with_sampled(false).to_u8(), 0x02);
    let cx = parent(true, true);
    assert!(cx.is_valid());
    assert!(cx.is_remote());
    assert!(cx.is_sampled());
    assert_eq!(cx.trace_id(), TraceId::from_u128(7));
    assert_eq!(cx.span_id(), SpanId::from_u64(9));
    assert_eq!(cx.trace_flags(), TraceFlags::sampled_only());
    let copy = cx.clone();
    assert_eq!(copy.trace_state().get(&"vendor".to_string()), Some(&"v1".to_string()));
    let empty = SpanContext::empty_context();
    assert!(!empty.is_valid());
    assert!(!empty.is_sampled());
    assert!(!SpanContext::new(
        TraceId::from_u128(1),
        SpanId::invalid(),
        TraceFlags::not_sampled(),
        false,
        TraceState::default()
    )
    .is_valid());
}

#[test]
fn trace_state_finds_the_first_pair_of_a_key() {
    let state = TraceState::from_key_value(vec![
        ("a".to_string(), "1".to_string()),
        ("b".to_string(), "2".to_string()),
        ("a".to_string(), "3".to_string()),
    ]);
    assert_eq!(state.len(), 3);
    assert_eq!(state.get(&"a".to_string()), Some(&"1".to_string()));
    assert_eq!(state.get(&"b".to_string()), Some(&"2".to_string()));
    assert_eq!(state.get(&"c".to_string()), None);
    let copy = state.clone();
    assert_eq!(copy.len(), 3);
    assert_eq!(copy.get(&"a".to_string()), Some(&"1".to_string()));
}

#[test]
fn generator_gives_the_same_sequence_for_the_same_seed() {
    let mut g = RandomIdGenerator::default();
    assert_eq!(g.new_span_id(), SpanId::from_u64(0xdc1b77ae0bf34dad));
    assert_eq!(g.new_span_id(), SpanId::from_u64(0x64f0eeb9026e6076));
    assert_eq!(g.new_span_id(), SpanId::from_u64(0x7b07ce91e5906136));
    let mut h = RandomIdGenerator::new(0);
    assert_eq!(h.new_trace_id(), TraceId::from_u128(0xdc1b77ae0bf34dad64f0eeb9026e6076));
    assert_eq!(h.new_span_id(), SpanId::from_u64(0x7b07ce91e5906136));
    let mut one = RandomIdGenerator::new(1);
    assert_eq!(one.new_span_id(), SpanId::from_u64(0x40822041));
    assert_eq!(one.new_span_id(), SpanId::from_u64(0x100041060c011441));
}

#[test]
fn generator_never_gives_the_invalid_identifier() {
    let mut g = RandomIdGenerator::new(0xdead_beef);
    for _ in 0..10_000 {
        assert_ne!(g.new_trace_id(), TraceId::invalid());
        assert_ne!(g.new_span_id(), SpanId::invalid());
    }
}
