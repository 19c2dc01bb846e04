//! The decision whether a span is recorded and exported.

use crate::common::KeyValue;
use crate::ids::{SpanContext, TraceId, TraceState};
use crate::span::{Link, SpanKind};
use vstd::prelude::*;

verus! {

/// What is done with a span.
#[derive(Clone, Copy, Debug, PartialEq, Eq, Structural, Hash)]
pub enum SamplingDecision {
    /// The span is not recorded at all.
    Drop,
    /// The span is recorded but never exported.
    RecordOnly,
    /// The span is recorded and may be exported; its children see the
    /// sampled flag.
    RecordAndSample,
}

impl SamplingDecision {
    /// Whether a span with this decision is recorded.
    pub fn is_recording(&self) -> (b: bool)
        ensures
            b == (*self != SamplingDecision::Drop),
    {
        match self {
            SamplingDecision::Drop => false,
            _ => true,
        }
    }

    /// Whether a span with this decision is exported and marks its children
    /// as sampled.
    pub fn is_sampled(&self) -> (b: bool)
        ensures
            b == (*self == SamplingDecision::RecordAndSample),
    {
        match self {
            SamplingDecision::RecordAndSample => true,
            _ => false,
        }
    }
}

/// The answer of a sampler.
#[derive(Debug)]
pub struct SamplingResult {
    /// What is done with the span.
    pub decision: SamplingDecision,
    /// Attributes the sampler adds to the span.
    pub attributes: Vec<KeyValue>,
    /// The trace state the span carries on.
    pub trace_state: TraceState,
}

/// The largest bound of a ratio: one half of the range of a 64-bit number.
pub const FULL_BOUND: u64 = 0x8000_0000_0000_0000;

/// The share of traces to keep, as a bound on the 63-bit number derived from
/// a trace identifier: a trace is kept when its number is below the bound.
#[derive(Clone, Copy, Debug, PartialEq, Eq, Structural, Hash)]
pub struct SamplingRatio {
    bound: u64,
}

impl SamplingRatio {
    /// The bound below which a trace is kept; at most `FULL_BOUND`.
    pub closed spec fn bound(&self) -> nat {
        if self.bound <= FULL_BOUND {
            self.bound as nat
        } else {
            FULL_BOUND as nat
        }
    }

    /// The ratio 0: no trace is kept.
    pub fn zero() -> (r: Self)
        ensures
            r.bound() == 0,
    {
        SamplingRatio { bound: 0 }
    }

    /// The ratio 1: every trace is kept.
    pub fn one() -> (r: Self)
        ensures
            r.bound() == FULL_BOUND,
    {
        SamplingRatio { bound: FULL_BOUND }
    }

    /// The ratio with the given bound. A bound above `FULL_BOUND` counts as
    /// `FULL_BOUND`.
    pub fn from_bound(bound: u64) -> (r: Self)
        ensures
            r.bound() == if bound <= FULL_BOUND {
                bound as nat
            } else {
                FULL_BOUND as nat
            },
    {
        if bound <= FULL_BOUND {
            SamplingRatio { bound }
        } else {
            SamplingRatio { bound: FULL_BOUND }
        }
    }

    /// The ratio `numerator / denominator`, rounded down to a whole bound.
    /// There is no such ratio when the denominator is zero or the fraction
    /// is above one.
    pub fn from_fraction(numerator: u64, denominator: u64) -> (r: Option<Self>)
        ensures
            r is Some <==> denominator != 0 && numerator <= denominator,
            r is Some ==> r.unwrap().bound() == (numerator as nat * FULL_BOUND as nat)
                / denominator as nat,
    {
        if denominator == 0 || numerator > denominator {
            return None;
        }
        let wide_numerator: u128 = numerator as u128;
        let wide_denominator: u128 = denominator as u128;
        let wide_full: u128 = FULL_BOUND as u128;
        assert(wide_numerator * wide_full <= 0xffff_ffff_ffff_ffff * 0x8000_0000_0000_0000)
            by (nonlinear_arith)
            requires
                wide_numerator <= 0xffff_ffff_ffff_ffff,
                wide_full == 0x8000_0000_0000_0000,
        ;
        let product: u128 = wide_numerator * wide_full;
        let quotient: u128 = product / wide_denominator;
        assert(quotient <= wide_full) by (nonlinear_arith)
            requires
                quotient == product / wide_denominator,
                product == wide_numerator * wide_full,
                wide_numerator <= wide_denominator,
                wide_denominator > 0,
                wide_full >= 0,
        ;
        Some(SamplingRatio { bound: quotient as u64 })
    }

    /// The bound below which a trace is kept.
    pub fn upper_bound(&self) -> (b: u64)
        ensures
            b == self.bound(),
    {
        if self.bound <= FULL_BOUND {
            self.bound
        } else {
            FULL_BOUND
        }
    }
}

/// The 63-bit number that decides whether a trace is kept: the low 64 bits
/// of its identifier without the lowest bit. It depends on the identifier
/// alone, so every process derives the same number for a trace.
pub open spec fn trace_number(trace_id: u128) -> u64 {
    ((trace_id & 0xffff_ffff_ffff_ffff) as u64) >> 1
}

/// What the sampled flag of a parent means for its child.
pub open spec fn inherited_decision(parent_sampled: bool) -> SamplingDecision {
    if parent_sampled {
        SamplingDecision::RecordAndSample
    } else {
        SamplingDecision::Drop
    }
}

/// The rule by which spans are kept or dropped.
#[derive(Debug)]
pub enum Sampler {
    /// Keep every span.
    AlwaysOn,
    /// Drop every span.
    AlwaysOff,
    /// Follow the parent's sampled flag; ask the inner sampler for spans
    /// without a parent.
    ParentBased(Box<Sampler>),
    /// Keep the given share of traces, chosen by their identifiers.
    TraceIdRatioBased(SamplingRatio),
}

impl Sampler {
    /// The decision of this sampler for a span of trace `trace_id` whose
    /// parent, if it has one, carries the given sampled flag.
    pub open spec fn decision(&self, parent_sampled: Option<bool>, trace_id: u128)
        -> SamplingDecision
        decreases self,
    {
        match self {
            Sampler::AlwaysOn => SamplingDecision::RecordAndSample,
            Sampler::AlwaysOff => SamplingDecision::Drop,
            Sampler::ParentBased(delegate) => match parent_sampled {
                Some(sampled) => inherited_decision(sampled),
                None => delegate.decision(None, trace_id),
            },
            Sampler::TraceIdRatioBased(ratio) => if trace_number(trace_id) < ratio.bound() {
                SamplingDecision::RecordAndSample
            } else {
                SamplingDecision::Drop
            },
        }
    }

    /// Decide from the parent's sampled flag and the trace identifier alone.
    pub fn decide(&self, parent_sampled: Option<bool>, trace_id: TraceId) -> (d: SamplingDecision)
        ensures
            d == self.decision(parent_sampled, trace_id.0),
        decreases self,
    {
        match self {
            Sampler::AlwaysOn => SamplingDecision::RecordAndSample,
            Sampler::AlwaysOff => SamplingDecision::Drop,
            Sampler::ParentBased(delegate) => match parent_sampled {
                Some(sampled) => if sampled {
                    SamplingDecision::RecordAndSample
                } else {
                    SamplingDecision::Drop
                },
                None => delegate.decide(None, trace_id),
            },
            Sampler::TraceIdRatioBased(ratio) => {
                let id: u128 = trace_id.0;
                let low: u128 = id & 0xffff_ffff_ffff_ffff;
                assert(low <= 0xffff_ffff_ffff_ffff) by (bit_vector)
                    requires
                        low == id & 0xffff_ffff_ffff_ffff,
                ;
                let number: u64 = (low as u64) >> 1;
                if number < ratio.upper_bound() {
                    SamplingDecision::RecordAndSample
                } else {
                    SamplingDecision::Drop
                }
            },
        }
    }

    /// Decide whether a span is kept. The decision depends only on the
    /// sampler, on the parent's sampled flag and on the trace identifier.
    /// No attribute is added, and the parent's trace state is carried on.
    pub fn should_sample(
        &self,
        parent_context: Option<&SpanContext>,
        trace_id: TraceId,
        name: &str,
        span_kind: &SpanKind,
        attributes: &[KeyValue],
        links: &[Link],
    ) -> (result: SamplingResult)
        ensures
            result.decision == self.decision(
                match parent_context {
                    Some(parent) => Some(parent.spec_is_sampled()),
                    None => None,
                },
                trace_id.0,
            ),
            result.attributes@ == Seq::<KeyValue>::empty(),
            result.trace_state@ == match parent_context {
                Some(parent) => parent.spec_trace_state(),
                None => Seq::<(Seq<char>, Seq<char>)>::empty(),
            },
    {
        let parent_sampled = match parent_context {
            Some(parent) => Some(parent.is_sampled()),
            None => None,
        };
        let decision = self.decide(parent_sampled, trace_id);
        let trace_state = match parent_context {
            Some(parent) => parent.trace_state().clone(),
            None => TraceState::default(),
        };
        SamplingResult { decision, attributes: Vec::new(), trace_state }
    }
}

/// A sampler is a function of its arguments: two calls with the same parent
/// flag and the same trace identifier give the same decision.
pub proof fn lemma_decision_is_deterministic(
    sampler: Sampler,
    parent_sampled: Option<bool>,
    first: TraceId,
    second: TraceId,
)
    requires
        first == second,
    ensures
        sampler.decision(parent_sampled, first.0) == sampler.decision(parent_sampled, second.0),
{
}

/// With the ratio 0 every trace is dropped, whatever its identifier and
/// whatever its parent.
pub proof fn lemma_ratio_zero_drops(
    ratio: SamplingRatio,
    parent_sampled: Option<bool>,
    trace_id: u128,
)
    requires
        ratio.bound() == 0,
    ensures
        Sampler::TraceIdRatioBased(ratio).decision(parent_sampled, trace_id)
            == SamplingDecision::Drop,
{
}

/// With the ratio 1 every trace is kept, whatever its identifier and
/// whatever its parent.
pub proof fn lemma_ratio_one_samples(
    ratio: SamplingRatio,
    parent_sampled: Option<bool>,
    trace_id: u128,
)
    requires
        ratio.bound() == FULL_BOUND,
    ensures
        Sampler::TraceIdRatioBased(ratio).decision(parent_sampled, trace_id)
            == SamplingDecision::RecordAndSample,
{
    let low = (trace_id & 0xffff_ffff_ffff_ffff) as u64;
    assert((low >> 1) < 0x8000_0000_0000_0000u64) by (bit_vector);
}

/// A larger ratio keeps every trace that a smaller one keeps.
pub proof fn lemma_ratio_is_monotonic(
    smaller: SamplingRatio,
    larger: SamplingRatio,
    parent_sampled: Option<bool>,
    trace_id: u128,
)
    requires
        smaller.bound() <= larger.bound(),
        Sampler::TraceIdRatioBased(smaller).decision(parent_sampled, trace_id)
            == SamplingDecision::RecordAndSample,
    ensures
        Sampler::TraceIdRatioBased(larger).decision(parent_sampled, trace_id)
            == SamplingDecision::RecordAndSample,
{
}

/// A child of a sampled parent is always kept by a parent-based sampler, and
/// a child of an unsampled parent always dropped, whatever the inner sampler
/// is and whether or not the parent is remote.
pub proof fn lemma_parent_based_follows_parent(
    delegate: Sampler,
    parent: SpanContext,
    trace_id: u128,
)
    ensures
        Sampler::ParentBased(Box::new(delegate)).decision(
            Some(parent.spec_is_sampled()),
            trace_id,
        ) == inherited_decision(parent.spec_is_sampled()),
        parent.spec_is_sampled() ==> Sampler::ParentBased(Box::new(delegate)).decision(
            Some(parent.spec_is_sampled()),
            trace_id,
        ) == SamplingDecision::RecordAndSample,
        !parent.spec_is_sampled() ==> Sampler::ParentBased(Box::new(delegate)).decision(
            Some(parent.spec_is_sampled()),
            trace_id,
        ) == SamplingDecision::Drop,
{
}

/// For a span without a parent a parent-based sampler decides exactly as its
/// inner sampler decides for a root span of the same trace.
pub proof fn lemma_parent_based_root_is_delegate(delegate: Sampler, trace_id: u128)
    ensures
        Sampler::ParentBased(Box::new(delegate)).decision(None, trace_id) == delegate.decision(
            None,
            trace_id,
        ),
{
}

} // verus!
