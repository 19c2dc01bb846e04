//! Trace and span identifiers, trace flags, trace state and span contexts.

use vstd::prelude::*;

verus! {

/// A 128-bit trace identifier. The all-zero value is reserved as invalid.
#[derive(Clone, Copy, Debug, PartialEq, Eq, Structural, Hash)]
pub struct TraceId(pub u128);

/// A 64-bit span identifier. The all-zero value is reserved as invalid.
#[derive(Clone, Copy, Debug, PartialEq, Eq, Structural, Hash)]
pub struct SpanId(pub u64);

impl TraceId {
    /// The reserved identifier that no real trace carries.
    pub fn invalid() -> (id: Self)
        ensures
            id == TraceId(0),
            !id.is_valid(),
    {
        TraceId(0)
    }

    /// Whether this is an identifier a real trace may carry.
    pub open spec fn is_valid(&self) -> bool {
        self.0 != 0
    }

    /// The identifier with the given numeric value.
    pub fn from_u128(value: u128) -> (id: Self)
        ensures
            id.0 == value,
    {
        TraceId(value)
    }

    /// The identifier's numeric value.
    pub fn to_u128(&self) -> (value: u128)
        ensures
            value == self.0,
    {
        self.0
    }

    /// Accept a candidate value as an identifier unless it is the reserved
    /// all-zero value, in which case the caller has to draw again.
    pub fn from_candidate(candidate: u128) -> (id: Option<Self>)
        ensures
            candidate == 0 ==> id is None,
            candidate != 0 ==> id == Some(TraceId(candidate)),
    {
        if candidate == 0 {
            None
        } else {
            Some(TraceId(candidate))
        }
    }
}

impl SpanId {
    /// The reserved identifier that no real span carries.
    pub fn invalid() -> (id: Self)
        ensures
            id == SpanId(0),
            !id.is_valid(),
    {
        SpanId(0)
    }

    /// Whether this is an identifier a real span may carry.
    pub open spec fn is_valid(&self) -> bool {
        self.0 != 0
    }

    /// The identifier with the given numeric value.
    pub fn from_u64(value: u64) -> (id: Self)
        ensures
            id.0 == value,
    {
        SpanId(value)
    }

    /// The identifier's numeric value.
    pub fn to_u64(&self) -> (value: u64)
        ensures
            value == self.0,
    {
        self.0
    }

    /// Accept a candidate value as an identifier unless it is the reserved
    /// all-zero value, in which case the caller has to draw again.
    pub fn from_candidate(candidate: u64) -> (id: Option<Self>)
        ensures
            candidate == 0 ==> id is None,
            candidate != 0 ==> id == Some(SpanId(candidate)),
    {
        if candidate == 0 {
            None
        } else {
            Some(SpanId(candidate))
        }
    }
}

/// Flags that travel with a span context. Bit 0 is the sampled flag.
#[derive(Clone, Copy, Debug, PartialEq, Eq, Structural, Hash)]
pub struct TraceFlags(pub u8);

impl TraceFlags {
    /// Flags with only the sampled bit set.
    pub fn sampled_only() -> (flags: Self)
        ensures
            flags == TraceFlags(1),
            flags.sampled(),
    {
        assert(1u8 & 1u8 == 1u8) by (bit_vector);
        TraceFlags(1)
    }

    /// Flags with no bit set.
    pub fn not_sampled() -> (flags: Self)
        ensures
            flags == TraceFlags(0),
            !flags.sampled(),
    {
        assert(0u8 & 1u8 != 1u8) by (bit_vector);
        TraceFlags(0)
    }

    /// Whether the sampled bit is set.
    pub open spec fn sampled(&self) -> bool {
        self.0 & 1u8 == 1u8
    }

    /// Flags with the given bits.
    pub fn new(bits: u8) -> (flags: Self)
        ensures
            flags.0 == bits,
    {
        TraceFlags(bits)
    }

    /// Whether the sampled bit is set.
    pub fn is_sampled(&self) -> (b: bool)
        ensures
            b == self.sampled(),
    {
        self.0 & 1u8 == 1u8
    }

    /// The same flags with the sampled bit set or cleared.
    pub fn with_sampled(&self, sampled: bool) -> (flags: Self)
        ensures
            flags.sampled() == sampled,
            flags.0 & 0xfeu8 == self.0 & 0xfeu8,
    {
        let bits: u8 = self.0;
        if sampled {
            assert((bits | 1u8) & 1u8 == 1u8 && (bits | 1u8) & 0xfeu8 == bits & 0xfeu8)
                by (bit_vector);
            TraceFlags(bits | 1u8)
        } else {
            assert((bits & 0xfeu8) & 1u8 != 1u8 && (bits & 0xfeu8) & 0xfeu8 == bits & 0xfeu8)
                by (bit_vector);
            TraceFlags(bits & 0xfeu8)
        }
    }

    /// The flags as a byte.
    pub fn to_u8(&self) -> (bits: u8)
        ensures
            bits == self.0,
    {
        self.0
    }
}

/// Vendor-specific key/value pairs that travel with a trace, most recent first.
#[derive(Debug)]
pub struct TraceState {
    entries: Vec<(String, String)>,
}

impl View for TraceState {
    type V = Seq<(Seq<char>, Seq<char>)>;

    /// The pairs in order, each as its key and value.
    closed spec fn view(&self) -> Seq<(Seq<char>, Seq<char>)> {
        Seq::new(self.entries@.len(), |i: int| (self.entries@[i].0@, self.entries@[i].1@))
    }
}

impl TraceState {
    /// A trace state built from the given pairs, kept in their order.
    pub fn from_key_value(entries: Vec<(String, String)>) -> (state: Self)
        ensures
            state@ == Seq::new(entries@.len(), |i: int| (entries@[i].0@, entries@[i].1@)),
    {
        TraceState { entries }
    }

    /// The number of pairs.
    pub fn len(&self) -> (n: usize)
        ensures
            n == self@.len(),
    {
        self.entries.len()
    }

    /// The value of the first pair that carries `key`, if any.
    pub fn get(&self, key: &String) -> (value: Option<&String>)
        ensures
            match value {
                Some(v) => exists|i: int|
                    0 <= i < self@.len() && self@[i].0 == key@ && self@[i].1 == v@ && forall|j: int|
                        0 <= j < i ==> self@[j].0 != key@,
                None => forall|i: int| 0 <= i < self@.len() ==> self@[i].0 != key@,
            },
    {
        let mut i: usize = 0;
        while i < self.entries.len()
            invariant
                i <= self.entries@.len(),
                forall|j: int| 0 <= j < i ==> self@[j].0 != key@,
            decreases self.entries@.len() - i,
        {
            if self.entries[i].0 == *key {
                assert(self@[i as int].0 == key@);
                assert(self@[i as int].1 == self.entries@[i as int].1@);
                return Some(&self.entries[i].1);
            }
            i = i + 1;
        }
        None
    }
}

impl Default for TraceState {
    /// The empty trace state.
    fn default() -> (state: Self)
        ensures
            state@ == Seq::<(Seq<char>, Seq<char>)>::empty(),
    {
        let state = TraceState { entries: Vec::new() };
        assert(state@ =~= Seq::<(Seq<char>, Seq<char>)>::empty());
        state
    }
}

impl Clone for TraceState {
    /// A copy with the same pairs in the same order.
    fn clone(&self) -> (copy: Self)
        ensures
            copy@ == self@,
    {
        let mut entries: Vec<(String, String)> = Vec::new();
        let mut i: usize = 0;
        while i < self.entries.len()
            invariant
                i <= self.entries@.len(),
                entries@.len() == i,
                forall|j: int|
                    0 <= j < i ==> entries@[j].0@ == self.entries@[j].0@ && entries@[j].1@
                        == self.entries@[j].1@,
            decreases self.entries@.len() - i,
        {
            let key = self.entries[i].0.clone();
            let value = self.entries[i].1.clone();
            entries.push((key, value));
            i = i + 1;
        }
        let copy = TraceState { entries };
        assert(copy@ =~= self@);
        copy
    }
}

/// The part of a span that is handed on to its children and across process
/// boundaries.
#[derive(Debug)]
pub struct SpanContext {
    trace_id: TraceId,
    span_id: SpanId,
    trace_flags: TraceFlags,
    is_remote: bool,
    trace_state: TraceState,
}

impl SpanContext {
    /// The trace this span belongs to.
    pub closed spec fn spec_trace_id(&self) -> TraceId {
        self.trace_id
    }

    /// The span's own identifier.
    pub closed spec fn spec_span_id(&self) -> SpanId {
        self.span_id
    }

    /// The flags carried by the context.
    pub closed spec fn spec_trace_flags(&self) -> TraceFlags {
        self.trace_flags
    }

    /// Whether the context was received from another process.
    pub closed spec fn spec_is_remote(&self) -> bool {
        self.is_remote
    }

    /// The vendor pairs carried by the context.
    pub closed spec fn spec_trace_state(&self) -> Seq<(Seq<char>, Seq<char>)> {
        self.trace_state@
    }

    /// Whether the sampled flag is set.
    pub open spec fn spec_is_sampled(&self) -> bool {
        self.spec_trace_flags().sampled()
    }

    /// Whether both identifiers are valid.
    pub open spec fn spec_is_valid(&self) -> bool {
        self.spec_trace_id().is_valid() && self.spec_span_id().is_valid()
    }

    /// Assemble a span context.
    pub fn new(
        trace_id: TraceId,
        span_id: SpanId,
        trace_flags: TraceFlags,
        is_remote: bool,
        trace_state: TraceState,
    ) -> (cx: Self)
        ensures
            cx.spec_trace_id() == trace_id,
            cx.spec_span_id() == span_id,
            cx.spec_trace_flags() == trace_flags,
            cx.spec_is_remote() == is_remote,
            cx.spec_trace_state() == trace_state@,
    {
        SpanContext { trace_id, span_id, trace_flags, is_remote, trace_state }
    }

    /// The context that stands for "no span": invalid identifiers, no flags.
    pub fn empty_context() -> (cx: Self)
        ensures
            !cx.spec_is_valid(),
            cx.spec_trace_id() == TraceId(0),
            cx.spec_span_id() == SpanId(0),
            cx.spec_trace_flags() == TraceFlags(0),
            !cx.spec_is_remote(),
            cx.spec_trace_state() == Seq::<(Seq<char>, Seq<char>)>::empty(),
    {
        SpanContext {
            trace_id: TraceId(0),
            span_id: SpanId(0),
            trace_flags: TraceFlags(0),
            is_remote: false,
            trace_state: TraceState::default(),
        }
    }

    /// The trace this span belongs to.
    pub fn trace_id(&self) -> (id: TraceId)
        ensures
            id == self.spec_trace_id(),
    {
        self.trace_id
    }

    /// The span's own identifier.
    pub fn span_id(&self) -> (id: SpanId)
        ensures
            id == self.spec_span_id(),
    {
        self.span_id
    }

    /// The flags carried by the context.
    pub fn trace_flags(&self) -> (flags: TraceFlags)
        ensures
            flags == self.spec_trace_flags(),
    {
        self.trace_flags
    }

    /// Whether both identifiers are valid.
    pub fn is_valid(&self) -> (b: bool)
        ensures
            b == self.spec_is_valid(),
    {
        self.trace_id.0 != 0 && self.span_id.0 != 0
    }

    /// Whether the context was received from another process.
    pub fn is_remote(&self) -> (b: bool)
        ensures
            b == self.spec_is_remote(),
    {
        self.is_remote
    }

    /// Whether the sampled flag is set.
    pub fn is_sampled(&self) -> (b: bool)
        ensures
            b == self.spec_is_sampled(),
    {
        self.trace_flags.is_sampled()
    }

    /// The vendor pairs carried by the context.
    pub fn trace_state(&self) -> (state: &TraceState)
        ensures
            state@ == self.spec_trace_state(),
    {
        &self.trace_state
    }
}

impl Clone for SpanContext {
    /// A copy that agrees with this context in every part.
    fn clone(&self) -> (copy: Self)
        ensures
            copy.spec_trace_id() == self.spec_trace_id(),
            copy.spec_span_id() == self.spec_span_id(),
            copy.spec_trace_flags() == self.spec_trace_flags(),
            copy.spec_is_remote() == self.spec_is_remote(),
            copy.spec_trace_state() == self.spec_trace_state(),
    {
        SpanContext {
            trace_id: self.trace_id,
            span_id: self.span_id,
            trace_flags: self.trace_flags,
            is_remote: self.is_remote,
            trace_state: self.trace_state.clone(),
        }
    }
}

} // verus!
