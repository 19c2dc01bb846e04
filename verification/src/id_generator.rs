//! Generators of trace and span identifiers.

use crate::ids::{SpanId, TraceId};
use vstd::prelude::*;

verus! {

/// A source of identifiers for new traces and spans. It never gives out the
/// reserved all-zero identifier.
pub trait IdGenerator {
    /// An identifier for a new trace.
    fn new_trace_id(&mut self) -> (id: TraceId)
        ensures
            id.is_valid(),
    ;

    /// An identifier for a new span.
    fn new_span_id(&mut self) -> (id: SpanId)
        ensures
            id.is_valid(),
    ;
}

/// One step of the generator: three shifts and exclusive-ors that permute
/// the non-zero 64-bit numbers.
pub open spec fn scramble(x: u64) -> u64 {
    let a = x ^ (x << 13);
    let b = a ^ (a >> 7);
    b ^ (b << 17)
}

/// The 128-bit number with the given high and low halves.
pub open spec fn join_halves(high: u64, low: u64) -> u128 {
    ((high as u128) << 64) | (low as u128)
}

/// A step never turns a non-zero number into zero.
pub proof fn lemma_scramble_nonzero(x: u64)
    requires
        x != 0,
    ensures
        scramble(x) != 0,
{
    let a = x ^ (x << 13);
    let b = a ^ (a >> 7);
    assert(a != 0) by (bit_vector)
        requires
            x != 0,
            a == x ^ (x << 13),
    ;
    assert(b != 0) by (bit_vector)
        requires
            a != 0,
            b == a ^ (a >> 7),
    ;
    assert(b ^ (b << 17) != 0) by (bit_vector)
        requires
            b != 0,
    ;
}

/// The default generator: a fast pseudo-random sequence that starts from a
/// seed. Seeded from a source of entropy once per process, it gives
/// identifiers that are unique for all practical purposes; seeded with a
/// fixed number, it gives the same identifiers on every run.
#[derive(Clone, Copy, Debug)]
pub struct RandomIdGenerator {
    state: u64,
}

impl RandomIdGenerator {
    /// The seed used where none is given, and in place of a seed of zero.
    pub open spec fn default_seed() -> u64 {
        0x9e37_79b9_7f4a_7c15
    }

    /// The number from which the next identifier is derived; never zero.
    pub closed spec fn state(&self) -> u64 {
        if self.state == 0 {
            Self::default_seed()
        } else {
            self.state
        }
    }

    /// A generator that starts from `seed`, or from the default seed when
    /// `seed` is zero.
    pub fn new(seed: u64) -> (g: Self)
        ensures
            g.state() == if seed == 0 {
                Self::default_seed()
            } else {
                seed
            },
    {
        if seed == 0 {
            RandomIdGenerator { state: 0x9e37_79b9_7f4a_7c15 }
        } else {
            RandomIdGenerator { state: seed }
        }
    }

    /// Advance the sequence by one step and give the new number.
    fn step(&mut self) -> (x: u64)
        ensures
            x == scramble(old(self).state()),
            x != 0,
            final(self).state() == x,
    {
        let mut x: u64 = if self.state == 0 {
            0x9e37_79b9_7f4a_7c15
        } else {
            self.state
        };
        proof {
            lemma_scramble_nonzero(x);
        }
        x = x ^ (x << 13);
        x = x ^ (x >> 7);
        x = x ^ (x << 17);
        self.state = x;
        x
    }
}

impl Default for RandomIdGenerator {
    /// A generator that starts from the default seed.
    fn default() -> (g: Self)
        ensures
            g.state() == Self::default_seed(),
    {
        RandomIdGenerator::new(0)
    }
}

impl IdGenerator for RandomIdGenerator {
    /// Two steps of the sequence, joined to 128 bits.
    fn new_trace_id(&mut self) -> (id: TraceId)
        ensures
            id.0 == join_halves(scramble(old(self).state()), scramble(scramble(old(self).state()))),
            final(self).state() == scramble(scramble(old(self).state())),
    {
        let high: u64 = self.step();
        let low: u64 = self.step();
        let value: u128 = ((high as u128) << 64) | (low as u128);
        assert(value != 0) by (bit_vector)
            requires
                low != 0,
                value == ((high as u128) << 64) | (low as u128),
        ;
        TraceId(value)
    }

    /// One step of the sequence.
    fn new_span_id(&mut self) -> (id: SpanId)
        ensures
            id.0 == scramble(old(self).state()),
            final(self).state() == scramble(old(self).state()),
    {
        SpanId(self.step())
    }
}

} // verus!
