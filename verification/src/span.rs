//! The record of a finished span and the parts it is made of.

use crate::common::{InstrumentationLibrary, KeyValue};
use crate::evicted_hash_map::EvictedHashMap;
use crate::evicted_queue::EvictedQueue;
use crate::ids::{SpanContext, SpanId};
use crate::resource::Resource;
use std::time::{SystemTime, UNIX_EPOCH};
use vstd::prelude::*;

verus! {

/// Reads the system clock through `std::time::SystemTime::now` and gives the
/// time that has passed since the Unix epoch in nanoseconds, or zero for a
/// clock set before the epoch. Nothing is claimed about the number that
/// comes back.
#[verifier::external_body]
pub(crate) fn now() -> (nanos: u64) {
    match SystemTime::now().duration_since(UNIX_EPOCH) {
        Ok(elapsed) => elapsed.as_nanos() as u64,
        Err(_) => 0,
    }
}

/// The role a span plays in a trace.
#[derive(Clone, Copy, Debug, PartialEq, Eq, Structural, Hash)]
pub enum SpanKind {
    /// Work inside one process.
    Internal,
    /// The handling of an incoming request.
    Server,
    /// An outgoing request.
    Client,
    /// The sending of a message.
    Producer,
    /// The receiving of a message.
    Consumer,
}

/// The outcome a span reports.
#[derive(Clone, Debug)]
pub enum Status {
    /// No outcome was set.
    Unset,
    /// The work succeeded.
    Okay,
    /// The work failed, with a description of the failure.
    Error {
        /// What went wrong.
        description: String,
    },
}

/// Something that happened during a span.
#[derive(Clone, Debug)]
pub struct Event {
    /// The event's name.
    pub name: String,
    /// When it happened, in nanoseconds since the Unix epoch.
    pub timestamp: u64,
    /// Attributes that describe it.
    pub attributes: Vec<KeyValue>,
    /// How many attributes were left out because of the per-event limit.
    pub dropped_attributes_count: u32,
}

/// A reference from one span to another.
#[derive(Clone, Debug)]
pub struct Link {
    /// The span referred to.
    pub span_context: SpanContext,
    /// Attributes that describe the reference.
    pub attributes: Vec<KeyValue>,
    /// How many attributes were left out because of the per-link limit.
    pub dropped_attributes_count: u32,
}

/// The attributes that are kept under a limit: the first `limit` of them.
pub open spec fn kept_attributes(attributes: Seq<KeyValue>, limit: u32) -> Seq<KeyValue> {
    if attributes.len() <= limit {
        attributes
    } else {
        attributes.take(limit as int)
    }
}

/// The number of attributes that a limit leaves out, as far as a 32-bit
/// counter can tell.
pub open spec fn dropped_attributes(count: nat, limit: u32) -> u32 {
    if count <= limit {
        0
    } else if count - limit <= u32::MAX {
        (count - limit) as u32
    } else {
        u32::MAX
    }
}

/// Cut a list of attributes down to a limit and count what was cut off.
fn limit_attributes(attributes: Vec<KeyValue>, limit: u32) -> (limited: (Vec<KeyValue>, u32))
    ensures
        limited.0@ == kept_attributes(attributes@, limit),
        limited.1 == dropped_attributes(attributes@.len(), limit),
{
    let mut attributes = attributes;
    let count = attributes.len();
    let max = limit as usize;
    if count <= max {
        (attributes, 0)
    } else {
        let excess = count - max;
        attributes.truncate(max);
        let dropped: u32 = if excess > 0xffff_ffff {
            0xffff_ffff
        } else {
            excess as u32
        };
        (attributes, dropped)
    }
}

impl Event {
    /// An event with at most `max_attributes` of the given attributes: the
    /// first ones are kept and the others counted as dropped.
    pub fn new(
        name: String,
        timestamp: u64,
        attributes: Vec<KeyValue>,
        max_attributes: u32,
    ) -> (event: Self)
        ensures
            event.name == name,
            event.timestamp == timestamp,
            event.attributes@ == kept_attributes(attributes@, max_attributes),
            event.dropped_attributes_count == dropped_attributes(
                attributes@.len(),
                max_attributes,
            ),
    {
        let (attributes, dropped_attributes_count) = limit_attributes(attributes, max_attributes);
        Event { name, timestamp, attributes, dropped_attributes_count }
    }
}

impl Link {
    /// A link with at most `max_attributes` of the given attributes: the
    /// first ones are kept and the others counted as dropped.
    pub fn new(span_context: SpanContext, attributes: Vec<KeyValue>, max_attributes: u32) -> (link:
        Self)
        ensures
            link.span_context == span_context,
            link.attributes@ == kept_attributes(attributes@, max_attributes),
            link.dropped_attributes_count == dropped_attributes(attributes@.len(), max_attributes),
    {
        let (attributes, dropped_attributes_count) = limit_attributes(attributes, max_attributes);
        Link { span_context, attributes, dropped_attributes_count }
    }
}

/// The snapshot of a span taken when it ends, as handed to span processors
/// and exporters.
#[derive(Debug)]
pub struct SpanData {
    /// The span's own context.
    pub span_context: SpanContext,
    /// The identifier of the parent span, or the invalid identifier for a root.
    pub parent_span_id: SpanId,
    /// The role of the span.
    pub span_kind: SpanKind,
    /// The span's name.
    pub name: String,
    /// When the span started, in nanoseconds since the Unix epoch.
    pub start_time: u64,
    /// When the span ended, in nanoseconds since the Unix epoch.
    pub end_time: u64,
    /// The span's attributes, bounded by the per-span limit.
    pub attributes: EvictedHashMap,
    /// The span's events, bounded by the per-span limit.
    pub events: EvictedQueue<Event>,
    /// The span's links, bounded by the per-span limit.
    pub links: EvictedQueue<Link>,
    /// The outcome the span reported.
    pub status: Status,
    /// The entity that produced the span.
    pub resource: Resource,
    /// The library that produced the span.
    pub instrumentation_lib: InstrumentationLibrary,
}

} // verus!
