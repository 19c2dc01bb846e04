//! The configuration of a tracer: sampler, identifier generator, span limits
//! and resource.

use crate::common::{KeyValue, Value};
use crate::id_generator::{IdGenerator, RandomIdGenerator};
use crate::resource::Resource;
use crate::sampler::Sampler;
use vstd::prelude::*;
use vstd::string::*;

verus! {

/// How much a single span may hold.
#[derive(Clone, Copy, Debug, PartialEq, Eq, Structural)]
pub struct SpanLimits {
    /// The number of events a span keeps at most.
    pub max_events_per_span: u32,
    /// The number of attributes a span keeps at most.
    pub max_attributes_per_span: u32,
    /// The number of links a span keeps at most.
    pub max_links_per_span: u32,
    /// The number of attributes an event keeps at most.
    pub max_attributes_per_event: u32,
    /// The number of attributes a link keeps at most.
    pub max_attributes_per_link: u32,
}

impl Default for SpanLimits {
    /// A limit of 128 for each.
    fn default() -> (limits: Self)
        ensures
            limits == (SpanLimits {
                max_events_per_span: 128,
                max_attributes_per_span: 128,
                max_links_per_span: 128,
                max_attributes_per_event: 128,
                max_attributes_per_link: 128,
            }),
    {
        SpanLimits {
            max_events_per_span: 128,
            max_attributes_per_span: 128,
            max_links_per_span: 128,
            max_attributes_per_event: 128,
            max_attributes_per_link: 128,
        }
    }
}

/// Whether a character is a decimal digit.
pub open spec fn is_digit(c: char) -> bool {
    '0' <= c && c <= '9'
}

/// The number a run of decimal digits stands for.
pub open spec fn decimal_value(digits: Seq<char>) -> nat
    decreases digits.len(),
{
    if digits.len() == 0 {
        0
    } else {
        decimal_value(digits.drop_last()) * 10 + (digits.last() as u32 - '0' as u32) as nat
    }
}

/// The text without a leading plus sign.
pub open spec fn without_sign(text: Seq<char>) -> Seq<char> {
    if text.len() > 0 && text[0] == '+' {
        text.skip(1)
    } else {
        text
    }
}

/// The limit that a text gives: the text is an optional plus sign followed
/// by at least one decimal digit and nothing else, and the number fits in 32
/// bits. Any other text gives no limit.
pub open spec fn limit_of(text: Seq<char>) -> Option<u32> {
    let digits = without_sign(text);
    if digits.len() > 0 && (forall|i: int| 0 <= i < digits.len() ==> is_digit(#[trigger] digits[i]))
        && decimal_value(digits) <= u32::MAX {
        Some(decimal_value(digits) as u32)
    } else {
        None
    }
}

/// A run of digits stands for a number no smaller than any of its prefixes.
pub proof fn lemma_decimal_value_grows(digits: Seq<char>, k: int)
    requires
        0 <= k <= digits.len(),
        forall|i: int| 0 <= i < digits.len() ==> is_digit(#[trigger] digits[i]),
    ensures
        decimal_value(digits.take(k)) <= decimal_value(digits),
    decreases digits.len(),
{
    if k == digits.len() {
        assert(digits.take(k) =~= digits);
    } else {
        let front = digits.drop_last();
        assert(front.take(k) =~= digits.take(k));
        lemma_decimal_value_grows(front, k);
    }
}

/// Read a limit from a text such as the value of an environment variable.
pub fn parse_limit(text: &str) -> (limit: Option<u32>)
    ensures
        limit == limit_of(text@),
{
    let n = text.unicode_len();
    let start: usize = if n > 0 && text.get_char(0) == '+' {
        1
    } else {
        0
    };
    let ghost digits = without_sign(text@);
    if start == n {
        return None;
    }
    let mut value: u64 = 0;
    let mut i: usize = start;
    proof {
        assert(digits.take(0) =~= Seq::<char>::empty());
    }
    while i < n
        invariant
            start <= i <= n,
            n == text@.len(),
            digits == without_sign(text@),
            digits.len() == n - start,
            forall|j: int| 0 <= j < digits.len() ==> digits[j] == text@[j + start],
            forall|j: int| 0 <= j < i - start ==> is_digit(#[trigger] digits[j]),
            value == decimal_value(digits.take(i - start)),
            value <= u32::MAX,
        decreases n - i,
    {
        let c = text.get_char(i);
        if !('0' <= c && c <= '9') {
            assert(!is_digit(digits[i - start]));
            return None;
        }
        let digit: u64 = (c as u32 - '0' as u32) as u64;
        let ghost prefix = digits.take(i - start + 1);
        proof {
            assert(prefix.drop_last() =~= digits.take(i - start));
            assert(prefix.last() == c);
        }
        value = value * 10 + digit;
        if value > 0xffff_ffff {
            proof {
                if forall|j: int| 0 <= j < digits.len() ==> is_digit(#[trigger] digits[j]) {
                    lemma_decimal_value_grows(digits, i - start + 1);
                }
            }
            return None;
        }
        i = i + 1;
    }
    proof {
        assert(digits.take(n - start) =~= digits);
    }
    Some(value as u32)
}

/// The key under which a resource names its service.
pub open spec fn service_name_key() -> Seq<char> {
    "service.name"@
}

/// The configuration of a tracer.
pub struct Config<G: IdGenerator> {
    /// The sampler that decides which spans are kept.
    pub sampler: Sampler,
    /// The generator of trace and span identifiers.
    pub id_generator: G,
    /// How much a single span may hold.
    pub span_limits: SpanLimits,
    /// The entity that produces the telemetry.
    pub resource: Resource,
}

/// The default configuration.
pub fn config() -> (c: Config<RandomIdGenerator>)
    ensures
        c.wf(),
        c.sampler == Sampler::ParentBased(Box::new(Sampler::AlwaysOn)),
        c.id_generator.state() == RandomIdGenerator::default_seed(),
        c.span_limits == (SpanLimits {
            max_events_per_span: 128,
            max_attributes_per_span: 128,
            max_links_per_span: 128,
            max_attributes_per_event: 128,
            max_attributes_per_link: 128,
        }),
        c.resource@.dom() == set![service_name_key()],
        c.resource@[service_name_key()].text() == "unknown_service"@,
{
    Config::default()
}

impl<G: IdGenerator> Config<G> {
    /// The resource is well formed and names a service.
    pub open spec fn wf(&self) -> bool {
        &&& self.resource.wf()
        &&& self.resource@.dom().contains(service_name_key())
    }

    /// Specify the sampler to be used.
    pub fn with_sampler(self, sampler: Sampler) -> (c: Self)
        ensures
            c.sampler == sampler,
            c.id_generator == self.id_generator,
            c.span_limits == self.span_limits,
            c.resource == self.resource,
    {
        let mut config = self;
        config.sampler = sampler;
        config
    }

    /// Specify the id generator to be used.
    pub fn with_id_generator<T: IdGenerator>(self, id_generator: T) -> (c: Config<T>)
        ensures
            c.id_generator == id_generator,
            c.sampler == self.sampler,
            c.span_limits == self.span_limits,
            c.resource == self.resource,
    {
        Config {
            sampler: self.sampler,
            id_generator,
            span_limits: self.span_limits,
            resource: self.resource,
        }
    }

    /// Specify the number of events to be recorded per span.
    pub fn with_max_events_per_span(self, max_events: u32) -> (c: Self)
        ensures
            c.span_limits == (SpanLimits { max_events_per_span: max_events, ..self.span_limits }),
            c.sampler == self.sampler,
            c.id_generator == self.id_generator,
            c.resource == self.resource,
    {
        let mut config = self;
        config.span_limits.max_events_per_span = max_events;
        config
    }

    /// Specify the number of attributes to be recorded per span.
    pub fn with_max_attributes_per_span(self, max_attributes: u32) -> (c: Self)
        ensures
            c.span_limits == (SpanLimits {
                max_attributes_per_span: max_attributes,
                ..self.span_limits
            }),
            c.sampler == self.sampler,
            c.id_generator == self.id_generator,
            c.resource == self.resource,
    {
        let mut config = self;
        config.span_limits.max_attributes_per_span = max_attributes;
        config
    }

    /// Specify the number of links to be recorded per span.
    pub fn with_max_links_per_span(self, max_links: u32) -> (c: Self)
        ensures
            c.span_limits == (SpanLimits { max_links_per_span: max_links, ..self.span_limits }),
            c.sampler == self.sampler,
            c.id_generator == self.id_generator,
            c.resource == self.resource,
    {
        let mut config = self;
        config.span_limits.max_links_per_span = max_links;
        config
    }

    /// Specify the number of attributes one event can have.
    pub fn with_max_attributes_per_event(self, max_attributes: u32) -> (c: Self)
        ensures
            c.span_limits == (SpanLimits {
                max_attributes_per_event: max_attributes,
                ..self.span_limits
            }),
            c.sampler == self.sampler,
            c.id_generator == self.id_generator,
            c.resource == self.resource,
    {
        let mut config = self;
        config.span_limits.max_attributes_per_event = max_attributes;
        config
    }

    /// Specify the number of attributes one link can have.
    pub fn with_max_attributes_per_link(self, max_attributes: u32) -> (c: Self)
        ensures
            c.span_limits == (SpanLimits {
                max_attributes_per_link: max_attributes,
                ..self.span_limits
            }),
            c.sampler == self.sampler,
            c.id_generator == self.id_generator,
            c.resource == self.resource,
    {
        let mut config = self;
        config.span_limits.max_attributes_per_link = max_attributes;
        config
    }

    /// Specify all limits at once.
    pub fn with_span_limits(self, span_limits: SpanLimits) -> (c: Self)
        ensures
            c.span_limits == span_limits,
            c.sampler == self.sampler,
            c.id_generator == self.id_generator,
            c.resource == self.resource,
    {
        let mut config = self;
        config.span_limits = span_limits;
        config
    }

    /// Add attributes that describe the entity that produces telemetry.
    /// Where the configuration already has a key, the new value replaces
    /// the old one.
    pub fn with_resource(self, resource: Resource) -> (c: Self)
        requires
            self.resource.wf(),
        ensures
            c.resource.wf(),
            c.resource@ == self.resource@.union_prefer_right(resource@),
            self.wf() ==> c.wf(),
            c.sampler == self.sampler,
            c.id_generator == self.id_generator,
            c.span_limits == self.span_limits,
    {
        Config {
            sampler: self.sampler,
            id_generator: self.id_generator,
            span_limits: self.span_limits,
            resource: self.resource.merge(resource),
        }
    }

    /// Take the limits on attributes, events and links per span from texts,
    /// such as the values of environment variables. A text that is missing
    /// or gives no limit leaves the limit as it is.
    pub fn with_limit_overrides(
        self,
        attribute_count: Option<&str>,
        event_count: Option<&str>,
        link_count: Option<&str>,
    ) -> (c: Self)
        ensures
            c.span_limits == (SpanLimits {
                max_attributes_per_span: overridden(
                    self.span_limits.max_attributes_per_span,
                    attribute_count,
                ),
                max_events_per_span: overridden(self.span_limits.max_events_per_span, event_count),
                max_links_per_span: overridden(self.span_limits.max_links_per_span, link_count),
                ..self.span_limits
            }),
            c.sampler == self.sampler,
            c.id_generator == self.id_generator,
            c.resource == self.resource,
    {
        let mut config = self;
        config.span_limits.max_attributes_per_span = override_limit(
            config.span_limits.max_attributes_per_span,
            attribute_count,
        );
        config.span_limits.max_events_per_span = override_limit(
            config.span_limits.max_events_per_span,
            event_count,
        );
        config.span_limits.max_links_per_span = override_limit(
            config.span_limits.max_links_per_span,
            link_count,
        );
        config
    }

    /// Return the service name defined as `service.name` in the resource.
    pub fn get_service_name(&self) -> (name: String)
        requires
            self.wf(),
        ensures
            name@ == self.resource@[service_name_key()].text(),
    {
        let key = "service.name".to_owned();
        match self.resource.get(&key) {
            Some(value) => value.to_text(),
            None => String::new(),
        }
    }
}

/// A limit after an override was applied to it.
pub open spec fn overridden(current: u32, text: Option<&str>) -> u32 {
    match text {
        Some(t) => match limit_of(t@) {
            Some(limit) => limit,
            None => current,
        },
        None => current,
    }
}

/// Apply an override to a limit.
pub fn override_limit(current: u32, text: Option<&str>) -> (limit: u32)
    ensures
        limit == overridden(current, text),
{
    match text {
        Some(t) => match parse_limit(t) {
            Some(limit) => limit,
            None => current,
        },
        None => current,
    }
}

impl Default for Config<RandomIdGenerator> {
    /// A parent-based sampler that keeps every root span, the default
    /// identifier generator, the default limits and a resource that names
    /// the service `unknown_service`.
    fn default() -> (c: Self)
        ensures
            c.wf(),
            c.sampler == Sampler::ParentBased(Box::new(Sampler::AlwaysOn)),
            c.id_generator.state() == RandomIdGenerator::default_seed(),
            c.span_limits == (SpanLimits {
                max_events_per_span: 128,
                max_attributes_per_span: 128,
                max_links_per_span: 128,
                max_attributes_per_event: 128,
                max_attributes_per_link: 128,
            }),
            c.resource@.dom() == set![service_name_key()],
            c.resource@[service_name_key()].text() == "unknown_service"@,
    {
        let mut resource = Resource::empty();
        resource.insert(
            KeyValue::new("service.name".to_owned(), Value::String("unknown_service".to_owned())),
        );
        proof {
            assert(resource@.dom() =~= set![service_name_key()]);
        }
        Config {
            sampler: Sampler::ParentBased(Box::new(Sampler::AlwaysOn)),
            id_generator: RandomIdGenerator::default(),
            span_limits: SpanLimits::default(),
            resource,
        }
    }
}

} // verus!
