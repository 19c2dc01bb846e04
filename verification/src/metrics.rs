//! Views on metric instruments, the choice of an aggregation for an
//! instrument, and meters that record nothing.

use crate::common::KeyValue;
use vstd::prelude::*;
use vstd::view::View as _;

verus! {

/// The kinds of metric instruments.
#[derive(Clone, Copy, Debug, PartialEq, Eq, Structural, Hash)]
pub enum InstrumentKind {
    /// Records a distribution of values.
    Histogram,
    /// Observes the current value.
    GaugeObserver,
    /// Counts upwards.
    Counter,
    /// Counts upwards and downwards.
    UpDownCounter,
    /// Observes a count that only grows.
    CounterObserver,
    /// Observes a count that grows and shrinks.
    UpDownCounterObserver,
}

/// The ways in which the measurements of an instrument are combined.
#[derive(Clone, Copy, Debug, PartialEq, Eq, Structural, Hash)]
pub enum Aggregation {
    /// The sum of the measurements.
    Sum,
    /// The last measurement.
    LastValue,
    /// The counts of the measurements in buckets.
    Histogram,
}

impl InstrumentKind {
    /// The aggregation used for an instrument of this kind where no view
    /// asks for another: the last value for a gauge, a histogram for a
    /// histogram, the sum for every counter.
    pub open spec fn default_aggregation(&self) -> Aggregation {
        match self {
            InstrumentKind::GaugeObserver => Aggregation::LastValue,
            InstrumentKind::Histogram => Aggregation::Histogram,
            _ => Aggregation::Sum,
        }
    }

    /// The aggregation used where no view asks for another.
    pub fn default_aggregator_builder(&self) -> (a: Aggregation)
        ensures
            a == self.default_aggregation(),
    {
        match self {
            InstrumentKind::GaugeObserver => Aggregation::LastValue,
            InstrumentKind::Histogram => Aggregation::Histogram,
            _ => Aggregation::Sum,
        }
    }
}

/// A selector that is fast and needs little memory: the last value for
/// gauges and the sum for everything else.
#[derive(Clone, Copy, Debug)]
pub struct InexpensiveSelector;

/// This selector is faster and uses less memory than the others.
pub fn inexpensive() -> (selector: InexpensiveSelector) {
    InexpensiveSelector
}

impl InexpensiveSelector {
    /// The aggregation for an instrument of the given kind.
    pub fn aggregator_for(&self, kind: InstrumentKind) -> (a: Option<Aggregation>)
        ensures
            a == Some(
                if kind == InstrumentKind::GaugeObserver {
                    Aggregation::LastValue
                } else {
                    Aggregation::Sum
                },
            ),
    {
        match kind {
            InstrumentKind::GaugeObserver => Some(Aggregation::LastValue),
            _ => Some(Aggregation::Sum),
        }
    }
}

/// Select instruments by name, kind, unit or meter name, version and
/// schema. Only an instrument that meets all conditions is selected.
#[derive(Debug)]
pub struct InstrumentSelector {
    /// The kind to match, if any.
    pub instrument_kind: Option<InstrumentKind>,
    /// The name to match; `*` matches every name.
    pub instrument_name: String,
    /// The unit to match, if any.
    pub instrument_unit: Option<String>,
    /// The meter name to match, if any.
    pub meter_name: Option<String>,
    /// The meter version to match, if any.
    pub meter_version: Option<String>,
    /// The meter schema to match, if any.
    pub meter_schema_url: Option<String>,
}

/// Whether two optional texts are both absent or both present and the same.
pub open spec fn same_text(a: Option<String>, b: Option<String>) -> bool {
    match (a, b) {
        (Some(x), Some(y)) => x@ == y@,
        (None, None) => true,
        _ => false,
    }
}

impl Default for InstrumentSelector {
    /// The selector that matches every instrument.
    fn default() -> (s: Self)
        ensures
            s.instrument_name@ == "*"@,
            s.instrument_kind is None,
            s.instrument_unit is None,
            s.meter_name is None,
            s.meter_version is None,
            s.meter_schema_url is None,
    {
        InstrumentSelector {
            instrument_kind: None,
            instrument_name: "*".to_owned(),
            instrument_unit: None,
            meter_name: None,
            meter_version: None,
            meter_schema_url: None,
        }
    }
}

impl InstrumentSelector {
    /// Whether the selector matches an instrument with the given name, unit
    /// and kind: the name is `*` or the instrument's name; the unit, where
    /// the selector and the instrument both have one, is the same; and the
    /// kind, where the selector has one, is the same.
    pub open spec fn matches(
        &self,
        name: Seq<char>,
        unit: Option<Seq<char>>,
        kind: InstrumentKind,
    ) -> bool {
        &&& self.instrument_name@ == "*"@ || self.instrument_name@ == name
        &&& self.instrument_unit is Some && unit is Some ==> self.instrument_unit.unwrap()@
            == unit.unwrap()
        &&& self.instrument_kind is Some ==> self.instrument_kind.unwrap() == kind
    }

    /// Select instruments by name. `*` selects every name.
    pub fn instrument_name(instrument_name: String) -> (s: Self)
        ensures
            s.instrument_name == instrument_name,
            s.instrument_kind is None,
            s.instrument_unit is None,
            s.meter_name is None,
            s.meter_version is None,
            s.meter_schema_url is None,
    {
        InstrumentSelector {
            instrument_kind: None,
            instrument_name,
            instrument_unit: None,
            meter_name: None,
            meter_version: None,
            meter_schema_url: None,
        }
    }

    /// Select instruments by kind.
    pub fn with_instrument_kind(self, instrument_kind: InstrumentKind) -> (s: Self)
        ensures
            s == (InstrumentSelector { instrument_kind: Some(instrument_kind), ..self }),
    {
        let mut selector = self;
        selector.instrument_kind = Some(instrument_kind);
        selector
    }

    /// Select instruments by unit.
    pub fn with_instrument_unit(self, instrument_unit: String) -> (s: Self)
        ensures
            s == (InstrumentSelector { instrument_unit: Some(instrument_unit), ..self }),
    {
        let mut selector = self;
        selector.instrument_unit = Some(instrument_unit);
        selector
    }

    /// Select instruments by the name of their meter.
    pub fn with_meter_name(self, meter_name: String) -> (s: Self)
        ensures
            s == (InstrumentSelector { meter_name: Some(meter_name), ..self }),
    {
        let mut selector = self;
        selector.meter_name = Some(meter_name);
        selector
    }

    /// Select instruments by the version of their meter.
    pub fn with_meter_version(self, meter_version: String) -> (s: Self)
        ensures
            s == (InstrumentSelector { meter_version: Some(meter_version), ..self }),
    {
        let mut selector = self;
        selector.meter_version = Some(meter_version);
        selector
    }

    /// Select instruments by the schema of their meter.
    pub fn with_meter_schema_url(self, meter_schema_url: String) -> (s: Self)
        ensures
            s == (InstrumentSelector { meter_schema_url: Some(meter_schema_url), ..self }),
    {
        let mut selector = self;
        selector.meter_schema_url = Some(meter_schema_url);
        selector
    }

    /// The number of conditions the selector leaves open, of the six it
    /// could set: a name of `*`, and each of kind, unit, meter name, meter
    /// version and meter schema that is not given. The fewer conditions a
    /// selector leaves open, the more specific it is.
    pub open spec fn open_conditions(&self) -> nat {
        (if self.instrument_name@ == "*"@ {
            1nat
        } else {
            0nat
        }) + (if self.instrument_kind is None {
            1nat
        } else {
            0nat
        }) + (if self.instrument_unit is None {
            1nat
        } else {
            0nat
        }) + (if self.meter_name is None {
            1nat
        } else {
            0nat
        }) + (if self.meter_version is None {
            1nat
        } else {
            0nat
        }) + (if self.meter_schema_url is None {
            1nat
        } else {
            0nat
        })
    }

    /// The number of conditions the selector leaves open.
    pub fn selector_num(&self) -> (n: u8)
        ensures
            n == self.open_conditions(),
            n <= 6,
    {
        let mut n: u8 = 0;
        let star = "*".to_owned();
        if self.instrument_name == star {
            n = n + 1;
        }
        if self.instrument_kind.is_none() {
            n = n + 1;
        }
        if self.instrument_unit.is_none() {
            n = n + 1;
        }
        if self.meter_name.is_none() {
            n = n + 1;
        }
        if self.meter_version.is_none() {
            n = n + 1;
        }
        if self.meter_schema_url.is_none() {
            n = n + 1;
        }
        n
    }

    /// Whether the selector matches an instrument with the given name, unit
    /// and kind.
    pub fn is_match(&self, name: &String, unit: &Option<String>, kind: InstrumentKind) -> (b: bool)
        ensures
            b == self.matches(
                name@,
                match unit {
                    Some(u) => Some(u@),
                    None => None,
                },
                kind,
            ),
    {
        let star = "*".to_owned();
        if self.instrument_name != star && self.instrument_name != *name {
            return false;
        }
        match (&self.instrument_unit, unit) {
            (Some(wanted), Some(given)) => {
                if *wanted != *given {
                    return false;
                }
            },
            _ => {},
        }
        match &self.instrument_kind {
            Some(wanted) => {
                if *wanted != kind {
                    return false;
                }
            },
            None => {},
        }
        true
    }
}

/// A view changes how the measurements of the instruments it selects are
/// put out: under which name, with which description, with which attributes
/// and combined in which way.
#[derive(Debug)]
pub struct View {
    /// The name of the metric stream, if the view gives one.
    pub view_name: Option<String>,
    /// The instruments the view applies to.
    pub selector: InstrumentSelector,
    /// The description of the metric stream, if the view gives one.
    pub metrics_stream_desc: Option<String>,
    /// The attribute keys that are put out; none means all.
    pub exported_attribute_keys: Vec<String>,
    /// The aggregation, if the view asks for one.
    pub aggregation_builder: Option<Aggregation>,
}

impl View {
    /// A view on the instruments that `selector` selects, which changes
    /// nothing yet.
    pub fn new(selector: InstrumentSelector) -> (v: Self)
        ensures
            v.selector == selector,
            v.view_name is None,
            v.metrics_stream_desc is None,
            v.exported_attribute_keys@ == Seq::<String>::empty(),
            v.aggregation_builder is None,
    {
        View {
            view_name: None,
            metrics_stream_desc: None,
            exported_attribute_keys: Vec::new(),
            aggregation_builder: None,
            selector,
        }
    }

    /// Name the metric stream.
    pub fn with_name(self, name: String) -> (v: Self)
        ensures
            v == (View { view_name: Some(name), ..self }),
    {
        let mut view = self;
        view.view_name = Some(name);
        view
    }

    /// Describe the metric stream.
    pub fn with_description(self, description: String) -> (v: Self)
        ensures
            v == (View { metrics_stream_desc: Some(description), ..self }),
    {
        let mut view = self;
        view.metrics_stream_desc = Some(description);
        view
    }

    /// Choose the attributes that are put out.
    pub fn with_exported_attributes(self, keys: Vec<String>) -> (v: Self)
        ensures
            v == (View { exported_attribute_keys: keys, ..self }),
    {
        let mut view = self;
        view.exported_attribute_keys = keys;
        view
    }

    /// Choose the aggregation.
    pub fn with_aggregation(self, aggregation_builder: Aggregation) -> (v: Self)
        ensures
            v == (View { aggregation_builder: Some(aggregation_builder), ..self }),
    {
        let mut view = self;
        view.aggregation_builder = Some(aggregation_builder);
        view
    }

    /// The aggregation the view asks for, if any.
    pub fn aggregation_builder(&self) -> (a: Option<Aggregation>)
        ensures
            a == self.aggregation_builder,
    {
        self.aggregation_builder
    }
}

/// The position of the first view whose selector matches the instrument, or
/// the number of views where none matches.
pub open spec fn first_match(
    views: Seq<View>,
    name: Seq<char>,
    unit: Option<Seq<char>>,
    kind: InstrumentKind,
) -> int
    decreases views.len(),
{
    if views.len() == 0 {
        0
    } else if views[0].selector.matches(name, unit, kind) {
        0
    } else {
        1 + first_match(views.skip(1), name, unit, kind)
    }
}

/// The aggregation for an instrument: that of the first view that matches
/// it, where there is such a view and it asks for one, and the default for
/// the instrument's kind otherwise.
pub open spec fn selected_aggregation(
    views: Seq<View>,
    name: Seq<char>,
    unit: Option<Seq<char>>,
    kind: InstrumentKind,
) -> Aggregation {
    let i = first_match(views, name, unit, kind);
    if 0 <= i < views.len() && views[i].aggregation_builder is Some {
        views[i].aggregation_builder.unwrap()
    } else {
        kind.default_aggregation()
    }
}

/// The first match is a position in the run or its length; the view there
/// matches and no view before it does.
pub proof fn lemma_first_match(
    views: Seq<View>,
    name: Seq<char>,
    unit: Option<Seq<char>>,
    kind: InstrumentKind,
)
    ensures
        0 <= first_match(views, name, unit, kind) <= views.len(),
        first_match(views, name, unit, kind) < views.len() ==> views[first_match(
            views,
            name,
            unit,
            kind,
        )].selector.matches(name, unit, kind),
        forall|j: int|
            0 <= j < first_match(views, name, unit, kind) ==> !(#[trigger] views[j]).selector
                .matches(
                name,
                unit,
                kind,
            ),
    decreases views.len(),
{
    if views.len() > 0 && !views[0].selector.matches(name, unit, kind) {
        let rest = views.skip(1);
        lemma_first_match(rest, name, unit, kind);
        let i = first_match(rest, name, unit, kind);
        assert forall|j: int| 0 <= j < 1 + i implies !(#[trigger] views[j]).selector.matches(
            name,
            unit,
            kind,
        ) by {
            if j > 0 {
                assert(views[j] == rest[j - 1]);
            }
        }
        if i < rest.len() {
            assert(views[1 + i] == rest[i]);
        }
    }
}

/// If no view before position `i` matches and the view at `i` does, or `i`
/// is the number of views, then `i` is the first match.
pub proof fn lemma_first_match_is(
    views: Seq<View>,
    name: Seq<char>,
    unit: Option<Seq<char>>,
    kind: InstrumentKind,
    i: int,
)
    requires
        0 <= i <= views.len(),
        forall|j: int| 0 <= j < i ==> !(#[trigger] views[j]).selector.matches(name, unit, kind),
        i < views.len() ==> views[i].selector.matches(name, unit, kind),
    ensures
        first_match(views, name, unit, kind) == i,
    decreases views.len(),
{
    if views.len() > 0 && i > 0 {
        let rest = views.skip(1);
        assert(!views[0].selector.matches(name, unit, kind));
        assert forall|j: int| 0 <= j < i - 1 implies !(#[trigger] rest[j]).selector.matches(
            name,
            unit,
            kind,
        ) by {
            assert(rest[j] == views[j + 1]);
        }
        if i < views.len() {
            assert(rest[i - 1] == views[i]);
        }
        lemma_first_match_is(rest, name, unit, kind, i - 1);
    }
}

/// The kind of number an instrument measures.
#[derive(Clone, Copy, Debug, PartialEq, Eq, Structural, Hash)]
pub enum NumberKind {
    /// Signed integers.
    I64,
    /// Floating-point numbers.
    F64,
    /// Unsigned integers.
    U64,
}

/// What an instrument is: its name, its kind, the numbers it measures, and
/// optionally a description and a unit.
#[derive(Debug)]
pub struct Descriptor {
    /// The instrument's name.
    pub name: String,
    /// The instrument's kind.
    pub instrument_kind: InstrumentKind,
    /// The kind of number it measures.
    pub number_kind: NumberKind,
    /// What it measures, in words.
    pub description: Option<String>,
    /// The unit of its measurements.
    pub unit: Option<String>,
}

/// What a meter asks its core to create: an instrument, how its
/// measurements are combined, and whether it records when called or is
/// observed when metrics are collected.
#[derive(Debug)]
pub struct InstrumentRequest {
    /// The instrument.
    pub descriptor: Descriptor,
    /// How its measurements are combined.
    pub aggregation: Aggregation,
    /// Whether it records when called.
    pub synchronous: bool,
}

impl InstrumentKind {
    /// Whether instruments of this kind record when called: counters,
    /// up-down counters and histograms do, observers do not.
    pub open spec fn is_synchronous(&self) -> bool {
        match self {
            InstrumentKind::Counter => true,
            InstrumentKind::UpDownCounter => true,
            InstrumentKind::Histogram => true,
            _ => false,
        }
    }

    /// Whether instruments of this kind record when called.
    pub fn synchronous(&self) -> (b: bool)
        ensures
            b == self.is_synchronous(),
    {
        match self {
            InstrumentKind::Counter => true,
            InstrumentKind::UpDownCounter => true,
            InstrumentKind::Histogram => true,
            _ => false,
        }
    }
}

/// The key by which the views of a meter are ordered: the number of
/// conditions that the view's selector leaves open.
pub open spec fn view_key(view: View) -> nat {
    view.selector.open_conditions()
}

/// Whether the keys never fall along the run: the more specific views come
/// first.
pub open spec fn is_ordered(views: Seq<View>) -> bool {
    forall|i: int, j: int| 0 <= i < j < views.len() ==> view_key(views[i]) <= view_key(views[j])
}

/// Where a view of the given key goes into a run: behind the last view
/// whose key is not above it.
pub open spec fn insert_position(views: Seq<View>, key: nat) -> int
    decreases views.len(),
{
    if views.len() == 0 {
        0
    } else if view_key(views.last()) <= key {
        views.len() as int
    } else {
        insert_position(views.drop_last(), key)
    }
}

/// The views in the order in which a meter tries them: each view in turn is
/// put behind those whose key is not above its own, so that the keys never
/// fall and views of equal key keep the order in which they were given.
pub open spec fn ordered_views(views: Seq<View>) -> Seq<View>
    decreases views.len(),
{
    if views.len() == 0 {
        Seq::empty()
    } else {
        let front = ordered_views(views.drop_last());
        front.insert(insert_position(front, view_key(views.last())), views.last())
    }
}

/// The views of the given key, in their order.
pub open spec fn of_key(views: Seq<View>, key: nat) -> Seq<View>
    decreases views.len(),
{
    if views.len() == 0 {
        Seq::empty()
    } else if view_key(views.last()) == key {
        of_key(views.drop_last(), key).push(views.last())
    } else {
        of_key(views.drop_last(), key)
    }
}

/// The position `i` is where a view of the given key goes if every view
/// from `i` on has a key above it and the view before `i`, if there is one,
/// has not.
pub proof fn lemma_insert_position_is(views: Seq<View>, key: nat, i: int)
    requires
        0 <= i <= views.len(),
        forall|j: int| i <= j < views.len() ==> view_key(#[trigger] views[j]) > key,
        i > 0 ==> view_key(views[i - 1]) <= key,
    ensures
        insert_position(views, key) == i,
    decreases views.len(),
{
    if views.len() > 0 && i < views.len() {
        let front = views.drop_last();
        assert(view_key(views[views.len() - 1]) > key);
        assert forall|j: int| i <= j < front.len() implies view_key(#[trigger] front[j]) > key by {
            assert(front[j] == views[j]);
        }
        lemma_insert_position_is(front, key, i);
    }
}

/// The insert position lies within the run; every view from it on has a key
/// above the given one, and the view before it has not.
pub proof fn lemma_insert_position(views: Seq<View>, key: nat)
    ensures
        0 <= insert_position(views, key) <= views.len(),
        forall|j: int|
            insert_position(views, key) <= j < views.len() ==> view_key(#[trigger] views[j]) > key,
        insert_position(views, key) > 0 ==> view_key(views[insert_position(views, key) - 1])
            <= key,
    decreases views.len(),
{
    if views.len() > 0 && view_key(views.last()) > key {
        let front = views.drop_last();
        lemma_insert_position(front, key);
        let p = insert_position(front, key);
        assert forall|j: int| p <= j < views.len() implies view_key(#[trigger] views[j]) > key by {
            if j < front.len() {
                assert(front[j] == views[j]);
            }
        }
        if p > 0 {
            assert(front[p - 1] == views[p - 1]);
        }
    }
}

/// The views of a key in two runs put together are those of the first run
/// followed by those of the second.
pub proof fn lemma_of_key_add(a: Seq<View>, b: Seq<View>, key: nat)
    ensures
        of_key(a + b, key) == of_key(a, key) + of_key(b, key),
    decreases b.len(),
{
    if b.len() == 0 {
        assert(a + b =~= a);
        assert(of_key(a, key) + of_key(b, key) =~= of_key(a, key));
    } else {
        assert((a + b).drop_last() =~= a + b.drop_last());
        assert((a + b).last() == b.last());
        lemma_of_key_add(a, b.drop_last(), key);
        if view_key(b.last()) == key {
            assert((of_key(a, key) + of_key(b.drop_last(), key)).push(b.last()) =~= of_key(a, key)
                + of_key(b.drop_last(), key).push(b.last()));
        }
    }
}

/// A run in which no view has the key holds no view of that key.
pub proof fn lemma_of_key_none(views: Seq<View>, key: nat)
    requires
        forall|j: int| 0 <= j < views.len() ==> view_key(#[trigger] views[j]) != key,
    ensures
        of_key(views, key) == Seq::<View>::empty(),
    decreases views.len(),
{
    if views.len() > 0 {
        let front = views.drop_last();
        assert(view_key(views[views.len() - 1]) != key);
        assert forall|j: int| 0 <= j < front.len() implies view_key(#[trigger] front[j]) != key by {
            assert(front[j] == views[j]);
        }
        lemma_of_key_none(front, key);
    }
}

/// Putting a view into an ordered run at its insert position keeps the run
/// ordered, adds that view and no other, and puts it behind the views of
/// its own key.
pub proof fn lemma_insert_ordered(views: Seq<View>, view: View)
    requires
        is_ordered(views),
    ensures
        is_ordered(views.insert(insert_position(views, view_key(view)), view)),
        views.insert(insert_position(views, view_key(view)), view).len() == views.len() + 1,
        views.insert(insert_position(views, view_key(view)), view).to_multiset()
            == views.to_multiset().insert(view),
        forall|key: nat|
            of_key(
                #[trigger] views.insert(insert_position(views, view_key(view)), view),
                key,
            ) == if key == view_key(view) {
                of_key(views, key).push(view)
            } else {
                of_key(views, key)
            },
{
    let k = view_key(view);
    let p = insert_position(views, k);
    let grown = views.insert(p, view);
    lemma_insert_position(views, k);
    views.insert_ensures(p, view);
    assert forall|i: int, j: int| 0 <= i < j < grown.len() implies view_key(grown[i]) <= view_key(
        grown[j],
    ) by {
        if i < p {
            assert(grown[i] == views[i]);
            if p > 0 {
                assert(view_key(views[i]) <= view_key(views[p - 1]));
            }
        }
        if i > p {
            assert(grown[i] == views[i - 1]);
        }
        if j < p {
            assert(grown[j] == views[j]);
        }
        if j > p {
            assert(grown[j] == views[j - 1]);
        }
    }
    assert(grown.to_multiset() == views.to_multiset().insert(view)) by {
        broadcast use vstd::seq_lib::group_to_multiset_ensures;

        assert(grown.remove(p) =~= views);
        assert(grown[p] == view);
        assert(grown.contains(view));
        assert(grown.to_multiset().count(view) > 0);
        assert(grown.remove(p).to_multiset() =~= grown.to_multiset().remove(view));
        assert(grown.to_multiset() =~= views.to_multiset().insert(view));
    }
    let head = views.take(p);
    let tail = views.skip(p);
    assert(views =~= head + tail);
    assert(grown =~= head.push(view) + tail);
    assert(head.push(view).drop_last() =~= head);
    assert forall|key: nat| of_key(grown, key) == if key == k {
        of_key(views, key).push(view)
    } else {
        of_key(views, key)
    } by {
        lemma_of_key_add(head, tail, key);
        lemma_of_key_add(head.push(view), tail, key);
        if key == k {
            assert forall|j: int| 0 <= j < tail.len() implies view_key(#[trigger] tail[j])
                != key by {
                assert(tail[j] == views[p + j]);
            }
            lemma_of_key_none(tail, key);
            assert(of_key(head, key) + Seq::<View>::empty() =~= of_key(head, key));
            assert(of_key(head, key).push(view) + Seq::<View>::empty() =~= of_key(head, key).push(
                view,
            ));
        }
    }
}

/// The order in which a meter tries its views: the keys never fall, every
/// view given is there once and no other, and the views of each key come in
/// the order in which they were given.
pub proof fn lemma_ordered_views(views: Seq<View>)
    ensures
        is_ordered(ordered_views(views)),
        ordered_views(views).len() == views.len(),
        ordered_views(views).to_multiset() == views.to_multiset(),
        forall|key: nat| #[trigger] of_key(ordered_views(views), key) == of_key(views, key),
    decreases views.len(),
{
    broadcast use vstd::seq_lib::group_to_multiset_ensures;

    if views.len() == 0 {
        assert(ordered_views(views).to_multiset() =~= views.to_multiset());
    } else {
        let front = views.drop_last();
        lemma_ordered_views(front);
        lemma_insert_ordered(ordered_views(front), views.last());
        assert(front.push(views.last()) =~= views);
        assert(ordered_views(views).to_multiset() =~= views.to_multiset());
        assert forall|key: nat| #[trigger]
            of_key(ordered_views(views), key) == of_key(views, key) by {
            let grown = ordered_views(front).insert(
                insert_position(ordered_views(front), view_key(views.last())),
                views.last(),
            );
            assert(of_key(grown, key) == if key == view_key(views.last()) {
                of_key(ordered_views(front), key).push(views.last())
            } else {
                of_key(ordered_views(front), key)
            });
            assert(of_key(ordered_views(front), key) == of_key(front, key));
        }
    }
}

/// The views of one meter, from which the aggregation of each of its
/// instruments is chosen.
#[derive(Debug)]
pub struct MeterImpl {
    views: Vec<View>,
}

impl MeterImpl {
    /// The views, in the order in which they are tried.
    pub closed spec fn views(&self) -> Seq<View> {
        self.views@
    }

    /// A meter with the given views, ordered by the number of conditions
    /// that their selectors leave open, the more specific first. Views that
    /// leave as many conditions open keep the order in which they were given.
    pub fn new(views: Vec<View>) -> (m: Self)
        ensures
            m.views() == ordered_views(views@),
            is_ordered(m.views()),
            m.views().len() == views@.len(),
            m.views().to_multiset() == views@.to_multiset(),
            forall|key: nat| #[trigger] of_key(m.views(), key) == of_key(views@, key),
    {
        let ghost all = views@;
        let mut rest = views;
        let mut ordered: Vec<View> = Vec::new();
        proof {
            assert(all.take(0) =~= Seq::<View>::empty());
            assert(all.skip(0) =~= all);
        }
        while rest.len() > 0
            invariant
                rest@.len() <= all.len(),
                rest@ == all.skip(all.len() - rest@.len()),
                ordered@ == ordered_views(all.take(all.len() - rest@.len())),
            decreases rest@.len(),
        {
            let ghost done = all.len() - rest@.len();
            let view = rest.remove(0);
            let key = view.selector.selector_num();
            let mut position: usize = ordered.len();
            while position > 0 && ordered[position - 1].selector.selector_num() > key
                invariant
                    position <= ordered@.len(),
                    key == view_key(view),
                    forall|j: int|
                        position <= j < ordered@.len() ==> view_key(#[trigger] ordered@[j]) > key,
                decreases position,
            {
                position = position - 1;
            }
            proof {
                assert(view == all[done]);
                lemma_insert_position_is(ordered@, key as nat, position as int);
                assert(all.take(done + 1).drop_last() =~= all.take(done));
                assert(all.take(done + 1).last() == view);
                assert(rest@ =~= all.skip(done + 1));
            }
            ordered.insert(position, view);
        }
        proof {
            assert(all.take(all.len() as int) =~= all);
            lemma_ordered_views(all);
        }
        MeterImpl { views: ordered }
    }

    /// Choose the aggregation for an instrument: that of the first view
    /// that matches it, or the default for its kind.
    pub fn select_views(
        &self,
        instrument_name: &String,
        instrument_unit: &Option<String>,
        instrument_kind: InstrumentKind,
    ) -> (a: Aggregation)
        ensures
            a == selected_aggregation(
                self.views(),
                instrument_name@,
                match instrument_unit {
                    Some(u) => Some(u@),
                    None => None,
                },
                instrument_kind,
            ),
    {
        let ghost unit = match instrument_unit {
            Some(u) => Some(u@),
            None => None,
        };
        let mut i: usize = 0;
        while i < self.views.len()
            invariant
                i <= self.views@.len(),
                unit == match instrument_unit {
                    Some(u) => Some(u@),
                    None => None,
                },
                forall|j: int|
                    0 <= j < i ==> !(#[trigger] self.views@[j]).selector.matches(
                        instrument_name@,
                        unit,
                        instrument_kind,
                    ),
            decreases self.views@.len() - i,
        {
            if self.views[i].selector.is_match(instrument_name, instrument_unit, instrument_kind) {
                proof {
                    lemma_first_match_is(
                        self.views@,
                        instrument_name@,
                        unit,
                        instrument_kind,
                        i as int,
                    );
                }
                return match self.views[i].aggregation_builder() {
                    Some(aggregation) => aggregation,
                    None => instrument_kind.default_aggregator_builder(),
                };
            }
            i = i + 1;
        }
        proof {
            lemma_first_match_is(self.views@, instrument_name@, unit, instrument_kind, i as int);
        }
        instrument_kind.default_aggregator_builder()
    }

    /// Whether `request` is what this meter asks for when an instrument
    /// with the given parts is created: the instrument as given, the
    /// aggregation that the views select for it, and recording as its kind
    /// has it.
    pub open spec fn asks_for(
        &self,
        request: InstrumentRequest,
        name: String,
        description: Option<String>,
        unit: Option<String>,
        kind: InstrumentKind,
        number_kind: NumberKind,
    ) -> bool {
        &&& request.descriptor.name == name
        &&& request.descriptor.instrument_kind == kind
        &&& request.descriptor.number_kind == number_kind
        &&& request.descriptor.description == description
        &&& request.descriptor.unit == unit
        &&& request.aggregation == selected_aggregation(
            self.views(),
            name@,
            match unit {
                Some(u) => Some(u@),
                None => None,
            },
            kind,
        )
        &&& request.synchronous == kind.is_synchronous()
    }

    /// Put together what the meter asks for.
    fn instrument(
        &self,
        name: String,
        description: Option<String>,
        unit: Option<String>,
        kind: InstrumentKind,
        number_kind: NumberKind,
    ) -> (request: InstrumentRequest)
        ensures
            self.asks_for(request, name, description, unit, kind, number_kind),
    {
        let aggregation = self.select_views(&name, &unit, kind);
        InstrumentRequest {
            descriptor: Descriptor {
                name,
                instrument_kind: kind,
                number_kind,
                description,
                unit,
            },
            aggregation,
            synchronous: kind.synchronous(),
        }
    }

    /// What the meter asks for when a counter of unsigned integers is created.
    pub fn u64_counter(
        &self,
        name: String,
        description: Option<String>,
        unit: Option<String>,
    ) -> (request: InstrumentRequest)
        ensures
            self.asks_for(
                request,
                name,
                description,
                unit,
                InstrumentKind::Counter,
                NumberKind::U64,
            ),
    {
        self.instrument(name, description, unit, InstrumentKind::Counter, NumberKind::U64)
    }

    /// What the meter asks for when a counter of floating-point numbers is created.
    pub fn f64_counter(
        &self,
        name: String,
        description: Option<String>,
        unit: Option<String>,
    ) -> (request: InstrumentRequest)
        ensures
            self.asks_for(
                request,
                name,
                description,
                unit,
                InstrumentKind::Counter,
                NumberKind::F64,
            ),
    {
        self.instrument(name, description, unit, InstrumentKind::Counter, NumberKind::F64)
    }

    /// What the meter asks for when an observed counter of unsigned integers is created.
    pub fn u64_observable_counter(
        &self,
        name: String,
        description: Option<String>,
        unit: Option<String>,
    ) -> (request: InstrumentRequest)
        ensures
            self.asks_for(
                request,
                name,
                description,
                unit,
                InstrumentKind::CounterObserver,
                NumberKind::U64,
            ),
    {
        self.instrument(name, description, unit, InstrumentKind::CounterObserver, NumberKind::U64)
    }

    /// What the meter asks for when an observed counter of floating-point numbers is created.
    pub fn f64_observable_counter(
        &self,
        name: String,
        description: Option<String>,
        unit: Option<String>,
    ) -> (request: InstrumentRequest)
        ensures
            self.asks_for(
                request,
                name,
                description,
                unit,
                InstrumentKind::CounterObserver,
                NumberKind::F64,
            ),
    {
        self.instrument(name, description, unit, InstrumentKind::CounterObserver, NumberKind::F64)
    }

    /// What the meter asks for when an up-down counter of signed integers is created.
    pub fn i64_up_down_counter(
        &self,
        name: String,
        description: Option<String>,
        unit: Option<String>,
    ) -> (request: InstrumentRequest)
        ensures
            self.asks_for(
                request,
                name,
                description,
                unit,
                InstrumentKind::UpDownCounter,
                NumberKind::I64,
            ),
    {
        self.instrument(name, description, unit, InstrumentKind::UpDownCounter, NumberKind::I64)
    }

    /// What the meter asks for when an up-down counter of floating-point numbers is created.
    pub fn f64_up_down_counter(
        &self,
        name: String,
        description: Option<String>,
        unit: Option<String>,
    ) -> (request: InstrumentRequest)
        ensures
            self.asks_for(
                request,
                name,
                description,
                unit,
                InstrumentKind::UpDownCounter,
                NumberKind::F64,
            ),
    {
        self.instrument(name, description, unit, InstrumentKind::UpDownCounter, NumberKind::F64)
    }

    /// What the meter asks for when an observed up-down counter of signed integers is created.
    pub fn i64_observable_up_down_counter(
        &self,
        name: String,
        description: Option<String>,
        unit: Option<String>,
    ) -> (request: InstrumentRequest)
        ensures
            self.asks_for(
                request,
                name,
                description,
                unit,
                InstrumentKind::UpDownCounterObserver,
                NumberKind::I64,
            ),
    {
        self.instrument(
            name,
            description,
            unit,
            InstrumentKind::UpDownCounterObserver,
            NumberKind::I64,
        )
    }

    /// What the meter asks for when an observed up-down counter of
    /// floating-point numbers is created.
    pub fn f64_observable_up_down_counter(
        &self,
        name: String,
        description: Option<String>,
        unit: Option<String>,
    ) -> (request: InstrumentRequest)
        ensures
            self.asks_for(
                request,
                name,
                description,
                unit,
                InstrumentKind::UpDownCounterObserver,
                NumberKind::F64,
            ),
    {
        self.instrument(
            name,
            description,
            unit,
            InstrumentKind::UpDownCounterObserver,
            NumberKind::F64,
        )
    }

    /// What the meter asks for when an observed gauge of unsigned integers is created.
    pub fn u64_observable_gauge(
        &self,
        name: String,
        description: Option<String>,
        unit: Option<String>,
    ) -> (request: InstrumentRequest)
        ensures
            self.asks_for(
                request,
                name,
                description,
                unit,
                InstrumentKind::GaugeObserver,
                NumberKind::U64,
            ),
    {
        self.instrument(name, description, unit, InstrumentKind::GaugeObserver, NumberKind::U64)
    }

    /// What the meter asks for when an observed gauge of signed integers is created.
    pub fn i64_observable_gauge(
        &self,
        name: String,
        description: Option<String>,
        unit: Option<String>,
    ) -> (request: InstrumentRequest)
        ensures
            self.asks_for(
                request,
                name,
                description,
                unit,
                InstrumentKind::GaugeObserver,
                NumberKind::I64,
            ),
    {
        self.instrument(name, description, unit, InstrumentKind::GaugeObserver, NumberKind::I64)
    }

    /// What the meter asks for when an observed gauge of floating-point numbers is created.
    pub fn f64_observable_gauge(
        &self,
        name: String,
        description: Option<String>,
        unit: Option<String>,
    ) -> (request: InstrumentRequest)
        ensures
            self.asks_for(
                request,
                name,
                description,
                unit,
                InstrumentKind::GaugeObserver,
                NumberKind::F64,
            ),
    {
        self.instrument(name, description, unit, InstrumentKind::GaugeObserver, NumberKind::F64)
    }

    /// What the meter asks for when a histogram of floating-point numbers is created.
    pub fn f64_histogram(
        &self,
        name: String,
        description: Option<String>,
        unit: Option<String>,
    ) -> (request: InstrumentRequest)
        ensures
            self.asks_for(
                request,
                name,
                description,
                unit,
                InstrumentKind::Histogram,
                NumberKind::F64,
            ),
    {
        self.instrument(name, description, unit, InstrumentKind::Histogram, NumberKind::F64)
    }

    /// What the meter asks for when a histogram of unsigned integers is created.
    pub fn u64_histogram(
        &self,
        name: String,
        description: Option<String>,
        unit: Option<String>,
    ) -> (request: InstrumentRequest)
        ensures
            self.asks_for(
                request,
                name,
                description,
                unit,
                InstrumentKind::Histogram,
                NumberKind::U64,
            ),
    {
        self.instrument(name, description, unit, InstrumentKind::Histogram, NumberKind::U64)
    }

    /// What the meter asks for when a histogram of signed integers is created.
    pub fn i64_histogram(
        &self,
        name: String,
        description: Option<String>,
        unit: Option<String>,
    ) -> (request: InstrumentRequest)
        ensures
            self.asks_for(
                request,
                name,
                description,
                unit,
                InstrumentKind::Histogram,
                NumberKind::I64,
            ),
    {
        self.instrument(name, description, unit, InstrumentKind::Histogram, NumberKind::I64)
    }
}

/// A meter provider whose meters record nothing.
#[derive(Clone, Copy, Debug, Default)]
pub struct NoopMeterProvider {
    _private: (),
}

impl NoopMeterProvider {
    /// Create a new no-op meter provider.
    pub fn new() -> (p: Self) {
        NoopMeterProvider { _private: () }
    }

    /// A meter core that records nothing, whatever the library is called.
    pub fn versioned_meter(
        &self,
        name: &str,
        version: Option<&str>,
        schema_url: Option<&str>,
    ) -> (m: NoopMeterCore) {
        NoopMeterCore::new()
    }
}

/// A meter core that records nothing.
#[derive(Clone, Copy, Debug, Default)]
pub struct NoopMeterCore {
    _private: (),
}

impl NoopMeterCore {
    /// Create a new no-op meter core.
    pub fn new() -> (m: Self) {
        NoopMeterCore { _private: () }
    }
}

/// A synchronous instrument that ignores every measurement.
#[derive(Clone, Copy, Debug, Default)]
pub struct NoopSyncInstrument {
    _private: (),
}

impl NoopSyncInstrument {
    /// Create a new no-op sync instrument.
    pub fn new() -> (i: Self) {
        NoopSyncInstrument { _private: () }
    }

    /// Ignore a measurement.
    pub fn record<T>(&self, value: T, attributes: &[KeyValue]) {
    }
}

/// An asynchronous instrument that ignores every observation.
#[derive(Clone, Copy, Debug, Default)]
pub struct NoopAsyncInstrument {
    _private: (),
}

impl NoopAsyncInstrument {
    /// Create a new no-op async instrument.
    pub fn new() -> (i: Self) {
        NoopAsyncInstrument { _private: () }
    }

    /// Ignore an observation.
    pub fn observe<T>(&self, value: T, attributes: &[KeyValue]) {
    }
}

/// A meter that hands out instruments which record nothing.
#[derive(Clone, Copy, Debug, Default)]
pub struct NoopMeter {
    _private: (),
}

} // verus!
