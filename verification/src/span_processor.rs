//! Span processors: what happens to a span when it ends.
//!
//! A processor receives every finished span. The simple processor hands each
//! span to its exporter at once; the batch processor queues spans and hands
//! them on in batches, first in, first out.

use crate::error::TraceError;
use crate::evicted_queue::saturate;
use crate::span::SpanData;
use std::collections::VecDeque;
use vstd::prelude::*;

verus! {

/// The stage of a processor's life.
#[derive(Clone, Copy, Debug, PartialEq, Eq, Structural, Hash)]
pub enum ProcessorState {
    /// Spans are accepted.
    Active,
    /// No new span is accepted; what is buffered is being drained.
    ShuttingDown,
    /// Nothing is accepted or exported any more.
    Shutdown,
}

/// Delivers finished spans to a backend. Exporters are supplied by the
/// caller; nothing is assumed about what an export returns.
pub trait SpanExporter {
    /// Deliver a batch of spans.
    fn export(&mut self, batch: Vec<SpanData>) -> Result<(), TraceError>;

    /// Release what the exporter holds.
    fn shutdown(&mut self);
}

/// An exporter in the hands of a processor, with the record of what the
/// processor has passed to it. The exporter is shut down once and is given
/// nothing afterwards.
pub(crate) struct ExporterHandle<E: SpanExporter> {
    exporter: E,
    handed: Ghost<Seq<SpanData>>,
    closed: Ghost<bool>,
}

impl<E: SpanExporter> ExporterHandle<E> {
    /// The exporter itself.
    pub(crate) closed spec fn exporter(&self) -> E {
        self.exporter
    }

    /// Every span passed to the exporter so far, oldest first.
    pub(crate) closed spec fn handed_over(&self) -> Seq<SpanData> {
        self.handed@
    }

    /// Whether the exporter was shut down.
    pub(crate) closed spec fn is_shut_down(&self) -> bool {
        self.closed@
    }

    /// Take an exporter that has been given nothing yet.
    pub(crate) fn new(exporter: E) -> (h: Self)
        ensures
            h.exporter() == exporter,
            h.handed_over() == Seq::<SpanData>::empty(),
            !h.is_shut_down(),
    {
        ExporterHandle { exporter, handed: Ghost(Seq::empty()), closed: Ghost(false) }
    }

    /// Pass a batch to the exporter and hand back its answer.
    pub(crate) fn export(&mut self, batch: Vec<SpanData>) -> (result: Result<(), TraceError>)
        requires
            !old(self).is_shut_down(),
        ensures
            final(self).handed_over() == old(self).handed_over() + batch@,
            !final(self).is_shut_down(),
    {
        proof {
            self.handed@ = self.handed@ + batch@;
        }
        self.exporter.export(batch)
    }

    /// Shut the exporter down.
    pub(crate) fn shutdown(&mut self)
        requires
            !old(self).is_shut_down(),
        ensures
            final(self).is_shut_down(),
            final(self).handed_over() == old(self).handed_over(),
    {
        proof {
            self.closed@ = true;
        }
        self.exporter.shutdown();
    }

    /// The exporter itself.
    pub(crate) fn get(&self) -> (e: &E)
        ensures
            *e == self.exporter(),
    {
        &self.exporter
    }
}

/// The settings of a batch processor.
#[derive(Clone, Copy, Debug, PartialEq, Eq, Structural)]
pub struct BatchConfig {
    max_queue_size: usize,
    scheduled_delay_millis: u64,
    max_export_batch_size: usize,
    max_export_timeout_millis: u64,
}

impl BatchConfig {
    /// The number of spans the queue holds at most.
    pub closed spec fn queue_size(&self) -> nat {
        self.max_queue_size as nat
    }

    /// The number of spans in a batch at most; never less than one.
    pub closed spec fn batch_size(&self) -> nat {
        if self.max_export_batch_size == 0 {
            1
        } else {
            self.max_export_batch_size as nat
        }
    }

    /// The time between two scheduled exports, in milliseconds.
    pub closed spec fn delay_millis(&self) -> nat {
        self.scheduled_delay_millis as nat
    }

    /// The time an export may take, in milliseconds.
    pub closed spec fn timeout_millis(&self) -> nat {
        self.max_export_timeout_millis as nat
    }

    /// Change the queue size.
    pub fn with_max_queue_size(self, max_queue_size: usize) -> (config: Self)
        ensures
            config.queue_size() == max_queue_size,
            config.batch_size() == self.batch_size(),
            config.delay_millis() == self.delay_millis(),
            config.timeout_millis() == self.timeout_millis(),
    {
        let mut config = self;
        config.max_queue_size = max_queue_size;
        config
    }

    /// Change the time between two scheduled exports.
    pub fn with_scheduled_delay(self, millis: u64) -> (config: Self)
        ensures
            config.delay_millis() == millis,
            config.queue_size() == self.queue_size(),
            config.batch_size() == self.batch_size(),
            config.timeout_millis() == self.timeout_millis(),
    {
        let mut config = self;
        config.scheduled_delay_millis = millis;
        config
    }

    /// Change the batch size. A size above the queue size is lowered to the
    /// queue size, and a size of zero counts as one.
    pub fn with_max_export_batch_size(self, max_export_batch_size: usize) -> (config: Self)
        ensures
            config.batch_size() == if max_export_batch_size > self.queue_size() {
                if self.queue_size() == 0 {
                    1
                } else {
                    self.queue_size()
                }
            } else if max_export_batch_size == 0 {
                1
            } else {
                max_export_batch_size as nat
            },
            config.queue_size() == self.queue_size(),
            config.delay_millis() == self.delay_millis(),
            config.timeout_millis() == self.timeout_millis(),
    {
        let mut config = self;
        if max_export_batch_size > config.max_queue_size {
            config.max_export_batch_size = config.max_queue_size;
        } else {
            config.max_export_batch_size = max_export_batch_size;
        }
        config
    }

    /// Change the time an export may take.
    pub fn with_max_export_timeout(self, millis: u64) -> (config: Self)
        ensures
            config.timeout_millis() == millis,
            config.queue_size() == self.queue_size(),
            config.batch_size() == self.batch_size(),
            config.delay_millis() == self.delay_millis(),
    {
        let mut config = self;
        config.max_export_timeout_millis = millis;
        config
    }

    /// The number of spans the queue holds at most.
    pub fn max_queue_size(&self) -> (n: usize)
        ensures
            n == self.queue_size(),
    {
        self.max_queue_size
    }

    /// The number of spans in a batch at most.
    pub fn max_export_batch_size(&self) -> (n: usize)
        ensures
            n == self.batch_size(),
            n >= 1,
    {
        if self.max_export_batch_size == 0 {
            1
        } else {
            self.max_export_batch_size
        }
    }

    /// The time between two scheduled exports, in milliseconds.
    pub fn scheduled_delay_millis(&self) -> (n: u64)
        ensures
            n == self.delay_millis(),
    {
        self.scheduled_delay_millis
    }

    /// The time an export may take, in milliseconds.
    pub fn max_export_timeout_millis(&self) -> (n: u64)
        ensures
            n == self.timeout_millis(),
    {
        self.max_export_timeout_millis
    }
}

impl Default for BatchConfig {
    /// A queue of 2048 spans, batches of 512, an export every five seconds,
    /// thirty seconds for each export.
    fn default() -> (config: Self)
        ensures
            config.queue_size() == 2048,
            config.batch_size() == 512,
            config.delay_millis() == 5000,
            config.timeout_millis() == 30000,
    {
        BatchConfig {
            max_queue_size: 2048,
            scheduled_delay_millis: 5000,
            max_export_batch_size: 512,
            max_export_timeout_millis: 30000,
        }
    }
}

/// Whether a processor in the given stage takes a span with the given
/// sampled flag: only an active processor takes spans, and only sampled ones.
pub open spec fn accepts(state: ProcessorState, sampled: bool) -> bool {
    state == ProcessorState::Active && sampled
}

/// The queue after a span was offered to it: the span goes to the back when
/// there is room and is turned away otherwise.
pub open spec fn queue_after<T>(queued: Seq<T>, capacity: nat, item: T) -> Seq<T> {
    if queued.len() < capacity {
        queued.push(item)
    } else {
        queued
    }
}

/// The queue after each of `items` was offered to it in turn.
pub open spec fn queue_after_each<T>(queued: Seq<T>, capacity: nat, items: Seq<T>) -> Seq<T>
    decreases items.len(),
{
    if items.len() == 0 {
        queued
    } else {
        queue_after(queue_after_each(queued, capacity, items.drop_last()), capacity, items.last())
    }
}

/// How many of `count` items offered in turn are turned away by a queue of
/// the given capacity that already holds `len` items.
pub open spec fn turned_away(len: nat, capacity: nat, count: nat) -> nat {
    if len >= capacity {
        count
    } else if len + count <= capacity {
        0
    } else {
        (len + count - capacity) as nat
    }
}

/// The spans of a run that a processor in the given stage accepts: the
/// sampled ones, in their order, if the processor is active, and none
/// otherwise.
pub open spec fn accepted_of(state: ProcessorState, spans: Seq<SpanData>) -> Seq<SpanData>
    decreases spans.len(),
{
    if spans.len() == 0 {
        Seq::empty()
    } else if accepts(state, spans.last().span_context.spec_is_sampled()) {
        accepted_of(state, spans.drop_last()).push(spans.last())
    } else {
        accepted_of(state, spans.drop_last())
    }
}

/// A processor that is not active accepts no span of any run.
pub proof fn lemma_accepts_nothing_when_shut_down(state: ProcessorState, spans: Seq<SpanData>)
    requires
        state != ProcessorState::Active,
    ensures
        accepted_of(state, spans) == Seq::<SpanData>::empty(),
    decreases spans.len(),
{
    if spans.len() > 0 {
        lemma_accepts_nothing_when_shut_down(state, spans.drop_last());
    }
}

/// An active processor accepts every span of a run in which all are sampled.
pub proof fn lemma_accepts_all_sampled(spans: Seq<SpanData>)
    requires
        forall|i: int|
            0 <= i < spans.len() ==> (#[trigger] spans[i]).span_context.spec_is_sampled(),
    ensures
        accepted_of(ProcessorState::Active, spans) == spans,
    decreases spans.len(),
{
    if spans.len() > 0 {
        let front = spans.drop_last();
        assert forall|i: int| 0 <= i < front.len() implies (#[trigger] front[i])
            .span_context.spec_is_sampled() by {
            assert(front[i] == spans[i]);
        }
        lemma_accepts_all_sampled(front);
        assert(spans[spans.len() - 1].span_context.spec_is_sampled());
        assert(front.push(spans.last()) =~= spans);
    } else {
        assert(spans =~= Seq::<SpanData>::empty());
    }
}

/// Offering a run of items to a queue fills it up to its capacity with the
/// first of them, in their order, and turns the others away.
pub proof fn lemma_queue_after_each<T>(queued: Seq<T>, capacity: nat, items: Seq<T>)
    requires
        queued.len() <= capacity,
    ensures
        queue_after_each(queued, capacity, items) == queued + items.take(
            (items.len() - turned_away(queued.len(), capacity, items.len())) as int,
        ),
        queue_after_each(queued, capacity, items).len() <= capacity,
    decreases items.len(),
{
    if items.len() == 0 {
        assert(queued + items.take(0) =~= queued);
    } else {
        let front = items.drop_last();
        lemma_queue_after_each(queued, capacity, front);
        let kept_front = (front.len() - turned_away(queued.len(), capacity, front.len())) as int;
        let kept = (items.len() - turned_away(queued.len(), capacity, items.len())) as int;
        if queued.len() + front.len() < capacity {
            assert(kept_front == front.len() && kept == items.len());
            assert((queued + front.take(kept_front)).push(items.last()) =~= queued + items.take(
                kept,
            ));
        } else {
            assert(kept == kept_front);
            assert(front.take(kept_front) =~= items.take(kept));
        }
    }
}

/// Offering `N > C` items to an empty queue of capacity `C` leaves the first
/// `C` of them queued, in their order, and turns `N - C` away.
pub proof fn lemma_overfull_queue<T>(capacity: nat, items: Seq<T>)
    requires
        items.len() > capacity,
    ensures
        queue_after_each(Seq::<T>::empty(), capacity, items) == items.take(capacity as int),
        turned_away(0, capacity, items.len()) == items.len() - capacity,
{
    lemma_queue_after_each(Seq::<T>::empty(), capacity, items);
    assert(Seq::<T>::empty() + items.take(capacity as int) =~= items.take(capacity as int));
}

/// The first batch that is taken from a queue: as many spans from its front
/// as a batch may hold.
pub open spec fn first_batch<T>(queued: Seq<T>, batch_size: nat) -> Seq<T> {
    if queued.len() <= batch_size {
        queued
    } else {
        queued.take(batch_size as int)
    }
}

/// What is left in a queue after its first batch was taken.
pub open spec fn after_first_batch<T>(queued: Seq<T>, batch_size: nat) -> Seq<T> {
    if queued.len() <= batch_size {
        Seq::empty()
    } else {
        queued.skip(batch_size as int)
    }
}

/// The outcome of several exports taken together: the first failure, or
/// success if none failed.
pub fn keep_first_failure(so_far: Result<(), TraceError>, next: Result<(), TraceError>) -> (outcome:
    Result<(), TraceError>)
    ensures
        outcome == if so_far is Err {
            so_far
        } else {
            next
        },
        outcome is Ok <==> so_far is Ok && next is Ok,
{
    if so_far.is_err() {
        so_far
    } else {
        next
    }
}

/// The spans of a batch processor that wait for export, with its counters and
/// the stage of its life. It decides what is queued, what is dropped and what
/// goes into the next batch; exporting is left to its owner.
#[derive(Debug)]
pub struct BatchQueue {
    config: BatchConfig,
    spans: VecDeque<SpanData>,
    state: ProcessorState,
    dropped_count: u64,
    exported_count: u64,
}

impl BatchQueue {
    /// The spans that wait for export, oldest first.
    pub closed spec fn queued(&self) -> Seq<SpanData> {
        self.spans@
    }

    /// The settings the queue was created with.
    pub closed spec fn config(&self) -> BatchConfig {
        self.config
    }

    /// The stage of the queue's life.
    pub closed spec fn lifecycle(&self) -> ProcessorState {
        self.state
    }

    /// The number of spans turned away because the queue was full,
    /// saturating at `u64::MAX`.
    pub closed spec fn dropped(&self) -> nat {
        self.dropped_count as nat
    }

    /// The number of spans in batches whose export succeeded, saturating at
    /// `u64::MAX`.
    pub closed spec fn exported(&self) -> nat {
        self.exported_count as nat
    }

    /// The queue holds no more spans than its settings allow.
    pub closed spec fn wf(&self) -> bool {
        self.spans@.len() <= self.config.queue_size()
    }

    /// An empty, active queue with the given settings.
    pub fn new(config: BatchConfig) -> (q: Self)
        ensures
            q.wf(),
            q.queued() == Seq::<SpanData>::empty(),
            q.config() == config,
            q.lifecycle() == ProcessorState::Active,
            q.dropped() == 0,
            q.exported() == 0,
    {
        BatchQueue {
            config,
            spans: VecDeque::new(),
            state: ProcessorState::Active,
            dropped_count: 0,
            exported_count: 0,
        }
    }

    /// Offer a finished span. A queue that is not active, and any queue for a
    /// span that is not sampled, ignores it. Otherwise the span is queued
    /// behind the others if there is room; if there is none it is dropped,
    /// counted, and reported as `QueueFull`. The caller is never held up.
    pub fn on_end(&mut self, span: SpanData) -> (result: Result<(), TraceError>)
        requires
            old(self).wf(),
        ensures
            final(self).wf(),
            final(self).config() == old(self).config(),
            final(self).lifecycle() == old(self).lifecycle(),
            final(self).exported() == old(self).exported(),
            final(self).dropped() >= old(self).dropped(),
            !accepts(old(self).lifecycle(), span.span_context.spec_is_sampled()) ==> {
                &&& result is Ok
                &&& final(self).queued() == old(self).queued()
                &&& final(self).dropped() == old(self).dropped()
            },
            accepts(old(self).lifecycle(), span.span_context.spec_is_sampled()) ==> {
                &&& final(self).queued() == queue_after(
                    old(self).queued(),
                    old(self).config().queue_size(),
                    span,
                )
                &&& old(self).queued().len() < old(self).config().queue_size() ==> result is Ok
                    && final(self).dropped() == old(self).dropped()
                &&& old(self).queued().len() >= old(self).config().queue_size() ==> result == Err::<
                    (),
                    TraceError,
                >(TraceError::QueueFull) && final(self).dropped() == saturate(
                    old(self).dropped() + 1,
                )
            },
    {
        match self.state {
            ProcessorState::Active => {},
            _ => {
                return Ok(());
            },
        }
        if !span.span_context.is_sampled() {
            return Ok(());
        }
        if self.spans.len() < self.config.max_queue_size() {
            self.spans.push_back(span);
            Ok(())
        } else {
            if self.dropped_count < u64::MAX {
                self.dropped_count = self.dropped_count + 1;
            }
            Err(TraceError::QueueFull)
        }
    }

    /// Offer a run of finished spans, one after the other and without any
    /// export in between, each as `on_end` takes it. The spans that are
    /// accepted fill the queue in their order as far as there is room; the
    /// others of them are dropped and counted. Tells how many were dropped.
    pub fn on_end_each(&mut self, spans: Vec<SpanData>) -> (turned: usize)
        requires
            old(self).wf(),
        ensures
            final(self).wf(),
            final(self).config() == old(self).config(),
            final(self).lifecycle() == old(self).lifecycle(),
            final(self).exported() == old(self).exported(),
            final(self).queued() == queue_after_each(
                old(self).queued(),
                old(self).config().queue_size(),
                accepted_of(old(self).lifecycle(), spans@),
            ),
            turned == turned_away(
                old(self).queued().len(),
                old(self).config().queue_size(),
                accepted_of(old(self).lifecycle(), spans@).len(),
            ),
            final(self).queued() == old(self).queued() + accepted_of(
                old(self).lifecycle(),
                spans@,
            ).take(accepted_of(old(self).lifecycle(), spans@).len() - turned),
            final(self).dropped() == saturate(old(self).dropped() + turned as nat),
    {
        let ghost all = spans@;
        let ghost start = self.queued();
        let ghost capacity = self.config().queue_size();
        let ghost state = self.lifecycle();
        let counted = self.dropped_count();
        let total = spans.len();
        let mut rest = spans;
        let mut pending: Vec<SpanData> = Vec::new();
        while rest.len() > 0
            invariant
                rest@.len() + pending@.len() == all.len(),
                rest@ == all.take(rest@.len() as int),
                forall|i: int|
                    0 <= i < pending@.len() ==> #[trigger] pending@[i] == all[all.len() - 1 - i],
            decreases rest@.len(),
        {
            let span = rest.pop().unwrap();
            pending.push(span);
            assert(rest@ =~= all.take(rest@.len() as int));
        }
        let mut turned: usize = 0;
        proof {
            assert(all.take(0) =~= Seq::<SpanData>::empty());
        }
        while pending.len() > 0
            invariant
                pending@.len() <= all.len(),
                all.len() == total,
                forall|i: int|
                    0 <= i < pending@.len() ==> #[trigger] pending@[i] == all[all.len() - 1 - i],
                self.wf(),
                start.len() <= capacity,
                self.config() == old(self).config(),
                self.config().queue_size() == capacity,
                self.lifecycle() == state,
                self.exported() == old(self).exported(),
                self.queued() == queue_after_each(
                    start,
                    capacity,
                    accepted_of(state, all.take(all.len() - pending@.len())),
                ),
                turned == turned_away(
                    start.len(),
                    capacity,
                    accepted_of(state, all.take(all.len() - pending@.len())).len(),
                ),
                turned <= all.len() - pending@.len(),
                counted == old(self).dropped(),
                self.dropped() == saturate(counted as nat + turned as nat),
            decreases pending@.len(),
        {
            let ghost done = all.len() - pending@.len();
            let ghost before = accepted_of(state, all.take(done));
            let span = pending.pop().unwrap();
            proof {
                assert(span == all[done]);
                assert(all.take(done + 1).drop_last() =~= all.take(done));
                assert(all.take(done + 1).last() == span);
                lemma_queue_after_each(start, capacity, before);
                if accepts(state, span.span_context.spec_is_sampled()) {
                    assert(before.push(span).drop_last() =~= before);
                }
            }
            let result = self.on_end(span);
            if result.is_err() {
                turned = turned + 1;
            }
        }
        proof {
            assert(all.take(all.len() as int) =~= all);
            lemma_queue_after_each(start, capacity, accepted_of(state, all));
        }
        turned
    }

    /// Whether the worker should export now: when the scheduled delay has
    /// passed since the last export, when a full batch is waiting, or when a
    /// flush or a shutdown was asked for.
    pub fn should_export(&self, elapsed_millis: u64, signalled: bool) -> (b: bool)
        ensures
            b == (signalled || elapsed_millis >= self.config().delay_millis()
                || self.queued().len() >= self.config().batch_size()),
    {
        signalled || elapsed_millis >= self.config.scheduled_delay_millis() || self.spans.len()
            >= self.config.max_export_batch_size()
    }

    /// Take the next batch from the front of the queue: the oldest spans, in
    /// their order, as many as a batch may hold.
    pub fn take_batch(&mut self) -> (batch: Vec<SpanData>)
        requires
            old(self).wf(),
        ensures
            final(self).wf(),
            batch@ == first_batch(old(self).queued(), old(self).config().batch_size()),
            final(self).queued() == after_first_batch(
                old(self).queued(),
                old(self).config().batch_size(),
            ),
            batch@ + final(self).queued() == old(self).queued(),
            old(self).queued().len() > 0 ==> batch@.len() > 0,
            final(self).config() == old(self).config(),
            final(self).lifecycle() == old(self).lifecycle(),
            final(self).dropped() == old(self).dropped(),
            final(self).exported() == old(self).exported(),
    {
        let size = self.config.max_export_batch_size();
        let count = if self.spans.len() <= size {
            self.spans.len()
        } else {
            size
        };
        let ghost all = self.spans@;
        let mut batch: Vec<SpanData> = Vec::new();
        while batch.len() < count
            invariant
                count <= all.len(),
                batch@.len() <= count,
                batch@ + self.spans@ == all,
                self.config == old(self).config,
                self.state == old(self).state,
                self.dropped_count == old(self).dropped_count,
                self.exported_count == old(self).exported_count,
            decreases count - batch@.len(),
        {
            let ghost before = self.spans@;
            let ghost taken = batch@;
            let span = self.spans.pop_front().unwrap();
            batch.push(span);
            assert(batch@ + self.spans@ =~= taken + before);
        }
        proof {
            assert(batch@ =~= all.take(count as int));
            assert(self.spans@ =~= all.skip(count as int));
            assert(all.take(all.len() as int) =~= all);
        }
        batch
    }

    /// Take note of how the export of a batch of `batch_len` spans ended. A
    /// batch whose export failed or timed out is not counted and not offered
    /// again. The result is handed back for the caller to report.
    pub fn record_export(&mut self, batch_len: usize, result: Result<(), TraceError>) -> (reported:
        Result<(), TraceError>)
        ensures
            reported == result,
            final(self).exported() >= old(self).exported(),
            final(self).exported() == if result is Ok {
                saturate(old(self).exported() + batch_len as nat)
            } else {
                old(self).exported()
            },
            final(self).queued() == old(self).queued(),
            final(self).config() == old(self).config(),
            final(self).lifecycle() == old(self).lifecycle(),
            final(self).dropped() == old(self).dropped(),
            final(self).wf() == old(self).wf(),
    {
        if result.is_ok() {
            let wide: u64 = if batch_len as u128 > u64::MAX as u128 {
                u64::MAX
            } else {
                batch_len as u64
            };
            if wide <= u64::MAX - self.exported_count {
                self.exported_count = self.exported_count + wide;
            } else {
                self.exported_count = u64::MAX;
            }
        }
        result
    }

    /// Stop taking new spans. An active queue starts to shut down; any other
    /// queue stays as it is. Tells whether the queue was active.
    pub fn begin_shutdown(&mut self) -> (was_active: bool)
        ensures
            was_active == (old(self).lifecycle() == ProcessorState::Active),
            final(self).lifecycle() == if was_active {
                ProcessorState::ShuttingDown
            } else {
                old(self).lifecycle()
            },
            final(self).queued() == old(self).queued(),
            final(self).config() == old(self).config(),
            final(self).dropped() == old(self).dropped(),
            final(self).exported() == old(self).exported(),
            final(self).wf() == old(self).wf(),
    {
        match self.state {
            ProcessorState::Active => {
                self.state = ProcessorState::ShuttingDown;
                true
            },
            _ => false,
        }
    }

    /// End the queue's life once it has been drained.
    pub fn finish_shutdown(&mut self)
        requires
            old(self).queued().len() == 0,
        ensures
            final(self).lifecycle() == ProcessorState::Shutdown,
            final(self).queued() == old(self).queued(),
            final(self).config() == old(self).config(),
            final(self).dropped() == old(self).dropped(),
            final(self).exported() == old(self).exported(),
            final(self).wf(),
    {
        self.state = ProcessorState::Shutdown;
    }

    /// The number of spans that wait for export.
    pub fn len(&self) -> (n: usize)
        ensures
            n == self.queued().len(),
    {
        self.spans.len()
    }

    /// Whether no span waits for export.
    pub fn is_empty(&self) -> (b: bool)
        ensures
            b == (self.queued().len() == 0),
    {
        self.spans.len() == 0
    }

    /// The stage of the queue's life.
    pub fn state(&self) -> (s: ProcessorState)
        ensures
            s == self.lifecycle(),
    {
        self.state
    }

    /// The number of spans turned away because the queue was full.
    pub fn dropped_count(&self) -> (n: u64)
        ensures
            n == self.dropped(),
    {
        self.dropped_count
    }

    /// The number of spans in batches whose export succeeded.
    pub fn exported_count(&self) -> (n: u64)
        ensures
            n == self.exported(),
    {
        self.exported_count
    }

    /// The settings the queue was created with.
    pub fn batch_config(&self) -> (c: BatchConfig)
        ensures
            c == self.config(),
    {
        self.config
    }
}

} // verus!
