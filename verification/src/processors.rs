//! The two span processors: one that exports every span as it ends, and one
//! that queues spans and exports them in batches.

use crate::error::TraceError;
use crate::evicted_queue::saturate;
use crate::ids::SpanContext;
use crate::span::SpanData;
use crate::span_processor::{
    accepted_of, accepts, after_first_batch, first_batch, keep_first_failure,
    lemma_accepts_nothing_when_shut_down, queue_after, queue_after_each, turned_away, BatchConfig,
    BatchQueue, ExporterHandle, ProcessorState, SpanExporter,
};
use vstd::prelude::*;

verus! {

/// What a tracer does with its spans when they start and end.
///
/// `handed_over` is the record of the spans the processor has passed to its
/// exporter and `buffered` the spans it still holds, both oldest first. A
/// processor never reorders spans. It shuts its exporter down when it is
/// shut down itself, and from then on every call leaves it as it is.
pub trait SpanProcessor {
    /// What the processor relies on between calls.
    spec fn wf(&self) -> bool;

    /// The stage of the processor's life.
    spec fn lifecycle(&self) -> ProcessorState;

    /// The spans passed to the exporter so far, oldest first.
    spec fn handed_over(&self) -> Seq<SpanData>;

    /// The spans that wait to be passed to the exporter, oldest first.
    spec fn buffered(&self) -> Seq<SpanData>;

    /// Whether the processor has shut its exporter down.
    spec fn exporter_shut_down(&self) -> bool;

    /// Called when a span starts. Processors of this library do nothing here.
    fn on_start(&self, span: &SpanContext, parent: Option<&SpanContext>);

    /// Called when a span ends. A span that is not sampled, and any span
    /// given to a processor that is not active, is ignored.
    fn on_end(&mut self, span: SpanData) -> (result: Result<(), TraceError>)
        requires
            old(self).wf(),
        ensures
            final(self).wf(),
            final(self).lifecycle() == old(self).lifecycle(),
            final(self).exporter_shut_down() == old(self).exporter_shut_down(),
            !accepts(old(self).lifecycle(), span.span_context.spec_is_sampled()) ==> {
                &&& result is Ok
                &&& final(self).handed_over() == old(self).handed_over()
                &&& final(self).buffered() == old(self).buffered()
            },
            accepts(old(self).lifecycle(), span.span_context.spec_is_sampled()) ==> {
                ||| (final(self).handed_over() + final(self).buffered() == (old(self).handed_over()
                    + old(self).buffered()).push(span))
                ||| (result is Err && final(self).handed_over() == old(self).handed_over()
                    && final(self).buffered() == old(self).buffered())
            },
    ;

    /// Pass everything that is buffered to the exporter, in order, and
    /// return when that is done. A processor that is shut down does nothing.
    fn force_flush(&mut self) -> (result: Result<(), TraceError>)
        requires
            old(self).wf(),
        ensures
            final(self).wf(),
            final(self).lifecycle() == old(self).lifecycle(),
            final(self).exporter_shut_down() == old(self).exporter_shut_down(),
            old(self).lifecycle() == ProcessorState::Shutdown ==> {
                &&& result is Ok
                &&& final(self).handed_over() == old(self).handed_over()
                &&& final(self).buffered() == old(self).buffered()
            },
            old(self).lifecycle() != ProcessorState::Shutdown ==> {
                &&& final(self).handed_over() == old(self).handed_over() + old(self).buffered()
                &&& final(self).buffered() == Seq::<SpanData>::empty()
            },
            old(self).buffered().len() == 0 ==> result is Ok,
    ;

    /// Stop accepting spans, pass everything that is buffered to the
    /// exporter, shut the exporter down and end the processor's life.
    /// Shutting down a processor that is shut down does nothing.
    fn shutdown(&mut self) -> (result: Result<(), TraceError>)
        requires
            old(self).wf(),
        ensures
            final(self).wf(),
            final(self).lifecycle() == ProcessorState::Shutdown,
            final(self).exporter_shut_down(),
            old(self).lifecycle() == ProcessorState::Shutdown ==> {
                &&& result is Ok
                &&& final(self).handed_over() == old(self).handed_over()
                &&& final(self).buffered() == old(self).buffered()
            },
            old(self).lifecycle() != ProcessorState::Shutdown ==> {
                &&& final(self).handed_over() == old(self).handed_over() + old(self).buffered()
                &&& final(self).buffered() == Seq::<SpanData>::empty()
            },
            old(self).buffered().len() == 0 ==> result is Ok,
    ;
}

/// A processor that passes each span to the exporter as soon as it ends, on
/// the thread that ended it.
pub struct SimpleSpanProcessor<E: SpanExporter> {
    exporter: ExporterHandle<E>,
    state: ProcessorState,
}

impl<E: SpanExporter> SimpleSpanProcessor<E> {
    /// The processor's exporter.
    pub closed spec fn exporter(&self) -> E {
        self.exporter.exporter()
    }

    /// A processor that exports through `exporter`.
    pub fn new(exporter: E) -> (p: Self)
        ensures
            p.wf(),
            p.lifecycle() == ProcessorState::Active,
            p.exporter() == exporter,
            p.handed_over() == Seq::<SpanData>::empty(),
            !p.exporter_shut_down(),
    {
        SimpleSpanProcessor {
            exporter: ExporterHandle::new(exporter),
            state: ProcessorState::Active,
        }
    }

    /// The exporter is shut down exactly when the processor's life has ended.
    pub proof fn lemma_exporter_follows_lifecycle(&self)
        requires
            self.wf(),
        ensures
            self.exporter_shut_down() == (self.lifecycle() == ProcessorState::Shutdown),
    {
    }

    /// The stage of the processor's life.
    pub fn state(&self) -> (s: ProcessorState)
        ensures
            s == self.lifecycle(),
    {
        self.state
    }

    /// The processor's exporter.
    pub fn exporter_ref(&self) -> (e: &E)
        ensures
            *e == self.exporter(),
    {
        self.exporter.get()
    }
}

impl<E: SpanExporter> SpanProcessor for SimpleSpanProcessor<E> {
    closed spec fn wf(&self) -> bool {
        &&& self.state != ProcessorState::ShuttingDown
        &&& self.state == ProcessorState::Shutdown <==> self.exporter.is_shut_down()
    }

    closed spec fn lifecycle(&self) -> ProcessorState {
        self.state
    }

    closed spec fn handed_over(&self) -> Seq<SpanData> {
        self.exporter.handed_over()
    }

    open spec fn buffered(&self) -> Seq<SpanData> {
        Seq::empty()
    }

    closed spec fn exporter_shut_down(&self) -> bool {
        self.exporter.is_shut_down()
    }

    fn on_start(&self, span: &SpanContext, parent: Option<&SpanContext>) {
    }

    /// Pass the span to the exporter at once, in a batch of its own, and
    /// hand back what the exporter answered.
    fn on_end(&mut self, span: SpanData) -> (result: Result<(), TraceError>)
        ensures
            accepts(old(self).lifecycle(), span.span_context.spec_is_sampled())
                ==> final(self).handed_over() == old(self).handed_over().push(span),
    {
        match self.state {
            ProcessorState::Active => {},
            _ => {
                return Ok(());
            },
        }
        if !span.span_context.is_sampled() {
            return Ok(());
        }
        let ghost before = self.exporter.handed_over();
        let batch: Vec<SpanData> = vec![span];
        let result = self.exporter.export(batch);
        proof {
            assert(before + seq![span] =~= before.push(span));
            assert(before.push(span) + Seq::<SpanData>::empty() =~= (before + Seq::<
                SpanData,
            >::empty()).push(span));
        }
        result
    }

    /// Nothing is ever buffered, so there is nothing to do: the exporter is
    /// not called and the processor stays exactly as it is.
    fn force_flush(&mut self) -> (result: Result<(), TraceError>)
        ensures
            result is Ok,
            *final(self) == *old(self),
            final(self).exporter() == old(self).exporter(),
            final(self).handed_over() == old(self).handed_over(),
    {
        proof {
            assert(self.exporter.handed_over() + Seq::<SpanData>::empty()
                =~= self.exporter.handed_over());
        }
        Ok(())
    }

    /// Shut the exporter down, once.
    fn shutdown(&mut self) -> (result: Result<(), TraceError>)
        ensures
            result is Ok,
            final(self).handed_over() == old(self).handed_over(),
    {
        proof {
            assert(self.exporter.handed_over() + Seq::<SpanData>::empty()
                =~= self.exporter.handed_over());
        }
        match self.state {
            ProcessorState::Shutdown => {},
            _ => {
                self.exporter.shutdown();
                self.state = ProcessorState::Shutdown;
            },
        }
        Ok(())
    }
}

/// A processor that queues spans as they end and passes them to the exporter
/// in batches, oldest first. A span that arrives while the queue is full is
/// dropped and counted; the caller is never held up.
pub struct BatchSpanProcessor<E: SpanExporter> {
    queue: BatchQueue,
    exporter: ExporterHandle<E>,
}

impl<E: SpanExporter> BatchSpanProcessor<E> {
    /// The processor's exporter.
    pub closed spec fn exporter(&self) -> E {
        self.exporter.exporter()
    }

    /// The processor's queue and counters.
    pub closed spec fn queue(&self) -> BatchQueue {
        self.queue
    }

    /// A processor with an empty queue that exports through `exporter`.
    pub fn new(exporter: E, config: BatchConfig) -> (p: Self)
        ensures
            p.wf(),
            p.lifecycle() == ProcessorState::Active,
            p.exporter() == exporter,
            p.handed_over() == Seq::<SpanData>::empty(),
            p.buffered() == Seq::<SpanData>::empty(),
            !p.exporter_shut_down(),
            p.queue().config() == config,
            p.queue().dropped() == 0,
            p.queue().exported() == 0,
    {
        BatchSpanProcessor {
            queue: BatchQueue::new(config),
            exporter: ExporterHandle::new(exporter),
        }
    }

    /// Pass everything that is queued to the exporter, batch by batch. A
    /// failed batch is reported and discarded; the batches behind it are
    /// still exported. The first failure, if any, is handed back.
    fn export_all(&mut self) -> (result: Result<(), TraceError>)
        requires
            old(self).queue.wf(),
            !old(self).exporter.is_shut_down(),
        ensures
            final(self).queue.wf(),
            !final(self).exporter.is_shut_down(),
            final(self).queue.queued() == Seq::<SpanData>::empty(),
            final(self).exporter.handed_over() == old(self).exporter.handed_over()
                + old(self).queue.queued(),
            final(self).queue.config() == old(self).queue.config(),
            final(self).queue.lifecycle() == old(self).queue.lifecycle(),
            final(self).queue.dropped() == old(self).queue.dropped(),
            old(self).queue.queued().len() == 0 ==> result is Ok && final(self).queue.exported()
                == old(self).queue.exported() && final(self).exporter == old(self).exporter,
            result is Ok ==> final(self).queue.exported() == saturate(
                old(self).queue.exported() + old(self).queue.queued().len(),
            ),
            final(self).queue.exported() >= old(self).queue.exported(),
            final(self).queue.exported() <= saturate(
                old(self).queue.exported() + old(self).queue.queued().len(),
            ),
    {
        let ghost received = self.exporter.handed_over();
        let ghost queued = self.queue.queued();
        let counted = self.queue.exported_count();
        let ghost exported = counted as nat;
        let mut outcome: Result<(), TraceError> = Ok(());
        proof {
            assert(received + queued =~= self.exporter.handed_over() + self.queue.queued());
        }
        while !self.queue.is_empty()
            invariant
                self.queue.wf(),
                !self.exporter.is_shut_down(),
                self.exporter.handed_over() + self.queue.queued() == received + queued,
                self.queue.queued().len() <= queued.len(),
                self.queue.config() == old(self).queue.config(),
                self.queue.lifecycle() == old(self).queue.lifecycle(),
                self.queue.dropped() == old(self).queue.dropped(),
                queued.len() == 0 ==> self.exporter == old(self).exporter && outcome is Ok,
                outcome is Ok ==> self.queue.exported() == saturate(
                    (exported + (queued.len() - self.queue.queued().len())) as nat,
                ),
                self.queue.exported() >= exported,
                self.queue.exported() <= saturate(
                    (exported + (queued.len() - self.queue.queued().len())) as nat,
                ),
                exported <= u64::MAX,
            decreases self.queue.queued().len(),
        {
            let ghost handed = self.exporter.handed_over();
            let ghost waiting = self.queue.queued();
            let batch = self.queue.take_batch();
            let batch_len = batch.len();
            let ghost sent = batch@;
            let result = self.exporter.export(batch);
            let reported = self.queue.record_export(batch_len, result);
            proof {
                assert((handed + sent) + self.queue.queued() =~= handed + (sent
                    + self.queue.queued()));
            }
            outcome = keep_first_failure(outcome, reported);
        }
        proof {
            assert(self.exporter.handed_over() + Seq::<SpanData>::empty()
                =~= self.exporter.handed_over());
            assert(self.queue.queued() =~= Seq::<SpanData>::empty());
        }
        outcome
    }

    /// Take a run of finished spans, one after the other and without any
    /// export in between, each as `on_end` takes it. The spans that are
    /// accepted fill the queue in their order as far as there is room; the
    /// others of them are dropped and counted. The exporter is not touched.
    /// Tells how many spans were dropped.
    pub fn on_end_each(&mut self, spans: Vec<SpanData>) -> (turned: usize)
        requires
            old(self).wf(),
        ensures
            final(self).wf(),
            final(self).lifecycle() == old(self).lifecycle(),
            final(self).exporter_shut_down() == old(self).exporter_shut_down(),
            final(self).exporter() == old(self).exporter(),
            final(self).handed_over() == old(self).handed_over(),
            final(self).queue().config() == old(self).queue().config(),
            final(self).queue().exported() == old(self).queue().exported(),
            final(self).buffered() == queue_after_each(
                old(self).buffered(),
                old(self).queue().config().queue_size(),
                accepted_of(old(self).lifecycle(), spans@),
            ),
            turned == turned_away(
                old(self).buffered().len(),
                old(self).queue().config().queue_size(),
                accepted_of(old(self).lifecycle(), spans@).len(),
            ),
            final(self).buffered() == old(self).buffered() + accepted_of(
                old(self).lifecycle(),
                spans@,
            ).take(accepted_of(old(self).lifecycle(), spans@).len() - turned),
            final(self).queue().dropped() == saturate(old(self).queue().dropped() + turned as nat),
    {
        proof {
            if self.queue.lifecycle() != ProcessorState::Active {
                lemma_accepts_nothing_when_shut_down(self.queue.lifecycle(), spans@);
            }
        }
        self.queue.on_end_each(spans)
    }

    /// Whether the worker has reason to export when `elapsed_millis` have
    /// passed since the last export: the processor is active, something is
    /// queued, and either the scheduled delay has passed or a full batch is
    /// waiting.
    pub open spec fn export_is_due(&self, elapsed_millis: u64) -> bool {
        &&& self.lifecycle() == ProcessorState::Active
        &&& self.buffered().len() > 0
        &&& (elapsed_millis >= self.queue().config().delay_millis() || self.buffered().len()
            >= self.queue().config().batch_size())
    }

    /// One turn of the worker, `elapsed_millis` after the last export. If an
    /// export is due, the oldest spans are taken from the queue, as many as
    /// a batch may hold, and passed to the exporter in their order; the
    /// exporter's answer is handed back. A batch that failed is not offered
    /// again. If no export is due, nothing happens.
    pub fn export_due(&mut self, elapsed_millis: u64) -> (result: Result<(), TraceError>)
        requires
            old(self).wf(),
        ensures
            final(self).wf(),
            final(self).lifecycle() == old(self).lifecycle(),
            final(self).exporter_shut_down() == old(self).exporter_shut_down(),
            final(self).queue().config() == old(self).queue().config(),
            final(self).queue().dropped() == old(self).queue().dropped(),
            !old(self).export_is_due(elapsed_millis) ==> {
                &&& result is Ok
                &&& final(self).exporter() == old(self).exporter()
                &&& final(self).handed_over() == old(self).handed_over()
                &&& final(self).buffered() == old(self).buffered()
                &&& final(self).queue().exported() == old(self).queue().exported()
            },
            old(self).export_is_due(elapsed_millis) ==> {
                let batch = first_batch(
                    old(self).buffered(),
                    old(self).queue().config().batch_size(),
                );
                &&& final(self).handed_over() == old(self).handed_over() + batch
                &&& final(self).buffered() == after_first_batch(
                    old(self).buffered(),
                    old(self).queue().config().batch_size(),
                )
                &&& final(self).queue().exported() == if result is Ok {
                    saturate(old(self).queue().exported() + batch.len())
                } else {
                    old(self).queue().exported()
                }
            },
    {
        match self.queue.state() {
            ProcessorState::Active => {},
            _ => {
                return Ok(());
            },
        }
        if self.queue.is_empty() || !self.queue.should_export(elapsed_millis, false) {
            return Ok(());
        }
        let batch = self.queue.take_batch();
        let batch_len = batch.len();
        let result = self.exporter.export(batch);
        self.queue.record_export(batch_len, result)
    }

    /// The number of spans that wait for export.
    pub fn queued_len(&self) -> (n: usize)
        ensures
            n == self.buffered().len(),
    {
        self.queue.len()
    }

    /// The number of spans dropped because the queue was full.
    pub fn dropped_count(&self) -> (n: u64)
        ensures
            n == self.queue().dropped(),
    {
        self.queue.dropped_count()
    }

    /// The number of spans in batches whose export succeeded.
    pub fn exported_count(&self) -> (n: u64)
        ensures
            n == self.queue().exported(),
    {
        self.queue.exported_count()
    }

    /// The exporter is shut down exactly when the processor's life has ended.
    pub proof fn lemma_exporter_follows_lifecycle(&self)
        requires
            self.wf(),
        ensures
            self.exporter_shut_down() == (self.lifecycle() == ProcessorState::Shutdown),
    {
    }

    /// The stage of the processor's life.
    pub fn state(&self) -> (s: ProcessorState)
        ensures
            s == self.lifecycle(),
    {
        self.queue.state()
    }

    /// The processor's exporter.
    pub fn exporter_ref(&self) -> (e: &E)
        ensures
            *e == self.exporter(),
    {
        self.exporter.get()
    }
}

impl<E: SpanExporter> SpanProcessor for BatchSpanProcessor<E> {
    closed spec fn wf(&self) -> bool {
        &&& self.queue.wf()
        &&& self.queue.lifecycle() != ProcessorState::ShuttingDown
        &&& self.queue.lifecycle() == ProcessorState::Shutdown <==> self.exporter.is_shut_down()
        &&& self.queue.lifecycle() == ProcessorState::Shutdown ==> self.queue.queued().len() == 0
    }

    closed spec fn lifecycle(&self) -> ProcessorState {
        self.queue.lifecycle()
    }

    closed spec fn handed_over(&self) -> Seq<SpanData> {
        self.exporter.handed_over()
    }

    closed spec fn buffered(&self) -> Seq<SpanData> {
        self.queue.queued()
    }

    closed spec fn exporter_shut_down(&self) -> bool {
        self.exporter.is_shut_down()
    }

    fn on_start(&self, span: &SpanContext, parent: Option<&SpanContext>) {
    }

    /// Queue the span behind the others, or drop and count it when the queue
    /// is full. The exporter is not touched.
    fn on_end(&mut self, span: SpanData) -> (result: Result<(), TraceError>)
        ensures
            final(self).exporter() == old(self).exporter(),
            final(self).handed_over() == old(self).handed_over(),
            final(self).queue().config() == old(self).queue().config(),
            final(self).queue().exported() == old(self).queue().exported(),
            !accepts(old(self).lifecycle(), span.span_context.spec_is_sampled())
                ==> final(self).queue().dropped() == old(self).queue().dropped(),
            accepts(old(self).lifecycle(), span.span_context.spec_is_sampled()) ==> {
                &&& final(self).buffered() == queue_after(
                    old(self).buffered(),
                    old(self).queue().config().queue_size(),
                    span,
                )
                &&& old(self).buffered().len() < old(self).queue().config().queue_size()
                    ==> result is Ok && final(self).queue().dropped() == old(self).queue().dropped()
                &&& old(self).buffered().len() >= old(self).queue().config().queue_size()
                    ==> result == Err::<(), TraceError>(TraceError::QueueFull)
                    && final(self).queue().dropped() == saturate(old(self).queue().dropped() + 1)
            },
    {
        let ghost handed = self.exporter.handed_over();
        let ghost waiting = self.queue.queued();
        let result = self.queue.on_end(span);
        proof {
            assert(handed + waiting.push(span) =~= (handed + waiting).push(span));
        }
        result
    }

    /// Export everything that is queued, batch by batch, oldest first.
    fn force_flush(&mut self) -> (result: Result<(), TraceError>)
        ensures
            final(self).queue().config() == old(self).queue().config(),
            final(self).queue().dropped() == old(self).queue().dropped(),
            old(self).lifecycle() == ProcessorState::Shutdown ==> final(self).queue().exported()
                == old(self).queue().exported() && final(self).exporter() == old(self).exporter(),
            old(self).buffered().len() == 0 ==> final(self).queue().exported()
                == old(self).queue().exported() && final(self).exporter() == old(self).exporter(),
            result is Ok && old(self).lifecycle() != ProcessorState::Shutdown
                ==> final(self).queue().exported() == saturate(
                old(self).queue().exported() + old(self).buffered().len(),
            ),
            final(self).queue().exported() >= old(self).queue().exported(),
    {
        match self.queue.state() {
            ProcessorState::Shutdown => Ok(()),
            _ => self.export_all(),
        }
    }

    /// Export everything that is queued, shut the exporter down, and end
    /// the processor's life.
    fn shutdown(&mut self) -> (result: Result<(), TraceError>)
        ensures
            final(self).queue().config() == old(self).queue().config(),
            final(self).queue().dropped() == old(self).queue().dropped(),
            old(self).lifecycle() == ProcessorState::Shutdown ==> final(self).queue().exported()
                == old(self).queue().exported() && final(self).exporter() == old(self).exporter(),
            result is Ok && old(self).lifecycle() != ProcessorState::Shutdown
                ==> final(self).queue().exported() == saturate(
                old(self).queue().exported() + old(self).buffered().len(),
            ),
            final(self).queue().exported() >= old(self).queue().exported(),
    {
        if !self.queue.begin_shutdown() {
            return Ok(());
        }
        let result = self.export_all();
        self.exporter.shutdown();
        self.queue.finish_shutdown();
        result
    }
}

} // verus!
