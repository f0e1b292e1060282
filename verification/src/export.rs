//! Export configuration and the batching state machine.

use vstd::prelude::*;

use crate::dispatch::LogEvent;
use crate::order::{
    lemma_sort_by_timestamp_multiset, lemma_sort_by_timestamp_sorted, lemma_sort_by_timestamp_stable,
    sort_batch_by_timestamp, sort_by_timestamp, sorted_by_timestamp, with_timestamp,
};

verus! {

/// To which log group and log stream batches are delivered.
///
/// The identifiers are opaque to the engine: they are handed through to the
/// sink unchanged and never validated here.
#[derive(Debug, Clone)]
pub struct LogDestination {
    /// The name of the log group.
    pub log_group_name: String,
    /// The name of the log stream.
    pub log_stream_name: String,
}

impl Default for LogDestination {
    /// An empty destination: both identifiers are empty strings.
    fn default() -> (r: Self)
        ensures
            r.log_group_name@ == Seq::<char>::empty(),
            r.log_stream_name@ == Seq::<char>::empty(),
    {
        LogDestination { log_group_name: String::new(), log_stream_name: String::new() }
    }
}

/// Configuration that controls when and how the exporter flushes batches.
///
/// Immutable for the exporter's lifetime once the exporter is constructed.
#[derive(Debug, Clone)]
pub struct ExportConfig {
    /// Flush as soon as the queue holds this many events. Always at least 1.
    pub batch_size: usize,
    /// Period of the flush timer, in milliseconds. Always at least 1.
    pub interval_millis: u64,
    /// To which destination batches are delivered.
    pub destination: LogDestination,
    /// When true, each flushed batch is sorted by timestamp (stable,
    /// ascending) just before it is handed to the sink; when false the batch
    /// keeps producer arrival order. Never reorders across batches.
    pub ordered_logs: bool,
}

impl ExportConfig {
    /// A configuration is well formed when both flush triggers are
    /// meaningful: a batch size of zero or a zero interval is invalid and is
    /// rejected at construction, before the exporter ever runs.
    pub open spec fn wf(self) -> bool {
        &&& self.batch_size >= 1
        &&& self.interval_millis >= 1
    }
}

impl Default for ExportConfig {
    /// The default configuration: batches of 5, flushed every 5 seconds,
    /// arrival order kept, empty destination.
    fn default() -> (r: Self)
        ensures
            r.wf(),
            r.batch_size == 5,
            r.interval_millis == 5000,
            !r.ordered_logs,
            r.destination.log_group_name@ == Seq::<char>::empty(),
            r.destination.log_stream_name@ == Seq::<char>::empty(),
    {
        ExportConfig {
            batch_size: 5,
            interval_millis: 5000,
            destination: LogDestination::default(),
            ordered_logs: false,
        }
    }
}

impl ExportConfig {
    /// Set the batch size. A batch size of zero is invalid: callers must
    /// reject it before reaching the engine.
    pub fn with_batch_size(self, batch_size: usize) -> (r: Self)
        requires
            batch_size >= 1,
        ensures
            r == (ExportConfig { batch_size, ..self }),
    {
        ExportConfig { batch_size, ..self }
    }

    /// Set the flush interval, in milliseconds. A zero interval is invalid:
    /// callers must reject it before reaching the engine.
    pub fn with_interval(self, interval_millis: u64) -> (r: Self)
        requires
            interval_millis >= 1,
        ensures
            r == (ExportConfig { interval_millis, ..self }),
    {
        ExportConfig { interval_millis, ..self }
    }

    /// Set the log group name.
    pub fn with_log_group_name(self, log_group_name: String) -> (r: Self)
        ensures
            r == (ExportConfig {
                destination: LogDestination {
                    log_group_name,
                    log_stream_name: self.destination.log_stream_name,
                },
                ..self
            }),
    {
        ExportConfig {
            destination: LogDestination {
                log_group_name,
                log_stream_name: self.destination.log_stream_name,
            },
            ..self
        }
    }

    /// Set the log stream name.
    pub fn with_log_stream_name(self, log_stream_name: String) -> (r: Self)
        ensures
            r == (ExportConfig {
                destination: LogDestination {
                    log_group_name: self.destination.log_group_name,
                    log_stream_name,
                },
                ..self
            }),
    {
        ExportConfig {
            destination: LogDestination {
                log_group_name: self.destination.log_group_name,
                log_stream_name,
            },
            ..self
        }
    }

    /// Choose the ordering mode: `true` sorts each flushed batch by
    /// timestamp, `false` (the default) keeps arrival order.
    pub fn with_ordered_logs(self, ordered_logs: bool) -> (r: Self)
        ensures
            r == (ExportConfig { ordered_logs, ..self }),
    {
        ExportConfig { ordered_logs, ..self }
    }
}

/// The linear life cycle of the exporter. There are no cycles: once the
/// exporter leaves `Running` it drains, flushes once more, and stops.
#[derive(Debug, Clone, Copy, PartialEq, Eq, Structural)]
pub enum ExporterState {
    /// Consuming events and flushing on the size and interval triggers.
    Running,
    /// A shutdown request arrived; collecting what is already buffered.
    Draining,
    /// Fully drained and flushed; no further event will ever be delivered.
    Terminated,
}

/// What a flushed batch looks like under the configured ordering mode:
/// either exactly the events taken from the queue, in arrival order, or the
/// same events stably sorted by timestamp.
pub open spec fn batch_for(config: ExportConfig, taken: Seq<LogEvent>) -> Seq<LogEvent> {
    if config.ordered_logs {
        sort_by_timestamp(taken)
    } else {
        taken
    }
}

/// The single-consumer batching state machine.
///
/// The exporter is the sole owner of the event queue: events come in through
/// `on_event`, and leave only as whole batches returned by the `on_*`
/// transitions, which the surrounding loop hands to the sink. The two ghost
/// histories record every event ever accepted and every event ever handed to
/// a flush; well-formedness ties them to the queue, so no event can be lost
/// or duplicated between arrival and flush.
pub struct BatchExporter {
    /// Delivery parameters, immutable for the exporter's lifetime.
    pub config: ExportConfig,
    /// Events accepted but not yet flushed, in arrival order.
    pub queue: Vec<LogEvent>,
    /// Where in its linear life cycle the exporter stands.
    pub state: ExporterState,
    /// History: every event the exporter has accepted, in arrival order.
    pub accepted: Ghost<Seq<LogEvent>>,
    /// History: every event the exporter has handed to a flush, in arrival
    /// order (the ordering mode is applied to each returned batch, never to
    /// this history).
    pub flushed: Ghost<Seq<LogEvent>>,
}

impl BatchExporter {
    /// The exporter's invariant, established by `new` and preserved by every
    /// transition:
    /// - the configuration is valid;
    /// - the queue always holds fewer events than one full batch (reaching
    ///   `batch_size` flushes immediately);
    /// - what was flushed, followed by what is queued, is exactly what was
    ///   accepted — no event is lost, duplicated or invented;
    /// - a terminated exporter buffers nothing.
    pub open spec fn wf(self) -> bool {
        &&& self.config.wf()
        &&& self.queue@.len() < self.config.batch_size
        &&& self.flushed@ + self.queue@ == self.accepted@
        &&& (self.state == ExporterState::Terminated ==> self.queue@.len() == 0)
    }

    /// A fresh exporter: empty queue, empty histories, running.
    pub fn new(config: ExportConfig) -> (r: Self)
        requires
            config.wf(),
        ensures
            r.wf(),
            r.config == config,
            r.state == ExporterState::Running,
            r.queue@ == Seq::<LogEvent>::empty(),
            r.accepted@ == Seq::<LogEvent>::empty(),
            r.flushed@ == Seq::<LogEvent>::empty(),
    {
        proof {
            assert(Seq::<LogEvent>::empty() + Seq::<LogEvent>::empty() =~= Seq::<
                LogEvent,
            >::empty());
        }
        BatchExporter {
            config,
            queue: Vec::new(),
            state: ExporterState::Running,
            accepted: Ghost(Seq::empty()),
            flushed: Ghost(Seq::empty()),
        }
    }

    /// Take the whole queue as the next batch, leaving the queue empty and
    /// applying the ordering mode to the taken events.
    pub fn take_from_queue(queue: &mut Vec<LogEvent>, ordered: bool) -> (r: Vec<LogEvent>)
        ensures
            final(queue)@ == Seq::<LogEvent>::empty(),
            ordered ==> r@ == sort_by_timestamp(old(queue)@),
            !ordered ==> r@ == old(queue)@,
    {
        let mut logs: Vec<LogEvent> = Vec::new();
        core::mem::swap(queue, &mut logs);
        if ordered {
            sort_batch_by_timestamp(logs)
        } else {
            logs
        }
    }

    /// The interval timer fired. An empty queue is left alone — idle ticks
    /// never produce a sink call; otherwise the whole queue goes out as one
    /// batch.
    pub fn on_timer_tick(&mut self) -> (batch: Option<Vec<LogEvent>>)
        requires
            old(self).wf(),
            old(self).state == ExporterState::Running,
        ensures
            final(self).wf(),
            final(self).state == ExporterState::Running,
            final(self).config == old(self).config,
            final(self).accepted@ == old(self).accepted@,
            old(self).queue@.len() == 0 ==> batch is None && *final(self) == *old(self),
            old(self).queue@.len() > 0 ==> (batch matches Some(b) && b@ == batch_for(
                old(self).config,
                old(self).queue@,
            )) && final(self).queue@.len() == 0 && final(self).flushed@ == old(self).flushed@
                + old(self).queue@,
    {
        if self.queue.len() == 0 {
            None
        } else {
            let ghost taken = self.queue@;
            let ordered = self.config.ordered_logs;
            let batch = Self::take_from_queue(&mut self.queue, ordered);
            self.flushed = Ghost(self.flushed@ + taken);
            proof {
                assert(self.flushed@ + self.queue@ =~= self.accepted@);
            }
            Some(batch)
        }
    }

    /// A producer's event arrived: append it to the queue. When that fills
    /// the batch, flush immediately — the size trigger pre-empts the
    /// interval trigger.
    pub fn on_event(&mut self, event: LogEvent) -> (batch: Option<Vec<LogEvent>>)
        requires
            old(self).wf(),
            old(self).state == ExporterState::Running,
        ensures
            final(self).wf(),
            final(self).state == ExporterState::Running,
            final(self).config == old(self).config,
            final(self).accepted@ == old(self).accepted@.push(event),
            old(self).queue@.len() + 1 < old(self).config.batch_size ==> batch is None
                && final(self).queue@ == old(self).queue@.push(event)
                && final(self).flushed@ == old(self).flushed@,
            old(self).queue@.len() + 1 >= old(self).config.batch_size ==> (batch matches Some(b)
                && b@ == batch_for(old(self).config, old(self).queue@.push(event)))
                && final(self).queue@.len() == 0
                && final(self).flushed@ == old(self).flushed@ + old(self).queue@.push(event),
    {
        let ghost queued = self.queue@;
        self.queue.push(event);
        self.accepted = Ghost(self.accepted@.push(event));
        proof {
            assert(self.flushed@ + queued.push(event) =~= (self.flushed@ + queued).push(event));
        }
        if self.queue.len() < self.config.batch_size {
            None
        } else {
            let ghost taken = self.queue@;
            let ordered = self.config.ordered_logs;
            let batch = Self::take_from_queue(&mut self.queue, ordered);
            self.flushed = Ghost(self.flushed@ + taken);
            proof {
                assert(self.flushed@ + self.queue@ =~= self.accepted@);
            }
            Some(batch)
        }
    }

    /// A shutdown request arrived: enter the draining phase. Queue and
    /// histories are untouched; the surrounding loop must now collect the
    /// events still buffered in its channel and hand them to `finish_drain`.
    pub fn begin_drain(&mut self)
        requires
            old(self).wf(),
            old(self).state == ExporterState::Running,
        ensures
            final(self).wf(),
            *final(self) == (BatchExporter { state: ExporterState::Draining, ..*old(self) }),
    {
        self.state = ExporterState::Draining;
    }

    /// Finish shutting down: accept the events drained from the channel
    /// buffer, flush everything in one final batch (an empty final flush is
    /// a no-op), and terminate. Afterwards nothing is buffered: every event
    /// ever accepted has been handed out for delivery.
    pub fn finish_drain(&mut self, drained: Vec<LogEvent>) -> (batch: Option<Vec<LogEvent>>)
        requires
            old(self).wf(),
            old(self).state == ExporterState::Draining,
        ensures
            final(self).wf(),
            final(self).state == ExporterState::Terminated,
            final(self).config == old(self).config,
            final(self).queue@.len() == 0,
            final(self).accepted@ == old(self).accepted@ + drained@,
            final(self).flushed@ == final(self).accepted@,
            old(self).queue@.len() + drained@.len() == 0 ==> batch is None,
            old(self).queue@.len() + drained@.len() > 0 ==> (batch matches Some(b) && b@
                == batch_for(old(self).config, old(self).queue@ + drained@)),
    {
        let ghost dr = drained@;
        let ghost queued = self.queue@;
        let mut drained = drained;
        self.queue.append(&mut drained);
        self.accepted = Ghost(self.accepted@ + dr);
        proof {
            assert(self.flushed@ + (queued + dr) =~= (self.flushed@ + queued) + dr);
        }
        if self.queue.len() == 0 {
            self.state = ExporterState::Terminated;
            proof {
                assert(self.flushed@ + self.queue@ =~= self.flushed@);
                assert(self.queue@ =~= queued + dr);
            }
            None
        } else {
            let ghost taken = self.queue@;
            let ordered = self.config.ordered_logs;
            let batch = Self::take_from_queue(&mut self.queue, ordered);
            self.flushed = Ghost(self.flushed@ + taken);
            self.state = ExporterState::Terminated;
            proof {
                assert(self.flushed@ + self.queue@ =~= self.flushed@);
                assert(self.flushed@ =~= self.accepted@);
            }
            Some(batch)
        }
    }

    /// The producers' channel closed, so no event can ever arrive again.
    /// Treated as an implicit shutdown: flush whatever is queued, terminate.
    pub fn on_channel_closed(&mut self) -> (batch: Option<Vec<LogEvent>>)
        requires
            old(self).wf(),
            old(self).state == ExporterState::Running,
        ensures
            final(self).wf(),
            final(self).state == ExporterState::Terminated,
            final(self).config == old(self).config,
            final(self).queue@.len() == 0,
            final(self).accepted@ == old(self).accepted@,
            final(self).flushed@ == final(self).accepted@,
            old(self).queue@.len() == 0 ==> batch is None,
            old(self).queue@.len() > 0 ==> (batch matches Some(b) && b@ == batch_for(
                old(self).config,
                old(self).queue@,
            )),
    {
        let ghost queued = self.queue@;
        self.state = ExporterState::Draining;
        let batch = self.finish_drain(Vec::new());
        proof {
            assert(queued + Seq::<LogEvent>::empty() =~= queued);
            assert(old(self).accepted@ + Seq::<LogEvent>::empty() =~= old(self).accepted@);
        }
        batch
    }
}

/// Whatever the ordering mode, a flushed batch carries exactly the events
/// taken from the queue — none lost, none duplicated, none invented. In
/// arrival-order mode the batch is the taken sequence itself; in sorted
/// mode it is ascending in timestamp, and the events of any one timestamp
/// keep their arrival order.
pub proof fn lemma_batch_for_properties(config: ExportConfig, taken: Seq<LogEvent>)
    ensures
        batch_for(config, taken).to_multiset() == taken.to_multiset(),
        batch_for(config, taken).len() == taken.len(),
        config.ordered_logs ==> sorted_by_timestamp(batch_for(config, taken)),
        config.ordered_logs ==> forall|t: int|
            #[trigger] with_timestamp(batch_for(config, taken), t) == with_timestamp(taken, t),
        !config.ordered_logs ==> batch_for(config, taken) == taken,
{
    if config.ordered_logs {
        lemma_sort_by_timestamp_multiset(taken);
        lemma_sort_by_timestamp_sorted(taken);
        assert forall|t: int|
            #[trigger] with_timestamp(batch_for(config, taken), t) == with_timestamp(
                taken,
                t,
            ) by {
            lemma_sort_by_timestamp_stable(taken, t);
        }
    }
}

impl Default for BatchExporter {
    /// A fresh exporter over the default configuration.
    fn default() -> (r: Self)
        ensures
            r.wf(),
            r.state == ExporterState::Running,
            r.queue@ == Seq::<LogEvent>::empty(),
            r.accepted@ == Seq::<LogEvent>::empty(),
            r.flushed@ == Seq::<LogEvent>::empty(),
            r.config.batch_size == 5,
            r.config.interval_millis == 5000,
            !r.config.ordered_logs,
    {
        BatchExporter::new(ExportConfig::default())
    }
}

/// Nothing queued survives termination: once the exporter has terminated,
/// the events handed to flushes are exactly the events it accepted, in
/// arrival order — shutdown drained everything queued before it.
pub proof fn lemma_terminated_drained(e: &BatchExporter)
    requires
        e.wf(),
        e.state == ExporterState::Terminated,
    ensures
        e.flushed@ == e.accepted@,
{
    assert(e.flushed@ + e.queue@ =~= e.flushed@);
}

} // verus!
