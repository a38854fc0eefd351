//! The exporter facade: the public entry point producers and the driver
//! loop talk to.
//!
//! Producers call [`Exporter::record`]. One background driver (outside
//! this crate) repeatedly calls [`Exporter::next_action`] and performs
//! the returned action: sleep until the given time, or hand a batch to
//! the delivery client and report the outcome through
//! [`Exporter::on_export_result`]. The exporter owns every decision —
//! when a batch is due, how retries back off, when a batch is abandoned —
//! so the driver contains no policy.
//!
//! The abstract state is an [`ExporterModel`]; every method's contract
//! says exactly how the model evolves.

use vstd::prelude::*;

use crate::config::{Config, ConfigError, ConfigOptions, OverflowPolicy};
use crate::queue::{
    drain_count, enqueue_accepts, enqueue_model, QueueModel, SpanQueue,
};
use crate::retry::{backoff_delay, ExportResult};
use crate::span::{QueuedSpan, SpanRecord};

verus! {

/// An ordered group of spans exported together in one delivery call.
#[derive(Debug)]
pub struct Batch {
    pub spans: Vec<QueuedSpan>,
}

/// What the driver loop is told to do next.
#[derive(Debug)]
pub enum Action {
    /// Nothing is due before `until_ms`; wake then, or earlier if a new
    /// span arrives.
    Sleep { until_ms: u64 },
    /// Hand this batch to the delivery client; `attempt` says which
    /// attempt this is for the batch, counting from 1.
    Deliver { batch: Batch, attempt: u32 },
    /// Shutdown is complete; the driver loop exits.
    Stop,
}

/// Why a call to `record` did not accept the span.
#[derive(Clone, Copy, Debug, PartialEq, Eq, Structural)]
pub enum RecordError {
    /// Shutdown has begun; new spans are rejected, not silently dropped.
    ShutdownInProgress,
    /// The queue is full and the policy refuses the span; the caller
    /// keeps it and may retry (under `Block`) or give up.
    QueueFull,
}

/// An event on the exporter's notification channel, for the host's own
/// logging or metrics; the exporter itself never logs.
#[derive(Clone, Debug)]
pub enum Notification {
    /// A batch was abandoned after a permanent failure, or after the
    /// configured number of attempts all failed retryably.
    BatchDropped { span_count: usize, reason: String },
    /// The queue discarded one span on overflow, under `DropOldest` or
    /// `DropNewest`.
    SpanDropped,
    /// Spans still pending when shutdown gave up were discarded.
    ShutdownDiscarded { span_count: usize },
}

/// Abstract state of an [`Exporter`].
#[verifier::ext_equal]
pub ghost struct ExporterModel {
    /// The span queue's abstract state.
    pub queue: QueueModel,
    /// The batch currently being delivered or awaiting a retry; empty
    /// when no delivery is in progress.
    pub in_flight: Seq<QueuedSpan>,
    /// Delivery attempts begun for the in-flight batch; 0 iff none.
    pub attempt: nat,
    /// True while the driver holds the in-flight batch.
    pub awaiting: bool,
    /// When the in-flight batch may be re-sent (backoff), meaningful
    /// only while a batch is in flight and the driver does not hold it.
    pub resume_at_ms: u64,
    /// A flush was requested and spans were still pending.
    pub flush_requested: bool,
    /// Shutdown has begun; new spans are rejected.
    pub shutdown_started: bool,
    /// When the shutdown grace period ends.
    pub shutdown_deadline_ms: u64,
    /// The driver has been told to stop.
    pub stopped: bool,
    /// Spans delivered successfully.
    pub delivered: nat,
    /// Batches abandoned after permanent failure or retry exhaustion.
    pub failed_batches: nat,
    /// Events on the notification channel, oldest first.
    pub notifications: Seq<Notification>,
}

/// Spans accepted but not yet delivered: queued plus in flight.
pub open spec fn pending(m: ExporterModel) -> nat {
    m.queue.spans.len() + m.in_flight.len()
}

/// Whether a batch should be formed now: the size threshold is reached,
/// or a flush or shutdown wants the queue emptied, or the oldest queued
/// span has waited a full flush interval.
pub open spec fn batch_due(cfg: Config, m: ExporterModel, now: u64) -> bool {
    &&& m.queue.spans.len() > 0
    &&& {
        ||| m.queue.spans.len() >= cfg.max_batch_size
        ||| m.flush_requested
        ||| m.shutdown_started
        ||| now >= m.queue.spans[0].enqueued_at_ms + cfg.flush_interval_ms
    }
}

/// A non-negative quantity capped at `u64::MAX`, as the saturating
/// time and counter arithmetic shows it.
pub open spec fn sat64(n: int) -> nat {
    if n > u64::MAX {
        u64::MAX as nat
    } else if n < 0 {
        0
    } else {
        n as nat
    }
}

/// The batching span exporter.
pub struct Exporter {
    config: Config,
    queue: SpanQueue,
    /// The in-flight batch, held here while waiting out a backoff delay;
    /// `None` while the driver holds it or no delivery is in progress.
    parked: Option<Batch>,
    in_flight_model: Ghost<Seq<QueuedSpan>>,
    /// Executable mirror of the in-flight batch's span count.
    in_flight_count: usize,
    attempt: u32,
    awaiting: bool,
    /// The backoff delay to apply if the current attempt fails.
    cur_delay_ms: u64,
    resume_at_ms: u64,
    flush_requested: bool,
    shutdown_started: bool,
    shutdown_deadline_ms: u64,
    stopped: bool,
    delivered: u64,
    delivered_total: Ghost<nat>,
    failed_batches: u64,
    failed_total: Ghost<nat>,
    notifications: Vec<Notification>,
}

impl View for Exporter {
    type V = ExporterModel;

    closed spec fn view(&self) -> ExporterModel {
        ExporterModel {
            queue: self.queue@,
            in_flight: self.in_flight_model@,
            attempt: self.attempt as nat,
            awaiting: self.awaiting,
            resume_at_ms: self.resume_at_ms,
            flush_requested: self.flush_requested,
            shutdown_started: self.shutdown_started,
            shutdown_deadline_ms: self.shutdown_deadline_ms,
            stopped: self.stopped,
            delivered: self.delivered_total@,
            failed_batches: self.failed_total@,
            notifications: self.notifications@,
        }
    }
}

impl Exporter {
    /// The immutable configuration this exporter was constructed with.
    pub closed spec fn cfg(&self) -> Config {
        self.config
    }

    /// Internal consistency; established by `construct` and preserved by
    /// every method.
    pub closed spec fn wf(&self) -> bool {
        &&& self.config.wf()
        &&& self.queue.wf()
        &&& self.queue@.cap == self.config.queue_capacity
        &&& self.queue@.policy == self.config.overflow_policy
        &&& (self.attempt == 0 <==> self.in_flight_model@.len() == 0)
        &&& self.in_flight_count as nat == self.in_flight_model@.len()
        &&& self.attempt <= self.config.retry.max_attempts
        &&& self.in_flight_model@.len() <= self.config.max_batch_size
        &&& (self.awaiting ==> self.in_flight_model@.len() > 0 && self.parked is None)
        &&& (!self.awaiting && self.in_flight_model@.len() > 0 ==> self.attempt
            < self.config.retry.max_attempts)
        &&& (!self.awaiting && self.in_flight_model@.len() > 0 ==> (self.parked matches Some(b)
            && b.spans@ == self.in_flight_model@))
        &&& (self.in_flight_model@.len() == 0 ==> self.parked is None)
        &&& (self.in_flight_model@.len() > 0 ==> self.cur_delay_ms as nat == backoff_delay(
            self.config.retry,
            (self.attempt - 1) as nat,
        ))
        &&& (self.stopped ==> self.shutdown_started && self.queue@.spans.len() == 0
            && self.in_flight_model@.len() == 0 && !self.awaiting)
        &&& (self.delivered_total@ <= u64::MAX ==> self.delivered as nat == self.delivered_total@)
        &&& (self.delivered_total@ > u64::MAX ==> self.delivered == u64::MAX)
        &&& (self.failed_total@ <= u64::MAX ==> self.failed_batches as nat == self.failed_total@)
        &&& (self.failed_total@ > u64::MAX ==> self.failed_batches == u64::MAX)
    }

    /// Builds an exporter from host-supplied options.
    ///
    /// Fails exactly when the options fail validation (see
    /// `Config::from_options`); nothing is constructed on failure. On
    /// success the exporter starts idle and empty, with its configuration
    /// fixed for life.
    pub fn construct(opts: ConfigOptions) -> (r: Result<Exporter, ConfigError>)
        ensures
            r is Ok <==> crate::config::options_valid(opts),
            r matches Ok(ex) ==> {
                &&& ex.wf()
                &&& ex.cfg().wf()
                &&& ex@.queue.spans.len() == 0
                &&& ex@.queue.dropped == 0
                &&& ex@.queue.cap == ex.cfg().queue_capacity
                &&& ex@.queue.policy == ex.cfg().overflow_policy
                &&& ex@.in_flight.len() == 0
                &&& ex@.attempt == 0
                &&& !ex@.awaiting
                &&& !ex@.flush_requested
                &&& !ex@.shutdown_started
                &&& !ex@.stopped
                &&& ex@.delivered == 0
                &&& ex@.failed_batches == 0
                &&& ex@.notifications.len() == 0
                &&& (opts.service_name matches Some(n) && ex.cfg().service_name == n)
                &&& ex.cfg().max_batch_size == opts.max_batch_size.unwrap_or(
                    crate::config::DEFAULT_MAX_BATCH_SIZE,
                )
                &&& ex.cfg().queue_capacity == opts.queue_capacity.unwrap_or(
                    crate::config::DEFAULT_QUEUE_CAPACITY,
                )
                &&& ex.cfg().overflow_policy == opts.overflow_policy.unwrap_or(
                    OverflowPolicy::DropOldest,
                )
                &&& ex.cfg().flush_interval_ms == opts.flush_interval_ms.unwrap_or(
                    crate::config::DEFAULT_FLUSH_INTERVAL_MS,
                )
                &&& ex.cfg().retry == opts.retry.unwrap_or(crate::config::default_retry())
                &&& ex.cfg().shutdown_grace_ms == opts.shutdown_grace_ms.unwrap_or(
                    crate::config::DEFAULT_SHUTDOWN_GRACE_MS,
                )
            },
    {
        let config = match Config::from_options(opts) {
            Ok(c) => c,
            Err(e) => {
                return Err(e);
            },
        };
        let queue = SpanQueue::new(config.queue_capacity, config.overflow_policy);
        Ok(
            Exporter {
                config,
                queue,
                parked: None,
                in_flight_model: Ghost(Seq::<QueuedSpan>::empty()),
                in_flight_count: 0,
                attempt: 0,
                awaiting: false,
                cur_delay_ms: 0,
                resume_at_ms: 0,
                flush_requested: false,
                shutdown_started: false,
                shutdown_deadline_ms: 0,
                stopped: false,
                delivered: 0,
                delivered_total: Ghost(0nat),
                failed_batches: 0,
                failed_total: Ghost(0nat),
                notifications: Vec::new(),
            },
        )
    }

    /// Accepts a finished span from a producer; never blocks on delivery.
    ///
    /// After shutdown has begun the span is rejected with
    /// `ShutdownInProgress` and nothing changes. Otherwise the queue is
    /// advanced by exactly `enqueue_model`, a `SpanDropped` notification
    /// is appended when the policy discarded a span, and `QueueFull`
    /// comes back exactly when the policy refuses the span (under
    /// `Block`, the caller may wait and call again with the same span).
    pub fn record(&mut self, span: SpanRecord, now_ms: u64) -> (r: Result<(), RecordError>)
        requires
            old(self).wf(),
        ensures
            final(self).wf(),
            final(self).cfg() == old(self).cfg(),
            old(self)@.shutdown_started ==> {
                &&& r == Err::<(), RecordError>(RecordError::ShutdownInProgress)
                &&& final(self)@ == old(self)@
            },
            !old(self)@.shutdown_started ==> ({
                let qs = (QueuedSpan { span: span, enqueued_at_ms: now_ms });
                let q1 = enqueue_model(old(self)@.queue, qs);
                let n1 = (if q1.dropped > old(self)@.queue.dropped {
                    old(self)@.notifications.push(Notification::SpanDropped)
                } else {
                    old(self)@.notifications
                });
                &&& (r is Ok <==> enqueue_accepts(old(self)@.queue))
                &&& (r is Err ==> r == Err::<(), RecordError>(RecordError::QueueFull))
                &&& final(self)@ == (ExporterModel { queue: q1, notifications: n1, ..old(self)@ })
            }),
    {
        if self.shutdown_started {
            return Err(RecordError::ShutdownInProgress);
        }
        let will_drop: bool = self.queue.len() == self.config.queue_capacity
            && (self.config.overflow_policy == OverflowPolicy::DropOldest
                || self.config.overflow_policy == OverflowPolicy::DropNewest);
        let r = self.queue.enqueue(QueuedSpan { span, enqueued_at_ms: now_ms });
        if will_drop {
            self.notifications.push(Notification::SpanDropped);
        }
        match r {
            Ok(()) => Ok(()),
            Err(_) => Err(RecordError::QueueFull),
        }
    }

    /// Tells the driver what to do next, given the current time.
    ///
    /// Never called while the driver holds a batch. A batch is handed out
    /// exactly when one is in flight and its backoff delay has elapsed,
    /// or when none is in flight and `batch_due` holds; a formed batch is
    /// the longest prefix of the queue up to `max_batch_size` spans, so it
    /// never exceeds that bound and always contains the oldest queued
    /// span. A told sleep never overshoots the moment the oldest queued
    /// span has waited a full flush interval. `Stop` comes exactly when
    /// shutdown has begun and nothing is pending.
    pub fn next_action(&mut self, now_ms: u64) -> (r: Action)
        requires
            old(self).wf(),
            !old(self)@.awaiting,
        ensures
            final(self).wf(),
            final(self).cfg() == old(self).cfg(),
            old(self)@.stopped ==> r is Stop && final(self)@ == old(self)@,
            !old(self)@.stopped && old(self)@.in_flight.len() > 0 && now_ms
                >= old(self)@.resume_at_ms ==> ({
                &&& r matches Action::Deliver { batch, attempt } && batch.spans@
                    == old(self)@.in_flight && attempt == old(self)@.attempt + 1
                &&& final(self)@ == (ExporterModel {
                    attempt: old(self)@.attempt + 1,
                    awaiting: true,
                    ..old(self)@
                })
            }),
            !old(self)@.stopped && old(self)@.in_flight.len() > 0 && now_ms
                < old(self)@.resume_at_ms ==> ({
                &&& r == (Action::Sleep { until_ms: old(self)@.resume_at_ms })
                &&& final(self)@ == old(self)@
            }),
            !old(self)@.stopped && old(self)@.in_flight.len() == 0 && batch_due(
                old(self).cfg(),
                old(self)@,
                now_ms,
            ) ==> ({
                let k = drain_count(old(self)@.queue, old(self).cfg().max_batch_size as nat);
                let taken = old(self)@.queue.spans.take(k as int);
                let q1 = (QueueModel {
                    spans: old(self)@.queue.spans.skip(k as int),
                    ..old(self)@.queue
                });
                &&& r matches Action::Deliver { batch, attempt } && batch.spans@ == taken
                    && attempt == 1
                &&& taken.len() <= old(self).cfg().max_batch_size
                &&& taken.len() > 0 && taken[0] == old(self)@.queue.spans[0]
                &&& final(self)@ == (ExporterModel {
                    queue: q1,
                    in_flight: taken,
                    attempt: 1,
                    awaiting: true,
                    flush_requested: old(self)@.flush_requested && q1.spans.len() > 0,
                    ..old(self)@
                })
            }),
            !old(self)@.stopped && old(self)@.in_flight.len() == 0 && old(self)@.queue.spans.len()
                > 0 && !batch_due(old(self).cfg(), old(self)@, now_ms) ==> ({
                let wake = sat64(
                    old(self)@.queue.spans[0].enqueued_at_ms + old(self).cfg().flush_interval_ms,
                ) as u64;
                &&& r == (Action::Sleep { until_ms: wake })
                &&& wake <= old(self)@.queue.spans[0].enqueued_at_ms
                    + old(self).cfg().flush_interval_ms
                &&& final(self)@ == old(self)@
            }),
            !old(self)@.stopped && old(self)@.in_flight.len() == 0 && old(self)@.queue.spans.len()
                == 0 && old(self)@.shutdown_started ==> ({
                &&& r is Stop
                &&& final(self)@ == (ExporterModel {
                    stopped: true,
                    flush_requested: false,
                    ..old(self)@
                })
            }),
            !old(self)@.stopped && old(self)@.in_flight.len() == 0 && old(self)@.queue.spans.len()
                == 0 && !old(self)@.shutdown_started ==> ({
                &&& r == (Action::Sleep {
                    until_ms: sat64(now_ms + old(self).cfg().flush_interval_ms) as u64,
                })
                &&& final(self)@ == (ExporterModel { flush_requested: false, ..old(self)@ })
            }),
    {
        if self.stopped {
            return Action::Stop;
        }
        if self.parked.is_some() {
            if now_ms >= self.resume_at_ms {
                let batch = self.parked.take().unwrap();
                self.attempt = self.attempt + 1;
                self.cur_delay_ms = crate::retry::bump_delay(&self.config.retry, self.cur_delay_ms);
                self.awaiting = true;
                let a = self.attempt;
                return Action::Deliver { batch, attempt: a };
            } else {
                return Action::Sleep { until_ms: self.resume_at_ms };
            }
        }
        let qlen = self.queue.len();
        if qlen == 0 {
            self.flush_requested = false;
            if self.shutdown_started {
                self.stopped = true;
                return Action::Stop;
            }
            return Action::Sleep {
                until_ms: now_ms.saturating_add(self.config.flush_interval_ms),
            };
        }
        let oldest = self.queue.oldest_enqueued_at().unwrap();
        let timer_fired: bool = match oldest.checked_add(self.config.flush_interval_ms) {
            Some(th) => now_ms >= th,
            None => false,
        };
        let due: bool = qlen >= self.config.max_batch_size || self.flush_requested
            || self.shutdown_started || timer_fired;
        if due {
            let spans = self.queue.drain(self.config.max_batch_size);
            proof {
                self.in_flight_model@ = spans@;
            }
            self.in_flight_count = spans.len();
            self.attempt = 1;
            self.cur_delay_ms = crate::retry::initial_delay(&self.config.retry);
            self.awaiting = true;
            if self.queue.len() == 0 {
                self.flush_requested = false;
            }
            return Action::Deliver { batch: Batch { spans }, attempt: 1 };
        }
        Action::Sleep { until_ms: oldest.saturating_add(self.config.flush_interval_ms) }
    }

    /// Receives the delivery client's verdict on the batch handed out by
    /// the last `Deliver` action.
    ///
    /// On success the spans count as delivered and the batch is done. On
    /// a retryable failure the batch is kept for another attempt after
    /// the exponential backoff delay — unless all configured attempts are
    /// used up, in which case the failure degrades to permanent. On a
    /// permanent failure the batch is dropped for good: the failed-batch
    /// counter grows, a `BatchDropped` notification carries the reason,
    /// and the spans are never requeued.
    pub fn on_export_result(&mut self, batch: Batch, result: ExportResult, now_ms: u64)
        requires
            old(self).wf(),
            old(self)@.awaiting,
            batch.spans@ == old(self)@.in_flight,
        ensures
            final(self).wf(),
            final(self).cfg() == old(self).cfg(),
            !final(self)@.awaiting,
            result is Success ==> final(self)@ == (ExporterModel {
                in_flight: Seq::empty(),
                attempt: 0,
                awaiting: false,
                delivered: old(self)@.delivered + old(self)@.in_flight.len(),
                ..old(self)@
            }),
            result matches ExportResult::RetryableFailure(reason) ==> ({
                &&& old(self)@.attempt < old(self).cfg().retry.max_attempts ==> final(self)@
                    == (ExporterModel {
                    awaiting: false,
                    resume_at_ms: sat64(
                        now_ms + backoff_delay(
                            old(self).cfg().retry,
                            (old(self)@.attempt - 1) as nat,
                        ),
                    ) as u64,
                    ..old(self)@
                })
                &&& old(self)@.attempt >= old(self).cfg().retry.max_attempts ==> final(self)@
                    == batch_dropped_model(old(self)@, reason)
            }),
            result matches ExportResult::PermanentFailure(reason) ==> final(self)@
                == batch_dropped_model(old(self)@, reason),
    {
        let count = batch.spans.len();
        match result {
            ExportResult::Success => {
                self.delivered = self.delivered.saturating_add(count as u64);
                proof {
                    self.delivered_total@ = self.delivered_total@ + count as nat;
                    self.in_flight_model@ = Seq::empty();
                }
                self.in_flight_count = 0;
                self.attempt = 0;
                self.awaiting = false;
            },
            ExportResult::RetryableFailure(reason) => {
                if self.attempt < self.config.retry.max_attempts {
                    self.awaiting = false;
                    self.resume_at_ms = now_ms.saturating_add(self.cur_delay_ms);
                    self.parked = Some(batch);
                } else {
                    self.failed_batches = self.failed_batches.saturating_add(1);
                    proof {
                        self.failed_total@ = self.failed_total@ + 1;
                        self.in_flight_model@ = Seq::<QueuedSpan>::empty();
                    }
                    self.in_flight_count = 0;
                    self.attempt = 0;
                    self.awaiting = false;
                    self.notifications.push(
                        Notification::BatchDropped { span_count: count, reason },
                    );
                }
            },
            ExportResult::PermanentFailure(reason) => {
                self.failed_batches = self.failed_batches.saturating_add(1);
                proof {
                    self.failed_total@ = self.failed_total@ + 1;
                    self.in_flight_model@ = Seq::<QueuedSpan>::empty();
                }
                self.in_flight_count = 0;
                self.attempt = 0;
                self.awaiting = false;
                self.notifications.push(Notification::BatchDropped { span_count: count, reason });
            },
        }
    }

    /// Asks for an immediate drain-and-delivery cycle: the next
    /// `next_action` treats the queue as due regardless of size or age.
    /// The request stays in force until the queue has been emptied. The
    /// driver reports completion: a flush has finished once
    /// `pending_spans` is zero.
    pub fn request_flush(&mut self)
        requires
            old(self).wf(),
        ensures
            final(self).wf(),
            final(self).cfg() == old(self).cfg(),
            old(self)@.stopped ==> final(self)@ == old(self)@,
            !old(self)@.stopped ==> final(self)@ == (ExporterModel {
                flush_requested: true,
                ..old(self)@
            }),
    {
        if !self.stopped {
            self.flush_requested = true;
        }
    }

    /// Begins shutdown: from now on `record` rejects new spans, and the
    /// driver drains what is pending until `next_action` says `Stop` or
    /// the deadline (now plus the configured grace period) passes.
    /// Idempotent: a repeated call changes nothing, keeping the original
    /// deadline.
    pub fn begin_shutdown(&mut self, now_ms: u64)
        requires
            old(self).wf(),
        ensures
            final(self).wf(),
            final(self).cfg() == old(self).cfg(),
            old(self)@.shutdown_started ==> final(self)@ == old(self)@,
            !old(self)@.shutdown_started ==> final(self)@ == (ExporterModel {
                shutdown_started: true,
                shutdown_deadline_ms: sat64(
                    now_ms + old(self).cfg().shutdown_grace_ms,
                ) as u64,
                ..old(self)@
            }),
    {
        if !self.shutdown_started {
            self.shutdown_started = true;
            self.shutdown_deadline_ms = now_ms.saturating_add(self.config.shutdown_grace_ms);
        }
    }

    /// Ends shutdown, discarding whatever is still pending.
    ///
    /// Returns true exactly when nothing was pending — every span
    /// recorded before shutdown had been delivered or already dropped
    /// under the stated policies. When spans had to be discarded, the
    /// count is documented by a `ShutdownDiscarded` notification.
    /// Afterwards the exporter is stopped for good; calling this again
    /// returns true and changes nothing further.
    pub fn finish_shutdown(&mut self) -> (clean: bool)
        requires
            old(self).wf(),
            !old(self)@.awaiting,
        ensures
            final(self).wf(),
            final(self).cfg() == old(self).cfg(),
            clean <==> pending(old(self)@) == 0,
            pending(final(self)@) == 0,
            final(self)@.queue.spans.len() == 0,
            final(self)@.in_flight.len() == 0,
            final(self)@.stopped && final(self)@.shutdown_started,
            !final(self)@.awaiting && !final(self)@.flush_requested,
            final(self)@.delivered == old(self)@.delivered,
            final(self)@.failed_batches == old(self)@.failed_batches,
            final(self)@.queue.dropped == old(self)@.queue.dropped,
            final(self)@.queue.cap == old(self)@.queue.cap,
            final(self)@.queue.policy == old(self)@.queue.policy,
            pending(old(self)@) == 0 ==> final(self)@.notifications == old(self)@.notifications,
            pending(old(self)@) > 0 ==> final(self)@.notifications == old(
                self,
            )@.notifications.push(
                (Notification::ShutdownDiscarded {
                    span_count: (if pending(old(self)@) > usize::MAX {
                        usize::MAX as nat
                    } else {
                        pending(old(self)@)
                    }) as usize,
                }),
            ),
    {
        let qlen = self.queue.len();
        let parked_len: usize = match &self.parked {
            Some(b) => b.spans.len(),
            None => 0,
        };
        let pending_count: usize = qlen.saturating_add(parked_len);
        let _discarded = self.queue.drain(qlen);
        self.parked = None;
        proof {
            self.in_flight_model@ = Seq::<QueuedSpan>::empty();
            assert(self.queue@.spans =~= Seq::<QueuedSpan>::empty());
        }
        self.in_flight_count = 0;
        self.attempt = 0;
        self.flush_requested = false;
        self.shutdown_started = true;
        self.stopped = true;
        if pending_count > 0 {
            self.notifications.push(
                Notification::ShutdownDiscarded { span_count: pending_count },
            );
            false
        } else {
            true
        }
    }

    /// Spans accepted but not yet delivered: queued plus in flight
    /// (saturating at `u64::MAX`).
    pub fn pending_spans(&self) -> (r: u64)
        requires
            self.wf(),
        ensures
            r as nat == sat64(pending(self@) as int),
    {
        (self.queue.len() as u64).saturating_add(self.in_flight_count as u64)
    }

    /// Spans delivered successfully (saturating at `u64::MAX`).
    pub fn delivered_count(&self) -> (r: u64)
        requires
            self.wf(),
        ensures
            r as nat == sat64(self@.delivered as int),
    {
        self.delivered
    }

    /// Batches abandoned after a permanent failure or retry exhaustion
    /// (saturating at `u64::MAX`).
    pub fn failed_batch_count(&self) -> (r: u64)
        requires
            self.wf(),
        ensures
            r as nat == sat64(self@.failed_batches as int),
    {
        self.failed_batches
    }

    /// Spans the queue has discarded on overflow (saturating at
    /// `u64::MAX`).
    pub fn dropped_span_count(&self) -> (r: u64)
        requires
            self.wf(),
        ensures
            r as nat == sat64(self@.queue.dropped as int),
    {
        self.queue.dropped_count()
    }

    /// The notification channel: every event so far, oldest first.
    pub fn notifications(&self) -> (r: &Vec<Notification>)
        ensures
            r@ == self@.notifications,
    {
        &self.notifications
    }

    /// Whether the driver currently holds a batch for delivery (a
    /// `Deliver` action is outstanding and its result has not come back).
    pub fn delivery_in_progress(&self) -> (r: bool)
        ensures
            r == self@.awaiting,
    {
        self.awaiting
    }

    /// Whether the driver has been told to stop.
    pub fn is_stopped(&self) -> (r: bool)
        ensures
            r == self@.stopped,
    {
        self.stopped
    }

    /// Whether shutdown has begun.
    pub fn is_shutdown_started(&self) -> (r: bool)
        ensures
            r == self@.shutdown_started,
    {
        self.shutdown_started
    }

    /// When the shutdown grace period ends; meaningful once shutdown has
    /// begun.
    pub fn shutdown_deadline(&self) -> (r: u64)
        ensures
            r == self@.shutdown_deadline_ms,
    {
        self.shutdown_deadline_ms
    }

    /// The configuration the exporter runs with.
    pub fn config(&self) -> (r: &Config)
        ensures
            *r == self.cfg(),
    {
        &self.config
    }
}

/// The state after a batch is dropped for good: the batch is gone, the
/// failed-batch counter has grown by one, and a notification carries the
/// span count and the reason.
pub open spec fn batch_dropped_model(m: ExporterModel, reason: String) -> ExporterModel {
    ExporterModel {
        in_flight: Seq::empty(),
        attempt: 0,
        awaiting: false,
        failed_batches: m.failed_batches + 1,
        notifications: m.notifications.push(
            Notification::BatchDropped { span_count: m.in_flight.len() as usize, reason },
        ),
        ..m
    }
}

/// The timer alone suffices to get spans out: once the oldest queued
/// span has waited a full flush interval, a batch is due even if the
/// size threshold was never reached, and the batch formed at that moment
/// (the queue's front, as `next_action` hands it out) is non-empty,
/// holds at most `max_batch_size` spans, and begins with that oldest
/// span. A driver that wakes at the times `next_action` names therefore
/// emits every span within one flush interval of its enqueue time, plus
/// the driver's own wake-up latency, whenever delivery itself is idle.
pub proof fn lemma_oldest_span_times_out(cfg: Config, m: ExporterModel, now: u64)
    requires
        cfg.wf(),
        m.queue.spans.len() > 0,
        now >= m.queue.spans[0].enqueued_at_ms + cfg.flush_interval_ms,
    ensures
        batch_due(cfg, m, now),
        ({
            let taken = m.queue.spans.take(
                drain_count(m.queue, cfg.max_batch_size as nat) as int,
            );
            &&& 0 < taken.len() <= cfg.max_batch_size
            &&& taken[0] == m.queue.spans[0]
        }),
{
}

/// One full failure cycle for the in-flight batch, as the contracts of
/// `on_export_result` and `next_action` describe it: the driver reports a
/// retryable failure; while attempts remain the exporter parks the batch
/// and the driver re-sends it once the backoff delay elapses (one more
/// attempt begun), and at the last configured attempt the batch is
/// dropped instead.
pub open spec fn retryable_cycle(
    cfg: Config,
    m: ExporterModel,
    now: u64,
    reason: String,
) -> ExporterModel {
    if m.attempt < cfg.retry.max_attempts {
        ExporterModel {
            attempt: m.attempt + 1,
            awaiting: true,
            resume_at_ms: sat64(
                now + backoff_delay(cfg.retry, (m.attempt - 1) as nat),
            ) as u64,
            ..m
        }
    } else {
        batch_dropped_model(m, reason)
    }
}

/// `k` failure cycles in a row, every report retryable.
pub open spec fn run_retryable_cycles(
    cfg: Config,
    m: ExporterModel,
    now: u64,
    reason: String,
    k: nat,
) -> ExporterModel
    decreases k,
{
    if k == 0 {
        m
    } else {
        run_retryable_cycles(cfg, retryable_cycle(cfg, m, now, reason), now, reason, (k - 1) as nat)
    }
}

/// A batch whose every delivery attempt fails retryably is attempted
/// exactly `max_attempts` times: counting the attempt already begun,
/// exactly `max_attempts - attempt + 1` further failure reports occur,
/// the last of which drops the batch for good — one failed batch is
/// recorded with its notification, nothing is counted delivered, and no
/// batch remains in flight to be retried. One report fewer leaves the
/// batch still in flight: it is not dropped early.
pub proof fn lemma_retryable_failures_exhaust_attempts(
    cfg: Config,
    m: ExporterModel,
    now: u64,
    reason: String,
)
    requires
        1 <= m.attempt <= cfg.retry.max_attempts,
        m.in_flight.len() > 0,
    ensures
        ({
            let k = cfg.retry.max_attempts - m.attempt + 1;
            let f = run_retryable_cycles(cfg, m, now, reason, k as nat);
            &&& f.in_flight.len() == 0
            &&& f.attempt == 0
            &&& !f.awaiting
            &&& f.failed_batches == m.failed_batches + 1
            &&& f.delivered == m.delivered
            &&& f.queue == m.queue
            &&& f.notifications == m.notifications.push(
                (Notification::BatchDropped {
                    span_count: m.in_flight.len() as usize,
                    reason: reason,
                }),
            )
            &&& (k > 1 ==> run_retryable_cycles(
                cfg,
                m,
                now,
                reason,
                (k - 1) as nat,
            ).in_flight == m.in_flight)
        }),
    decreases cfg.retry.max_attempts - m.attempt,
{
    let k = cfg.retry.max_attempts - m.attempt + 1;
    if m.attempt == cfg.retry.max_attempts {
        let m1 = retryable_cycle(cfg, m, now, reason);
        assert(run_retryable_cycles(cfg, m1, now, reason, 0nat) == m1);
        assert(run_retryable_cycles(cfg, m, now, reason, 1nat) == m1);
    } else {
        let m1 = retryable_cycle(cfg, m, now, reason);
        lemma_retryable_failures_exhaust_attempts(cfg, m1, now, reason);
    }
}

} // verus!
