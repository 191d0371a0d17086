use vstd::prelude::*;
use crate::report::Status;
use crate::batch::BatchAccumulator;

verus! {

/// Settings injected by the surrounding process.
#[derive(Clone, Copy, Debug, PartialEq, Eq, Structural)]
pub struct PipelineConfig {
    /// How many reports the ingestion queue holds before producers wait.
    pub queue_capacity: usize,
    /// Period of the flush timer, in milliseconds.
    pub flush_interval_ms: u64,
    /// A non-empty batch is flushed once this long has passed since the
    /// last completed flush attempt, whatever the timer does.
    pub max_latency_ms: u64,
    /// Write attempts made for one batch before it is dead-lettered.
    pub max_attempts: u32,
    /// Delay before the first retry; each later retry doubles it.
    pub base_backoff_ms: u64,
    /// Upper bound of the retry delay.
    pub max_backoff_ms: u64,
    /// Time allowed to one write before it counts as a transient failure.
    pub write_timeout_ms: u64,
}

impl PipelineConfig {
    pub open spec fn valid(&self) -> bool {
        &&& self.queue_capacity > 0
        &&& self.flush_interval_ms > 0
        &&& self.max_attempts >= 1
        &&& self.write_timeout_ms > 0
    }

    /// Queue of 1000, timer of 100 ms, latency guard of 500 ms, five
    /// attempts with a delay from 50 ms up to 2 s, writes limited to 5 s.
    pub fn standard() -> (r: PipelineConfig)
        ensures
            r.valid(),
            r.queue_capacity == 1000,
            r.flush_interval_ms == 100,
            r.max_latency_ms == 500,
            r.max_attempts == 5,
            r.base_backoff_ms == 50,
            r.max_backoff_ms == 2000,
            r.write_timeout_ms == 5000,
    {
        PipelineConfig {
            queue_capacity: 1000,
            flush_interval_ms: 100,
            max_latency_ms: 500,
            max_attempts: 5,
            base_backoff_ms: 50,
            max_backoff_ms: 2000,
            write_timeout_ms: 5000,
        }
    }
}

/// How a failed write is to be treated.
#[derive(Clone, Copy, Debug, PartialEq, Eq, Structural)]
pub enum FailureKind {
    /// Connectivity loss, timeout, deadlock: the same batch may be tried again.
    Transient,
    /// Malformed row, constraint violation: trying again cannot help.
    Rejected,
}

/// What the scheduler is told. `now` comes with every event, in
/// milliseconds of a monotonic clock.
#[derive(Clone, Debug, PartialEq, Eq)]
pub enum Event {
    /// A report was taken from the ingestion queue.
    Arrived(Status),
    /// The periodic flush timer fired.
    TimerFired,
    /// A wake-up with no news, so that the latency guard gets checked.
    LatencyCheck,
    /// The write asked for by the last `Flush` or `RetryAfter` succeeded.
    FlushSucceeded,
    /// The write asked for by the last `Flush` or `RetryAfter` failed.
    FlushFailed(FailureKind),
    /// The ingestion queue has no producers left.
    QueueClosed,
}

/// What the scheduler asks its driver to do next.
#[derive(Debug, PartialEq, Eq)]
pub enum Action {
    /// Nothing; wait for the next event.
    Wait,
    /// Write the rows of `in_flight()` now, then report the outcome.
    Flush,
    /// Wait this many milliseconds, write the rows of `in_flight()` again,
    /// then report the outcome.
    RetryAfter(u64),
    /// Record these rows as a batch that could not be stored.
    DeadLetter(Vec<Status>),
    /// Everything is settled and no more reports will come.
    Stop,
}

/// The mathematical form of an `Action`.
pub enum Decision {
    Wait,
    Flush,
    Retry(int),
    DeadLetter(Seq<Status>),
    Stop,
}

impl View for Action {
    type V = Decision;

    open spec fn view(&self) -> Decision {
        match self {
            Action::Wait => Decision::Wait,
            Action::Flush => Decision::Flush,
            Action::RetryAfter(ms) => Decision::Retry(*ms as int),
            Action::DeadLetter(rows) => Decision::DeadLetter(rows@),
            Action::Stop => Decision::Stop,
        }
    }
}

/// The abstract state of the scheduler.
pub struct SchedulerState {
    pub config: PipelineConfig,
    /// Reports received and not yet handed to a write, oldest first.
    pub pending: Seq<Status>,
    /// The batch of the write in progress (empty when none is).
    pub in_flight: Seq<Status>,
    /// Whether a write is in progress.
    pub flushing: bool,
    /// Write attempts made so far for `in_flight`.
    pub attempts: nat,
    /// When the last flush attempt completed (the flush clock).
    pub last_flush: int,
    /// Whether the ingestion queue has been closed.
    pub closed: bool,
}

impl SchedulerState {
    pub open spec fn wf(self) -> bool {
        &&& self.config.valid()
        &&& self.flushing ==> self.in_flight.len() > 0 && 1 <= self.attempts
            <= self.config.max_attempts
        &&& !self.flushing ==> self.in_flight.len() == 0 && self.attempts == 0
    }

    /// The pending reports become the batch of a first write attempt.
    pub open spec fn start_flush(self) -> SchedulerState {
        SchedulerState {
            in_flight: self.pending,
            pending: Seq::empty(),
            flushing: true,
            attempts: 1,
            ..self
        }
    }

    /// The write in progress is over, stored or given up on, at `now`.
    pub open spec fn settle(self, now: int) -> SchedulerState {
        SchedulerState {
            in_flight: Seq::empty(),
            flushing: false,
            attempts: 0,
            last_flush: now,
            ..self
        }
    }

    /// The latency guard: the flush clock is older than the allowed latency.
    pub open spec fn overdue(self, now: int) -> bool {
        now - self.last_flush > self.config.max_latency_ms
    }
}

/// Delay before retry number `k + 1`: the base delay doubled `k` times,
/// never above the cap.
pub open spec fn backoff(base: int, cap: int, k: nat) -> int
    decreases k,
{
    if k == 0 {
        if base <= cap { base } else { cap }
    } else {
        let d = 2 * backoff(base, cap, (k - 1) as nat);
        if d <= cap { d } else { cap }
    }
}

/// Whether a failure of this kind, after `attempts` attempts, is retried.
pub open spec fn retried(config: PipelineConfig, kind: FailureKind, attempts: nat) -> bool {
    kind == FailureKind::Transient && attempts < config.max_attempts
}

/// The effect of the event itself, before the latency guard is checked.
pub open spec fn on_event(s: SchedulerState, e: Event, now: int) -> (SchedulerState, Decision) {
    match e {
        Event::Arrived(r) => (SchedulerState { pending: s.pending.push(r), ..s }, Decision::Wait),
        Event::TimerFired => if !s.flushing && s.pending.len() > 0 {
            (s.start_flush(), Decision::Flush)
        } else {
            (s, Decision::Wait)
        },
        Event::LatencyCheck => (s, Decision::Wait),
        Event::FlushSucceeded => if s.flushing {
            (s.settle(now), Decision::Wait)
        } else {
            (s, Decision::Wait)
        },
        Event::FlushFailed(kind) => if !s.flushing {
            (s, Decision::Wait)
        } else if retried(s.config, kind, s.attempts) {
            (
                SchedulerState { attempts: s.attempts + 1, ..s },
                Decision::Retry(
                    backoff(
                        s.config.base_backoff_ms as int,
                        s.config.max_backoff_ms as int,
                        (s.attempts - 1) as nat,
                    ),
                ),
            )
        } else {
            (s.settle(now), Decision::DeadLetter(s.in_flight))
        },
        Event::QueueClosed => (SchedulerState { closed: true, ..s }, Decision::Wait),
    }
}

/// One step of the scheduler: the event, then the latency guard (or the
/// final drain once the queue is closed) where the event asked for nothing.
/// At most one write is started per step.
pub open spec fn step(s: SchedulerState, e: Event, now: int) -> (SchedulerState, Decision) {
    let (s1, d1) = on_event(s, e, now);
    if d1 is Wait && !s1.flushing && s1.pending.len() > 0 && (s1.closed || s1.overdue(now)) {
        (s1.start_flush(), Decision::Flush)
    } else if d1 is Wait && !s1.flushing && s1.pending.len() == 0 && s1.closed {
        (s1, Decision::Stop)
    } else {
        (s1, d1)
    }
}

/// The reports whose fate the event seals: stored or dead-lettered.
pub open spec fn settled(s: SchedulerState, e: Event) -> Seq<Status> {
    match e {
        Event::FlushSucceeded => if s.flushing { s.in_flight } else { Seq::empty() },
        Event::FlushFailed(kind) => if s.flushing && !retried(s.config, kind, s.attempts) {
            s.in_flight
        } else {
            Seq::empty()
        },
        _ => Seq::empty(),
    }
}

/// The report that the event brings, if any.
pub open spec fn arrival(e: Event) -> Seq<Status> {
    match e {
        Event::Arrived(r) => seq![r],
        _ => Seq::empty(),
    }
}

/// Computes the retry delay of `backoff` without overflow.
pub fn retry_delay(base: u64, cap: u64, k: u32) -> (r: u64)
    ensures
        r == backoff(base as int, cap as int, k as nat),
{
    let mut d: u64 = if base <= cap { base } else { cap };
    let mut i: u32 = 0;
    while i < k
        invariant
            i <= k,
            d == backoff(base as int, cap as int, i as nat),
            d <= cap,
        decreases k - i,
    {
        if d > cap / 2 {
            d = cap;
        } else {
            d = 2 * d;
        }
        i = i + 1;
    }
    d
}

/// The flush scheduler: owns the accumulator of pending reports, the batch
/// being written and the flush clock, and decides when to write.
pub struct FlushScheduler {
    config: PipelineConfig,
    pending: BatchAccumulator,
    in_flight: Vec<Status>,
    flushing: bool,
    attempts: u32,
    last_flush_ms: u64,
    closed: bool,
}

impl View for FlushScheduler {
    type V = SchedulerState;

    closed spec fn view(&self) -> SchedulerState {
        SchedulerState {
            config: self.config,
            pending: self.pending@,
            in_flight: self.in_flight@,
            flushing: self.flushing,
            attempts: self.attempts as nat,
            last_flush: self.last_flush_ms as int,
            closed: self.closed,
        }
    }
}

impl FlushScheduler {
    /// A scheduler with nothing pending, whose flush clock reads `now`.
    pub fn new(config: PipelineConfig, now: u64) -> (r: FlushScheduler)
        requires
            config.valid(),
        ensures
            r@.wf(),
            r@.config == config,
            r@.pending.len() == 0,
            r@.in_flight.len() == 0,
            !r@.flushing,
            r@.last_flush == now,
            !r@.closed,
    {
        FlushScheduler {
            config,
            pending: BatchAccumulator::new(),
            in_flight: Vec::new(),
            flushing: false,
            attempts: 0,
            last_flush_ms: now,
            closed: false,
        }
    }

    fn start_flush(&mut self)
        ensures
            final(self)@ == old(self)@.start_flush(),
    {
        self.in_flight = self.pending.drain_all();
        self.flushing = true;
        self.attempts = 1;
    }

    fn settle(&mut self, now: u64) -> (r: Vec<Status>)
        ensures
            final(self)@ == old(self)@.settle(now as int),
            r@ == old(self)@.in_flight,
    {
        let mut done: Vec<Status> = Vec::new();
        std::mem::swap(&mut done, &mut self.in_flight);
        self.flushing = false;
        self.attempts = 0;
        self.last_flush_ms = now;
        done
    }

    /// Applies the event itself.
    fn apply_event(&mut self, event: Event, now: u64) -> (r: Action)
        requires
            old(self)@.wf(),
        ensures
            (final(self)@, r@) == on_event(old(self)@, event, now as int),
    {
        match event {
            Event::Arrived(report) => {
                self.pending.append(report);
                Action::Wait
            },
            Event::TimerFired => {
                if !self.flushing && !self.pending.is_empty() {
                    self.start_flush();
                    Action::Flush
                } else {
                    Action::Wait
                }
            },
            Event::LatencyCheck => Action::Wait,
            Event::FlushSucceeded => {
                if self.flushing {
                    let _stored = self.settle(now);
                }
                Action::Wait
            },
            Event::FlushFailed(kind) => {
                if !self.flushing {
                    Action::Wait
                } else if kind == FailureKind::Transient && self.attempts < self.config.max_attempts {
                    let delay = retry_delay(
                        self.config.base_backoff_ms,
                        self.config.max_backoff_ms,
                        self.attempts - 1,
                    );
                    self.attempts = self.attempts + 1;
                    Action::RetryAfter(delay)
                } else {
                    let rows = self.settle(now);
                    Action::DeadLetter(rows)
                }
            },
            Event::QueueClosed => {
                self.closed = true;
                Action::Wait
            },
        }
    }

    /// Handles one event at time `now` and says what to do next.
    pub fn handle(&mut self, event: Event, now: u64) -> (r: Action)
        requires
            old(self)@.wf(),
        ensures
            final(self)@.wf(),
            (final(self)@, r@) == step(old(self)@, event, now as int),
    {
        let first = self.apply_event(event, now);
        if matches!(first, Action::Wait) && !self.flushing && !self.pending.is_empty() && (
        self.closed || self.overdue(now)) {
            self.start_flush();
            Action::Flush
        } else if matches!(first, Action::Wait) && !self.flushing && self.pending.is_empty()
            && self.closed {
            Action::Stop
        } else {
            first
        }
    }

    fn overdue(&self, now: u64) -> (r: bool)
        ensures
            r == self@.overdue(now as int),
    {
        now > self.last_flush_ms && now - self.last_flush_ms > self.config.max_latency_ms
    }

    /// The rows of the write in progress, oldest first.
    pub fn in_flight(&self) -> (r: &Vec<Status>)
        ensures
            r@ == self@.in_flight,
    {
        &self.in_flight
    }

    /// How many reports wait for the next write.
    pub fn pending_len(&self) -> (r: usize)
        ensures
            r == self@.pending.len(),
    {
        self.pending.len()
    }

    pub fn is_flushing(&self) -> (r: bool)
        ensures
            r == self@.flushing,
    {
        self.flushing
    }

    pub fn config(&self) -> (r: PipelineConfig)
        ensures
            r == self@.config,
    {
        self.config
    }

    /// The time at which the latency guard fires if nothing else happens
    /// first: one millisecond past the allowed latency, while reports wait
    /// and no write is in progress.
    pub fn latency_deadline(&self) -> (r: Option<u64>)
        requires
            self@.wf(),
        ensures
            r is None <==> (self@.flushing || self@.pending.len() == 0),
            r matches Some(t) ==> t == if self@.last_flush + self@.config.max_latency_ms + 1
                <= u64::MAX {
                self@.last_flush + self@.config.max_latency_ms + 1
            } else {
                u64::MAX as int
            },
    {
        if self.flushing || self.pending.is_empty() {
            None
        } else if self.config.max_latency_ms < u64::MAX && self.last_flush_ms <= u64::MAX - 1
            - self.config.max_latency_ms {
            Some(self.last_flush_ms + self.config.max_latency_ms + 1)
        } else {
            Some(u64::MAX)
        }
    }
}

} // verus!
