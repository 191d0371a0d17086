use vstd::prelude::*;
use crate::report::Status;
use crate::scheduler::{Decision, Event, FailureKind, SchedulerState, arrival, settled, step};

verus! {

/// The state after a sequence of timed events.
pub open spec fn run(s: SchedulerState, evs: Seq<(Event, int)>) -> SchedulerState
    decreases evs.len(),
{
    if evs.len() == 0 {
        s
    } else {
        step(run(s, evs.drop_last()), evs.last().0, evs.last().1).0
    }
}

/// The reports stored or dead-lettered over a sequence of events, in the
/// order in which their batches were settled.
pub open spec fn run_settled(s: SchedulerState, evs: Seq<(Event, int)>) -> Seq<Status>
    decreases evs.len(),
{
    if evs.len() == 0 {
        Seq::empty()
    } else {
        run_settled(s, evs.drop_last()) + settled(run(s, evs.drop_last()), evs.last().0)
    }
}

/// The reports that a sequence of events brings, in arrival order.
pub open spec fn arrivals(evs: Seq<(Event, int)>) -> Seq<Status>
    decreases evs.len(),
{
    if evs.len() == 0 {
        Seq::empty()
    } else {
        arrivals(evs.drop_last()) + arrival(evs.last().0)
    }
}

/// No step loses, duplicates or reorders a report: what it settles, then
/// the batch in flight, then the pending reports, is what was held before
/// followed by what arrived.
pub proof fn lemma_step_keeps_reports(s: SchedulerState, e: Event, now: int)
    requires
        s.wf(),
    ensures
        step(s, e, now).0.wf(),
        settled(s, e) + step(s, e, now).0.in_flight + step(s, e, now).0.pending == s.in_flight
            + s.pending + arrival(e),
{
    let s2 = step(s, e, now).0;
    match e {
        Event::Arrived(r) => {
            assert(settled(s, e) + s2.in_flight + s2.pending =~= s.in_flight + s.pending + arrival(
                e,
            ));
        },
        Event::FlushSucceeded => {
            assert(settled(s, e) + s2.in_flight + s2.pending =~= s.in_flight + s.pending + arrival(
                e,
            ));
        },
        Event::FlushFailed(k) => {
            assert(settled(s, e) + s2.in_flight + s2.pending =~= s.in_flight + s.pending + arrival(
                e,
            ));
        },
        _ => {
            assert(settled(s, e) + s2.in_flight + s2.pending =~= s.in_flight + s.pending + arrival(
                e,
            ));
        },
    }
}

/// Order is kept and nothing is lost over any run: the reports settled so
/// far, in settling order, then those in flight, then those pending, are
/// exactly the reports held at the start followed by every report that
/// arrived, in arrival order. From an empty scheduler, the stored and
/// dead-lettered batches concatenate to a prefix of the arrival order.
pub proof fn lemma_run_keeps_order(s: SchedulerState, evs: Seq<(Event, int)>)
    requires
        s.wf(),
    ensures
        run(s, evs).wf(),
        run_settled(s, evs) + run(s, evs).in_flight + run(s, evs).pending == s.in_flight
            + s.pending + arrivals(evs),
    decreases evs.len(),
{
    if evs.len() > 0 {
        let prev = evs.drop_last();
        lemma_run_keeps_order(s, prev);
        let p = run(s, prev);
        let e = evs.last().0;
        lemma_step_keeps_reports(p, e, evs.last().1);
        let q = run(s, evs);
        assert(run_settled(s, evs) + q.in_flight + q.pending =~= run_settled(s, prev) + (settled(
            p,
            e,
        ) + q.in_flight + q.pending));
        assert(s.in_flight + s.pending + arrivals(evs) =~= (s.in_flight + s.pending + arrivals(
            prev,
        )) + arrival(e));
        assert(run_settled(s, prev) + (p.in_flight + p.pending + arrival(e)) =~= (run_settled(
            s,
            prev,
        ) + p.in_flight + p.pending) + arrival(e));
    } else {
        assert(run_settled(s, evs) + s.in_flight + s.pending =~= s.in_flight + s.pending
            + arrivals(evs));
    }
}

/// From a scheduler that holds nothing, the reports settled so far, then
/// those in flight, then those pending, are every report that arrived, in
/// arrival order: batches concatenate to the submission order and nothing
/// vanishes.
pub proof fn lemma_fresh_run_keeps_order(s: SchedulerState, evs: Seq<(Event, int)>)
    requires
        s.wf(),
        s.in_flight.len() == 0,
        s.pending.len() == 0,
    ensures
        run_settled(s, evs) + run(s, evs).in_flight + run(s, evs).pending == arrivals(evs),
{
    lemma_run_keeps_order(s, evs);
    assert(s.in_flight + s.pending + arrivals(evs) =~= arrivals(evs));
}

/// No reports held, none in flight.
pub open spec fn idle(s: SchedulerState) -> bool {
    !s.flushing && s.pending.len() == 0
}

/// Whether no event of the sequence brings a report.
pub open spec fn no_arrivals(evs: Seq<(Event, int)>) -> bool {
    forall|i: int| 0 <= i < evs.len() ==> !(#[trigger] evs[i].0 is Arrived)
}

proof fn lemma_idle_run_stays_idle(s: SchedulerState, evs: Seq<(Event, int)>)
    requires
        s.wf(),
        idle(s),
        no_arrivals(evs),
    ensures
        run(s, evs).wf(),
        idle(run(s, evs)),
        run_settled(s, evs) == Seq::<Status>::empty(),
    decreases evs.len(),
{
    if evs.len() > 0 {
        let prev = evs.drop_last();
        assert forall|i: int| 0 <= i < prev.len() implies !(#[trigger] prev[i].0 is Arrived) by {
            assert(prev[i] == evs[i]);
        }
        lemma_idle_run_stays_idle(s, prev);
        assert(!(evs[evs.len() - 1].0 is Arrived));
        assert(run_settled(s, evs) =~= Seq::<Status>::empty());
    }
}

/// No spurious flush: from a scheduler with nothing held, a run of events
/// that brings no report never asks for a write, a retry or a dead letter,
/// and settles nothing.
pub proof fn lemma_idle_run_is_quiet(s: SchedulerState, evs: Seq<(Event, int)>)
    requires
        s.wf(),
        idle(s),
        no_arrivals(evs),
    ensures
        forall|i: int|
            0 <= i < evs.len() ==> {
                let d = #[trigger] step(run(s, evs.take(i)), evs[i].0, evs[i].1).1;
                d is Wait || d is Stop
            },
        run_settled(s, evs) == Seq::<Status>::empty(),
{
    lemma_idle_run_stays_idle(s, evs);
    assert forall|i: int| 0 <= i < evs.len() implies {
        let d = #[trigger] step(run(s, evs.take(i)), evs[i].0, evs[i].1).1;
        d is Wait || d is Stop
    } by {
        let pre = evs.take(i);
        assert forall|j: int| 0 <= j < pre.len() implies !(#[trigger] pre[j].0 is Arrived) by {
            assert(pre[j] == evs[j]);
        }
        lemma_idle_run_stays_idle(s, pre);
        assert(!(evs[i].0 is Arrived));
    }
}

/// Timeliness: a report that reaches an empty, idle scheduler is written
/// alone at the next timer firing, unless the latency guard wrote it at
/// once.
pub proof fn lemma_arrival_then_timer(s: SchedulerState, r: Status, t0: int, t1: int)
    requires
        s.wf(),
        idle(s),
    ensures
        ({
            let (s1, d1) = step(s, Event::Arrived(r), t0);
            let (s2, d2) = step(s1, Event::TimerFired, t1);
            if d1 is Flush {
                s1.in_flight == seq![r]
            } else {
                d2 is Flush && s2.in_flight == seq![r]
            }
        }),
{
    assert(s.pending.push(r) =~= seq![r]);
}

/// Latency guard: once the flush clock is older than the allowed latency,
/// any event that finds reports pending and no write in progress starts a
/// write of all of them, whether or not the timer fired.
pub proof fn lemma_latency_guard(s: SchedulerState, e: Event, now: int)
    requires
        s.wf(),
        !s.flushing,
        s.pending.len() > 0,
        s.overdue(now),
    ensures
        step(s, e, now).1 is Flush,
        step(s, e, now).0.in_flight == s.pending + arrival(e),
        step(s, e, now).0.pending.len() == 0,
{
    match e {
        Event::Arrived(r) => {},
        _ => {
            assert(s.pending + arrival(e) =~= s.pending);
        },
    }
}

/// Latency guard, measured from a report's arrival: a report that arrived
/// at `arrived`, no earlier than the last completed flush, is written by any
/// event that comes more than the allowed latency after it, while no write
/// is in progress.
pub proof fn lemma_latency_from_arrival(s: SchedulerState, e: Event, arrived: int, now: int)
    requires
        s.wf(),
        !s.flushing,
        s.pending.len() > 0,
        s.last_flush <= arrived,
        now - arrived > s.config.max_latency_ms,
    ensures
        step(s, e, now).1 is Flush,
        step(s, e, now).0.in_flight == s.pending + arrival(e),
{
    lemma_latency_guard(s, e, now);
}

/// Resilience: a transient failure with attempts left keeps the batch in
/// flight and asks for a retry; when that retry succeeds, exactly that
/// batch is settled as stored.
pub proof fn lemma_transient_failure_then_success(s: SchedulerState, t1: int)
    requires
        s.wf(),
        s.flushing,
        s.attempts < s.config.max_attempts,
    ensures
        ({
            let (s1, d1) = step(s, Event::FlushFailed(FailureKind::Transient), t1);
            &&& d1 is Retry
            &&& s1.flushing
            &&& s1.in_flight == s.in_flight
            &&& s1.pending == s.pending
            &&& settled(s, Event::FlushFailed(FailureKind::Transient)).len() == 0
            &&& settled(s1, Event::FlushSucceeded) == s.in_flight
        }),
{
}

} // verus!
