//! A whole run, as the fold of the sampling state machine over the events
//! that the caller reported, and what holds of every such run.

use vstd::prelude::*;
use crate::sampler::{Event, Outcome, Phase, Record, Sampler, SchedulePlan, planned};

verus! {

/// The records of a run and the state it ended in.
#[derive(Debug)]
pub struct Report {
    /// The records in the order in which they were produced.
    pub records: Vec<Record>,
    /// The state after the last event.
    pub sampler: Sampler,
}

/// The state after `events`, from the start of a run of `plan`.
pub open spec fn run_state(plan: SchedulePlan, events: Seq<Event>) -> Sampler
    decreases events.len(),
{
    if events.len() == 0 {
        Sampler::initial(plan)
    } else {
        run_state(plan, events.drop_last()).step(events.last()).sampler
    }
}

/// The records that `events` produce, from the start of a run of `plan`.
pub open spec fn run_records(plan: SchedulePlan, events: Seq<Event>) -> Seq<Record>
    decreases events.len(),
{
    if events.len() == 0 {
        Seq::empty()
    } else {
        let before = run_records(plan, events.drop_last());
        match run_state(plan, events.drop_last()).step(events.last()).record {
            Some(record) => before.push(record),
            None => before,
        }
    }
}

/// Runs the sampling loop over `events`, the outcomes that the caller met in
/// the order in which the loop asked for them.
pub fn run(
    events: &Vec<Event>,
    sample_period: u64,
    num_samples: u32,
    drop_slow_samples: bool,
) -> (report: Report)
    ensures
        report.records@ == run_records(
            SchedulePlan { period: sample_period, count: num_samples, drop_slow_samples },
            events@,
        ),
        report.sampler == run_state(
            SchedulePlan { period: sample_period, count: num_samples, drop_slow_samples },
            events@,
        ),
{
    let plan = SchedulePlan { period: sample_period, count: num_samples, drop_slow_samples };
    let mut sampler = Sampler::new(plan);
    let mut records: Vec<Record> = Vec::new();
    let mut i: usize = 0;
    while i < events.len()
        invariant
            i <= events.len(),
            sampler.wf(),
            sampler == run_state(plan, events@.take(i as int)),
            records@ == run_records(plan, events@.take(i as int)),
        decreases events.len() - i,
    {
        proof {
            assert(events@.take(i + 1).drop_last() == events@.take(i as int));
        }
        if let Some(record) = sampler.advance(events[i]) {
            records.push(record);
        }
        i = i + 1;
    }
    proof {
        assert(events@.take(i as int) == events@);
    }
    Report { records, sampler }
}

/// Every state of a run is well formed.
pub proof fn run_state_is_well_formed(plan: SchedulePlan, events: Seq<Event>)
    ensures
        run_state(plan, events).wf(),
    decreases events.len(),
{
    if events.len() > 0 {
        run_state_is_well_formed(plan, events.drop_last());
    }
}

/// A record carries the number of the tick that was pending, and the run
/// then moves on to a later tick.
pub proof fn record_takes_the_pending_tick(s: Sampler, event: Event)
    ensures
        s.wf() ==> s.step(event).sampler.wf(),
        s.next_sequence() <= s.step(event).sampler.next_sequence(),
        s.step(event).record matches Some(record) ==> record.spec_sequence() == s.next_sequence()
            && s.next_sequence() < s.step(event).sampler.next_sequence(),
{
}

/// Every record of a run belongs to a tick that the run has left behind.
pub proof fn records_lie_behind(plan: SchedulePlan, events: Seq<Event>)
    ensures
        forall|i: int|
            0 <= i < run_records(plan, events).len() ==> (#[trigger] run_records(
                plan,
                events,
            )[i]).spec_sequence() < run_state(plan, events).next_sequence(),
    decreases events.len(),
{
    if events.len() > 0 {
        let before = events.drop_last();
        let earlier = run_records(plan, before);
        let all = run_records(plan, events);
        records_lie_behind(plan, before);
        record_takes_the_pending_tick(run_state(plan, before), events.last());
        assert forall|i: int| 0 <= i < all.len() implies (#[trigger] all[i]).spec_sequence()
            < run_state(plan, events).next_sequence() by {
            if i < earlier.len() {
                assert(all[i] == earlier[i]);
            }
        }
    }
}

/// The sequence numbers of the records of a run increase strictly: no tick
/// is reported twice, whether it gave a sample or a comment, and a tick that
/// was skipped keeps its number to itself.
pub proof fn sequence_numbers_increase(plan: SchedulePlan, events: Seq<Event>)
    ensures
        forall|i: int, j: int|
            0 <= i < j < run_records(plan, events).len() ==> (#[trigger] run_records(
                plan,
                events,
            )[i]).spec_sequence() < (#[trigger] run_records(plan, events)[j]).spec_sequence(),
    decreases events.len(),
{
    if events.len() > 0 {
        let before = events.drop_last();
        let earlier = run_records(plan, before);
        let all = run_records(plan, events);
        sequence_numbers_increase(plan, before);
        records_lie_behind(plan, before);
        record_takes_the_pending_tick(run_state(plan, before), events.last());
        assert forall|i: int, j: int| 0 <= i < j < all.len() implies (#[trigger] all[i]).spec_sequence()
            < (#[trigger] all[j]).spec_sequence() by {
            assert(all[i] == earlier[i]);
            if j < earlier.len() {
                assert(all[j] == earlier[j]);
            }
        }
    }
}

/// What a run has recorded stays: the records after the first `n` events
/// open the records of the whole run, in the same order.
pub proof fn records_are_kept(plan: SchedulePlan, events: Seq<Event>, n: int)
    requires
        0 <= n <= events.len(),
    ensures
        run_records(plan, events.take(n)).is_prefix_of(run_records(plan, events)),
    decreases events.len() - n,
{
    if n == events.len() {
        assert(events.take(n) == events);
    } else {
        records_are_kept(plan, events, n + 1);
        assert(events.take(n + 1).drop_last() == events.take(n));
    }
}

/// Once a run is over, no event changes its state or adds a record.
pub proof fn nothing_follows_the_end(plan: SchedulePlan, events: Seq<Event>, more: Seq<Event>)
    requires
        run_state(plan, events).phase is Finished,
    ensures
        run_state(plan, events + more) == run_state(plan, events),
        run_records(plan, events + more) == run_records(plan, events),
    decreases more.len(),
{
    if more.len() == 0 {
        assert(events + more == events);
    } else {
        nothing_follows_the_end(plan, events, more.drop_last());
        assert((events + more).drop_last() == events + more.drop_last());
    }
}

/// A failure reported while the run is under way aborts it: the run ends as
/// aborted with the records it had, and whatever is reported afterwards adds
/// no record, neither for the tick that failed nor for a later one.
pub proof fn failure_aborts_the_run(plan: SchedulePlan, events: Seq<Event>, more: Seq<Event>)
    requires
        !(run_state(plan, events).phase is Finished),
    ensures
        run_state(plan, events.push(Event::Failed) + more).phase == Phase::Finished(
            Outcome::Aborted,
        ),
        run_records(plan, events.push(Event::Failed) + more) == run_records(plan, events),
{
    let failed = events.push(Event::Failed);
    assert(failed.drop_last() == events);
    nothing_follows_the_end(plan, failed, more);
}

/// A cancellation seen while the run waits for a tick ends it: the run ends
/// as cancelled with the records it had, and whatever is reported afterwards
/// adds no record.
pub proof fn cancellation_ends_the_run(
    plan: SchedulePlan,
    events: Seq<Event>,
    now: u64,
    more: Seq<Event>,
)
    requires
        run_state(plan, events).phase is Waiting,
    ensures
        run_state(plan, events.push(Event::Clock { now, cancelled: true }) + more).phase
            == Phase::Finished(Outcome::Cancelled),
        run_records(plan, events.push(Event::Clock { now, cancelled: true }) + more)
            == run_records(plan, events),
{
    let seen = events.push(Event::Clock { now, cancelled: true });
    assert(seen.drop_last() == events);
    nothing_follows_the_end(plan, seen, more);
}

/// A run keeps the plan it was started with.
pub proof fn run_keeps_its_plan(plan: SchedulePlan, events: Seq<Event>)
    ensures
        run_state(plan, events).plan == plan,
    decreases events.len(),
{
    if events.len() > 0 {
        run_keeps_its_plan(plan, events.drop_last());
    }
}

/// Until the first read is reported the start of a run is 0; a run that
/// has left its first read behind never returns to it.
pub proof fn run_starts_once(plan: SchedulePlan, events: Seq<Event>, n: int)
    requires
        0 <= n <= events.len(),
    ensures
        run_state(plan, events).phase is FirstRead ==> run_state(plan, events).start == 0
            && run_state(plan, events.take(n)).phase is FirstRead,
    decreases events.len(),
{
    if events.len() == 0 {
        assert(events.take(n) == events);
    } else if n == events.len() {
        assert(events.take(n) == events);
        run_starts_once(plan, events.drop_last(), n - 1);
    } else {
        run_starts_once(plan, events.drop_last(), n);
        assert(events.drop_last().take(n) == events.take(n));
    }
}

/// The start of a run is the capture instant of its first read: once the
/// read that was asked for first is reported, with `events[n]`, the start
/// is the capture instant of that read, whatever follows.
pub proof fn run_starts_at_the_first_capture(plan: SchedulePlan, events: Seq<Event>, n: int)
    requires
        0 <= n < events.len(),
        run_state(plan, events.take(n)).phase is FirstRead,
        events[n] is Reading,
    ensures
        run_state(plan, events).start == events[n]->Reading_capture,
        !(run_state(plan, events).phase is FirstRead),
    decreases events.len(),
{
    if n == events.len() - 1 {
        assert(events.drop_last() == events.take(n));
    } else {
        let before = events.drop_last();
        assert(before.take(n) == events.take(n));
        assert(before[n] == events[n]);
        run_starts_at_the_first_capture(plan, before, n);
    }
}

/// A read is asked for only once the clock has reached the planned instant
/// of its tick, and never after the cancellation flag was seen.
pub proof fn read_waits_for_the_planned_instant(s: Sampler, now: u64, cancelled: bool)
    requires
        s.phase is Waiting,
    ensures
        s.step(Event::Clock { now, cancelled }).sampler.phase is Reading ==> !cancelled && now
            >= planned(s.start, s.plan.period, s.phase->Waiting_sequence),
        s.step(Event::Clock { now, cancelled }).sampler.phase matches Phase::Waiting { nap, .. }
            ==> 0 < nap && now + nap <= planned(s.start, s.plan.period, s.phase->Waiting_sequence),
{
}

/// The sample of tick `sequence`, captured on a monotonic clock after the
/// wait for its planned instant, lies `delay` after `sequence` periods
/// have passed since the first capture, and so never before them.
pub proof fn sample_is_on_schedule(
    s: Sampler,
    capture: u64,
    wall: i64,
    latency: u64,
    value: u64,
)
    requires
        s.phase is Reading,
        capture >= planned(s.start, s.plan.period, s.phase->Reading_sequence),
    ensures
        s.step(Event::Reading { capture, wall, latency, value }).record matches Some(
            Record::Sample { sequence, moment, delay, .. },
        ) ==> sequence == s.phase->Reading_sequence && moment == sequence * s.plan.period + delay
            && moment >= sequence * s.plan.period,
{
    let sequence = s.phase->Reading_sequence;
    assert(sequence * s.plan.period >= 0) by (nonlinear_arith)
        requires
            sequence >= 0,
            s.plan.period >= 0,
    ;
}

/// In a run whose first read was reported with `events[first]`, the sample
/// that the last event gives for tick `sequence`, captured no earlier than
/// `sequence` periods of the plan after the first capture, has as its
/// moment the time since the first capture, and that is `sequence` periods
/// plus its delay.
pub proof fn run_sample_is_on_schedule(plan: SchedulePlan, events: Seq<Event>, first: int)
    requires
        0 <= first < events.len() - 1,
        run_state(plan, events.take(first)).phase is FirstRead,
        events[first] is Reading,
        run_state(plan, events.drop_last()).phase is Reading,
        events.last() is Reading,
        events.last()->Reading_capture >= events[first]->Reading_capture + run_state(
            plan,
            events.drop_last(),
        ).phase->Reading_sequence * plan.period,
    ensures
        run_state(plan, events.drop_last()).step(events.last()).record matches Some(
            Record::Sample { sequence, moment, delay, .. },
        ) ==> sequence == run_state(plan, events.drop_last()).phase->Reading_sequence && moment
            == events.last()->Reading_capture - events[first]->Reading_capture && moment
            == sequence * plan.period + delay,
{
    let before = events.drop_last();
    let state = run_state(plan, before);
    assert(before.take(first) == events.take(first));
    assert(before[first] == events[first]);
    run_keeps_its_plan(plan, before);
    run_starts_at_the_first_capture(plan, before, first);
    let sequence = state.phase->Reading_sequence;
    assert(sequence * plan.period >= 0) by (nonlinear_arith)
        requires
            sequence >= 0,
            plan.period >= 0,
    ;
    match events.last() {
        Event::Reading { capture, wall, latency, value } => {
            sample_is_on_schedule(state, capture, wall, latency, value);
        },
        _ => {},
    }
}

/// The first read opens the run: its record carries sequence number 0, and
/// as a sample it has neither moment nor delay.
pub proof fn first_sample_is_the_origin(
    plan: SchedulePlan,
    capture: u64,
    wall: i64,
    latency: u64,
    value: u64,
)
    ensures
        Sampler::initial(plan).step(Event::Reading { capture, wall, latency, value }).record
            == Some(
            if plan.drop_slow_samples && latency >= plan.period {
                Record::LatencyTooHigh { sequence: 0, latency }
            } else {
                Record::Sample { sequence: 0, wall, moment: 0, delay: 0, latency, value }
            },
        ),
{
    assert(0 * plan.period == 0);
}

/// The latency of a record is the latency that was measured: neither the
/// capture instant nor the wall clock has a part in it, and whether a read
/// counts as slow depends on the latency alone.
pub proof fn latency_is_as_measured(
    s: Sampler,
    capture: u64,
    wall: i64,
    other_capture: u64,
    other_wall: i64,
    latency: u64,
    value: u64,
)
    ensures
        match s.step(Event::Reading { capture, wall, latency, value }).record {
            Some(Record::Sample { latency: reported, .. }) => reported == latency,
            Some(Record::LatencyTooHigh { latency: reported, .. }) => reported == latency,
            Some(Record::TooLate { .. }) => false,
            None => true,
        },
        s.step(Event::Reading { capture, wall, latency, value }).record is Some ==> (s.step(
            Event::Reading { capture, wall, latency, value },
        ).record->0 is Sample <==> !(s.plan.drop_slow_samples && latency >= s.plan.period)),
        s.step(Event::Reading { capture, wall, latency, value }).record is Some <==> s.step(
            Event::Reading { capture: other_capture, wall: other_wall, latency, value },
        ).record is Some,
        s.step(Event::Reading { capture, wall, latency, value }).record matches Some(a) ==> s.step(
            Event::Reading { capture: other_capture, wall: other_wall, latency, value },
        ).record matches Some(b) && (a is Sample <==> b is Sample),
{
}

} // verus!
