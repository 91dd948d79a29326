//! The sampling loop as a state machine.
//!
//! The caller performs what [`Sampler::next_action`] asks for (a timed read
//! of the instrument, or a look at the clock after an optional sleep) and
//! reports the outcome with [`Sampler::advance`], which hands back the record
//! to write, if the tick produced one.
//!
//! Instants and durations are whole nanoseconds on a monotonic clock, a
//! wall-clock timestamp is milliseconds since the Unix epoch, and a reading
//! travels as the bit pattern of its 64-bit float.

use vstd::prelude::*;
use crate::scheduler::{sleep_until, wait_decision, Wait};

verus! {

/// What a run was asked to do.
#[derive(Clone, Copy, Debug, PartialEq, Eq, Structural)]
pub struct SchedulePlan {
    /// Time between two planned ticks.
    pub period: u64,
    /// Number of ticks; the first tick is taken even where this is 0.
    pub count: u32,
    /// Replace late ticks and slow reads by a comment.
    pub drop_slow_samples: bool,
}

/// How a run ended.
#[derive(Clone, Copy, Debug, PartialEq, Eq, Structural)]
pub enum Outcome {
    /// Every tick of the plan was handled.
    Completed,
    /// The cancellation flag was seen while waiting for a tick.
    Cancelled,
    /// A read or a write failed.
    Aborted,
}

/// Where the loop stands.
#[derive(Clone, Copy, Debug, PartialEq, Eq, Structural)]
pub enum Phase {
    /// The first read is outstanding.
    FirstRead,
    /// Tick `sequence` is next; the clock decides whether it is already late.
    Lateness { sequence: u32 },
    /// Waiting for the planned instant of tick `sequence`; `nap` is the sleep
    /// that precedes the next look at the clock.
    Waiting { sequence: u32, nap: u64 },
    /// The read of tick `sequence` is outstanding.
    Reading { sequence: u32 },
    /// The run is over.
    Finished(Outcome),
}

/// What the caller reports.
#[derive(Clone, Copy, Debug, PartialEq, Eq, Structural)]
pub enum Event {
    /// The monotonic clock and the cancellation flag, read in that order
    /// after the requested sleep.
    Clock { now: u64, cancelled: bool },
    /// A timed read succeeded: `capture` was taken right before the request
    /// went out, `latency` is the time until the value was parsed.
    Reading { capture: u64, wall: i64, latency: u64, value: u64 },
    /// The read, or the write of the record handed out last, failed.
    Failed,
}

/// What the caller does next.
#[derive(Clone, Copy, Debug, PartialEq, Eq, Structural)]
pub enum Action {
    /// Perform a timed read for tick `sequence` and report it.
    Read { sequence: u32 },
    /// Sleep for `nap`, then report the clock and the cancellation flag.
    Poll { nap: u64 },
    /// Stop: the run is over.
    Stop(Outcome),
}

/// One line of output.
#[derive(Clone, Copy, Debug, PartialEq, Eq, Structural)]
pub enum Record {
    /// A measurement. `moment` is the time since the first capture, `delay`
    /// the time by which the capture came after the planned instant.
    Sample { sequence: u32, wall: i64, moment: u64, delay: u64, latency: u64, value: u64 },
    /// The tick was skipped: its planned instant lay `overrun` in the past.
    TooLate { sequence: u32, overrun: u64 },
    /// The value was discarded: the read took at least one period.
    LatencyTooHigh { sequence: u32, latency: u64 },
}

impl Record {
    /// The tick that the record belongs to.
    pub open spec fn spec_sequence(&self) -> u32 {
        match *self {
            Record::Sample { sequence, .. } => sequence,
            Record::TooLate { sequence, .. } => sequence,
            Record::LatencyTooHigh { sequence, .. } => sequence,
        }
    }

    /// The tick that the record belongs to.
    #[verifier::when_used_as_spec(spec_sequence)]
    pub fn sequence(&self) -> (k: u32)
        ensures
            k == self.spec_sequence(),
    {
        match self {
            Record::Sample { sequence, .. } => *sequence,
            Record::TooLate { sequence, .. } => *sequence,
            Record::LatencyTooHigh { sequence, .. } => *sequence,
        }
    }
}

/// The state of a run: its plan, the capture instant of the first read and
/// the phase.
#[derive(Clone, Copy, Debug, PartialEq, Eq, Structural)]
pub struct Sampler {
    pub plan: SchedulePlan,
    /// Capture instant of the first read; 0 until that read is reported.
    pub start: u64,
    pub phase: Phase,
}

/// The state and the record that one event leads to.
#[derive(Clone, Copy, Debug, PartialEq, Eq, Structural)]
pub struct Step {
    pub sampler: Sampler,
    pub record: Option<Record>,
}

/// `a - b`, or 0 where `b` is the later instant.
pub open spec fn elapsed(a: int, b: int) -> int {
    if a >= b {
        a - b
    } else {
        0
    }
}

/// The planned instant of tick `sequence`.
pub open spec fn planned(start: u64, period: u64, sequence: u32) -> int {
    start + sequence * period
}

/// The phase after tick `sequence - 1` was dealt with.
pub open spec fn phase_at(plan: SchedulePlan, sequence: int) -> Phase {
    if sequence < plan.count {
        Phase::Lateness { sequence: sequence as u32 }
    } else {
        Phase::Finished(Outcome::Completed)
    }
}

/// The record for a read of tick `sequence` that was captured at `capture`.
pub open spec fn record_of_read(
    plan: SchedulePlan,
    start: u64,
    sequence: u32,
    capture: u64,
    wall: i64,
    latency: u64,
    value: u64,
) -> Record {
    if plan.drop_slow_samples && latency >= plan.period {
        Record::LatencyTooHigh { sequence, latency }
    } else {
        Record::Sample {
            sequence,
            wall,
            moment: elapsed(capture as int, start as int) as u64,
            delay: elapsed(capture as int, planned(start, plan.period, sequence)) as u64,
            latency,
            value,
        }
    }
}

impl Sampler {
    /// The state before anything happened.
    pub open spec fn initial(plan: SchedulePlan) -> Sampler {
        Sampler { plan, start: 0, phase: Phase::FirstRead }
    }

    /// The ticks below this number have been dealt with.
    pub open spec fn next_sequence(self) -> int {
        match self.phase {
            Phase::FirstRead => 0,
            Phase::Lateness { sequence } => sequence as int,
            Phase::Waiting { sequence, .. } => sequence as int,
            Phase::Reading { sequence } => sequence as int,
            Phase::Finished(_) => u32::MAX + 1,
        }
    }

    /// A tick past the first lies inside the plan.
    pub open spec fn wf(self) -> bool {
        match self.phase {
            Phase::FirstRead => true,
            Phase::Lateness { sequence } => 1 <= sequence < self.plan.count,
            Phase::Waiting { sequence, .. } => 1 <= sequence < self.plan.count,
            Phase::Reading { sequence } => 1 <= sequence < self.plan.count,
            Phase::Finished(_) => true,
        }
    }

    /// The state and the record that `event` leads to. An event that does
    /// not answer the pending action changes nothing.
    pub open spec fn step(self, event: Event) -> Step {
        let plan = self.plan;
        match (self.phase, event) {
            (Phase::Finished(_), _) => Step { sampler: self, record: None },
            (_, Event::Failed) => Step {
                sampler: Sampler { phase: Phase::Finished(Outcome::Aborted), ..self },
                record: None,
            },
            (Phase::FirstRead, Event::Reading { capture, wall, latency, value }) => Step {
                sampler: Sampler { plan, start: capture, phase: phase_at(plan, 1) },
                record: Some(record_of_read(plan, capture, 0, capture, wall, latency, value)),
            },
            (Phase::Lateness { sequence }, Event::Clock { now, cancelled }) => {
                let due = planned(self.start, plan.period, sequence);
                if plan.drop_slow_samples && now >= due {
                    Step {
                        sampler: Sampler { phase: phase_at(plan, sequence + 1), ..self },
                        record: Some(
                            Record::TooLate { sequence, overrun: (now - due) as u64 },
                        ),
                    }
                } else {
                    Step {
                        sampler: Sampler { phase: Phase::Waiting { sequence, nap: 0 }, ..self },
                        record: None,
                    }
                }
            },
            (Phase::Waiting { sequence, nap }, Event::Clock { now, cancelled }) => {
                let due = planned(self.start, plan.period, sequence);
                let phase = match wait_decision(due, now as int, cancelled) {
                    Wait::Cancelled => Phase::Finished(Outcome::Cancelled),
                    Wait::Fire => Phase::Reading { sequence },
                    Wait::Sleep(nap) => Phase::Waiting { sequence, nap },
                };
                Step { sampler: Sampler { phase, ..self }, record: None }
            },
            (Phase::Reading { sequence }, Event::Reading { capture, wall, latency, value }) => Step {
                sampler: Sampler { phase: phase_at(plan, sequence + 1), ..self },
                record: Some(
                    record_of_read(plan, self.start, sequence, capture, wall, latency, value),
                ),
            },
            _ => Step { sampler: self, record: None },
        }
    }

    /// What the caller is to do in this state.
    pub open spec fn pending(self) -> Action {
        match self.phase {
            Phase::FirstRead => Action::Read { sequence: 0 },
            Phase::Lateness { sequence } => Action::Poll { nap: 0 },
            Phase::Waiting { sequence, nap } => Action::Poll { nap },
            Phase::Reading { sequence } => Action::Read { sequence },
            Phase::Finished(outcome) => Action::Stop(outcome),
        }
    }
}

impl Sampler {
    /// A run of `plan` that has not started.
    pub fn new(plan: SchedulePlan) -> (s: Sampler)
        ensures
            s == Sampler::initial(plan),
            s.wf(),
    {
        Sampler { plan, start: 0, phase: Phase::FirstRead }
    }

    /// What the caller is to do now.
    pub fn next_action(&self) -> (a: Action)
        ensures
            a == self.pending(),
    {
        match self.phase {
            Phase::FirstRead => Action::Read { sequence: 0 },
            Phase::Lateness { .. } => Action::Poll { nap: 0 },
            Phase::Waiting { nap, .. } => Action::Poll { nap },
            Phase::Reading { sequence } => Action::Read { sequence },
            Phase::Finished(outcome) => Action::Stop(outcome),
        }
    }

    /// How the run ended, once it has.
    pub fn outcome(&self) -> (o: Option<Outcome>)
        ensures
            o == (match self.phase {
                Phase::Finished(outcome) => Some(outcome),
                _ => None,
            }),
    {
        match self.phase {
            Phase::Finished(outcome) => Some(outcome),
            _ => None,
        }
    }

    /// Takes in `event` and hands back the record that it produced, if any.
    pub fn advance(&mut self, event: Event) -> (record: Option<Record>)
        ensures
            *final(self) == old(self).step(event).sampler,
            record == old(self).step(event).record,
            old(self).wf() ==> final(self).wf(),
    {
        let plan = self.plan;
        match (self.phase, event) {
            (Phase::Finished(_), _) => None,
            (_, Event::Failed) => {
                self.phase = Phase::Finished(Outcome::Aborted);
                None
            },
            (Phase::FirstRead, Event::Reading { capture, wall, latency, value }) => {
                self.start = capture;
                self.phase = phase_after(plan, 0);
                Some(read_record(plan, capture, 0, capture, wall, latency, value))
            },
            (Phase::Lateness { sequence }, Event::Clock { now, cancelled }) => {
                let due: u128 = planned_instant(self.start, plan.period, sequence);
                if plan.drop_slow_samples && now as u128 >= due {
                    self.phase = phase_after(plan, sequence);
                    Some(Record::TooLate { sequence, overrun: (now as u128 - due) as u64 })
                } else {
                    self.phase = Phase::Waiting { sequence, nap: 0 };
                    None
                }
            },
            (Phase::Waiting { sequence, .. }, Event::Clock { now, cancelled }) => {
                let due: u128 = planned_instant(self.start, plan.period, sequence);
                self.phase = match sleep_until(due, now, cancelled) {
                    Wait::Cancelled => Phase::Finished(Outcome::Cancelled),
                    Wait::Fire => Phase::Reading { sequence },
                    Wait::Sleep(nap) => Phase::Waiting { sequence, nap },
                };
                None
            },
            (Phase::Reading { sequence }, Event::Reading { capture, wall, latency, value }) => {
                self.phase = phase_after(plan, sequence);
                Some(read_record(plan, self.start, sequence, capture, wall, latency, value))
            },
            _ => None,
        }
    }
}

/// The planned instant of tick `sequence`: `start + sequence * period`.
pub fn planned_instant(start: u64, period: u64, sequence: u32) -> (due: u128)
    ensures
        due == planned(start, period, sequence),
{
    assert(sequence as int * period as int <= 0xffff_ffff * 0xffff_ffff_ffff_ffff) by (nonlinear_arith)
        requires
            0 <= sequence <= 0xffff_ffff,
            0 <= period <= 0xffff_ffff_ffff_ffff,
    ;
    start as u128 + sequence as u128 * period as u128
}

/// The phase once tick `sequence` has been dealt with.
fn phase_after(plan: SchedulePlan, sequence: u32) -> (phase: Phase)
    ensures
        phase == phase_at(plan, sequence + 1),
{
    if sequence < u32::MAX && sequence + 1 < plan.count {
        Phase::Lateness { sequence: sequence + 1 }
    } else {
        Phase::Finished(Outcome::Completed)
    }
}

/// The record for a read of tick `sequence`.
fn read_record(
    plan: SchedulePlan,
    start: u64,
    sequence: u32,
    capture: u64,
    wall: i64,
    latency: u64,
    value: u64,
) -> (record: Record)
    ensures
        record == record_of_read(plan, start, sequence, capture, wall, latency, value),
{
    if plan.drop_slow_samples && latency >= plan.period {
        Record::LatencyTooHigh { sequence, latency }
    } else {
        let due: u128 = planned_instant(start, plan.period, sequence);
        let moment: u64 = if capture >= start {
            capture - start
        } else {
            0
        };
        let delay: u64 = if capture as u128 >= due {
            (capture as u128 - due) as u64
        } else {
            0
        };
        Record::Sample { sequence, wall, moment, delay, latency, value }
    }
}

} // verus!
