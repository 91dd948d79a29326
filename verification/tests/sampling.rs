use dmm_logger::replay::run;
use dmm_logger::sampler::{
    planned_instant, Action, Event, Outcome, Phase, Record, Sampler, SchedulePlan,
};
use dmm_logger::scheduler::{sleep_until, Wait, SLICE_NANOS, THRESHOLD_NANOS};

const MS: u64 = 1_000_000;
const SECOND: u64 = 1_000_000_000;

fn reading(capture: u64, latency: u64, value: f64) -> Event {
    Event::Reading { capture, wall: 1_700_000_000_000, latency, value: value.to_bits() }
}

fn clock(now: u64) -> Event {
    Event::Clock { now, cancelled: false }
}

#[test]
fn sleep_until_gives_up_when_cancelled() {
    assert_eq!(sleep_until(10 * SECOND as u128, 0, true), Wait::Cancelled);
    assert_eq!(sleep_until(0, 5, true), Wait::Cancelled);
}

#[test]
fn sleep_until_fires_at_and_after_the_planned_instant() {
    assert_eq!(sleep_until(SECOND as u128, SECOND, false), Wait::Fire);
    assert_eq!(sleep_until(SECOND as u128, SECOND + 1, false), Wait::Fire);
    assert_eq!(sleep_until(0, 0, false), Wait::Fire);
}

#[test]
fn sleep_until_sleeps_one_slice_while_far_away() {
    assert_eq!(sleep_until(SECOND as u128, 0, false), Wait::Sleep(100 * MS));
    assert_eq!(sleep_until(150 * MS as u128, 0, false), Wait::Sleep(100 * MS));
    assert_eq!(sleep_until(u128::MAX, u64::MAX, false), Wait::Sleep(SLICE_NANOS));
}

#[test]
fn sleep_until_sleeps_the_remainder_when_close() {
    assert_eq!(sleep_until(150 * MS as u128 - 1, 0, false), Wait::Sleep(150 * MS - 1));
    assert_eq!(sleep_until(SECOND as u128, SECOND - 1, false), Wait::Sleep(1));
    assert_eq!(sleep_until(SECOND as u128, SECOND - 149 * MS, false), Wait::Sleep(149 * MS));
    assert_eq!(THRESHOLD_NANOS, 150 * MS);
}

#[test]
fn cancellation_during_a_long_wait_is_seen_after_one_slice() {
    // The sleep that is under way when the flag is set is one slice long.
    let target = 10 * SECOND as u128;
    let slept_at = 2 * SECOND;
    assert_eq!(sleep_until(target, slept_at, false), Wait::Sleep(100 * MS));
    assert_eq!(sleep_until(target, slept_at + 100 * MS, true), Wait::Cancelled);
}

#[test]
fn planned_instant_is_start_plus_whole_periods() {
    assert_eq!(planned_instant(5, 10, 3), 35);
    assert_eq!(planned_instant(0, SECOND, 0), 0);
    assert_eq!(
        planned_instant(u64::MAX, u64::MAX, u32::MAX),
        u64::MAX as u128 + u32::MAX as u128 * u64::MAX as u128
    );
}

#[test]
fn first_read_is_taken_at_once_and_anchors_the_run() {
    let plan = SchedulePlan { period: SECOND, count: 3, drop_slow_samples: false };
    let mut sampler = Sampler::new(plan);
    assert_eq!(sampler.next_action(), Action::Read { sequence: 0 });
    let record = sampler.advance(reading(7 * SECOND, 20 * MS, 1.5));
    assert_eq!(
        record,
        Some(Record::Sample {
            sequence: 0,
            wall: 1_700_000_000_000,
            moment: 0,
            delay: 0,
            latency: 20 * MS,
            value: 1.5f64.to_bits(),
        })
    );
    assert_eq!(sampler.start, 7 * SECOND);
    assert_eq!(sampler.phase, Phase::Lateness { sequence: 1 });
    assert_eq!(sampler.next_action(), Action::Poll { nap: 0 });
    assert_eq!(sampler.outcome(), None);
}

#[test]
fn run_of_three_samples_on_schedule() {
    let events = vec![
        reading(SECOND, 10 * MS, 1.0),
        clock(SECOND + 11 * MS),
        clock(SECOND + 11 * MS),
        clock(SECOND + 111 * MS),
        clock(SECOND + 900 * MS),
        clock(2 * SECOND + 1 * MS),
        reading(2 * SECOND + 2 * MS, 12 * MS, 2.0),
        clock(2 * SECOND + 15 * MS),
        clock(3 * SECOND),
        reading(3 * SECOND, 9 * MS, 3.0),
    ];
    let report = run(&events, SECOND, 3, false);
    assert_eq!(report.sampler.outcome(), Some(Outcome::Completed));
    assert_eq!(
        report.records,
        vec![
            Record::Sample {
                sequence: 0,
                wall: 1_700_000_000_000,
                moment: 0,
                delay: 0,
                latency: 10 * MS,
                value: 1.0f64.to_bits(),
            },
            Record::Sample {
                sequence: 1,
                wall: 1_700_000_000_000,
                moment: SECOND + 2 * MS,
                delay: 2 * MS,
                latency: 12 * MS,
                value: 2.0f64.to_bits(),
            },
            Record::Sample {
                sequence: 2,
                wall: 1_700_000_000_000,
                moment: 2 * SECOND,
                delay: 0,
                latency: 9 * MS,
                value: 3.0f64.to_bits(),
            },
        ]
    );
}

#[test]
fn waiting_asks_for_bounded_sleeps() {
    let plan = SchedulePlan { period: SECOND, count: 2, drop_slow_samples: false };
    let mut sampler = Sampler::new(plan);
    sampler.advance(reading(0, MS, 0.0));
    assert_eq!(sampler.advance(clock(MS)), None);
    assert_eq!(sampler.next_action(), Action::Poll { nap: 0 });
    assert_eq!(sampler.advance(clock(2 * MS)), None);
    assert_eq!(sampler.next_action(), Action::Poll { nap: 100 * MS });
    assert_eq!(sampler.advance(clock(860 * MS)), None);
    assert_eq!(sampler.next_action(), Action::Poll { nap: 140 * MS });
    assert_eq!(sampler.advance(clock(SECOND)), None);
    assert_eq!(sampler.next_action(), Action::Read { sequence: 1 });
}

#[test]
fn cancellation_stops_the_run_and_keeps_the_samples() {
    let events = vec![
        reading(0, 10 * MS, 1.0),
        clock(11 * MS),
        clock(11 * MS),
        clock(111 * MS),
        Event::Clock { now: 211 * MS, cancelled: true },
        clock(SECOND),
        reading(SECOND, 10 * MS, 2.0),
    ];
    let report = run(&events, SECOND, 10, false);
    assert_eq!(report.sampler.outcome(), Some(Outcome::Cancelled));
    assert_eq!(report.sampler.next_action(), Action::Stop(Outcome::Cancelled));
    assert_eq!(report.records.len(), 1);
    assert_eq!(report.records[0].sequence(), 0);
}

#[test]
fn cancellation_wins_over_a_planned_instant_that_was_reached() {
    let plan = SchedulePlan { period: SECOND, count: 2, drop_slow_samples: false };
    let mut sampler = Sampler::new(plan);
    sampler.advance(reading(0, MS, 0.0));
    sampler.advance(clock(MS));
    assert_eq!(sampler.advance(Event::Clock { now: 5 * SECOND, cancelled: true }), None);
    assert_eq!(sampler.outcome(), Some(Outcome::Cancelled));
}

#[test]
fn failed_read_aborts_the_run() {
    let events = vec![
        reading(0, 10 * MS, 1.0),
        clock(11 * MS),
        clock(SECOND),
        Event::Failed,
        clock(2 * SECOND),
        reading(2 * SECOND, 10 * MS, 3.0),
    ];
    let report = run(&events, SECOND, 5, false);
    assert_eq!(report.sampler.outcome(), Some(Outcome::Aborted));
    assert_eq!(report.records.len(), 1);
    assert_eq!(report.records[0].sequence(), 0);
}

#[test]
fn failed_first_read_gives_no_record() {
    let report = run(&vec![Event::Failed, reading(0, 1, 1.0)], SECOND, 5, true);
    assert_eq!(report.sampler.outcome(), Some(Outcome::Aborted));
    assert!(report.records.is_empty());
}

#[test]
fn late_tick_is_skipped_in_drop_mode() {
    let events = vec![
        reading(0, 10 * MS, 1.0),
        clock(SECOND + 250 * MS),
        clock(SECOND + 251 * MS),
        clock(2 * SECOND),
        reading(2 * SECOND + MS, 10 * MS, 3.0),
    ];
    let report = run(&events, SECOND, 3, true);
    assert_eq!(report.sampler.outcome(), Some(Outcome::Completed));
    assert_eq!(
        report.records,
        vec![
            Record::Sample {
                sequence: 0,
                wall: 1_700_000_000_000,
                moment: 0,
                delay: 0,
                latency: 10 * MS,
                value: 1.0f64.to_bits(),
            },
            Record::TooLate { sequence: 1, overrun: 250 * MS },
            Record::Sample {
                sequence: 2,
                wall: 1_700_000_000_000,
                moment: 2 * SECOND + MS,
                delay: MS,
                latency: 10 * MS,
                value: 3.0f64.to_bits(),
            },
        ]
    );
}

#[test]
fn tick_exactly_at_its_planned_instant_is_late_in_drop_mode() {
    let report = run(&vec![reading(0, MS, 1.0), clock(SECOND)], SECOND, 2, true);
    assert_eq!(report.records[1], Record::TooLate { sequence: 1, overrun: 0 });
    assert_eq!(report.sampler.outcome(), Some(Outcome::Completed));
}

#[test]
fn late_tick_is_read_without_drop_mode() {
    let events = vec![
        reading(0, 10 * MS, 1.0),
        clock(SECOND + 250 * MS),
        clock(SECOND + 251 * MS),
        reading(SECOND + 252 * MS, 10 * MS, 2.0),
    ];
    let report = run(&events, SECOND, 2, false);
    assert_eq!(
        report.records[1],
        Record::Sample {
            sequence: 1,
            wall: 1_700_000_000_000,
            moment: SECOND + 252 * MS,
            delay: 252 * MS,
            latency: 10 * MS,
            value: 2.0f64.to_bits(),
        }
    );
}

#[test]
fn slow_read_is_discarded_in_drop_mode_only() {
    let slow = vec![reading(0, SECOND, 1.0)];
    let dropped = run(&slow, SECOND, 1, true);
    assert_eq!(dropped.records, vec![Record::LatencyTooHigh { sequence: 0, latency: SECOND }]);
    let kept = run(&slow, SECOND, 1, false);
    assert!(matches!(kept.records[0], Record::Sample { sequence: 0, latency: SECOND, .. }));
    let fast = run(&vec![reading(0, SECOND - 1, 1.0)], SECOND, 1, true);
    assert!(matches!(fast.records[0], Record::Sample { sequence: 0, .. }));
}

#[test]
fn sequence_numbers_increase_with_gaps_for_dropped_ticks() {
    let events = vec![
        reading(0, MS, 1.0),
        clock(3 * SECOND),
        clock(3 * SECOND),
        clock(3 * SECOND),
        clock(3 * SECOND),
        clock(4 * SECOND),
        reading(4 * SECOND, 2 * SECOND, 4.0),
        clock(4 * SECOND + MS),
        clock(5 * SECOND),
        reading(5 * SECOND, MS, 5.0),
    ];
    let report = run(&events, SECOND, 7, true);
    let numbers: Vec<u32> = report.records.iter().map(|r| r.sequence()).collect();
    assert_eq!(numbers, vec![0, 1, 2, 3, 4, 5]);
    let samples: Vec<u32> = report
        .records
        .iter()
        .filter(|r| matches!(r, Record::Sample { .. }))
        .map(|r| r.sequence())
        .collect();
    assert_eq!(samples, vec![0, 5]);
    assert_eq!(report.records[1], Record::TooLate { sequence: 1, overrun: 2 * SECOND });
    assert_eq!(report.records[3], Record::TooLate { sequence: 3, overrun: 0 });
    assert_eq!(report.records[4], Record::LatencyTooHigh { sequence: 4, latency: 2 * SECOND });
    assert_eq!(report.sampler.next_action(), Action::Poll { nap: 0 });
    assert_eq!(report.sampler.phase, Phase::Lateness { sequence: 6 });
}

#[test]
fn records_of_a_prefix_open_the_records_of_the_run() {
    let events = vec![
        reading(0, MS, 1.0),
        clock(MS),
        clock(SECOND),
        reading(SECOND, MS, 2.0),
        clock(SECOND + MS),
        clock(2 * SECOND),
        reading(2 * SECOND, MS, 3.0),
    ];
    let whole = run(&events, SECOND, 3, false);
    for n in 0..=events.len() {
        let part = run(&events[..n].to_vec(), SECOND, 3, false);
        assert_eq!(part.records[..], whole.records[..part.records.len()]);
    }
}

#[test]
fn count_of_zero_or_one_takes_the_first_sample_only() {
    for count in [0, 1] {
        let report = run(&vec![reading(5, 1, 1.0), clock(9), reading(9, 1, 2.0)], 10, count, false);
        assert_eq!(report.records.len(), 1);
        assert_eq!(report.sampler.outcome(), Some(Outcome::Completed));
    }
}

#[test]
fn events_that_answer_nothing_are_ignored() {
    let plan = SchedulePlan { period: SECOND, count: 2, drop_slow_samples: false };
    let mut sampler = Sampler::new(plan);
    assert_eq!(sampler.advance(clock(5)), None);
    assert_eq!(sampler, Sampler::new(plan));
    sampler.advance(reading(0, MS, 1.0));
    let before = sampler;
    assert_eq!(sampler.advance(reading(1, MS, 1.0)), None);
    assert_eq!(sampler, before);
}

#[test]
fn capture_before_the_planned_instant_has_no_delay() {
    let plan = SchedulePlan { period: SECOND, count: 2, drop_slow_samples: false };
    let mut sampler = Sampler { plan, start: 10 * SECOND, phase: Phase::Reading { sequence: 1 } };
    let record = sampler.advance(reading(9 * SECOND, MS, 1.0));
    assert!(matches!(record, Some(Record::Sample { moment: 0, delay: 0, .. })));
}

#[test]
fn latency_does_not_depend_on_the_clocks() {
    let plan = SchedulePlan { period: SECOND, count: 2, drop_slow_samples: false };
    for capture in [0, SECOND, 50 * SECOND] {
        for wall in [-5, 0, 1_700_000_000_000] {
            let mut sampler = Sampler { plan, start: SECOND, phase: Phase::Reading { sequence: 1 } };
            let record =
                sampler.advance(Event::Reading { capture, wall, latency: 42 * MS, value: 0 });
            assert!(matches!(record, Some(Record::Sample { latency, .. }) if latency == 42 * MS));
        }
    }
}
