//! Tests for the cross-domain synchronization protocol and translation.

use clock_sync::{CalibratedClock, Clock, ClockSynchronization};

/// A test clock whose instants are exact signed nanosecond counts.
#[derive(Clone, Copy)]
struct NsClock;

impl Clock for NsClock {
    type Instant = i64;

    fn now(self) -> i64 {
        0
    }
}

impl CalibratedClock for NsClock {
    fn sub_i64_ns(self, later: i64, earlier: i64) -> i64 {
        later.wrapping_sub(earlier)
    }

    fn add_i64_ns(self, base: i64, offset: i64) -> i64 {
        base.wrapping_add(offset)
    }
}

/// A test clock that replays a scripted sequence of instants.
#[derive(Clone, Copy)]
struct ScriptClock<'a> {
    reads: &'a std::cell::Cell<usize>,
    script: &'a [i64],
}

impl<'a> Clock for ScriptClock<'a> {
    type Instant = i64;

    fn now(self) -> i64 {
        let i = self.reads.get();
        self.reads.set(i + 1);
        self.script[i.min(self.script.len() - 1)]
    }
}

impl<'a> CalibratedClock for ScriptClock<'a> {
    fn sub_i64_ns(self, later: i64, earlier: i64) -> i64 {
        later.wrapping_sub(earlier)
    }

    fn add_i64_ns(self, base: i64, offset: i64) -> i64 {
        base.wrapping_add(offset)
    }
}

fn sync_with_epochs(at: i64, bt: i64) -> ClockSynchronization<NsClock, NsClock> {
    // A single zero-cost trial pins the epochs exactly.
    ClockSynchronization::from_trials(
        NsClock,
        NsClock,
        (at, bt, 0),
        (at, bt, 1),
        (at, bt, 1),
    )
}

#[test]
fn minimum_latency_trial_selection() {
    // Round-trip costs [50, 10, 30]: the trial with cost 10 is selected.
    let s = ClockSynchronization::from_trials(
        NsClock,
        NsClock,
        (100, 5, 50),
        (1000, 7, 10),
        (2000, 9, 30),
    );
    assert_eq!(s.epoch_b(), 7);
    assert_eq!(s.epoch_a(), 1005);
}

#[test]
fn epoch_midpoint() {
    // a0 = 1000, a1 = 1010, so da = 10: the epoch in A is the midpoint 1005.
    let s = ClockSynchronization::from_trials(
        NsClock,
        NsClock,
        (0, 0, 999),
        (1000, 42, 10),
        (0, 0, 999),
    );
    assert_eq!(s.epoch_a(), 1005);
    assert_eq!(s.epoch_b(), 42);
}

#[test]
fn trial_tie_takes_last() {
    let s = ClockSynchronization::from_trials(
        NsClock,
        NsClock,
        (10, 1, 10),
        (20, 2, 10),
        (30, 3, 40),
    );
    assert_eq!(s.epoch_b(), 2);
    let s = ClockSynchronization::from_trials(
        NsClock,
        NsClock,
        (10, 1, 10),
        (20, 2, 10),
        (30, 3, 10),
    );
    assert_eq!(s.epoch_b(), 3);
}

#[test]
fn odd_cost_midpoint_rounds_toward_zero() {
    let s = ClockSynchronization::from_trials(
        NsClock,
        NsClock,
        (1000, 8, 11),
        (0, 0, 999),
        (0, 0, 999),
    );
    assert_eq!(s.epoch_a(), 1005);
}

#[test]
fn negative_cost_midpoint_rounds_toward_zero() {
    // A negative bracket cost (only possible on a misbehaving clock) still
    // halves toward zero.
    let s = ClockSynchronization::from_trials(
        NsClock,
        NsClock,
        (1000, 8, -11),
        (0, 0, 999),
        (0, 0, 999),
    );
    assert_eq!(s.epoch_a(), 995);
    assert_eq!(s.epoch_b(), 8);
    let s = ClockSynchronization::from_trials(
        NsClock,
        NsClock,
        (0, 1, i64::MIN),
        (0, 0, 0),
        (0, 0, 0),
    );
    assert_eq!(s.epoch_a(), -(1i64 << 62));
}

#[test]
fn translation_exact_on_exact_clocks() {
    let s = sync_with_epochs(1000, 500);
    assert_eq!(s.to_a(600), 1100);
    assert_eq!(s.to_a(500), 1000);
    assert_eq!(s.to_a(400), 900);
    assert_eq!(s.to_b(1100), 600);
    assert_eq!(s.to_b(900), 400);
}

#[test]
fn translation_linearity() {
    // The A-domain separation of two translated instants equals the
    // B-domain separation of the originals (exactly, on exact clocks).
    let s = sync_with_epochs(-7_000, 123_456);
    let pairs = [(0i64, 1i64), (123_456, 200_000), (-50, 75), (1_000_000, -1_000_000)];
    for (b1, b2) in pairs {
        let d = s.a().sub_i64_ns(s.to_a(b1), s.to_a(b2));
        let e = s.b().sub_i64_ns(b1, b2);
        assert_eq!(d, e);
    }
}

#[test]
fn round_trip_stability() {
    let s = sync_with_epochs(1000, 500);
    for x in [0i64, 500, 501, -1, 1_000_000_007] {
        assert_eq!(s.to_b(s.to_a(x)), x);
        assert_eq!(s.to_a(s.to_b(x)), x);
    }
}

#[test]
fn new_aba_runs_three_trials() {
    // A reads twice per trial: 1,2 then 3,4 then 5,6, so every bracket costs
    // 1 ns and the last trial wins: epoch A is 5 + 1/2 rounded down = 5.
    let a_reads = std::cell::Cell::new(0);
    let a_script = [1i64, 2, 3, 4, 5, 6];
    let b_reads = std::cell::Cell::new(0);
    let b_script = [10i64, 20, 30];
    let a = ScriptClock { reads: &a_reads, script: &a_script };
    let b = ScriptClock { reads: &b_reads, script: &b_script };
    let s = ClockSynchronization::new_aba(a, b);
    assert_eq!(s.epoch_a(), 5);
    assert_eq!(s.epoch_b(), 30);
    assert_eq!(a_reads.get(), 6);
    assert_eq!(b_reads.get(), 3);
}

#[test]
fn new_aba_picks_tightest_bracket() {
    // Bracket costs are 50, 10, 30: the second trial's reads become the
    // epochs, with the midpoint applied in A.
    let a_reads = std::cell::Cell::new(0);
    let a_script = [100i64, 150, 1000, 1010, 2000, 2030];
    let b_reads = std::cell::Cell::new(0);
    let b_script = [5i64, 7, 9];
    let a = ScriptClock { reads: &a_reads, script: &a_script };
    let b = ScriptClock { reads: &b_reads, script: &b_script };
    let s = ClockSynchronization::new_aba(a, b);
    assert_eq!(s.epoch_a(), 1005);
    assert_eq!(s.epoch_b(), 7);
}
