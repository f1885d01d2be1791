//! Tests for the cycle counter: wraparound ordering, stability probe
//! decisions, conversion arithmetic and the calibration loop.

use std::cell::Cell;

use clock_sync::tsc::{
    assess_window, calibration_step, rate_converged, CalibratedTsc, CalibrationStep, CycleRate,
    Tsc, TscInstant, MAX_WINDOW_CYCLES, MAX_WINDOW_NS, MIN_WINDOW_NS,
};
use clock_sync::{CalibratedClock, Clock};

fn attested_tsc() -> Tsc {
    Tsc::try_new_assume_stable(0x10).expect("bit 4 set")
}

#[test]
fn wraparound_ordering_without_wrap() {
    let x = TscInstant::from_raw(100);
    let y = TscInstant::from_raw(350);
    assert!(x < y);
    assert!(y > x);
    assert!(x == TscInstant::from_raw(100));
}

#[test]
fn wraparound_ordering_across_wrap() {
    // y is only 10 ticks after x in true time, but its raw value has
    // wrapped: numeric comparison would invert the order, the
    // wraparound-safe comparator does not.
    let x = TscInstant::from_raw(i64::MAX - 4);
    let y = TscInstant::from_raw((i64::MAX - 4).wrapping_add(10));
    assert!(y.raw() < x.raw());
    assert!(x < y);
    assert!(y > x);
}

#[test]
fn wraparound_ordering_antisymmetric() {
    let pairs = [
        (0i64, 1i64),
        (i64::MAX, i64::MIN),
        (-5, 5),
        (i64::MAX - 4, (i64::MAX - 4).wrapping_add(10)),
    ];
    for (a, b) in pairs {
        let x = TscInstant::from_raw(a);
        let y = TscInstant::from_raw(b);
        assert_eq!(x < y, y > x);
        assert_eq!(x > y, y < x);
    }
}

#[test]
fn ordering_faithful_up_to_half_range() {
    // The half-range precondition is sharp: one tick below half the range
    // the comparator still agrees with true order, and at exactly half the
    // range it no longer can (both directions then compare as earlier).
    let x = TscInstant::from_raw(0);
    let just_below = TscInstant::from_raw(i64::MAX); // separation 2^63 - 1
    assert!(x < just_below);
    assert!(just_below > x);
    let at_half = TscInstant::from_raw(i64::MIN); // separation exactly 2^63
    assert!(at_half < x);
    assert!(x < at_half);
}

#[test]
fn window_acceptance_edges() {
    let min = MIN_WINDOW_NS as i64;
    assert!(assess_window(100, min).is_none()); // must exceed the minimum
    assert!(assess_window(100, min + 1).is_some());
    assert!(assess_window(0, min + 1).is_none()); // cycle delta must be positive
    assert!(assess_window(-5, min + 1).is_none());
    assert!(assess_window(100, MAX_WINDOW_NS as i64 + 1).is_none());
    assert!(assess_window(MAX_WINDOW_CYCLES as i64 + 1, min + 1).is_none());
    let c = assess_window(300, min + 1).unwrap();
    assert_eq!(c, CycleRate { cycles: 300, nanos: MIN_WINDOW_NS + 1 });
}

#[test]
fn convergence_threshold() {
    // One part in a million moves: converged; one percent: not.
    let p = CycleRate { cycles: 100000, nanos: 100 };
    assert!(rate_converged(&p, &CycleRate { cycles: 100001, nanos: 100 }));
    assert!(!rate_converged(&p, &CycleRate { cycles: 101000, nanos: 100 }));
    // The first candidate after a bare start never converges against
    // nothing.
    let sample = CycleRate { cycles: 30_000_000, nanos: 10_000_001 };
    assert_eq!(calibration_step(&None, sample), CalibrationStep::Rebase(sample));
    assert_eq!(
        calibration_step(&Some(p), CycleRate { cycles: 100001, nanos: 100 }),
        CalibrationStep::Accepted(CycleRate { cycles: 100001, nanos: 100 })
    );
    assert_eq!(
        calibration_step(&Some(p), CycleRate { cycles: 101000, nanos: 100 }),
        CalibrationStep::Rebase(CycleRate { cycles: 101000, nanos: 100 })
    );
}

#[test]
fn cpu_feature_probe() {
    assert!(Tsc::try_new_assume_stable(0x10).is_ok());
    assert!(Tsc::try_new_assume_stable(0xffff_ffff).is_ok());
    assert!(Tsc::try_new_assume_stable(0).is_err());
    assert!(Tsc::try_new_assume_stable(0xffff_ffef).is_err());
}

#[test]
fn os_clocksource_probe() {
    assert!(Tsc::try_new_linux_sys(b"tsc hpet acpi_pm").is_ok());
    assert!(Tsc::try_new_linux_sys(b"hpet tsc").is_ok());
    assert!(Tsc::try_new_linux_sys(b"tsc").is_ok());
    assert!(Tsc::try_new_linux_sys(b"hpet acpi_pm").is_err());
    assert!(Tsc::try_new_linux_sys(b"ts").is_err());
    assert!(Tsc::try_new_linux_sys(b"").is_err());
    assert!(Tsc::try_new_linux_sys(b"tzsc tsx").is_err());
}

#[test]
fn probe_failure_message() {
    let e = Tsc::try_new_assume_stable(0).unwrap_err();
    assert_eq!(e.message(), "No stable TSC available");
}

#[test]
fn conversion_rounds_to_nearest() {
    // One third of a nanosecond per cycle.
    let c = CalibratedTsc::from_rate(attested_tsc(), CycleRate { cycles: 3, nanos: 1 });
    assert!(c.is_well_formed());
    let at = |raw: i64| TscInstant::from_raw(raw);
    assert_eq!(c.between_u64_ns(at(10), at(1)), 3);
    assert_eq!(c.sub_i64_ns(at(11), at(1)), 3); // 10/3 rounds down
    assert_eq!(c.sub_i64_ns(at(12), at(1)), 4); // 11/3 rounds up
    assert_eq!(c.sub_i64_ns(at(1), at(11)), -3); // -10/3 rounds toward zero
    // 5 ns at 3 cycles per ns is exactly 15 cycles.
    assert_eq!(c.add_i64_ns(at(100), 5).raw(), 115);
    assert_eq!(c.add_i64_ns(at(100), -5).raw(), 85);
    assert_eq!(c.add_u64_ns(at(100), 5).raw(), 115);
    assert_eq!(c.sub_u64_ns(at(100), 5).raw(), 85);
}

#[test]
fn conversion_rounds_halves_away_from_zero() {
    // Half a nanosecond per cycle: 3 cycles are 1.5 ns.
    let c = CalibratedTsc::from_rate(attested_tsc(), CycleRate { cycles: 2, nanos: 1 });
    let at = |raw: i64| TscInstant::from_raw(raw);
    assert_eq!(c.sub_i64_ns(at(3), at(0)), 2);
    assert_eq!(c.sub_i64_ns(at(0), at(3)), -2);
    // 2.5 ns at 2 cycles per ns is 5 cycles exactly; 1.25 ns would be
    // 2.5 cycles, rounded to 3.
    assert_eq!(c.add_i64_ns(at(0), 1).raw(), 2);
    assert_eq!(c.between_u64_ns(at(5), at(0)), 3); // 2.5 ns rounds up
}

#[test]
fn conversion_saturates() {
    let c = CalibratedTsc::from_rate(
        attested_tsc(),
        CycleRate { cycles: 1, nanos: MAX_WINDOW_NS },
    );
    // A huge cycle span at ~2^40 ns per cycle exceeds u64::MAX nanoseconds.
    let r = c.between_u64_ns(TscInstant::from_raw(i64::MAX - 1), TscInstant::from_raw(0));
    assert_eq!(r, u64::MAX);
    let d = c.sub_i64_ns(TscInstant::from_raw(i64::MAX - 1), TscInstant::from_raw(0));
    assert_eq!(d, i64::MAX);
    let d = c.sub_i64_ns(TscInstant::from_raw(0), TscInstant::from_raw(i64::MAX - 1));
    assert_eq!(d, i64::MIN);
}

#[test]
fn cycle_offsets_wrap() {
    let c = CalibratedTsc::from_rate(attested_tsc(), CycleRate { cycles: 1, nanos: 1 });
    let near_max = TscInstant::from_raw(i64::MAX - 2);
    assert_eq!(c.add_i64_ns(near_max, 10).raw(), (i64::MAX - 2).wrapping_add(10));
    assert_eq!(c.add_u64_ns(near_max, 10).raw(), (i64::MAX - 2).wrapping_add(10));
}

#[test]
fn calibrated_tsc_releases_raw_counter() {
    let t = attested_tsc();
    let c = CalibratedTsc::from_rate(t, CycleRate { cycles: 7, nanos: 2 });
    assert_eq!(c.cycles(), 7);
    assert_eq!(c.nanos(), 2);
    assert!(Tsc::from(c) == t);
    assert!(c.tsc() == t);
}

/// A simulated environment: one shared fake timeline that advances a fixed
/// step on every clock read. The wall clock reports nanoseconds; the cycle
/// counter reports `rate` cycles per nanosecond plus bounded jitter.
struct Sim {
    time_ns: Cell<i64>,
    step_ns: i64,
    rate: i64,
    jitter: i64,
}

#[derive(Clone, Copy)]
struct SimWall<'a>(&'a Sim);

#[derive(Clone, Copy)]
struct SimCounter<'a>(&'a Sim);

impl Sim {
    fn advance(&self) -> i64 {
        let t = self.time_ns.get() + self.step_ns;
        self.time_ns.set(t);
        t
    }
}

impl<'a> Clock for SimWall<'a> {
    type Instant = i64;

    fn now(self) -> i64 {
        self.0.advance()
    }
}

impl<'a> CalibratedClock for SimWall<'a> {
    fn sub_i64_ns(self, later: i64, earlier: i64) -> i64 {
        later.wrapping_sub(earlier)
    }

    fn add_i64_ns(self, base: i64, offset: i64) -> i64 {
        base.wrapping_add(offset)
    }
}

impl<'a> Clock for SimCounter<'a> {
    type Instant = TscInstant;

    fn now(self) -> TscInstant {
        let t = self.0.advance();
        TscInstant::from_raw(t * self.0.rate + (t % (self.0.jitter + 1)))
    }
}

#[test]
fn calibration_converges_on_synthetic_source() {
    // True rate: 3 cycles per nanosecond, so ns_per_cycle = 1/3, with
    // bounded jitter on the counter reads.
    let sim = Sim { time_ns: Cell::new(0), step_ns: 1_000_000, rate: 3, jitter: 17 };
    let tsc = attested_tsc();
    let c = tsc
        .calibrate(SimWall(&sim), SimCounter(&sim), 100, 100)
        .expect("synthetic source converges");
    assert!(c.is_well_formed());
    assert!(Tsc::from(c) == tsc);
    assert!(c.nanos() > MIN_WINDOW_NS);
    assert!(c.cycles() <= MAX_WINDOW_CYCLES);
    let ns_per_cycle = c.nanos() as f64 / c.cycles() as f64;
    let truth = 1.0 / 3.0;
    assert!((ns_per_cycle - truth).abs() / truth < 1e-4);
    // Convergence was reached within the iteration budget, well before the
    // simulated timeline ran long.
    assert!(sim.time_ns.get() < 1_000_000_000);
}

#[test]
fn calibration_reports_non_convergence() {
    let sim = Sim { time_ns: Cell::new(0), step_ns: 1_000_000, rate: 3, jitter: 0 };
    let tsc = attested_tsc();
    let r = tsc.calibrate(SimWall(&sim), SimCounter(&sim), 0, 100);
    assert!(r.is_err());
    assert_eq!(
        r.unwrap_err().message(),
        "TSC calibration did not converge within its budget"
    );
    // A window can never complete when the probe budget is too small for
    // the minimum window span.
    let sim = Sim { time_ns: Cell::new(0), step_ns: 1, rate: 3, jitter: 0 };
    let r = tsc.calibrate(SimWall(&sim), SimCounter(&sim), 5, 10);
    assert!(r.is_err());
}
