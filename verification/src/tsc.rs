//! A hardware cycle counter as a clock: wraparound-safe instants, stability
//! probe decisions, calibration of the counter's tick rate against a
//! reference clock, and exact round-to-nearest cycle/nanosecond conversion.
//!
//! The cycle register itself, the CPU feature query and the kernel
//! clocksource file are read outside this crate; everything here works on
//! the plain values those reads produce, so all of the counter's logic is
//! verified.

use core::cmp::Ordering;

use vstd::prelude::*;

use crate::{iabs, CalibratedClock, Clock};

verus! {

/// Half the cycle counter's range: the bound below which a true temporal
/// separation keeps wraparound ordering faithful.
pub const HALF_COUNTER_RANGE: u64 = 0x8000_0000_0000_0000;

/// Minimum elapsed wall time a calibration window must span, in nanoseconds;
/// generous enough to dominate sampling jitter.
pub const MIN_WINDOW_NS: u64 = 10_000_000;

/// Largest elapsed wall time a calibration window may report, in
/// nanoseconds. Keeps the scale's exact rational arithmetic inside 128 bits.
pub const MAX_WINDOW_NS: u64 = 0x100_0000_0000;

/// Largest elapsed cycle count a calibration window may report. Keeps the
/// scale's exact rational arithmetic inside 128 bits.
pub const MAX_WINDOW_CYCLES: u64 = 0x4_0000_0000_0000;

/// An instant read from the cycle counter: the raw register value.
///
/// Instants are cyclic: the register wraps at its bit width. Ordering is
/// therefore not raw numeric comparison; it is the sign of a fixed-width
/// wrapping subtraction, which agrees with true temporal order for any two
/// instants whose true separation is less than half the counter's range
/// ([`lemma_wraparound_ordering`]).
#[derive(Clone, Copy, PartialEq, Eq, Structural, Hash, Debug)]
pub struct TscInstant(i64);

/// The wraparound-safe order of two raw counter values: the sign of their
/// fixed-width wrapping subtraction.
pub open spec fn wrap_order(x: i64, y: i64) -> Ordering {
    let d = vstd::wrapping::i64_specs::wrapping_sub(x, y);
    if d < 0 {
        Ordering::Less
    } else if d == 0 {
        Ordering::Equal
    } else {
        Ordering::Greater
    }
}

impl TscInstant {
    /// The raw register value behind this instant.
    pub closed spec fn spec_raw(self) -> i64 {
        self.0
    }

    /// Builds an instant from a raw cycle-register value.
    pub fn from_raw(raw: i64) -> (r: TscInstant)
        ensures
            r.spec_raw() == raw,
    {
        TscInstant(raw)
    }

    /// The raw register value behind this instant.
    #[verifier::when_used_as_spec(spec_raw)]
    pub fn raw(self) -> (r: i64)
        ensures
            r == self.spec_raw(),
    {
        self.0
    }
}

impl PartialOrd for TscInstant {
    fn partial_cmp(&self, other: &Self) -> (r: Option<Ordering>) {
        let d = self.0.wrapping_sub(other.0);
        if d < 0 {
            Some(Ordering::Less)
        } else if d == 0 {
            Some(Ordering::Equal)
        } else {
            Some(Ordering::Greater)
        }
    }
}

impl vstd::std_specs::cmp::PartialOrdSpecImpl for TscInstant {
    open spec fn obeys_partial_cmp_spec() -> bool {
        true
    }

    open spec fn partial_cmp_spec(&self, other: &Self) -> Option<Ordering> {
        Some(wrap_order(self.spec_raw(), other.spec_raw()))
    }
}

/// Wraparound ordering is faithful below half the counter's range: if
/// `later` is the counter value `sep` ticks after `earlier`, with `sep`
/// below half the range, the comparator agrees with true temporal order in
/// both directions (and so is antisymmetric on such pairs).
pub proof fn lemma_wraparound_ordering(earlier: TscInstant, sep: u64, later: TscInstant)
    requires
        sep < HALF_COUNTER_RANGE,
        later.spec_raw() == vstd::wrapping::i64_specs::wrapping_add_unsigned(
            earlier.spec_raw(),
            sep,
        ),
    ensures
        wrap_order(later.spec_raw(), earlier.spec_raw()) == (if sep == 0 {
            Ordering::Equal
        } else {
            Ordering::Greater
        }),
        wrap_order(earlier.spec_raw(), later.spec_raw()) == (if sep == 0 {
            Ordering::Equal
        } else {
            Ordering::Less
        }),
{
}

/// The comparator is antisymmetric wherever the wrapping difference is not
/// exactly half the range, and reports equality exactly on equal values.
pub proof fn lemma_ordering_antisymmetric(x: i64, y: i64)
    requires
        vstd::wrapping::i64_specs::wrapping_sub(x, y) != i64::MIN,
    ensures
        wrap_order(x, y) == Ordering::Less <==> wrap_order(y, x) == Ordering::Greater,
        wrap_order(x, y) == Ordering::Equal <==> x == y,
{
}

/// The raw cycle-counter capability, attested by one of the stability
/// probes. Reading the register happens outside this crate; a probe hands
/// the raw CPU or kernel answer to the constructors here, which decide
/// whether the counter may be trusted.
#[derive(Clone, Copy, PartialEq, Eq, Hash, Debug)]
pub struct Tsc(());

/// A stability probe could not attest the cycle counter; the caller must
/// use a different clock or probe.
#[derive(Clone, Copy, PartialEq, Eq, Structural, Debug)]
pub struct TscUnavailable;

impl TscUnavailable {
    /// A human-readable description of the condition.
    pub fn message(&self) -> (r: &'static str)
        ensures
            r@ == "No stable TSC available"@,
    {
        "No stable TSC available"
    }
}

/// Whether a kernel clocksource listing names the cycle counter: the byte
/// string contains "tsc".
pub open spec fn names_tsc(s: Seq<u8>) -> bool {
    exists|i: int|
        0 <= i && i + 3 <= s.len() && #[trigger] s[i] == 116u8 && s[i + 1] == 115u8 && s[i + 2]
            == 99u8
}

impl Tsc {
    /// CPU-feature probe decision: accepts the counter exactly when bit 4 of
    /// the processor identification flags (CPUID leaf 1, EDX) asserts a
    /// timestamp counter. Works from the raw flag word alone, so it needs no
    /// operating system.
    pub fn try_new_assume_stable(cpuid_edx: u32) -> (r: Result<Tsc, TscUnavailable>)
        ensures
            r is Ok <==> cpuid_edx & 0x10 != 0,
    {
        if cpuid_edx & 0x10 != 0 {
            Ok(Tsc(()))
        } else {
            Err(TscUnavailable)
        }
    }

    /// OS-clocksource probe decision: accepts the counter exactly when the
    /// kernel's reported time-source listing names the cycle counter. The
    /// listing is the raw byte content of the kernel's clocksource file.
    pub fn try_new_linux_sys(available_clocksource: &[u8]) -> (r: Result<Tsc, TscUnavailable>)
        ensures
            r is Ok <==> names_tsc(available_clocksource@),
    {
        let n = available_clocksource.len();
        if n < 3 {
            return Err(TscUnavailable);
        }
        let mut i: usize = 0;
        while i <= n - 3
            invariant
                3 <= n == available_clocksource@.len(),
                i <= n - 2,
                forall|j: int|
                    0 <= j < i ==> !(#[trigger] available_clocksource@[j] == 116u8
                        && available_clocksource@[j + 1] == 115u8 && available_clocksource@[j + 2]
                        == 99u8),
            decreases n - i,
        {
            if available_clocksource[i] == 116 && available_clocksource[i + 1] == 115
                && available_clocksource[i + 2] == 99 {
                return Ok(Tsc(()));
            }
            i = i + 1;
        }
        Err(TscUnavailable)
    }
}

/// A measured rate candidate: `cycles` counter ticks observed over `nanos`
/// elapsed wall nanoseconds. The counter's rate in cycles per nanosecond is
/// the exact ratio `cycles / nanos`.
#[derive(Clone, Copy, PartialEq, Eq, Structural, Debug)]
pub struct CycleRate {
    pub cycles: u64,
    pub nanos: u64,
}

impl CycleRate {
    /// Both components are positive and small enough that the scale's exact
    /// rational arithmetic stays inside 128 bits.
    pub open spec fn wf(self) -> bool {
        &&& 0 < self.cycles <= MAX_WINDOW_CYCLES
        &&& 0 < self.nanos <= MAX_WINDOW_NS
    }
}

/// Whether one re-sampling of the two sources completes a calibration
/// window: the elapsed wall time exceeds the minimum window and the elapsed
/// cycle delta is positive, with both inside the caps that keep the scale's
/// exact arithmetic inside 128 bits.
pub open spec fn window_accepted(elapsed_cycles: i64, elapsed_ns: i64) -> bool {
    &&& 0 < elapsed_cycles <= (MAX_WINDOW_CYCLES as i64)
    &&& (MIN_WINDOW_NS as i64) < elapsed_ns <= (MAX_WINDOW_NS as i64)
}

/// Turns a completed re-sampling into a rate candidate, or reports that the
/// window is not yet (or not usably) complete.
pub fn assess_window(elapsed_cycles: i64, elapsed_ns: i64) -> (r: Option<CycleRate>)
    ensures
        r is Some <==> window_accepted(elapsed_cycles, elapsed_ns),
        r matches Some(c) ==> c == (CycleRate {
            cycles: elapsed_cycles as u64,
            nanos: elapsed_ns as u64,
        }) && c.wf() && c.nanos > MIN_WINDOW_NS,
{
    if 0 < elapsed_cycles && elapsed_cycles <= MAX_WINDOW_CYCLES as i64 && (MIN_WINDOW_NS as i64)
        < elapsed_ns && elapsed_ns <= MAX_WINDOW_NS as i64 {
        Some(CycleRate { cycles: elapsed_cycles as u64, nanos: elapsed_ns as u64 })
    } else {
        None
    }
}

/// Whether the relative change from rate `prev` to rate `next` is below the
/// convergence threshold of one part in one hundred thousand:
/// `|next - prev| / next < 1e-5`, cross-multiplied into exact integers.
pub open spec fn rates_converged(prev: CycleRate, next: CycleRate) -> bool {
    100000 * iabs((next.cycles as int) * (prev.nanos as int) - (prev.cycles as int) * (next.nanos
        as int)) < (next.cycles as int) * (prev.nanos as int)
}

/// Calibration convergence under bounded jitter: if two successive rate
/// candidates each lie within one part in 400000 of one true rate
/// `tc / tn`, the convergence test accepts the second. An accepted candidate
/// within that bound is, in particular, well within 0.01 percent of the
/// true rate.
pub proof fn lemma_bounded_jitter_converges(p: CycleRate, c: CycleRate, tc: int, tn: int)
    requires
        p.wf(),
        c.wf(),
        tc > 0,
        tn > 0,
        400000 * iabs((p.cycles as int) * tn - tc * (p.nanos as int)) <= tc * (p.nanos as int),
        400000 * iabs((c.cycles as int) * tn - tc * (c.nanos as int)) <= tc * (c.nanos as int),
    ensures
        rates_converged(p, c),
{
    let pc = p.cycles as int;
    let pn = p.nanos as int;
    let cc = c.cycles as int;
    let cn = c.nanos as int;
    let ea = cc * tn - tc * cn;
    let eb = pc * tn - tc * pn;
    assert(tn * (cc * pn - pc * cn) == ea * pn - eb * cn) by (nonlinear_arith)
        requires
            ea == cc * tn - tc * cn,
            eb == pc * tn - tc * pn,
    ;
    assert(400000 * iabs(ea) <= tc * cn && 400000 * iabs(eb) <= tc * pn);
    assert(400000 * tn * iabs(cc * pn - pc * cn) <= 2 * (tc * cn) * pn) by (nonlinear_arith)
        requires
            tn > 0,
            pn > 0,
            cn > 0,
            tn * (cc * pn - pc * cn) == ea * pn - eb * cn,
            400000 * iabs(ea) <= tc * cn,
            400000 * iabs(eb) <= tc * pn,
            iabs(ea) >= 0 && iabs(eb) >= 0,
            iabs(ea) >= ea && iabs(ea) >= -ea,
            iabs(eb) >= eb && iabs(eb) >= -eb,
            iabs(cc * pn - pc * cn) >= cc * pn - pc * cn,
            iabs(cc * pn - pc * cn) >= -(cc * pn - pc * cn),
            iabs(cc * pn - pc * cn) >= 0,
    ;
    assert(400000 * (cc * tn) >= 399999 * (tc * cn)) by (nonlinear_arith)
        requires
            400000 * iabs(ea) <= tc * cn,
            ea == cc * tn - tc * cn,
            iabs(ea) >= -ea,
    ;
    assert(100000 * iabs(cc * pn - pc * cn) * tn < (cc * pn) * tn) by (nonlinear_arith)
        requires
            tn > 0,
            pn > 0,
            cn > 0,
            cc > 0,
            tc > 0,
            400000 * tn * iabs(cc * pn - pc * cn) <= 2 * (tc * cn) * pn,
            400000 * (cc * tn) >= 399999 * (tc * cn),
            iabs(cc * pn - pc * cn) >= 0,
    ;
    assert(100000 * iabs(cc * pn - pc * cn) < cc * pn) by (nonlinear_arith)
        requires
            tn > 0,
            100000 * iabs(cc * pn - pc * cn) * tn < (cc * pn) * tn,
    ;
}

/// Exact convergence test between two rate candidates.
pub fn rate_converged(prev: &CycleRate, next: &CycleRate) -> (r: bool)
    requires
        prev.wf(),
        next.wf(),
    ensures
        r == rates_converged(*prev, *next),
{
    proof {
        assert((next.cycles as int) * (prev.nanos as int) <= (MAX_WINDOW_CYCLES as int) * (
        MAX_WINDOW_NS as int) && (prev.cycles as int) * (next.nanos as int) <= (MAX_WINDOW_CYCLES
            as int) * (MAX_WINDOW_NS as int)) by (nonlinear_arith)
            requires
                0 < next.cycles <= MAX_WINDOW_CYCLES,
                0 < prev.nanos <= MAX_WINDOW_NS,
                0 < prev.cycles <= MAX_WINDOW_CYCLES,
                0 < next.nanos <= MAX_WINDOW_NS,
        ;
    }
    let a: u128 = (next.cycles as u128) * (prev.nanos as u128);
    let b: u128 = (prev.cycles as u128) * (next.nanos as u128);
    let delta: u128 = if a >= b {
        a - b
    } else {
        b - a
    };
    100000 * delta < a
}

/// `x * num / den`, rounded to the nearest integer with halves away from
/// zero; the policy every cycle/nanosecond conversion follows. `den` must be
/// positive.
pub open spec fn round_scaled(x: int, num: int, den: int) -> int {
    if x >= 0 {
        (2 * x * num + den) / (2 * den)
    } else {
        -((2 * (-x) * num + den) / (2 * den))
    }
}

/// `x` saturated into the `i64` range.
pub open spec fn clamp_i64(x: int) -> int {
    if x > i64::MAX {
        i64::MAX as int
    } else if x < i64::MIN {
        i64::MIN as int
    } else {
        x
    }
}

/// A nonnegative `x` saturated into the `u64` range.
pub open spec fn clamp_u64(x: int) -> int {
    if x > u64::MAX {
        u64::MAX as int
    } else {
        x
    }
}

/// `m * num / den` rounded to nearest (halves up) on nonnegative operands.
fn scale_mag(m: u128, num: u64, den: u64) -> (q: u128)
    requires
        m <= 0x1_0000_0000_0000_0000,
        num <= MAX_WINDOW_CYCLES,
        0 < den,
    ensures
        q as int == (2 * (m as int) * (num as int) + den as int) / (2 * (den as int)),
{
    proof {
        assert(2 * (m as int) * (num as int) <= 0x80000_0000_0000_0000_0000_0000_0000) by (nonlinear_arith)
            requires
                m <= 0x1_0000_0000_0000_0000,
                num <= MAX_WINDOW_CYCLES,
        ;
    }
    (2 * m * (num as u128) + (den as u128)) / (2 * (den as u128))
}

/// Position of a raw counter value on the calibrated timeline, in
/// nanoseconds: the raw cycle count scaled by `nanos / cycles`, rounded to
/// nearest.
pub open spec fn tsc_ns_of(c: CalibratedTsc, raw: i64) -> int {
    round_scaled(raw as int, c.spec_nanos() as int, c.spec_cycles() as int)
}

/// Round-to-nearest scaling lands within half a rounding unit of the exact
/// ratio: twice the scaled error is at most the denominator.
proof fn lemma_round_err(x: int, num: int, den: int)
    requires
        den > 0,
        num >= 0,
    ensures
        iabs(2 * den * round_scaled(x, num, den) - 2 * x * num) <= den,
{
    if x >= 0 {
        let t = 2 * x * num + den;
        let q = t / (2 * den);
        vstd::arithmetic::div_mod::lemma_fundamental_div_mod(t, 2 * den);
        vstd::arithmetic::div_mod::lemma_mod_bound(t, 2 * den);
        assert(2 * den * q == t - t % (2 * den));
        assert(round_scaled(x, num, den) == q);
    } else {
        let t = 2 * (-x) * num + den;
        let q = t / (2 * den);
        vstd::arithmetic::div_mod::lemma_fundamental_div_mod(t, 2 * den);
        vstd::arithmetic::div_mod::lemma_mod_bound(t, 2 * den);
        assert(2 * den * q == t - t % (2 * den));
        assert(round_scaled(x, num, den) == -q);
        assert(2 * den * (-q) == -(2 * den * q)) by (nonlinear_arith);
        assert(2 * (-x) * num == -(2 * x * num)) by (nonlinear_arith);
    }
}

/// Scaling a difference agrees with the difference of the scalings up to
/// one rounding unit.
pub proof fn lemma_scaled_difference_close(a: int, b: int, num: int, den: int)
    requires
        den > 0,
        num >= 0,
    ensures
        iabs(
            round_scaled(a - b, num, den) - (round_scaled(a, num, den) - round_scaled(
                b,
                num,
                den,
            )),
        ) <= 1,
{
    lemma_round_err(a, num, den);
    lemma_round_err(b, num, den);
    lemma_round_err(a - b, num, den);
    let ra = round_scaled(a, num, den);
    let rb = round_scaled(b, num, den);
    let rd = round_scaled(a - b, num, den);
    assert(-1 <= rd - (ra - rb) <= 1) by (nonlinear_arith)
        requires
            den > 0,
            -den <= 2 * den * ra - 2 * a * num <= den,
            -den <= 2 * den * rb - 2 * b * num <= den,
            -den <= 2 * den * rd - 2 * (a - b) * num <= den,
    ;
}

/// The signed-nanosecond subtraction of [`CalibratedTsc`] stays within one
/// nanosecond of the ideal model: whenever the raw cycle difference does not
/// wrap and its scaling stays inside `i64`, the value that
/// [`CalibratedTsc::sub_i64_ns`] returns is within 1 of the difference of
/// the two instants' timeline positions ([`tsc_ns_of`]).
pub proof fn lemma_sub_i64_ns_close_to_model(
    c: CalibratedTsc,
    later: TscInstant,
    earlier: TscInstant,
)
    requires
        c.wf(),
        i64::MIN <= later.spec_raw() - earlier.spec_raw() <= i64::MAX,
        i64::MIN <= round_scaled(
            later.spec_raw() - earlier.spec_raw(),
            c.spec_nanos() as int,
            c.spec_cycles() as int,
        ) <= i64::MAX,
    ensures
        iabs(
            clamp_i64(
                round_scaled(
                    vstd::wrapping::i64_specs::wrapping_sub(
                        later.spec_raw(),
                        earlier.spec_raw(),
                    ) as int,
                    c.spec_nanos() as int,
                    c.spec_cycles() as int,
                ),
            ) - (tsc_ns_of(c, later.spec_raw()) - tsc_ns_of(c, earlier.spec_raw())),
        ) <= 1,
{
    lemma_scaled_difference_close(
        later.spec_raw() as int,
        earlier.spec_raw() as int,
        c.spec_nanos() as int,
        c.spec_cycles() as int,
    );
}

/// The nanosecond offsetting of [`CalibratedTsc`] stays within its rounding
/// tolerance of the ideal model: whenever the exact cycle offset needs no
/// saturation and the raw addition does not wrap, the instant that
/// [`CalibratedTsc::add_i64_ns`] lands on sits, on the calibrated timeline,
/// within `(3 * cycles + nanos) / (2 * cycles)` nanoseconds of the exact
/// target `tsc_ns_of(base) + offset` — one and a half rounding units plus
/// half the nanoseconds-per-cycle scale, stated with both sides multiplied
/// by twice the cycle count to stay in integers.
pub proof fn lemma_add_i64_ns_close_to_model(c: CalibratedTsc, base: TscInstant, offset: i64)
    requires
        c.wf(),
        i64::MIN <= round_scaled(offset as int, c.spec_cycles() as int, c.spec_nanos() as int)
            <= i64::MAX,
        i64::MIN <= base.spec_raw() + round_scaled(
            offset as int,
            c.spec_cycles() as int,
            c.spec_nanos() as int,
        ) <= i64::MAX,
    ensures
        ({
            let cy = c.spec_cycles() as int;
            let n = c.spec_nanos() as int;
            let k = round_scaled(offset as int, cy, n);
            let landed = vstd::wrapping::i64_specs::wrapping_add(
                base.spec_raw(),
                clamp_i64(k) as i64,
            );
            2 * cy * iabs(tsc_ns_of(c, landed) - (tsc_ns_of(c, base.spec_raw()) + offset)) <= 3
                * cy + n
        }),
{
    let cy = c.spec_cycles() as int;
    let n = c.spec_nanos() as int;
    let b = base.spec_raw() as int;
    let k = round_scaled(offset as int, cy, n);
    lemma_scaled_difference_close(b + k, b, n, cy);
    lemma_round_err(k, n, cy);
    lemma_round_err(offset as int, cy, n);
    let rl = round_scaled(b + k, n, cy);
    let rb = round_scaled(b, n, cy);
    let rk = round_scaled(k, n, cy);
    assert(iabs(rl - rb - rk) <= 1);
    assert(iabs(2 * cy * rk - 2 * k * n) <= cy);
    assert(iabs(2 * n * k - 2 * (offset as int) * cy) <= n);
    assert(2 * cy * iabs(rl - (rb + offset as int)) <= 3 * cy + n) by (nonlinear_arith)
        requires
            cy > 0,
            n > 0,
            iabs(rl - rb - rk) <= 1,
            iabs(rl - rb - rk) >= rl - rb - rk,
            iabs(rl - rb - rk) >= -(rl - rb - rk),
            iabs(2 * cy * rk - 2 * k * n) <= cy,
            iabs(2 * cy * rk - 2 * k * n) >= 2 * cy * rk - 2 * k * n,
            iabs(2 * cy * rk - 2 * k * n) >= -(2 * cy * rk - 2 * k * n),
            iabs(2 * n * k - 2 * (offset as int) * cy) <= n,
            iabs(2 * n * k - 2 * (offset as int) * cy) >= 2 * n * k - 2 * (offset as int) * cy,
            iabs(2 * n * k - 2 * (offset as int) * cy) >= -(2 * n * k - 2 * (offset as int) * cy),
            iabs(rl - (rb + offset as int)) >= rl - (rb + offset as int),
            iabs(rl - (rb + offset as int)) >= -(rl - (rb + offset as int)),
            iabs(rl - (rb + offset as int)) >= 0,
    ;
    assert(tsc_ns_of(c, (b + k) as i64) == rl);
}

/// The outcome of comparing a completed window against the previous
/// candidate: either the candidate is accepted as the calibration result, or
/// it becomes the comparison baseline for the next round.
#[derive(Clone, Copy, PartialEq, Eq, Structural, Debug)]
pub enum CalibrationStep {
    Accepted(CycleRate),
    Rebase(CycleRate),
}

/// One decision of the calibration loop: accept the freshly measured rate if
/// its relative distance from the previous candidate is below the
/// convergence threshold, otherwise re-baseline on it. With no previous
/// candidate the sample always becomes the baseline.
pub fn calibration_step(prev: &Option<CycleRate>, sample: CycleRate) -> (r: CalibrationStep)
    requires
        sample.wf(),
        prev matches Some(p) ==> p.wf(),
    ensures
        r == (match *prev {
            Some(p) => if rates_converged(p, sample) {
                CalibrationStep::Accepted(sample)
            } else {
                CalibrationStep::Rebase(sample)
            },
            None => CalibrationStep::Rebase(sample),
        }),
{
    match prev {
        Some(p) => {
            if rate_converged(p, &sample) {
                CalibrationStep::Accepted(sample)
            } else {
                CalibrationStep::Rebase(sample)
            }
        },
        None => CalibrationStep::Rebase(sample),
    }
}

/// The cycle counter together with its discovered scale factor: exactly
/// `nanos / cycles` nanoseconds pass per counter tick. The scale is kept as
/// the exact ratio measured by the accepted calibration window, so every
/// conversion is reproducible integer arithmetic; it is positive as long as
/// the value is well formed, which calibration guarantees.
#[derive(Clone, Copy, Debug)]
pub struct CalibratedTsc {
    tsc: Tsc,
    cycles: u64,
    nanos: u64,
}

impl CalibratedTsc {
    /// The elapsed cycles of the accepted calibration window.
    pub closed spec fn spec_cycles(&self) -> u64 {
        self.cycles
    }

    /// The elapsed wall nanoseconds of the accepted calibration window.
    pub closed spec fn spec_nanos(&self) -> u64 {
        self.nanos
    }

    /// The underlying raw counter capability.
    pub closed spec fn spec_tsc(&self) -> Tsc {
        self.tsc
    }

    /// Both scale components are positive and inside the caps that keep the
    /// conversion arithmetic inside 128 bits; in particular the scale
    /// `nanos / cycles` is positive.
    pub open spec fn wf(self) -> bool {
        &&& 0 < self.spec_cycles() <= MAX_WINDOW_CYCLES
        &&& 0 < self.spec_nanos() <= MAX_WINDOW_NS
    }

    #[verifier::when_used_as_spec(spec_cycles)]
    pub fn cycles(&self) -> (r: u64)
        ensures
            r == self.spec_cycles(),
    {
        self.cycles
    }

    #[verifier::when_used_as_spec(spec_nanos)]
    pub fn nanos(&self) -> (r: u64)
        ensures
            r == self.spec_nanos(),
    {
        self.nanos
    }

    #[verifier::when_used_as_spec(spec_tsc)]
    pub fn tsc(&self) -> (r: Tsc)
        ensures
            r == self.spec_tsc(),
    {
        self.tsc
    }

    /// Runtime check of [`Self::wf`], for callers outside verified code.
    pub fn is_well_formed(&self) -> (r: bool)
        ensures
            r == self.wf(),
    {
        0 < self.cycles && self.cycles <= MAX_WINDOW_CYCLES && 0 < self.nanos && self.nanos
            <= MAX_WINDOW_NS
    }

    /// Pairs an attested counter with an accepted rate.
    pub fn from_rate(tsc: Tsc, rate: CycleRate) -> (r: CalibratedTsc)
        requires
            rate.wf(),
        ensures
            r.wf(),
            r.spec_tsc() == tsc,
            r.spec_cycles() == rate.cycles,
            r.spec_nanos() == rate.nanos,
    {
        CalibratedTsc { tsc, cycles: rate.cycles, nanos: rate.nanos }
    }

    /// Signed nanoseconds from `earlier` to `later`: the wrapping cycle
    /// difference scaled by `nanos / cycles`, rounded to nearest and
    /// saturated into `i64`.
    pub fn sub_i64_ns(self, later: TscInstant, earlier: TscInstant) -> (d: i64)
        requires
            self.wf(),
        ensures
            d as int == clamp_i64(
                round_scaled(
                    vstd::wrapping::i64_specs::wrapping_sub(
                        later.spec_raw(),
                        earlier.spec_raw(),
                    ) as int,
                    self.spec_nanos() as int,
                    self.spec_cycles() as int,
                ),
            ),
    {
        let dc: i64 = later.raw().wrapping_sub(earlier.raw());
        let neg = dc < 0;
        let m: u128 = if neg {
            (-(dc as i128)) as u128
        } else {
            dc as u128
        };
        let q = scale_mag(m, self.nanos, self.cycles);
        if neg {
            if q >= 0x8000_0000_0000_0000u128 {
                i64::MIN
            } else {
                -(q as i64)
            }
        } else {
            if q > i64::MAX as u128 {
                i64::MAX
            } else {
                q as i64
            }
        }
    }

    /// Unsigned nanoseconds from `earlier` to the no-earlier instant
    /// `later`: the wrapping cycle difference scaled by `nanos / cycles`,
    /// rounded to nearest and saturated into `u64`.
    pub fn between_u64_ns(self, later: TscInstant, earlier: TscInstant) -> (r: u64)
        requires
            self.wf(),
            vstd::wrapping::i64_specs::wrapping_sub(later.spec_raw(), earlier.spec_raw()) >= 0,
        ensures
            r as int == clamp_u64(
                round_scaled(
                    vstd::wrapping::i64_specs::wrapping_sub(
                        later.spec_raw(),
                        earlier.spec_raw(),
                    ) as int,
                    self.spec_nanos() as int,
                    self.spec_cycles() as int,
                ),
            ),
    {
        let dc: i64 = later.raw().wrapping_sub(earlier.raw());
        let q = scale_mag(dc as u128, self.nanos, self.cycles);
        if q > u64::MAX as u128 {
            u64::MAX
        } else {
            q as u64
        }
    }

    /// Converts a signed nanosecond offset into cycles, rounded to nearest
    /// and saturated into `i64`.
    fn offset_cycles(self, offset_ns: i64) -> (c: i64)
        requires
            self.wf(),
        ensures
            c as int == clamp_i64(
                round_scaled(
                    offset_ns as int,
                    self.spec_cycles() as int,
                    self.spec_nanos() as int,
                ),
            ),
    {
        let neg = offset_ns < 0;
        let m: u128 = if neg {
            (-(offset_ns as i128)) as u128
        } else {
            offset_ns as u128
        };
        let q = scale_mag(m, self.cycles, self.nanos);
        if neg {
            if q >= 0x8000_0000_0000_0000u128 {
                i64::MIN
            } else {
                -(q as i64)
            }
        } else {
            if q > i64::MAX as u128 {
                i64::MAX
            } else {
                q as i64
            }
        }
    }

    /// The instant `offset` signed nanoseconds after `base`: the offset is
    /// converted to cycles (rounded to nearest, saturated into `i64`) and
    /// added to the raw counter value with wrapping arithmetic.
    pub fn add_i64_ns(self, base: TscInstant, offset: i64) -> (r: TscInstant)
        requires
            self.wf(),
        ensures
            r.spec_raw() == vstd::wrapping::i64_specs::wrapping_add(
                base.spec_raw(),
                clamp_i64(
                    round_scaled(
                        offset as int,
                        self.spec_cycles() as int,
                        self.spec_nanos() as int,
                    ),
                ) as i64,
            ),
    {
        TscInstant(base.raw().wrapping_add(self.offset_cycles(offset)))
    }

    /// The instant `offset` unsigned nanoseconds after `base`; wrapping, as
    /// [`Self::add_i64_ns`].
    pub fn add_u64_ns(self, base: TscInstant, offset: u64) -> (r: TscInstant)
        requires
            self.wf(),
        ensures
            r.spec_raw() == vstd::wrapping::i64_specs::wrapping_add(
                base.spec_raw(),
                clamp_i64(
                    round_scaled(
                        offset as int,
                        self.spec_cycles() as int,
                        self.spec_nanos() as int,
                    ),
                ) as i64,
            ),
    {
        let q = scale_mag(offset as u128, self.cycles, self.nanos);
        let c: i64 = if q > i64::MAX as u128 {
            i64::MAX
        } else {
            q as i64
        };
        TscInstant(base.raw().wrapping_add(c))
    }

    /// The instant `offset` unsigned nanoseconds before `base`; wrapping, as
    /// [`Self::add_i64_ns`].
    pub fn sub_u64_ns(self, base: TscInstant, offset: u64) -> (r: TscInstant)
        requires
            self.wf(),
        ensures
            r.spec_raw() == vstd::wrapping::i64_specs::wrapping_sub(
                base.spec_raw(),
                clamp_i64(
                    round_scaled(
                        offset as int,
                        self.spec_cycles() as int,
                        self.spec_nanos() as int,
                    ),
                ) as i64,
            ),
    {
        let q = scale_mag(offset as u128, self.cycles, self.nanos);
        let c: i64 = if q > i64::MAX as u128 {
            i64::MAX
        } else {
            q as i64
        };
        TscInstant(base.raw().wrapping_sub(c))
    }
}

impl From<CalibratedTsc> for Tsc {
    /// Recovers the underlying raw counter capability.
    fn from(value: CalibratedTsc) -> (r: Tsc) {
        value.tsc
    }
}

impl vstd::std_specs::convert::FromSpecImpl<CalibratedTsc> for Tsc {
    open spec fn obeys_from_spec() -> bool {
        true
    }

    open spec fn from_spec(t: CalibratedTsc) -> Tsc {
        t.spec_tsc()
    }
}

/// Calibration gave up: no candidate rate converged within the caller's
/// iteration budget. This can happen when the reference clock's resolution
/// is too coarse for the window, or when cycle jitter never settles.
#[derive(Clone, Copy, PartialEq, Eq, Structural, Debug)]
pub struct NonConvergence;

impl NonConvergence {
    /// A human-readable description of the condition.
    pub fn message(&self) -> (r: &'static str)
        ensures
            r@ == "TSC calibration did not converge within its budget"@,
    {
        "TSC calibration did not converge within its budget"
    }
}

/// Repeatedly re-samples the reference clock and the counter until the
/// elapsed wall time exceeds the minimum window and the elapsed cycle delta
/// is positive (within the caps), or the probe budget runs out. The
/// counter's elapsed delta uses wraparound-safe subtraction.
fn sample_window<R: CalibratedClock, C: Clock<Instant = TscInstant>>(
    reference: R,
    counter: C,
    max_probes: u64,
) -> (r: Option<CycleRate>)
    ensures
        r matches Some(c) ==> c.wf() && c.nanos > MIN_WINDOW_NS,
{
    let t1 = reference.now();
    let c1 = counter.now();
    let mut probe: u64 = 0;
    while probe < max_probes
        decreases max_probes - probe,
    {
        let t2 = reference.now();
        let c2 = counter.now();
        let elapsed_ns = reference.sub_i64_ns(t2, t1);
        let elapsed_cycles = c2.raw().wrapping_sub(c1.raw());
        match assess_window(elapsed_cycles, elapsed_ns) {
            Some(sample) => { return Some(sample); },
            None => {},
        }
        probe = probe + 1;
    }
    None
}

impl Tsc {
    /// Discovers the counter's scale by comparing its elapsed ticks to a
    /// reference clock's elapsed nanoseconds: windows are measured over at
    /// least the minimum wall-time span, and a candidate rate is accepted
    /// once its relative change from the previous candidate falls below the
    /// convergence threshold. `counter` must read this counter's register.
    ///
    /// The loop busy-polls; `max_rounds` bounds the calibration rounds and
    /// `max_probes` the re-samplings within one window, so that instead of
    /// spinning forever on a coarse or jittery source the loop reports
    /// non-convergence.
    ///
    /// An accepted scale is well formed (positive), spans more than the
    /// minimum window, and converged against some earlier candidate.
    pub fn calibrate<R: CalibratedClock, C: Clock<Instant = TscInstant>>(
        self,
        reference: R,
        counter: C,
        max_rounds: u64,
        max_probes: u64,
    ) -> (r: Result<CalibratedTsc, NonConvergence>)
        ensures
            max_rounds == 0 ==> r is Err,
            r matches Ok(c) ==> {
                &&& c.wf()
                &&& c.spec_tsc() == self
                &&& c.spec_nanos() > MIN_WINDOW_NS
                &&& exists|p: CycleRate|
                    p.wf() && rates_converged(
                        p,
                        CycleRate { cycles: c.spec_cycles(), nanos: c.spec_nanos() },
                    )
            },
    {
        let mut prev: Option<CycleRate> = None;
        let mut round: u64 = 0;
        while round < max_rounds
            invariant
                prev matches Some(p) ==> p.wf(),
            decreases max_rounds - round,
        {
            let sample = match sample_window(reference, counter, max_probes) {
                Some(s) => s,
                None => { return Err(NonConvergence); },
            };
            match calibration_step(&prev, sample) {
                CalibrationStep::Accepted(rate) => {
                    return Ok(CalibratedTsc::from_rate(self, rate));
                },
                CalibrationStep::Rebase(rate) => {
                    prev = Some(rate);
                },
            }
            round = round + 1;
        }
        Err(NonConvergence)
    }
}

} // verus!
