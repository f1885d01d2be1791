//! Synchronization between independent monotonic time sources.
//!
//! A [`Clock`] is a small, copyable capability that produces opaque instants.
//! A [`CalibratedClock`] additionally supports signed-nanosecond arithmetic
//! over its own instants, described against a mathematical model: every
//! instant has a position on the clock's ideal timeline (`ns_of`), and the
//! arithmetic lands within the clock's rounding tolerance (`slack`) of the
//! exact result, whenever the operands lie in the representable part of the
//! timeline (`in_domain`).
//!
//! [`ClockSynchronization`] establishes a one-time affine correspondence
//! between two clock domains via a bounded round-trip sampling protocol and
//! then translates instants in both directions. The `tsc` module calibrates
//! a raw hardware cycle counter against a reference clock so its ticks can
//! be expressed in nanoseconds.

use vstd::prelude::*;

pub mod clock_synchronization;
pub mod tsc;

pub use clock_synchronization::ClockSynchronization;

verus! {

/// Absolute value of a mathematical integer.
pub open spec fn iabs(x: int) -> int {
    if x >= 0 {
        x
    } else {
        -x
    }
}

/// A stateless, copyable capability representing a monotonic time source.
///
/// `now` performs a single non-blocking read of the source. Nothing is
/// promised of the value read: which instant comes back depends on when the
/// call happens.
pub trait Clock: Sized + Copy {
    type Instant: Copy;

    fn now(self) -> Self::Instant;
}

/// Whether every timeline position within `slack` of `center` is
/// representable in clock `c`'s domain.
pub open spec fn near_domain<C: CalibratedClock>(c: C, center: int, slack: int) -> bool {
    forall|ns: int| center - slack <= ns <= center + slack ==> #[trigger] c.in_domain(ns)
}

/// A clock whose instants support signed-nanosecond arithmetic.
///
/// The model: `ns_of` places each instant on the clock's ideal timeline, in
/// nanoseconds; `in_domain` delimits the representable stretch of that
/// timeline; `slack` bounds, in nanoseconds, how far the arithmetic may land
/// from the exact result (the rounding unit of the implementation). Both
/// operations are total; their results are pinned down only on operands
/// inside the domain, so that cyclic sources, which wrap at a fixed bit
/// width, can implement them with wrapping arithmetic.
///
/// The model defaults to the empty domain: an implementation that does not
/// describe its timeline promises nothing of its arithmetic.
pub trait CalibratedClock: Clock {
    /// Position of an instant on this clock's ideal timeline, in nanoseconds.
    open spec fn ns_of(self, t: Self::Instant) -> int {
        0
    }

    /// Timeline positions representable in this clock's domain.
    open spec fn in_domain(self, ns: int) -> bool {
        false
    }

    /// Rounding tolerance of this clock's arithmetic, in nanoseconds.
    open spec fn slack(self) -> int {
        0
    }

    /// Signed nanoseconds from `earlier` to `later`, within `slack` of the
    /// exact separation whenever both operands are in the domain and the
    /// exact separation fits an `i64` with room for the tolerance.
    fn sub_i64_ns(self, later: Self::Instant, earlier: Self::Instant) -> (d: i64)
        ensures
            ({
                let diff = self.ns_of(later) - self.ns_of(earlier);
                (self.in_domain(self.ns_of(later)) && self.in_domain(self.ns_of(earlier))
                    && i64::MIN + self.slack() <= diff <= i64::MAX - self.slack()) ==> iabs(
                    d - diff,
                ) <= self.slack()
            }),
    ;

    /// The instant `offset` signed nanoseconds away from `base`, within
    /// `slack` of the exact target whenever `base` is in the domain and the
    /// whole tolerance window around the target is too.
    fn add_i64_ns(self, base: Self::Instant, offset: i64) -> (r: Self::Instant)
        ensures
            ({
                let target = self.ns_of(base) + offset;
                (self.in_domain(self.ns_of(base)) && (forall|ns: int|
                    target - self.slack() <= ns <= target + self.slack()
                        ==> #[trigger] self.in_domain(ns))) ==> iabs(self.ns_of(r) - target)
                    <= self.slack()
            }),
    ;
}

} // verus!
