//! One-time affine correspondence between two clock domains.

use vstd::prelude::*;

use crate::{iabs, near_domain, CalibratedClock, Clock};

verus! {

/// Index of the round-trip cost selected among three trials: the last trial
/// whose cost is no larger than every other trial's cost.
pub open spec fn pick3(d0: i64, d1: i64, d2: i64) -> int {
    if d2 <= d0 && d2 <= d1 {
        2
    } else if d1 <= d0 {
        1
    } else {
        0
    }
}

/// Signed halving that rounds toward zero, as `i64` division by two does.
pub open spec fn half_toward_zero(d: int) -> int {
    if d >= 0 {
        d / 2
    } else {
        -((-d) / 2)
    }
}

/// An immutable affine map between two clock domains: a pair of epoch
/// instants denoting the same physical moment, plus the two clocks.
#[derive(Clone, Copy)]
pub struct ClockSynchronization<A: Clock, B: Clock> {
    at: A::Instant,
    bt: B::Instant,
    a: A,
    b: B,
}

impl<A: Clock, B: Clock> ClockSynchronization<A, B> {
    /// The synchronization epoch in domain A.
    pub closed spec fn spec_epoch_a(&self) -> A::Instant {
        self.at
    }

    /// The synchronization epoch in domain B.
    pub closed spec fn spec_epoch_b(&self) -> B::Instant {
        self.bt
    }

    /// The domain-A clock.
    pub closed spec fn spec_a(&self) -> A {
        self.a
    }

    /// The domain-B clock.
    pub closed spec fn spec_b(&self) -> B {
        self.b
    }

    #[verifier::when_used_as_spec(spec_epoch_a)]
    pub fn epoch_a(&self) -> (r: A::Instant)
        ensures
            r == self.spec_epoch_a(),
    {
        self.at
    }

    #[verifier::when_used_as_spec(spec_epoch_b)]
    pub fn epoch_b(&self) -> (r: B::Instant)
        ensures
            r == self.spec_epoch_b(),
    {
        self.bt
    }

    #[verifier::when_used_as_spec(spec_a)]
    pub fn a(&self) -> (r: A)
        ensures
            r == self.spec_a(),
    {
        self.a
    }

    #[verifier::when_used_as_spec(spec_b)]
    pub fn b(&self) -> (r: B)
        ensures
            r == self.spec_b(),
    {
        self.b
    }
}

/// The exact domain-A timeline position corresponding to the domain-B
/// instant `t` under the affine map `s`: A's epoch position, offset by the
/// elapsed nanoseconds from B's epoch to `t`.
pub open spec fn exact_to_a<A: CalibratedClock, B: CalibratedClock>(
    s: ClockSynchronization<A, B>,
    t: B::Instant,
) -> int {
    s.spec_a().ns_of(s.spec_epoch_a()) + s.spec_b().ns_of(t) - s.spec_b().ns_of(s.spec_epoch_b())
}

/// The exact domain-B timeline position corresponding to the domain-A
/// instant `t` under the affine map `s`.
pub open spec fn exact_to_b<A: CalibratedClock, B: CalibratedClock>(
    s: ClockSynchronization<A, B>,
    t: A::Instant,
) -> int {
    s.spec_b().ns_of(s.spec_epoch_b()) + s.spec_a().ns_of(t) - s.spec_a().ns_of(s.spec_epoch_a())
}

/// Conditions under which translating the domain-B instant `t` into domain A
/// is pinned down: the operands lie in their domains, the elapsed
/// nanoseconds from B's epoch fit an `i64` with room for B's tolerance, and
/// the whole tolerance window around the exact target is representable in A.
pub open spec fn to_a_defined<A: CalibratedClock, B: CalibratedClock>(
    s: ClockSynchronization<A, B>,
    t: B::Instant,
) -> bool {
    let diff = s.spec_b().ns_of(t) - s.spec_b().ns_of(s.spec_epoch_b());
    &&& s.spec_b().in_domain(s.spec_b().ns_of(t))
    &&& s.spec_b().in_domain(s.spec_b().ns_of(s.spec_epoch_b()))
    &&& i64::MIN + s.spec_b().slack() <= diff <= i64::MAX - s.spec_b().slack()
    &&& s.spec_a().in_domain(s.spec_a().ns_of(s.spec_epoch_a()))
    &&& near_domain(s.spec_a(), exact_to_a(s, t), s.spec_a().slack() + s.spec_b().slack())
}

/// Mirror of [`to_a_defined`] for translating a domain-A instant into B.
pub open spec fn to_b_defined<A: CalibratedClock, B: CalibratedClock>(
    s: ClockSynchronization<A, B>,
    t: A::Instant,
) -> bool {
    let diff = s.spec_a().ns_of(t) - s.spec_a().ns_of(s.spec_epoch_a());
    &&& s.spec_a().in_domain(s.spec_a().ns_of(t))
    &&& s.spec_a().in_domain(s.spec_a().ns_of(s.spec_epoch_a()))
    &&& i64::MIN + s.spec_a().slack() <= diff <= i64::MAX - s.spec_a().slack()
    &&& s.spec_b().in_domain(s.spec_b().ns_of(s.spec_epoch_b()))
    &&& near_domain(s.spec_b(), exact_to_b(s, t), s.spec_a().slack() + s.spec_b().slack())
}

/// `r` is a faithful translation of the domain-B instant `t` into domain A:
/// it lands within the two clocks' combined rounding tolerance of the exact
/// affine image of `t`.
pub open spec fn faithful_to_a<A: CalibratedClock, B: CalibratedClock>(
    s: ClockSynchronization<A, B>,
    t: B::Instant,
    r: A::Instant,
) -> bool {
    iabs(s.spec_a().ns_of(r) - exact_to_a(s, t)) <= s.spec_a().slack() + s.spec_b().slack()
}

/// Mirror of [`faithful_to_a`] for translations into domain B.
pub open spec fn faithful_to_b<A: CalibratedClock, B: CalibratedClock>(
    s: ClockSynchronization<A, B>,
    t: A::Instant,
    r: B::Instant,
) -> bool {
    iabs(s.spec_b().ns_of(r) - exact_to_b(s, t)) <= s.spec_a().slack() + s.spec_b().slack()
}

impl<A: CalibratedClock, B: Clock> ClockSynchronization<A, B> {
    /// Builds the correspondence from three recorded round-trip trials, each
    /// a triple of: the first domain-A read `a0`, the domain-B read taken
    /// inside the bracket, and the bracket's round-trip cost `da` in signed
    /// nanoseconds. The trial with the smallest cost is selected (the last
    /// one, among equals), B's epoch is that trial's B read, and A's epoch is
    /// that trial's `a0` offset by half its cost: the midpoint assumption
    /// that B's read occurred, on average, halfway through the bracket.
    pub fn from_trials(
        a: A,
        b: B,
        t0: (A::Instant, B::Instant, i64),
        t1: (A::Instant, B::Instant, i64),
        t2: (A::Instant, B::Instant, i64),
    ) -> (r: Self)
        ensures
            r.spec_a() == a,
            r.spec_b() == b,
            ({
                let k = pick3(t0.2, t1.2, t2.2);
                let sel = if k == 2 {
                    t2
                } else if k == 1 {
                    t1
                } else {
                    t0
                };
                let target = a.ns_of(sel.0) + half_toward_zero(sel.2 as int);
                &&& sel.2 <= t0.2
                &&& sel.2 <= t1.2
                &&& sel.2 <= t2.2
                &&& r.spec_epoch_b() == sel.1
                &&& (a.in_domain(a.ns_of(sel.0)) && near_domain(a, target, a.slack())) ==> iabs(
                    a.ns_of(r.spec_epoch_a()) - target,
                ) <= a.slack()
            }),
    {
        let mut sel = t0;
        if t1.2 <= sel.2 {
            sel = t1;
        }
        if t2.2 <= sel.2 {
            sel = t2;
        }
        let half: i64 = if sel.2 >= 0 {
            ((sel.2 as u64) / 2) as i64
        } else {
            let m: u64 = (-(sel.2 as i128)) as u64;
            -((m / 2) as i64)
        };
        assert(half as int == half_toward_zero(sel.2 as int));
        let at = a.add_i64_ns(sel.0, half);
        ClockSynchronization { at, bt: sel.1, a, b }
    }

    /// Runs the bounded round-trip sampling protocol: three independent
    /// trials, each reading A, then B, then A again, with the bracket cost
    /// measured by A's signed-nanosecond subtraction; then builds the
    /// correspondence from the tightest bracket via [`Self::from_trials`].
    pub fn new_aba(a: A, b: B) -> (r: Self)
        ensures
            r.spec_a() == a,
            r.spec_b() == b,
    {
        let a0_0 = a.now();
        let b_0 = b.now();
        let a1_0 = a.now();
        let da_0 = a.sub_i64_ns(a1_0, a0_0);
        let a0_1 = a.now();
        let b_1 = b.now();
        let a1_1 = a.now();
        let da_1 = a.sub_i64_ns(a1_1, a0_1);
        let a0_2 = a.now();
        let b_2 = b.now();
        let a1_2 = a.now();
        let da_2 = a.sub_i64_ns(a1_2, a0_2);
        Self::from_trials(a, b, (a0_0, b_0, da_0), (a0_1, b_1, da_1), (a0_2, b_2, da_2))
    }
}

impl<A: CalibratedClock, B: CalibratedClock> ClockSynchronization<A, B> {
    /// Translates a domain-B instant into domain A: A's epoch, offset by the
    /// elapsed nanoseconds from B's epoch to `t`. Pure and O(1); no clock is
    /// read. Whenever the translation is pinned down ([`to_a_defined`]), the
    /// result is a faithful image of `t` ([`faithful_to_a`]).
    pub fn to_a(&self, t: B::Instant) -> (r: A::Instant)
        ensures
            to_a_defined(*self, t) ==> faithful_to_a(*self, t, r),
    {
        self.a.add_i64_ns(self.at, self.b.sub_i64_ns(t, self.bt))
    }

    /// Mirror of [`Self::to_a`]: translates a domain-A instant into domain B.
    pub fn to_b(&self, t: A::Instant) -> (r: B::Instant)
        ensures
            to_b_defined(*self, t) ==> faithful_to_b(*self, t, r),
    {
        self.b.add_i64_ns(self.bt, self.a.sub_i64_ns(t, self.at))
    }
}

/// Translation linearity: for two domain-B instants `b1`, `b2` faithfully
/// translated into domain A as `r1`, `r2`, the elapsed nanoseconds measured
/// between the translations in A (`d`) agree with the elapsed nanoseconds
/// measured between the originals in B (`e`), up to a small multiple of the
/// two clocks' rounding tolerances.
pub proof fn lemma_translation_linearity<A: CalibratedClock, B: CalibratedClock>(
    s: ClockSynchronization<A, B>,
    b1: B::Instant,
    b2: B::Instant,
    r1: A::Instant,
    r2: A::Instant,
    d: i64,
    e: i64,
)
    requires
        faithful_to_a(s, b1, r1),
        faithful_to_a(s, b2, r2),
        iabs(d - (s.spec_a().ns_of(r1) - s.spec_a().ns_of(r2))) <= s.spec_a().slack(),
        iabs(e - (s.spec_b().ns_of(b1) - s.spec_b().ns_of(b2))) <= s.spec_b().slack(),
    ensures
        iabs(d - e) <= 3 * s.spec_a().slack() + 3 * s.spec_b().slack(),
{
}

/// Round-trip stability: translating a domain-B instant `x` into domain A
/// and back lands within twice the clocks' combined rounding tolerance of
/// `x`'s own timeline position.
pub proof fn lemma_round_trip_stability<A: CalibratedClock, B: CalibratedClock>(
    s: ClockSynchronization<A, B>,
    x: B::Instant,
    y: A::Instant,
    z: B::Instant,
)
    requires
        faithful_to_a(s, x, y),
        faithful_to_b(s, y, z),
    ensures
        iabs(s.spec_b().ns_of(z) - s.spec_b().ns_of(x)) <= 2 * (s.spec_a().slack()
            + s.spec_b().slack()),
{
}

/// Mirror of [`lemma_round_trip_stability`]: a domain-A instant translated
/// into B and back lands within twice the combined tolerance of itself.
pub proof fn lemma_round_trip_stability_from_a<A: CalibratedClock, B: CalibratedClock>(
    s: ClockSynchronization<A, B>,
    x: A::Instant,
    y: B::Instant,
    z: A::Instant,
)
    requires
        faithful_to_b(s, x, y),
        faithful_to_a(s, y, z),
    ensures
        iabs(s.spec_a().ns_of(z) - s.spec_a().ns_of(x)) <= 2 * (s.spec_a().slack()
            + s.spec_b().slack()),
{
}

} // verus!
