use vstd::prelude::*;

use crate::time::{saturate, scale, Duration, Instant, FRACTION_SCALE, MAX_NANOS};

verus! {

/// Relies on `rand::random::<u32>`: one draw from the thread-local
/// generator. Any `u32` may come back.
#[verifier::external_body]
fn random_fraction() -> (r: u32) {
    rand::random::<u32>()
}

/// An interval `[min, min + interval)` from which random offsets are drawn
/// and added to wait durations or points in time, so that callers waiting
/// on the same resource do not all wake at once.
#[derive(Clone, Copy, Debug, PartialEq, Eq, Structural)]
pub struct Jitter {
    min: Duration,
    interval: Duration,
}

impl Jitter {
    /// The lower bound of the interval, in nanoseconds.
    pub closed spec fn min_spec(self) -> nat {
        self.min@
    }

    /// The width of the interval, in nanoseconds.
    pub closed spec fn interval_spec(self) -> nat {
        self.interval@
    }

    /// The offset drawn when the random fraction is `k / FRACTION_SCALE`.
    pub open spec fn sample_at_spec(self, k: nat) -> nat {
        saturate(self.min_spec() + scale(self.interval_spec(), k))
    }

    /// Whether `v` is an offset that some draw yields.
    pub open spec fn can_sample(self, v: nat) -> bool {
        exists|k: nat| #![trigger self.sample_at_spec(k)]
            k < FRACTION_SCALE as nat && v == self.sample_at_spec(k)
    }

    /// The jitter that waits less than `max`: the interval `[0, max)`, the
    /// same as `new` with a zero `min`.
    pub fn up_to(max: Duration) -> (r: Jitter)
        ensures
            r.min_spec() == 0,
            r.interval_spec() == max@,
    {
        Jitter { min: Duration::zero(), interval: max }
    }

    /// The jitter that waits at least `min` and less than `min + interval`.
    pub fn new(min: Duration, interval: Duration) -> (r: Jitter)
        ensures
            r.min_spec() == min@,
            r.interval_spec() == interval@,
    {
        Jitter { min, interval }
    }

    /// The offset for the random fraction `k / FRACTION_SCALE`: `min` plus
    /// `interval` scaled by the fraction, which lies in `[min, min + interval)`
    /// when the interval is not empty and is exactly `min` when it is.
    pub fn sample_at(&self, k: u32) -> (r: Duration)
        ensures
            r@ == self.sample_at_spec(k as nat),
            self.interval_spec() == 0 ==> r@ == self.min_spec(),
            self.interval_spec() > 0 ==> self.min_spec() <= r@ < self.min_spec()
                + self.interval_spec(),
    {
        proof {
            use_type_invariant(&self.min);
        }
        let offset = self.interval.mul_fraction(k);
        proof {
            let n = self.interval_spec();
            if n > 0 {
                assert(n * (k as nat) < n * (FRACTION_SCALE as nat)) by (nonlinear_arith)
                    requires n > 0, k < FRACTION_SCALE;
                assert(n * (k as nat) / (FRACTION_SCALE as nat) < n) by (nonlinear_arith)
                    requires n * (k as nat) < n * (FRACTION_SCALE as nat);
            } else {
                assert(n * (k as nat) == 0) by (nonlinear_arith) requires n == 0;
            }
        }
        self.min.saturating_add(offset)
    }

    /// The jitter that adds nothing: both bounds are zero.
    pub fn none() -> (r: Jitter)
        ensures
            r.min_spec() == 0,
            r.interval_spec() == 0,
    {
        Jitter { min: Duration::zero(), interval: Duration::zero() }
    }

    /// A random offset within the interval: `min` exactly when the interval
    /// is empty, else at least `min` and less than `min + interval`.
    pub fn sample(&self) -> (r: Duration)
        ensures
            self.can_sample(r@),
            self.interval_spec() == 0 ==> r@ == self.min_spec(),
            self.interval_spec() > 0 ==> self.min_spec() <= r@ < self.min_spec()
                + self.interval_spec(),
    {
        let k = random_fraction();
        let r = self.sample_at(k);
        assert(self.sample_at_spec(k as nat) == r@);
        r
    }

    /// `d` plus a random offset, clamped to the largest duration. Unless
    /// clamped, the result is at least `d + min` and less than
    /// `d + min + interval`; with the zero jitter it is `d` itself.
    pub fn apply_to_duration(&self, d: Duration) -> (r: Duration)
        ensures
            exists|k: nat| #![trigger self.sample_at_spec(k)]
                k < FRACTION_SCALE as nat && r@ == saturate(self.sample_at_spec(k) + d@),
            self.interval_spec() == 0 ==> r@ == saturate(d@ + self.min_spec()),
            self.interval_spec() > 0 && d@ + self.min_spec() <= MAX_NANOS as nat ==> d@
                + self.min_spec() <= r@ < d@ + self.min_spec() + self.interval_spec(),
            self.min_spec() == 0 && self.interval_spec() == 0 ==> r@ == d@,
    {
        proof {
            use_type_invariant(&d);
        }
        let s = self.sample();
        s.saturating_add(d)
    }

    /// `t` moved later by a random offset, clamped to the latest instant.
    /// Unless clamped, the result is at least `t + min` and earlier than
    /// `t + min + interval`; with the zero jitter it is `t` itself.
    pub fn apply_to_instant(&self, t: Instant) -> (r: Instant)
        ensures
            exists|k: nat| #![trigger self.sample_at_spec(k)]
                k < FRACTION_SCALE as nat && r@ == saturate(t@ + self.sample_at_spec(k)),
            self.interval_spec() == 0 ==> r@ == saturate(t@ + self.min_spec()),
            self.interval_spec() > 0 && t@ + self.min_spec() <= MAX_NANOS as nat ==> t@
                + self.min_spec() <= r@ < t@ + self.min_spec() + self.interval_spec(),
            self.min_spec() == 0 && self.interval_spec() == 0 ==> r@ == t@,
    {
        proof {
            use_type_invariant(&t);
        }
        let s = self.sample();
        t.saturating_add(s)
    }
}

impl Default for Jitter {
    /// The zero jitter.
    fn default() -> (r: Jitter)
        ensures
            r.min_spec() == 0,
            r.interval_spec() == 0,
    {
        Jitter::none()
    }
}

/// Sampling depends on the bounds alone: two jitters with the same `min` and
/// `interval` (such as `up_to(max)` and `new` with a zero `min` and `max`)
/// map every random fraction to the same offset, so they draw from the same
/// distribution over the same set of offsets.
pub proof fn lemma_same_bounds_sample_alike(a: Jitter, b: Jitter)
    requires
        a.min_spec() == b.min_spec(),
        a.interval_spec() == b.interval_spec(),
    ensures
        forall|k: nat| #[trigger] a.sample_at_spec(k) == b.sample_at_spec(k),
        forall|v: nat| #[trigger] a.can_sample(v) == b.can_sample(v),
{
    assert forall|v: nat| #[trigger] a.can_sample(v) == b.can_sample(v) by {
        if a.can_sample(v) {
            let k = choose|k: nat| k < FRACTION_SCALE as nat && v == a.sample_at_spec(k);
            assert(b.sample_at_spec(k) == v);
        }
        if b.can_sample(v) {
            let k = choose|k: nat| k < FRACTION_SCALE as nat && v == b.sample_at_spec(k);
            assert(a.sample_at_spec(k) == v);
        }
    }
}

} // verus!
