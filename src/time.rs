use vstd::prelude::*;

verus! {

/// Nanoseconds in one second.
pub const NANOS_PER_SEC: u128 = 1_000_000_000;

/// The largest span a `Duration` can hold: `u64::MAX` seconds and
/// 999_999_999 nanoseconds, as for `std::time::Duration`.
pub const MAX_NANOS: u128 = 18_446_744_073_709_551_615_999_999_999;

/// The denominator of the fractions that scale a duration: a `u32` numerator
/// `k` stands for `k / 2^32`, a number in `[0, 1)`.
pub const FRACTION_SCALE: u128 = 4_294_967_296;

/// `n` nanoseconds scaled by `numerator / FRACTION_SCALE`, rounded down.
pub open spec fn scale(n: nat, numerator: nat) -> nat {
    n * numerator / FRACTION_SCALE as nat
}

/// Clamps a number of nanoseconds to the largest representable duration.
pub open spec fn saturate(n: nat) -> nat {
    if n <= MAX_NANOS as nat {
        n
    } else {
        MAX_NANOS as nat
    }
}

/// A non-negative span of time, counted in nanoseconds.
#[derive(Clone, Copy, Debug, PartialEq, Eq, PartialOrd, Ord, Structural)]
pub struct Duration {
    nanos: u128,
}

impl View for Duration {
    type V = nat;

    closed spec fn view(&self) -> nat {
        self.nanos as nat
    }
}

impl Duration {
    /// Holds of every duration: it lies within the representable range.
    #[verifier::type_invariant]
    pub open spec fn in_range(self) -> bool {
        self@ <= MAX_NANOS as nat
    }

    /// The empty duration.
    pub fn zero() -> (r: Duration)
        ensures
            r@ == 0,
    {
        Duration { nanos: 0 }
    }

    /// The largest representable duration.
    pub fn max_value() -> (r: Duration)
        ensures
            r@ == MAX_NANOS as nat,
    {
        Duration { nanos: MAX_NANOS }
    }

    /// A duration of `secs` seconds and `nanos` nanoseconds; nanoseconds past
    /// a whole second carry into the seconds.
    pub fn new(secs: u64, nanos: u32) -> (r: Duration)
        requires
            secs as nat * NANOS_PER_SEC as nat + nanos as nat <= MAX_NANOS as nat,
        ensures
            r@ == secs as nat * NANOS_PER_SEC as nat + nanos as nat,
    {
        Duration { nanos: secs as u128 * NANOS_PER_SEC + nanos as u128 }
    }

    /// A duration of whole seconds.
    pub fn from_secs(secs: u64) -> (r: Duration)
        ensures
            r@ == secs as nat * NANOS_PER_SEC as nat,
    {
        proof {
            assert(secs as nat * NANOS_PER_SEC as nat <= MAX_NANOS as nat) by (nonlinear_arith)
                requires secs <= u64::MAX;
        }
        Duration { nanos: secs as u128 * NANOS_PER_SEC }
    }

    /// A duration of whole milliseconds.
    pub fn from_millis(millis: u64) -> (r: Duration)
        ensures
            r@ == millis as nat * 1_000_000,
    {
        proof {
            assert(millis as nat * 1_000_000 <= MAX_NANOS as nat) by (nonlinear_arith)
                requires millis <= u64::MAX;
        }
        Duration { nanos: millis as u128 * 1_000_000 }
    }

    /// A duration of whole microseconds.
    pub fn from_micros(micros: u64) -> (r: Duration)
        ensures
            r@ == micros as nat * 1_000,
    {
        proof {
            assert(micros as nat * 1_000 <= MAX_NANOS as nat) by (nonlinear_arith)
                requires micros <= u64::MAX;
        }
        Duration { nanos: micros as u128 * 1_000 }
    }

    /// A duration of whole nanoseconds.
    pub fn from_nanos(nanos: u64) -> (r: Duration)
        ensures
            r@ == nanos as nat,
    {
        Duration { nanos: nanos as u128 }
    }

    /// The whole seconds in this duration.
    pub fn as_secs(&self) -> (r: u64)
        ensures
            r as nat == self@ / NANOS_PER_SEC as nat,
    {
        proof {
            use_type_invariant(self);
        }
        (self.nanos / NANOS_PER_SEC) as u64
    }

    /// The nanoseconds past the last whole second.
    pub fn subsec_nanos(&self) -> (r: u32)
        ensures
            r as nat == self@ % NANOS_PER_SEC as nat,
            r < 1_000_000_000,
    {
        (self.nanos % NANOS_PER_SEC) as u32
    }

    /// The whole duration in nanoseconds.
    pub fn as_nanos(&self) -> (r: u128)
        ensures
            r as nat == self@,
    {
        self.nanos
    }

    /// This duration times `numerator / FRACTION_SCALE`, rounded down: the
    /// duration scaled by a fraction in `[0, 1)`.
    pub fn mul_fraction(self, numerator: u32) -> (r: Duration)
        ensures
            r@ == scale(self@, numerator as nat),
            r@ <= self@,
    {
        proof {
            use_type_invariant(&self);
            assert(self.nanos * numerator <= MAX_NANOS * u32::MAX) by (nonlinear_arith)
                requires self.nanos <= MAX_NANOS, numerator <= u32::MAX;
            assert((self.nanos * numerator) as nat / FRACTION_SCALE as nat <= self.nanos as nat)
                by (nonlinear_arith)
                requires numerator < FRACTION_SCALE;
        }
        Duration { nanos: self.nanos * numerator as u128 / FRACTION_SCALE }
    }

    /// The sum of two durations, clamped to the largest representable one.
    pub fn saturating_add(self, other: Duration) -> (r: Duration)
        ensures
            r@ == saturate(self@ + other@),
    {
        proof {
            use_type_invariant(&self);
            use_type_invariant(&other);
        }
        let sum = self.nanos + other.nanos;
        if sum <= MAX_NANOS {
            Duration { nanos: sum }
        } else {
            Duration { nanos: MAX_NANOS }
        }
    }
}

/// A point in time, held as the duration elapsed since a reference point
/// that the caller chooses.
#[derive(Clone, Copy, Debug, PartialEq, Eq, PartialOrd, Ord, Structural)]
pub struct Instant {
    since_origin: Duration,
}

impl View for Instant {
    type V = nat;

    closed spec fn view(&self) -> nat {
        self.since_origin@
    }
}

impl Instant {
    /// Holds of every instant: it lies within the representable range.
    #[verifier::type_invariant]
    pub open spec fn in_range(self) -> bool {
        self@ <= MAX_NANOS as nat
    }

    /// The instant `elapsed` after the reference point.
    pub fn from_origin(elapsed: Duration) -> (r: Instant)
        ensures
            r@ == elapsed@,
    {
        proof {
            use_type_invariant(&elapsed);
        }
        Instant { since_origin: elapsed }
    }

    /// The time elapsed from the reference point to this instant.
    pub fn since_origin(&self) -> (r: Duration)
        ensures
            r@ == self@,
    {
        self.since_origin
    }

    /// This instant moved later by `d`, clamped to the latest representable one.
    pub fn saturating_add(self, d: Duration) -> (r: Instant)
        ensures
            r@ == saturate(self@ + d@),
    {
        proof {
            use_type_invariant(&self.since_origin);
        }
        Instant { since_origin: self.since_origin.saturating_add(d) }
    }
}

} // verus!
