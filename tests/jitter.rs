use jitter::{Duration, Instant, Jitter};

#[test]
fn duration_plus_jitter_stays_in_interval() {
    let reference = Duration::from_secs(24);
    let jitter = Jitter::new(Duration::from_secs(1), Duration::from_secs(1));
    for _ in 0..1000 {
        let result = jitter.apply_to_duration(reference);
        assert!(result >= Duration::from_secs(25));
        assert!(result < Duration::from_secs(26));
    }
}

#[test]
fn up_to_plus_zero_stays_below_max() {
    let jitter = Jitter::up_to(Duration::from_millis(500));
    for _ in 0..1000 {
        let result = jitter.apply_to_duration(Duration::zero());
        assert!(result.as_nanos() < 500_000_000);
    }
}

#[test]
fn empty_interval_samples_min_exactly() {
    let jitter = Jitter::new(Duration::from_millis(250), Duration::zero());
    for _ in 0..100 {
        assert_eq!(jitter.sample(), Duration::from_millis(250));
    }
}

#[test]
fn samples_lie_in_half_open_interval() {
    let jitter = Jitter::new(Duration::from_micros(10), Duration::from_nanos(3));
    for _ in 0..1000 {
        let v = jitter.sample().as_nanos();
        assert!(v >= 10_000);
        assert!(v < 10_003);
    }
}

#[test]
fn instant_plus_jitter_stays_in_interval() {
    let t = Instant::from_origin(Duration::from_secs(100));
    let jitter = Jitter::new(Duration::from_secs(1), Duration::from_secs(1));
    for _ in 0..1000 {
        let r = jitter.apply_to_instant(t).since_origin().as_nanos();
        assert!(r >= 101_000_000_000);
        assert!(r < 102_000_000_000);
    }
}

#[test]
fn zero_jitter_leaves_duration_and_instant_unchanged() {
    let d = Duration::new(7, 123);
    assert_eq!(Jitter::none().apply_to_duration(d), d);
    let t = Instant::from_origin(Duration::from_millis(42));
    assert_eq!(Jitter::none().apply_to_instant(t), t);
    let big = Duration::max_value();
    assert_eq!(Jitter::none().apply_to_duration(big), big);
}

#[test]
fn default_is_zero_jitter() {
    assert_eq!(Jitter::default(), Jitter::none());
}

#[test]
fn up_to_equals_new_from_zero() {
    let max = Duration::from_millis(750);
    let a = Jitter::up_to(max);
    let b = Jitter::new(Duration::zero(), max);
    assert_eq!(a, b);
    for k in [0u32, 1, 1 << 31, u32::MAX] {
        assert_eq!(a.sample_at(k), b.sample_at(k));
    }
}

#[test]
fn sampling_covers_the_interval() {
    let jitter = Jitter::up_to(Duration::from_secs(1));
    let mut lowest = u128::MAX;
    let mut highest = 0u128;
    let mut buckets = [0u32; 10];
    for _ in 0..2000 {
        let v = jitter.sample().as_nanos();
        lowest = lowest.min(v);
        highest = highest.max(v);
        buckets[(v / 100_000_000) as usize] += 1;
    }
    assert!(lowest < 100_000_000);
    assert!(highest > 900_000_000);
    assert!(buckets.iter().all(|&n| n > 0));
}

#[test]
fn sample_at_scales_interval_by_fraction() {
    let jitter = Jitter::new(Duration::from_secs(1), Duration::from_secs(1));
    assert_eq!(jitter.sample_at(0).as_nanos(), 1_000_000_000);
    assert_eq!(jitter.sample_at(1 << 31).as_nanos(), 1_500_000_000);
    assert_eq!(jitter.sample_at(1 << 30).as_nanos(), 1_250_000_000);
    assert_eq!(jitter.sample_at(u32::MAX).as_nanos(), 1_999_999_999);
}

#[test]
fn sample_saturates_at_largest_duration() {
    let jitter = Jitter::new(Duration::max_value(), Duration::from_secs(5));
    assert_eq!(jitter.sample_at(1 << 31), Duration::max_value());
    let near = Duration::max_value();
    let r = Jitter::new(Duration::from_secs(1), Duration::from_secs(1)).apply_to_duration(near);
    assert_eq!(r, Duration::max_value());
}

#[test]
fn instant_saturates_at_latest_point() {
    let t = Instant::from_origin(Duration::max_value());
    let r = Jitter::up_to(Duration::from_secs(1)).apply_to_instant(t);
    assert_eq!(r, t);
    let late = Instant::from_origin(Duration::max_value()).saturating_add(Duration::from_secs(3));
    assert_eq!(late.since_origin(), Duration::max_value());
}

#[test]
fn duration_parts_and_conversions() {
    let d = Duration::new(3, 1_500_000_000);
    assert_eq!(d.as_secs(), 4);
    assert_eq!(d.subsec_nanos(), 500_000_000);
    assert_eq!(d.as_nanos(), 4_500_000_000);
    assert_eq!(Duration::from_millis(1500), Duration::new(1, 500_000_000));
    assert_eq!(Duration::from_micros(2), Duration::from_nanos(2000));
    let max = Duration::max_value();
    assert_eq!(max.as_secs(), u64::MAX);
    assert_eq!(max.subsec_nanos(), 999_999_999);
}

#[test]
fn duration_saturating_add_and_mul_fraction() {
    let a = Duration::from_secs(2);
    assert_eq!(a.saturating_add(Duration::from_millis(5)).as_nanos(), 2_005_000_000);
    assert_eq!(Duration::max_value().saturating_add(a), Duration::max_value());
    assert_eq!(a.mul_fraction(1 << 31), Duration::from_secs(1));
    assert_eq!(a.mul_fraction(0), Duration::zero());
    assert_eq!(Duration::from_nanos(3).mul_fraction(u32::MAX).as_nanos(), 2);
}
