use bevy_mod_time_travel::duration::Duration;

#[test]
fn duration_parts() {
    let d = Duration::new(3, 250);
    assert_eq!(d.as_secs(), 3);
    assert_eq!(d.subsec_nanos(), 250);
    assert_eq!(d.as_nanos(), 3_000_000_250);
    assert_eq!(Duration::from_secs(2).as_nanos(), 2_000_000_000);
    assert_eq!(Duration::zero().as_nanos(), 0);
    assert_eq!(Duration::default(), Duration::zero());
}

#[test]
fn duration_saturating_arithmetic() {
    let a = Duration::from_secs(5);
    let b = Duration::from_secs(7);
    assert_eq!(b.saturating_sub(a), Duration::from_secs(2));
    assert_eq!(a.saturating_sub(b), Duration::zero());
    assert_eq!(a.saturating_add(b), Duration::from_secs(12));
    let max = Duration::new(u64::MAX, 999_999_999);
    assert_eq!(max.saturating_add(a), max);
    assert_eq!(a.checked_add(b), Some(Duration::from_secs(12)));
    assert_eq!(max.checked_add(Duration::new(0, 1)), None);
}

#[test]
fn duration_comparisons() {
    let a = Duration::new(1, 5);
    let b = Duration::new(1, 6);
    assert!(a.lt(&b));
    assert!(!b.lt(&a));
    assert!(a.le(&a));
    assert!(a.same(&Duration::new(1, 5)));
    assert!(!a.same(&b));
}

#[test]
fn duration_order_and_ranges() {
    let a = Duration::from_secs(1);
    let b = Duration::from_secs(2);
    assert!(a < b);
    assert!(b >= a);
    assert!((a..=b).contains(&Duration::new(1, 500)));
    assert!(!(a..=b).contains(&Duration::from_secs(3)));
}
