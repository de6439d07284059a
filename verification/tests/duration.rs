use unisecs::Duration;

#[test]
fn duration_new_carries_surplus_nanos() {
    let d = Duration::new(1, 1_500_000_000);
    assert_eq!(d.as_secs(), 2);
    assert_eq!(d.subsec_nanos(), 500_000_000);
}

#[test]
fn duration_from_secs_has_no_remainder() {
    let d = Duration::from_secs(1_545_136_342);
    assert_eq!(d.as_secs(), 1_545_136_342);
    assert_eq!(d.subsec_nanos(), 0);
}

#[test]
fn duration_checked_add_carries() {
    let sum = Duration::new(2, 800_000_000).checked_add(Duration::new(3, 700_000_000)).unwrap();
    assert_eq!(sum, Duration::new(6, 500_000_000));
}

#[test]
fn duration_checked_add_overflows_to_none() {
    let max = Duration::new(u64::MAX, 999_999_999);
    assert_eq!(max.checked_add(Duration::new(0, 1)), None);
    assert_eq!(Duration::from_secs(u64::MAX).checked_add(Duration::from_secs(1)), None);
    assert_eq!(max.checked_add(Duration::from_secs(0)), Some(max));
}

#[test]
fn duration_checked_sub_borrows() {
    let diff = Duration::new(6, 500_000_000).checked_sub(Duration::new(2, 800_000_000)).unwrap();
    assert_eq!(diff, Duration::new(3, 700_000_000));
}

#[test]
fn duration_checked_sub_underflows_to_none() {
    let d = Duration::new(2, 800_000_000);
    assert_eq!(d.checked_sub(Duration::new(2, 800_000_001)), None);
    assert_eq!(d.checked_sub(Duration::from_secs(3)), None);
    assert_eq!(d.checked_sub(d), Some(Duration::from_secs(0)));
}
