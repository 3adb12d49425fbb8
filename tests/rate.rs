use elements_swap::rate::{fixed_rate, Rate, Service};

#[test]
fn rate_needs_positive_parts() {
    assert!(Rate::new(0, 1).is_none());
    assert!(Rate::new(1, 0).is_none());
    let r = Rate::new(3, 2).unwrap();
    assert_eq!((r.numerator(), r.denominator()), (3, 2));
}

#[test]
fn convert_rounds_down() {
    let r = Rate::new(3, 2).unwrap();
    assert_eq!(r.convert(5), Some(7));
    assert_eq!(r.convert(0), Some(0));
    let r = Rate::new(19_000, 1).unwrap();
    assert_eq!(r.convert(100_000_000), Some(1_900_000_000_000));
}

#[test]
fn convert_reports_overflow() {
    let r = Rate::new(2, 1).unwrap();
    assert_eq!(r.convert(u64::MAX), None);
    let r = Rate::new(u64::MAX, u64::MAX).unwrap();
    assert_eq!(r.convert(u64::MAX), Some(u64::MAX));
}

#[test]
fn fixed_rate_is_one() {
    let r = fixed_rate();
    assert_eq!((r.numerator(), r.denominator()), (1, 1));
    assert_eq!(Service.latest_rate(), r);
    assert_eq!(r.convert(100_000_000), Some(100_000_000));
}
