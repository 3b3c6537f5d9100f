use token_player::time::Span;
use token_player::time::MAX_NANOS;

#[test]
fn spans_are_built_from_every_unit() {
    assert_eq!(Span::zero().as_nanos(), 0);
    assert_eq!(Span::from_secs(3).as_nanos(), 3_000_000_000);
    assert_eq!(Span::from_millis(7).as_nanos(), 7_000_000);
    assert_eq!(Span::from_micros(9).as_nanos(), 9_000);
    assert_eq!(Span::from_micros_wide(9).as_nanos(), 9_000);
    assert_eq!(Span::new(2, 500_000_000).as_nanos(), 2_500_000_000);
    assert_eq!(Span::new(u64::MAX, 999_999_999).as_nanos(), MAX_NANOS);
    assert_eq!(Span::from_millis(u64::MAX).as_millis(), u64::MAX as u128);
}

#[test]
fn spans_are_read_in_every_unit() {
    let s = Span::new(12, 345_678_901);
    assert_eq!(s.as_secs(), 12);
    assert_eq!(s.subsec_nanos(), 345_678_901);
    assert_eq!(s.as_millis(), 12_345);
    assert_eq!(s.as_micros(), 12_345_678);
    assert_eq!(s.as_nanos(), 12_345_678_901);
}

#[test]
fn subtraction_knows_when_nothing_is_left() {
    let a = Span::from_millis(100);
    let b = Span::from_millis(30);
    assert_eq!(a.checked_sub(b), Some(Span::from_millis(70)));
    assert_eq!(b.checked_sub(a), None);
    assert_eq!(a.checked_sub(a), Some(Span::zero()));
    assert_eq!(a.saturating_sub(b), Span::from_millis(70));
    assert_eq!(b.saturating_sub(a), Span::zero());
}

#[test]
fn addition_stops_at_the_longest_span() {
    let a = Span::from_millis(100);
    assert_eq!(a.checked_add(Span::from_millis(1)), Some(Span::from_millis(101)));
    let longest = Span::new(u64::MAX, 999_999_999);
    assert_eq!(longest.checked_add(Span::new(0, 1)), None);
    assert_eq!(longest.checked_add(Span::zero()), Some(longest));
}

#[test]
fn division_rounds_down() {
    assert_eq!(Span::from_secs(60).div(10), Span::from_secs(6));
    assert_eq!(Span::from_micros(1).div(3).as_nanos(), 333);
    assert_eq!(Span::zero().div(7), Span::zero());
}

#[test]
fn min_picks_the_shorter() {
    let a = Span::from_secs(6);
    let b = Span::from_secs(60);
    assert_eq!(a.min(b), a);
    assert_eq!(b.min(a), a);
    assert_eq!(a.min(a), a);
}
