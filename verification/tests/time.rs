use race_bot::time::{Span, Timestamp, NANOS_PER_SEC};

#[test]
fn a_second_has_a_billion_nanoseconds() {
    assert_eq!(NANOS_PER_SEC, 1_000_000_000);
    assert_eq!(Span::from_secs(1).nanos, 1_000_000_000);
    assert_eq!(Timestamp::from_secs(3).nanos, 3_000_000_000);
}

#[test]
fn from_secs_takes_every_number_of_seconds() {
    assert_eq!(Span::from_secs(u64::MAX).nanos, u64::MAX as u128 * 1_000_000_000);
    assert_eq!(Span::from_secs(u64::MAX).whole_secs(), u64::MAX as u128);
    assert_eq!(Timestamp::from_secs(u64::MAX).nanos, u64::MAX as u128 * 1_000_000_000);
}

#[test]
fn since_is_the_difference_of_two_readings() {
    let start = Timestamp { nanos: 2_500_000_000 };
    let end = Timestamp { nanos: 6_250_000_000 };
    assert_eq!(end.since(start), Span { nanos: 3_750_000_000 });
    assert_eq!(end.since(end), Span { nanos: 0 });
}

#[test]
fn since_a_later_reading_is_empty() {
    let start = Timestamp { nanos: 2_500_000_000 };
    let end = Timestamp { nanos: 6_250_000_000 };
    assert_eq!(start.since(end), Span { nanos: 0 });
}

#[test]
fn whole_secs_drops_what_is_left_of_a_second() {
    assert_eq!(Span { nanos: 0 }.whole_secs(), 0);
    assert_eq!(Span { nanos: 999_999_999 }.whole_secs(), 0);
    assert_eq!(Span { nanos: 1_000_000_000 }.whole_secs(), 1);
    assert_eq!(Span { nanos: 3_750_000_000 }.whole_secs(), 3);
    assert_eq!(Span { nanos: u128::MAX }.whole_secs(), u128::MAX / 1_000_000_000);
}

#[test]
fn elapsed_seconds_are_cut_after_subtracting() {
    let start = Timestamp { nanos: 900_000_000 };
    let end = Timestamp { nanos: 1_100_000_000 };
    assert_eq!(end.since(start).whole_secs(), 0);
    let end = Timestamp { nanos: 1_900_000_000 };
    assert_eq!(end.since(start).whole_secs(), 1);
}
