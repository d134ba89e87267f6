use race_bot::text::{
    finished_notice, forfeited_notice, make_nice_time, nth, push_decimal, sentence,
};
use race_bot::time::Span;

#[test]
fn nice_time_of_nothing_is_all_zeros() {
    assert_eq!(make_nice_time(Span::from_secs(0)), "00:00:00");
}

#[test]
fn nice_time_pads_each_part_to_two_digits() {
    assert_eq!(make_nice_time(Span::from_secs(9)), "00:00:09");
    assert_eq!(make_nice_time(Span::from_secs(59)), "00:00:59");
    assert_eq!(make_nice_time(Span::from_secs(60)), "00:01:00");
    assert_eq!(make_nice_time(Span::from_secs(3599)), "00:59:59");
    assert_eq!(make_nice_time(Span::from_secs(3600)), "01:00:00");
}

#[test]
fn nice_time_of_an_hour_two_minutes_five_seconds() {
    assert_eq!(make_nice_time(Span::from_secs(3725)), "01:02:05");
}

#[test]
fn nice_time_runs_past_a_day() {
    assert_eq!(make_nice_time(Span::from_secs(90000)), "25:00:00");
    assert_eq!(make_nice_time(Span::from_secs(86399)), "23:59:59");
    assert_eq!(make_nice_time(Span::from_secs(86400)), "24:00:00");
}

#[test]
fn nice_time_takes_hours_of_three_digits_and_more() {
    assert_eq!(make_nice_time(Span::from_secs(360000)), "100:00:00");
    assert_eq!(make_nice_time(Span::from_secs(3600 * 12345 + 61)), "12345:01:01");
}

#[test]
fn nice_time_of_the_longest_span_of_whole_seconds() {
    assert_eq!(make_nice_time(Span::from_secs(u64::MAX)), "5124095576030431:00:15");
}

#[test]
fn nice_time_drops_what_is_left_of_a_second() {
    assert_eq!(make_nice_time(Span { nanos: 999_999_999 }), "00:00:00");
    assert_eq!(make_nice_time(Span { nanos: 1_000_000_000 }), "00:00:01");
    assert_eq!(make_nice_time(Span { nanos: 1_999_999_999 }), "00:00:01");
    assert_eq!(make_nice_time(Span { nanos: 3_725_500_000_000 }), "01:02:05");
}

#[test]
fn ordinals_take_their_english_endings() {
    assert_eq!(nth(1), "1st");
    assert_eq!(nth(2), "2nd");
    assert_eq!(nth(3), "3rd");
    assert_eq!(nth(4), "4th");
    assert_eq!(nth(11), "11th");
    assert_eq!(nth(12), "12th");
    assert_eq!(nth(13), "13th");
    assert_eq!(nth(21), "21st");
    assert_eq!(nth(111), "111th");
}

#[test]
fn ordinals_from_eleven_to_thirteen_in_every_hundred_end_in_th() {
    assert_eq!(nth(112), "112th");
    assert_eq!(nth(113), "113th");
    assert_eq!(nth(211), "211th");
    assert_eq!(nth(1012), "1012th");
    assert_eq!(nth(10013), "10013th");
}

#[test]
fn ordinals_elsewhere_go_by_the_last_digit() {
    assert_eq!(nth(0), "0th");
    assert_eq!(nth(5), "5th");
    assert_eq!(nth(10), "10th");
    assert_eq!(nth(14), "14th");
    assert_eq!(nth(20), "20th");
    assert_eq!(nth(22), "22nd");
    assert_eq!(nth(23), "23rd");
    assert_eq!(nth(24), "24th");
    assert_eq!(nth(100), "100th");
    assert_eq!(nth(101), "101st");
    assert_eq!(nth(102), "102nd");
    assert_eq!(nth(103), "103rd");
    assert_eq!(nth(121), "121st");
    assert_eq!(nth(1001), "1001st");
}

#[test]
fn push_decimal_appends_the_digits() {
    let mut text = String::from("n=");
    push_decimal(&mut text, 0);
    assert_eq!(text, "n=0");
    push_decimal(&mut text, 7);
    push_decimal(&mut text, 10);
    push_decimal(&mut text, 9876543210);
    assert_eq!(text, "n=07109876543210");
}

#[test]
fn push_decimal_writes_the_largest_number() {
    let mut text = String::new();
    push_decimal(&mut text, u128::MAX);
    assert_eq!(text, "340282366920938463463374607431768211455");
}

#[test]
fn sentence_puts_the_name_first() {
    assert_eq!(sentence("<@42>", " left the race."), "<@42> left the race.");
    assert_eq!(sentence("", "x"), "x");
}

#[test]
fn finished_notice_names_place_and_time() {
    assert_eq!(
        finished_notice("<@42>", 1, Span::from_secs(3725)),
        "<@42> finished in 1st place with a time of 01:02:05!"
    );
    assert_eq!(
        finished_notice("Bo", 12, Span::from_secs(90000)),
        "Bo finished in 12th place with a time of 25:00:00!"
    );
    assert_eq!(
        finished_notice("Cy", 23, Span { nanos: 59_999_999_999 }),
        "Cy finished in 23rd place with a time of 00:00:59!"
    );
}

#[test]
fn forfeited_notice_names_the_time() {
    assert_eq!(forfeited_notice("<@42>", Span::from_secs(61)), "<@42> forfeit at 00:01:01!");
}
