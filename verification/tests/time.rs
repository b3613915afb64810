use chrono::{DateTime, Utc};
use opengraph::article::Timestamp;

fn text(secs: i64, nanos: u32) -> String {
    Timestamp::new(secs, nanos).unwrap().to_rfc3339()
}

#[test]
fn epoch_is_written_in_utc() {
    assert_eq!(text(0, 0), "1970-01-01T00:00:00+00:00");
}

#[test]
fn timestamp_keeps_its_numbers() {
    let time = Timestamp::new(1671435597, 250).unwrap();
    assert_eq!(time.secs(), 1671435597);
    assert_eq!(time.nanos(), 250);
}

#[test]
fn whole_seconds_have_no_fraction() {
    assert_eq!(text(1671435597, 0), "2022-12-19T07:39:57+00:00");
    assert_eq!(text(1678587933, 0), "2023-03-12T02:25:33+00:00");
    assert_eq!(text(1714662000, 0), "2024-05-02T15:00:00+00:00");
    assert_eq!(text(1431648000, 0), "2015-05-15T00:00:00+00:00");
}

#[test]
fn seconds_before_the_epoch_count_backwards() {
    assert_eq!(text(-1, 0), "1969-12-31T23:59:59+00:00");
    assert_eq!(text(-62135596800, 0), "0001-01-01T00:00:00+00:00");
}

#[test]
fn fraction_has_three_six_or_nine_digits() {
    assert_eq!(text(0, 500_000_000), "1970-01-01T00:00:00.500+00:00");
    assert_eq!(text(0, 1_000), "1970-01-01T00:00:00.000001+00:00");
    assert_eq!(text(0, 1), "1970-01-01T00:00:00.000000001+00:00");
}

#[test]
fn leap_second_is_second_sixty() {
    assert_eq!(text(59, 1_500_000_000), "1970-01-01T00:00:60.500+00:00");
    assert_eq!(text(-1, 1_000_000_000), "1969-12-31T23:59:60+00:00");
}

#[test]
fn nanoseconds_of_a_leap_second_need_second_fifty_nine() {
    assert!(Timestamp::new(0, 999_999_999).is_some());
    assert!(Timestamp::new(0, 1_000_000_000).is_none());
    assert!(Timestamp::new(58, 1_000_000_000).is_none());
    assert!(Timestamp::new(59, 1_999_999_999).is_some());
    assert!(Timestamp::new(59, 2_000_000_000).is_none());
    assert!(Timestamp::new(0, u32::MAX).is_none());
}

#[test]
fn years_beyond_four_digits_carry_a_sign() {
    assert_eq!(text(253402300799, 0), "9999-12-31T23:59:59+00:00");
    assert_eq!(text(253402300800, 0), "+10000-01-01T00:00:00+00:00");
    assert_eq!(text(-62135596801, 0), "0000-12-31T23:59:59+00:00");
}

#[test]
fn instants_out_of_range_are_refused() {
    assert_eq!(
        text(8210266876799, 999_999_999),
        "+262142-12-31T23:59:59.999999999+00:00"
    );
    assert!(Timestamp::new(8210266876800, 0).is_none());
    assert_eq!(text(-8334601228800, 0), "-262143-01-01T00:00:00+00:00");
    assert!(Timestamp::new(-8334601228801, 0).is_none());
    assert!(Timestamp::new(i64::MAX, 0).is_none());
    assert!(Timestamp::new(i64::MIN, 0).is_none());
}

#[test]
fn timestamp_agrees_with_a_parsed_instant() {
    let parsed: DateTime<Utc> = "2022-12-19T16:39:57.125+09:00".parse().unwrap();
    let time = Timestamp::new(parsed.timestamp(), parsed.timestamp_subsec_nanos()).unwrap();
    assert_eq!(time.to_rfc3339(), parsed.to_rfc3339());
    assert_eq!(time.to_rfc3339(), "2022-12-19T07:39:57.125+00:00");
}

#[test]
fn formatting_twice_gives_the_same_text() {
    let time = Timestamp::new(1671435597, 5).unwrap();
    assert_eq!(time.to_rfc3339(), time.to_rfc3339());
}
