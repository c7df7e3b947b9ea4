use dark_phoenix::stamp::{fresh_id, Timestamp, RANDOM_ID_MASK, RANDOM_ID_TAG};
use dark_phoenix::text::{digit_str, push_decimal, push_one_decimal, push_whole, same_text};

#[test]
fn whole_seconds_round_towards_minus_infinity() {
    assert_eq!(Timestamp::from_millis(0).seconds(), 0);
    assert_eq!(Timestamp::from_millis(999).seconds(), 0);
    assert_eq!(Timestamp::from_millis(1000).seconds(), 1);
    assert_eq!(Timestamp::from_millis(1999).seconds(), 1);
    assert_eq!(Timestamp::from_millis(-1).seconds(), -1);
    assert_eq!(Timestamp::from_millis(-1000).seconds(), -1);
    assert_eq!(Timestamp::from_millis(-1001).seconds(), -2);
    assert_eq!(Timestamp::from_millis(i64::MAX).seconds(), 9_223_372_036_854_775);
    assert_eq!(Timestamp::from_millis(i64::MIN).seconds(), -9_223_372_036_854_776);
}

#[test]
fn elapsed_time_is_a_plain_difference() {
    let early = Timestamp::from_millis(1_000);
    let late = Timestamp::from_millis(31_000);
    assert_eq!(late.millis_since(&early), 30_000);
    assert_eq!(early.millis_since(&late), -30_000);
    assert_eq!(early.millis_since(&early), 0);
    let first = Timestamp::from_millis(i64::MIN);
    let last = Timestamp::from_millis(i64::MAX);
    assert_eq!(last.millis_since(&first), u64::MAX as i128);
    assert_eq!(first.millis_since(&last), -(u64::MAX as i128));
}

#[test]
fn the_clock_reads_a_time_after_the_epoch() {
    let first = Timestamp::now();
    let second = Timestamp::now();
    assert!(first.millis >= 0);
    // Later than 2020-09-13, when the epoch time passed 1.6e12 ms.
    assert!(first.millis > 1_600_000_000_000);
    assert!(second.millis_since(&first).abs() < 60_000);
    let reference = chrono::Utc::now().timestamp_millis();
    assert!((reference - second.millis).abs() < 60_000);
}

#[test]
fn fresh_identifiers_are_random_uuids() {
    let first = fresh_id();
    let second = fresh_id();
    assert_ne!(first, second);
    for id in [first, second] {
        assert_eq!(id & RANDOM_ID_MASK, RANDOM_ID_TAG);
        let uuid = uuid::Uuid::from_u128(id);
        assert_eq!(uuid.get_version_num(), 4);
        assert_eq!(uuid.get_variant(), uuid::Variant::RFC4122);
    }
}

fn decimal_string(n: u64) -> String {
    let mut out = String::new();
    push_decimal(&mut out, n);
    out
}

#[test]
fn decimal_numerals() {
    assert_eq!(decimal_string(0), "0");
    assert_eq!(decimal_string(7), "7");
    assert_eq!(decimal_string(10), "10");
    assert_eq!(decimal_string(60), "60");
    assert_eq!(decimal_string(12_345), "12345");
    assert_eq!(decimal_string(u64::MAX), "18446744073709551615");
    for d in 0..10u8 {
        assert_eq!(digit_str(d), d.to_string());
    }
    let mut out = String::from("n=");
    push_decimal(&mut out, 4096);
    assert_eq!(out, "n=4096");
}

fn whole_of(thousandths: i64) -> String {
    let mut out = String::new();
    push_whole(&mut out, thousandths);
    out
}

fn one_decimal_of(thousandths: i64) -> String {
    let mut out = String::new();
    push_one_decimal(&mut out, thousandths);
    out
}

#[test]
fn whole_numbers_round_half_away_from_zero() {
    assert_eq!(whole_of(0), "0");
    assert_eq!(whole_of(499), "0");
    assert_eq!(whole_of(500), "1");
    assert_eq!(whole_of(145_499), "145");
    assert_eq!(whole_of(145_500), "146");
    assert_eq!(whole_of(150_000), "150");
    assert_eq!(whole_of(-499), "-0");
    assert_eq!(whole_of(-500), "-1");
    assert_eq!(whole_of(-2_500), "-3");
    assert_eq!(whole_of(i64::MAX), "9223372036854776");
    assert_eq!(whole_of(i64::MIN), "-9223372036854776");
}

#[test]
fn one_decimal_rounds_half_away_from_zero() {
    assert_eq!(one_decimal_of(0), "0.0");
    assert_eq!(one_decimal_of(49), "0.0");
    assert_eq!(one_decimal_of(50), "0.1");
    assert_eq!(one_decimal_of(20_000), "20.0");
    assert_eq!(one_decimal_of(22_449), "22.4");
    assert_eq!(one_decimal_of(22_450), "22.5");
    assert_eq!(one_decimal_of(99_950), "100.0");
    assert_eq!(one_decimal_of(-40), "-0.0");
    assert_eq!(one_decimal_of(-12_350), "-12.4");
    assert_eq!(one_decimal_of(i64::MAX), "9223372036854775.8");
    assert_eq!(one_decimal_of(i64::MIN), "-9223372036854775.8");
}

#[test]
fn texts_compare_by_their_characters() {
    assert!(same_text("anomaly", "anomaly"));
    assert!(same_text("", ""));
    assert!(!same_text("anomaly", "Anomaly"));
    assert!(!same_text("weapon", "weapon_drawn"));
    assert!(!same_text("", " "));
}
