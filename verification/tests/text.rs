use std::sync::Arc;
use harborz::decimal::{decimal, decimal_padded, digit_count, signed_decimal};
use harborz::util::{format_pad, or_none, or_none_arc, Plural, NONE};

#[test]
fn decimal_renders_digits() {
    assert_eq!(decimal(0), "0");
    assert_eq!(decimal(7), "7");
    assert_eq!(decimal(1234567890), "1234567890");
    assert_eq!(decimal(u64::MAX), "18446744073709551615");
}

#[test]
fn decimal_padded_adds_leading_zeros() {
    assert_eq!(decimal_padded(5, 2), "05");
    assert_eq!(decimal_padded(5, 0), "5");
    assert_eq!(decimal_padded(123, 2), "123");
    assert_eq!(decimal_padded(0, 3), "000");
}

#[test]
fn signed_decimal_renders_sign() {
    assert_eq!(signed_decimal(-42), "-42");
    assert_eq!(signed_decimal(42), "42");
    assert_eq!(signed_decimal(i64::MIN), "-9223372036854775808");
}

#[test]
fn digit_count_counts_digits() {
    assert_eq!(digit_count(0), 1);
    assert_eq!(digit_count(9), 1);
    assert_eq!(digit_count(10), 2);
    assert_eq!(digit_count(u64::MAX), 20);
}

#[test]
fn format_shows_minutes_and_seconds() {
    assert_eq!(harborz::util::format(0), "0:00");
    assert_eq!(harborz::util::format(61_000_000_000), "1:01");
    assert_eq!(harborz::util::format(61_999_999_999), "1:01");
    assert_eq!(harborz::util::format(3_600_000_000_000), "60:00");
}

#[test]
fn format_pad_pads_minutes() {
    assert_eq!(format_pad(5_000_000_000, 2), "00:05");
    assert_eq!(format_pad(600_000_000_000, 1), "10:00");
    assert_eq!(format_pad(59_000_000_000, 3), "000:59");
}

#[test]
fn or_none_falls_back() {
    assert_eq!(or_none(&Some(String::from("Opeth"))), "Opeth");
    assert_eq!(or_none(&None), NONE);
}

#[test]
fn or_none_arc_falls_back() {
    let found = Arc::new(String::from("Blackwater Park"));
    assert!(Arc::ptr_eq(&or_none_arc(Some(found.clone())), &found));
    assert_eq!(*or_none_arc(None), NONE);
}

#[test]
fn plural_of_usize() {
    assert_eq!(1usize.plural("Song"), "Song");
    assert_eq!(0usize.plural("Song"), "Songs");
    assert_eq!(2usize.plural("Song"), "Songs");
    assert_eq!(1usize.number_plural("Artist"), "1 Artist");
    assert_eq!(12usize.number_plural("Artist"), "12 Artists");
}

#[test]
fn plural_of_i64() {
    assert_eq!(1i64.plural("Album"), "Album");
    assert_eq!((-1i64).plural("Album"), "Albums");
    assert_eq!(3i64.number_plural("Album"), "3 Albums");
    assert_eq!((-3i64).number_plural("Album"), "-3 Albums");
}
