use tempmon::text::{pad_left, push_decimal, push_fixed, rounded_div, trunc};

fn fixed(value: i64, unit: u64, one_decimal: bool) -> String {
    let mut s = String::new();
    push_fixed(&mut s, value, unit, one_decimal);
    s
}

#[test]
fn trunc_keeps_short_labels() {
    assert_eq!(trunc("abc", 5), "abc");
    assert_eq!(trunc("abcde", 5), "abcde");
    assert_eq!(trunc("", 0), "");
}

#[test]
fn trunc_cuts_long_labels_with_an_ellipsis() {
    assert_eq!(trunc("abcdefghij", 5), "abcd…");
    assert_eq!(trunc("abcdef", 1), "…");
    assert_eq!(trunc("Package id 0 temperature sensor", 20), "Package id 0 temper…");
}

#[test]
fn trunc_counts_bytes_not_characters() {
    // 'ç' takes two bytes: six bytes in all, cut after three.
    assert_eq!(trunc("çabcd", 4), "ça…");
    assert_eq!(trunc("çç", 4), "çç");
}

#[test]
fn trunc_result_has_at_most_max_characters() {
    for max in 1..12 {
        let r = trunc("abcdefghij", max);
        assert!(r.chars().count() <= max);
    }
}

#[test]
fn pad_left_right_aligns_by_characters() {
    assert_eq!(pad_left("45.5", 6), "  45.5");
    assert_eq!(pad_left("-120.5", 6), "-120.5");
    assert_eq!(pad_left("1234567", 6), "1234567");
    assert_eq!(pad_left("ğ", 3), "  ğ");
    assert_eq!(pad_left("", 2), "  ");
}

#[test]
fn decimal_notation() {
    let mut s = String::new();
    push_decimal(&mut s, 0);
    assert_eq!(s, "0");
    let mut s = "#".to_string();
    push_decimal(&mut s, 12345);
    assert_eq!(s, "#12345");
    let mut s = String::new();
    push_decimal(&mut s, u64::MAX);
    assert_eq!(s, "18446744073709551615");
}

#[test]
fn rounded_div_ties_to_even() {
    assert_eq!(rounded_div(5, 2), 2);
    assert_eq!(rounded_div(7, 2), 4);
    assert_eq!(rounded_div(6, 4), 2);
    assert_eq!(rounded_div(5, 4), 1);
    assert_eq!(rounded_div(0, 3), 0);
    assert_eq!(rounded_div(u64::MAX, 1), u64::MAX);
    assert_eq!(rounded_div(u64::MAX, 2), 1u64 << 63);
}

#[test]
fn one_decimal_from_thousandths() {
    assert_eq!(fixed(72_450, 100, true), "72.4");
    assert_eq!(fixed(72_550, 100, true), "72.6");
    assert_eq!(fixed(72_451, 100, true), "72.5");
    assert_eq!(fixed(45_000, 100, true), "45.0");
    assert_eq!(fixed(0, 100, true), "0.0");
    assert_eq!(fixed(5, 100, true), "0.0");
    assert_eq!(fixed(-40, 100, true), "-0.0");
    assert_eq!(fixed(-12_340, 100, true), "-12.3");
    assert_eq!(fixed(105_960, 100, true), "106.0");
}

#[test]
fn whole_degrees() {
    assert_eq!(fixed(50_000, 1000, false), "50");
    assert_eq!(fixed(50_500, 1000, false), "50");
    assert_eq!(fixed(51_500, 1000, false), "52");
    assert_eq!(fixed(105_000, 2000, false), "52");
    assert_eq!(fixed(i64::MIN, 1000, false), "-9223372036854776");
}

#[test]
fn cutting_twice_changes_nothing() {
    for (label, max) in [("abcdefghij", 5), ("çabcd", 4), ("abc", 5), ("abcdef", 1), ("Package id 0", 8)] {
        let once = trunc(label, max);
        assert_eq!(trunc(&once, max), once);
    }
}
