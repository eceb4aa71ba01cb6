use sql_generator::fields::{parse_i32, parse_i64};
use sql_generator::numeric::Numeric;
use sql_generator::text::trim;
use std::cmp::Ordering;

#[test]
fn test_from_str() {
    assert_eq!(Numeric::from_str("50", 2, 0), Some(Numeric::new(50, 2, 0)));
    assert_eq!(Numeric::from_str("-50", 2, 0), Some(Numeric::new(-50, 2, 0)));
    assert_eq!(Numeric::from_str("50.25", 4, 2), Some(Numeric::new(5025, 4, 2)));
    assert_eq!(Numeric::from_str("-50.25", 4, 2), Some(Numeric::new(-5025, 4, 2)));
    assert_eq!(Numeric::from_str("-50.250", 4, 2), Some(Numeric::new(-5025, 4, 2)));
    assert_eq!(Numeric::from_str("-50.25", 5, 3), Some(Numeric::new(-50250, 5, 3)));
    assert_eq!(Numeric::from_str("10.2.1", 4, 0), None);
    assert_eq!(Numeric::from_str("abc", 4, 0), None);
}

#[test]
fn from_str_keeps_len_and_precision() {
    let n = Numeric::from_str("-50.25", 5, 3).unwrap();
    assert_eq!(format!("{:?}", n), "Numeric { value: -50250, len: 5, precision: 3 }");
    assert_eq!(format!("{:?}", Numeric::new(7, 3, 1)), "Numeric { value: 7, len: 3, precision: 1 }");
}

#[test]
fn from_str_ignores_surrounding_white_space() {
    assert_eq!(Numeric::from_str("  50.25\t\n", 4, 2), Some(Numeric::new(5025, 4, 2)));
    assert_eq!(Numeric::from_str("\u{a0}7\u{2003}", 1, 0), Some(Numeric::new(7, 1, 0)));
    assert_eq!(Numeric::from_str("5 0", 2, 0), None);
}

#[test]
fn from_str_counts_digits() {
    assert_eq!(Numeric::from_str("123", 2, 0), None);
    assert_eq!(Numeric::from_str("12", 2, 0), Some(Numeric::new(12, 2, 0)));
    assert_eq!(Numeric::from_str("1.234", 4, 2), None);
    assert_eq!(Numeric::from_str("123.4", 4, 2), None);
    assert_eq!(Numeric::from_str("0.1234", 4, 4), None);
    assert_eq!(Numeric::from_str(".1234", 4, 4), Some(Numeric::new(1234, 4, 4)));
    assert_eq!(Numeric::from_str("007", 3, 0), Some(Numeric::new(7, 3, 0)));
}

#[test]
fn from_str_strips_zeros_only_after_a_point() {
    assert_eq!(Numeric::from_str("100", 3, 0), Some(Numeric::new(100, 3, 0)));
    assert_eq!(Numeric::from_str("1.00", 3, 2), Some(Numeric::new(100, 3, 2)));
    assert_eq!(Numeric::from_str("1.5000", 2, 1), Some(Numeric::new(15, 2, 1)));
    assert_eq!(Numeric::from_str("10.0", 2, 0), Some(Numeric::new(10, 2, 0)));
}

#[test]
fn from_str_edge_texts() {
    assert_eq!(Numeric::from_str("-", 2, 0), Some(Numeric::new(0, 2, 0)));
    assert_eq!(Numeric::from_str(".", 2, 1), Some(Numeric::new(0, 2, 1)));
    assert_eq!(Numeric::from_str("5.", 2, 1), Some(Numeric::new(50, 2, 1)));
    assert_eq!(Numeric::from_str("--5", 2, 0), None);
    assert_eq!(Numeric::from_str("+5", 2, 0), None);
    assert_eq!(Numeric::from_str("5-", 2, 0), None);
    assert_eq!(Numeric::from_str("\u{e9}1", 2, 0), None);
}

#[test]
fn from_str_value_must_fit() {
    assert_eq!(
        Numeric::from_str("9223372036854775807", 19, 0),
        Some(Numeric::new(9223372036854775807, 19, 0))
    );
    assert_eq!(Numeric::from_str("9223372036854775808", 19, 0), None);
    assert_eq!(Numeric::from_str("-9223372036854775808", 19, 0), None);
    assert_eq!(Numeric::from_str("99999999999999999999", 30, 0), None);
    assert_eq!(Numeric::from_str("1", 40, 30), None);
    assert_eq!(Numeric::from_str("0", 40, 30), Some(Numeric::new(0, 40, 30)));
    assert_eq!(
        Numeric::from_str("1", 19, 18),
        Some(Numeric::new(1000000000000000000, 19, 18))
    );
}

#[test]
fn try_from_str_is_total() {
    assert_eq!(Numeric::try_from_str("", 2, 0), None);
    assert_eq!(Numeric::try_from_str("  \t ", 2, 0), None);
    assert_eq!(Numeric::try_from_str("5", 1, 2), None);
    assert_eq!(Numeric::try_from_str(" 50.25 ", 4, 2), Some(Numeric::new(5025, 4, 2)));
    assert_eq!(Numeric::try_from_str("abc", 4, 0), None);
}

#[test]
fn from_chars_reads_trimmed_text() {
    let text: Vec<char> = "50.25".chars().collect();
    assert_eq!(Numeric::from_chars(&text, 4, 2), Some(Numeric::new(5025, 4, 2)));
    let spaced: Vec<char> = " 50".chars().collect();
    assert_eq!(Numeric::from_chars(&spaced, 4, 0), None);
}

#[test]
fn trim_removes_white_space_at_both_ends() {
    assert_eq!(trim("  a b \n"), vec!['a', ' ', 'b']);
    assert_eq!(trim("ab"), vec!['a', 'b']);
    assert_eq!(trim(" \t "), Vec::<char>::new());
    assert_eq!(trim(""), Vec::<char>::new());
}

#[test]
fn equality_ignores_len() {
    assert_eq!(Numeric::new(50, 2, 0), Numeric::new(50, 9, 0));
    assert_ne!(Numeric::new(50, 2, 0), Numeric::new(50, 2, 1));
    assert_ne!(Numeric::new(50, 2, 0), Numeric::new(51, 2, 0));
}

#[test]
fn cmp_at_equal_precision() {
    assert_eq!(Numeric::new(1, 2, 1).cmp(&Numeric::new(2, 2, 1)), Ordering::Less);
    assert_eq!(Numeric::new(2, 2, 1).cmp(&Numeric::new(2, 4, 1)), Ordering::Equal);
    assert_eq!(Numeric::new(3, 2, 1).cmp(&Numeric::new(2, 2, 1)), Ordering::Greater);
}

#[test]
fn cmp_scales_the_lower_precision() {
    // 1.5 against 1.25 and 1.75, the left operand of lower precision
    assert_eq!(Numeric::new(15, 2, 1).cmp(&Numeric::new(125, 3, 2)), Ordering::Greater);
    assert_eq!(Numeric::new(15, 2, 1).cmp(&Numeric::new(175, 3, 2)), Ordering::Less);
    assert_eq!(Numeric::new(15, 2, 1).cmp(&Numeric::new(150, 3, 2)), Ordering::Equal);
}

#[test]
fn cmp_with_higher_precision_on_the_left_orders_other_against_self() {
    // 1.25 against 1.5: 150 is compared with 125
    assert_eq!(Numeric::new(125, 3, 2).cmp(&Numeric::new(15, 2, 1)), Ordering::Greater);
    assert_eq!(Numeric::new(175, 3, 2).cmp(&Numeric::new(15, 2, 1)), Ordering::Less);
    assert_eq!(Numeric::new(150, 3, 2).cmp(&Numeric::new(15, 2, 1)), Ordering::Equal);
}

#[test]
fn add_aligns_precisions() {
    let sum = Numeric::new(15, 2, 1) + Numeric::new(125, 5, 2);
    assert_eq!(format!("{:?}", sum), "Numeric { value: 275, len: 5, precision: 2 }");
    let sum = Numeric::new(125, 5, 2) + Numeric::new(15, 2, 1);
    assert_eq!(format!("{:?}", sum), "Numeric { value: 275, len: 5, precision: 2 }");
    let sum = Numeric::new(-7, 1, 0) + Numeric::new(9, 4, 0);
    assert_eq!(format!("{:?}", sum), "Numeric { value: 2, len: 4, precision: 0 }");
}

#[test]
fn sub_aligns_precisions() {
    let d = Numeric::new(15, 2, 1) - Numeric::new(125, 5, 2);
    assert_eq!(format!("{:?}", d), "Numeric { value: 25, len: 5, precision: 2 }");
    let d = Numeric::new(125, 5, 2) - Numeric::new(15, 2, 1);
    assert_eq!(format!("{:?}", d), "Numeric { value: -25, len: 5, precision: 2 }");
    let d = Numeric::new(5, 1, 0) - Numeric::new(7, 1, 0);
    assert_eq!(format!("{:?}", d), "Numeric { value: -2, len: 1, precision: 0 }");
}

#[test]
fn mul_shifts_the_product() {
    let p = Numeric::new(3, 1, 0) * Numeric::new(4, 2, 0);
    assert_eq!(format!("{:?}", p), "Numeric { value: 12, len: 2, precision: 0 }");
    // lower precision on the left: shifted by the difference of the precisions
    let p = Numeric::new(3, 1, 0) * Numeric::new(25, 3, 2);
    assert_eq!(format!("{:?}", p), "Numeric { value: 7500, len: 3, precision: 2 }");
    // higher precision on the left: shifted by the product of the precisions
    let p = Numeric::new(25, 3, 2) * Numeric::new(3, 1, 1);
    assert_eq!(format!("{:?}", p), "Numeric { value: 7500, len: 3, precision: 2 }");
    let p = Numeric::new(25, 3, 2) * Numeric::new(3, 1, 0);
    assert_eq!(format!("{:?}", p), "Numeric { value: 75, len: 3, precision: 2 }");
}

#[test]
fn parse_i32_reads_signed_decimal_integers() {
    assert_eq!(parse_i32("0"), Some(0));
    assert_eq!(parse_i32("42"), Some(42));
    assert_eq!(parse_i32("-42"), Some(-42));
    assert_eq!(parse_i32("+42"), Some(42));
    assert_eq!(parse_i32("007"), Some(7));
    assert_eq!(parse_i32("2147483647"), Some(2147483647));
    assert_eq!(parse_i32("-2147483648"), Some(-2147483648));
    assert_eq!(parse_i32("2147483648"), None);
    assert_eq!(parse_i32("-2147483649"), None);
    assert_eq!(parse_i32(""), None);
    assert_eq!(parse_i32("-"), None);
    assert_eq!(parse_i32("+"), None);
    assert_eq!(parse_i32(" 1"), None);
    assert_eq!(parse_i32("1 "), None);
    assert_eq!(parse_i32("1_000"), None);
    assert_eq!(parse_i32("12a"), None);
}

#[test]
fn parse_i32_agrees_with_the_standard_library() {
    for text in ["0", "-0", "+0", "17", "-17", "+17", "", "-", "+", "--1", "1.0", "99999999999", "0000000000000000000001"] {
        assert_eq!(parse_i32(text), text.parse::<i32>().ok());
        assert_eq!(parse_i64(text), text.parse::<i64>().ok());
    }
}

#[test]
fn parse_i64_reads_the_whole_range() {
    assert_eq!(parse_i64("9223372036854775807"), Some(9223372036854775807));
    assert_eq!(parse_i64("-9223372036854775808"), Some(-9223372036854775808));
    assert_eq!(parse_i64("9223372036854775808"), None);
    assert_eq!(parse_i64("-9223372036854775809"), None);
    assert_eq!(parse_i64("123456789012345678901234567890"), None);
}

#[test]
fn derived_order_compares_value_then_len_then_precision() {
    assert!(Numeric::new(1, 9, 9) < Numeric::new(2, 0, 0));
    assert!(Numeric::new(1, 2, 9) < Numeric::new(1, 3, 0));
    assert!(Numeric::new(1, 2, 1) < Numeric::new(1, 2, 2));
    assert!(Numeric::new(5, 2, 0) > Numeric::new(4, 2, 0));
}
