use ownership_demo::decimal::{push_decimal, signed_decimal, unsigned_decimal};

#[test]
fn unsigned_zero_is_a_single_digit() {
    assert_eq!(unsigned_decimal(0), "0");
}

#[test]
fn unsigned_single_digits() {
    let expected = ["0", "1", "2", "3", "4", "5", "6", "7", "8", "9"];
    for (n, text) in expected.iter().enumerate() {
        assert_eq!(unsigned_decimal(n as u64), *text);
    }
}

#[test]
fn unsigned_keeps_inner_and_trailing_zeros() {
    assert_eq!(unsigned_decimal(10), "10");
    assert_eq!(unsigned_decimal(100), "100");
    assert_eq!(unsigned_decimal(1005), "1005");
    assert_eq!(unsigned_decimal(90210), "90210");
}

#[test]
fn unsigned_digits_come_most_significant_first() {
    assert_eq!(unsigned_decimal(12), "12");
    assert_eq!(unsigned_decimal(1234567890), "1234567890");
}

#[test]
fn unsigned_largest_value() {
    assert_eq!(unsigned_decimal(u64::MAX), "18446744073709551615");
}

#[test]
fn unsigned_agrees_with_std_formatting() {
    let mut n: u64 = 1;
    for _ in 0..64 {
        assert_eq!(unsigned_decimal(n), format!("{}", n));
        assert_eq!(unsigned_decimal(n - 1), format!("{}", n - 1));
        n = n.wrapping_mul(2);
    }
}

#[test]
fn signed_non_negative_has_no_sign() {
    assert_eq!(signed_decimal(0), "0");
    assert_eq!(signed_decimal(2), "2");
    assert_eq!(signed_decimal(127), "127");
    assert_eq!(signed_decimal(i64::MAX), "9223372036854775807");
}

#[test]
fn signed_negative_has_a_minus_sign() {
    assert_eq!(signed_decimal(-1), "-1");
    assert_eq!(signed_decimal(-7), "-7");
    assert_eq!(signed_decimal(-128), "-128");
    assert_eq!(signed_decimal(-2147483648), "-2147483648");
}

#[test]
fn signed_smallest_value() {
    assert_eq!(signed_decimal(i64::MIN), "-9223372036854775808");
}

#[test]
fn signed_agrees_with_std_formatting() {
    for n in -1100i64..1100 {
        assert_eq!(signed_decimal(n), format!("{}", n));
    }
}

#[test]
fn push_decimal_appends_after_what_is_there() {
    let mut out = String::from("n = ");
    push_decimal(&mut out, 405);
    assert_eq!(out, "n = 405");
    push_decimal(&mut out, 0);
    assert_eq!(out, "n = 4050");
}

#[test]
fn push_decimal_on_empty_string() {
    let mut out = String::new();
    push_decimal(&mut out, 73);
    assert_eq!(out, "73");
}

#[test]
fn digits_read_back_as_the_number() {
    for n in [0u64, 1, 9, 10, 11, 99, 100, 101, 4096, 999_999, u64::MAX] {
        let text = unsigned_decimal(n);
        let mut value: u128 = 0;
        for c in text.chars() {
            assert!(c.is_ascii_digit());
            value = value * 10 + u128::from(c.to_digit(10).unwrap());
        }
        assert_eq!(value, u128::from(n));
    }
}

#[test]
fn no_leading_zero_but_for_zero_itself() {
    for n in [1u64, 7, 10, 20, 300, 1000, 50_000] {
        assert!(!unsigned_decimal(n).starts_with('0'));
    }
    assert!(unsigned_decimal(0).starts_with('0'));
}

#[test]
fn different_integers_have_different_texts() {
    let values = [-100i64, -11, -10, -1, 0, 1, 10, 11, 100];
    for a in values {
        for b in values {
            assert_eq!(signed_decimal(a) == signed_decimal(b), a == b);
        }
    }
}
