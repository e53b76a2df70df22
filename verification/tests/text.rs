use ars_webclient::text::{decimal_string, format_signed};

#[test]
fn positive_numbers_get_a_plus_sign() {
    assert_eq!(format_signed(1), "+1");
    assert_eq!(format_signed(9), "+9");
    assert_eq!(format_signed(10), "+10");
    assert_eq!(format_signed(25), "+25");
    assert_eq!(format_signed(i32::MAX), "+2147483647");
}

#[test]
fn zero_is_written_without_a_sign() {
    assert_eq!(format_signed(0), "0");
}

#[test]
fn negative_numbers_are_written_plainly() {
    assert_eq!(format_signed(-1), "-1");
    assert_eq!(format_signed(-3), "-3");
    assert_eq!(format_signed(-100), "-100");
    assert_eq!(format_signed(i32::MIN), "-2147483648");
}

#[test]
fn signed_form_agrees_with_the_standard_library() {
    for v in [-1000, -11, -10, -9, -1, 0, 1, 9, 10, 11, 99, 100, 101, 1000, 65535] {
        let expected = if v > 0 { format!("+{}", v) } else { format!("{}", v) };
        assert_eq!(format_signed(v), expected);
    }
}

#[test]
fn plus_sign_exactly_for_positive_numbers() {
    for v in [i32::MIN, -7, -1, 0, 1, 7, i32::MAX] {
        assert_eq!(format_signed(v).starts_with('+'), v > 0);
        let plain = decimal_string(v as i128);
        if v > 0 {
            assert_eq!(format_signed(v), format!("+{}", plain));
        } else {
            assert_eq!(format_signed(v), plain);
        }
    }
}

#[test]
fn decimal_form_of_small_numbers() {
    assert_eq!(decimal_string(0), "0");
    assert_eq!(decimal_string(7), "7");
    assert_eq!(decimal_string(-8), "-8");
    assert_eq!(decimal_string(10), "10");
    assert_eq!(decimal_string(1234567890), "1234567890");
}

#[test]
fn decimal_form_has_no_leading_zeros() {
    assert_eq!(decimal_string(100), "100");
    assert_eq!(decimal_string(1001), "1001");
    assert_eq!(decimal_string(-1000), "-1000");
}

#[test]
fn decimal_form_of_the_extremes() {
    assert_eq!(decimal_string(i128::MAX), "170141183460469231731687303715884105727");
    assert_eq!(decimal_string(i128::MIN), "-170141183460469231731687303715884105728");
    assert_eq!(decimal_string(i64::MAX as i128), "9223372036854775807");
    assert_eq!(decimal_string(i64::MIN as i128), "-9223372036854775808");
}

#[test]
fn decimal_form_agrees_with_the_standard_library() {
    let mut v: i128 = 1;
    for _ in 0..60 {
        assert_eq!(decimal_string(v), v.to_string());
        assert_eq!(decimal_string(-v), (-v).to_string());
        assert_eq!(decimal_string(v - 1), (v - 1).to_string());
        v *= 3;
    }
}
