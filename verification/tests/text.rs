use records::text::{bool_str, integer_to_string, push_integer};

#[test]
fn zero_is_a_single_digit() {
    assert_eq!(integer_to_string(0), "0");
}

#[test]
fn single_digits_have_one_character() {
    assert_eq!(integer_to_string(1), "1");
    assert_eq!(integer_to_string(7), "7");
    assert_eq!(integer_to_string(9), "9");
}

#[test]
fn digits_come_most_significant_first() {
    assert_eq!(integer_to_string(10), "10");
    assert_eq!(integer_to_string(12), "12");
    assert_eq!(integer_to_string(1234567890), "1234567890");
}

#[test]
fn inner_and_trailing_zeros_are_kept() {
    assert_eq!(integer_to_string(100), "100");
    assert_eq!(integer_to_string(1002003), "1002003");
}

#[test]
fn negative_numbers_carry_a_minus_sign() {
    assert_eq!(integer_to_string(-1), "-1");
    assert_eq!(integer_to_string(-10), "-10");
    assert_eq!(integer_to_string(-120), "-120");
}

#[test]
fn the_extremes_of_the_range_are_written_in_full() {
    assert_eq!(integer_to_string(i64::MAX), "9223372036854775807");
    assert_eq!(integer_to_string(i64::MIN), "-9223372036854775808");
    assert_eq!(integer_to_string(i64::MIN + 1), "-9223372036854775807");
}

#[test]
fn integer_text_agrees_with_display() {
    let samples: [i64; 12] = [
        0,
        5,
        -5,
        99,
        -99,
        1000,
        -1000,
        4294967296,
        -4294967297,
        i64::MAX,
        i64::MIN,
        i64::MAX - 1,
    ];
    for value in samples {
        assert_eq!(integer_to_string(value), format!("{}", value));
    }
}

#[test]
fn different_integers_have_different_texts() {
    let samples: [i64; 7] = [-11, -1, 0, 1, 10, 11, 101];
    for a in samples {
        for b in samples {
            assert_eq!(integer_to_string(a) == integer_to_string(b), a == b);
        }
    }
}

#[test]
fn push_integer_appends_and_keeps_what_was_there() {
    let mut out = String::from("count: ");
    push_integer(&mut out, 42);
    assert_eq!(out, "count: 42");
    push_integer(&mut out, -7);
    assert_eq!(out, "count: 42-7");
}

#[test]
fn booleans_are_spelled_out() {
    assert_eq!(bool_str(true), "true");
    assert_eq!(bool_str(false), "false");
    assert_eq!(bool_str(true), format!("{}", true));
    assert_eq!(bool_str(false), format!("{}", false));
}
