use debt_tracker_api::error::EncodeError;
use debt_tracker_api::routes::json::{
    encode_delete_result, encode_string, json_array, push_decimal, push_integer,
};

#[test]
fn encode_string_puts_quotes_around_the_text() {
    assert_eq!(encode_string("rent"), "\"rent\"");
    assert_eq!(encode_string(""), "\"\"");
}

#[test]
fn encode_string_escapes_what_json_reserves() {
    assert_eq!(encode_string("a\"b"), "\"a\\\"b\"");
    assert_eq!(encode_string("a\\b"), "\"a\\\\b\"");
    assert_eq!(encode_string("a\nb\tc"), "\"a\\nb\\tc\"");
    assert_eq!(encode_string("\u{1}"), "\"\\u0001\"");
    assert_eq!(encode_string("d\u{e9}j\u{e0}"), "\"d\u{e9}j\u{e0}\"");
}

#[test]
fn push_decimal_writes_digits_without_leading_zeros() {
    for (n, text) in [
        (0, "0"),
        (7, "7"),
        (9, "9"),
        (10, "10"),
        (500, "500"),
        (1_000_000, "1000000"),
        (u64::MAX, "18446744073709551615"),
    ] {
        let mut out = String::new();
        push_decimal(&mut out, n);
        assert_eq!(out, text);
    }
}

#[test]
fn push_decimal_adds_at_the_end() {
    let mut out = String::from("n=");
    push_decimal(&mut out, 42);
    push_decimal(&mut out, 0);
    assert_eq!(out, "n=420");
}

#[test]
fn push_integer_writes_the_sign_of_a_negative_number() {
    for (n, text) in [
        (0, String::from("0")),
        (500, String::from("500")),
        (-1, String::from("-1")),
        (-500, String::from("-500")),
        (isize::MAX, format!("{}", isize::MAX)),
        (isize::MIN, format!("{}", isize::MIN)),
    ] {
        let mut out = String::new();
        push_integer(&mut out, n);
        assert_eq!(out, text);
    }
}

#[test]
fn encode_delete_result_writes_the_count() {
    assert_eq!(encode_delete_result(0), Ok(String::from("{\"deletedCount\":0}")));
    assert_eq!(encode_delete_result(1), Ok(String::from("{\"deletedCount\":1}")));
    assert_eq!(
        encode_delete_result(9_223_372_036_854_775_807),
        Ok(String::from("{\"deletedCount\":9223372036854775807}"))
    );
}

#[test]
fn encode_delete_result_refuses_a_count_past_the_signed_range() {
    assert_eq!(encode_delete_result(9_223_372_036_854_775_808), Err(EncodeError {}));
    assert_eq!(encode_delete_result(u64::MAX), Err(EncodeError {}));
}

#[test]
fn json_array_puts_commas_between_the_items() {
    assert_eq!(json_array(&Vec::new()), "[]");
    assert_eq!(json_array(&vec![String::from("1")]), "[1]");
    assert_eq!(json_array(&vec![String::from("1"), String::from("{}")]), "[1,{}]");
    assert_eq!(
        json_array(&vec![String::from("\"a\""), String::from(""), String::from("[]")]),
        "[\"a\",,[]]"
    );
}
