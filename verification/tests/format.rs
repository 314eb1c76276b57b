//! Number, duration, cap and JSON-text rendering checks.

use donutbot::json::JsonVal;
use donutbot::numfmt::{format_duration_minutes, format_duration_ms, parse_i64, parse_u32};
use donutbot::render::cap_to_string;
use donutbot::serialize::{to_compact_string, to_pretty_string};
use donutbot::text::chars_to_string;
use donutbot::{format_number, format_playtime};

#[test]
fn number_zero() {
    assert_eq!(format_number(0), "0");
}

#[test]
fn number_three_digits() {
    assert_eq!(format_number(999), "999");
}

#[test]
fn number_first_group() {
    assert_eq!(format_number(1000), "1.000");
}

#[test]
fn number_millions() {
    assert_eq!(format_number(1234567), "1.234.567");
}

#[test]
fn number_negative_groups_magnitude() {
    assert_eq!(format_number(-1234567), "-1.234.567");
}

#[test]
fn number_extremes() {
    assert_eq!(format_number(i64::MAX), "9.223.372.036.854.775.807");
    assert_eq!(format_number(i64::MIN), "-9.223.372.036.854.775.808");
}

#[test]
fn duration_ms_ninety_seconds() {
    assert_eq!(chars_to_string(&format_duration_ms(90000)), "1m");
}

#[test]
fn duration_ms_under_a_minute() {
    assert_eq!(chars_to_string(&format_duration_ms(59999)), "59s");
}

#[test]
fn duration_ms_days() {
    // 26 hours in milliseconds
    assert_eq!(chars_to_string(&format_duration_ms(26 * 3600 * 1000)), "1d 2h");
}

#[test]
fn duration_minutes_ninety() {
    assert_eq!(chars_to_string(&format_duration_minutes(90)), "1h 30m");
}

#[test]
fn duration_minutes_1500() {
    assert_eq!(chars_to_string(&format_duration_minutes(1500)), "1d 1h");
}

#[test]
fn playtime_non_number_echoed() {
    let v = JsonVal::Str(String::from("soon"));
    assert_eq!(format_playtime(&v), "\"soon\"");
}

#[test]
fn playtime_minutes() {
    assert_eq!(format_playtime(&JsonVal::Int(90)), "1h 30m");
}

#[test]
fn cap_keeps_short_body() {
    let body: Vec<char> = vec!['a'; 4000];
    let capped = cap_to_string(body, "\n\n*... and more entries*");
    assert_eq!(capped.chars().count(), 4000);
}

#[test]
fn cap_truncates_long_body() {
    let body: Vec<char> = vec!['a'; 5000];
    let capped = cap_to_string(body, "\n\n*... and more entries*");
    let expected_marker = "\n\n*... and more entries*";
    let total = capped.chars().count();
    assert_eq!(total, 3950 + expected_marker.chars().count());
    assert!(total <= 4000);
    let kept: String = capped.chars().take(3950).collect();
    assert!(kept.chars().all(|c| c == 'a'));
    let tail: String = capped.chars().skip(3950).collect();
    assert_eq!(tail, expected_marker);
}

#[test]
fn parse_u32_reads_digits() {
    assert_eq!(parse_u32("0"), Some(0));
    assert_eq!(parse_u32("4294967295"), Some(u32::MAX));
    assert_eq!(parse_u32("4294967296"), None);
    assert_eq!(parse_u32(""), None);
    assert_eq!(parse_u32("12a"), None);
    assert_eq!(parse_u32("0000000001"), Some(1));
}

#[test]
fn parse_i64_reads_signs() {
    assert_eq!(parse_i64("123"), Some(123));
    assert_eq!(parse_i64("-123"), Some(-123));
    assert_eq!(parse_i64("+123"), Some(123));
    assert_eq!(parse_i64("9223372036854775807"), Some(i64::MAX));
    assert_eq!(parse_i64("-9223372036854775808"), Some(i64::MIN));
    assert_eq!(parse_i64("9223372036854775808"), None);
    assert_eq!(parse_i64("-"), None);
    assert_eq!(parse_i64("1.5"), None);
}

#[test]
fn compact_text_round() {
    let v = JsonVal::Obj(vec![
        (String::from("a"), JsonVal::Int(1)),
        (
            String::from("b"),
            JsonVal::Arr(vec![JsonVal::Null, JsonVal::Bool(true), JsonVal::Str(String::from("x"))]),
        ),
    ]);
    assert_eq!(to_compact_string(&v), "{\"a\":1,\"b\":[null,true,\"x\"]}");
}

#[test]
fn compact_escapes_strings() {
    let v = JsonVal::Str(String::from("a\"b\\c\nd"));
    assert_eq!(to_compact_string(&v), "\"a\\\"b\\\\c\\nd\"");
}

#[test]
fn pretty_text_of_object() {
    let v = JsonVal::Obj(vec![
        (String::from("a"), JsonVal::Int(1)),
        (String::from("b"), JsonVal::Arr(vec![JsonVal::Int(2), JsonVal::Int(3)])),
    ]);
    assert_eq!(
        to_pretty_string(&v),
        "{\n  \"a\": 1,\n  \"b\": [\n    2,\n    3\n  ]\n}"
    );
}

#[test]
fn pretty_text_of_empties() {
    let v = JsonVal::Arr(vec![JsonVal::Obj(vec![]), JsonVal::Arr(vec![])]);
    assert_eq!(to_pretty_string(&v), "[\n  {},\n  []\n]");
}

#[test]
fn non_integer_numbers_keep_their_text() {
    let v = donutbot::parse_json("[1.5, 18446744073709551615, -3]").unwrap();
    assert_eq!(to_compact_string(&v), "[1.5,18446744073709551615,-3]");
    match &v {
        JsonVal::Arr(items) => {
            assert!(matches!(items[0], JsonVal::Num(_)));
            assert!(matches!(items[1], JsonVal::Num(_)));
            assert!(matches!(items[2], JsonVal::Int(-3)));
        },
        _ => panic!("expected an array"),
    }
}

#[test]
fn duration_negative_values() {
    assert_eq!(chars_to_string(&format_duration_minutes(-5)), "-5m");
    assert_eq!(chars_to_string(&format_duration_ms(-1500)), "-1s");
    assert_eq!(chars_to_string(&format_duration_ms(-500)), "0s");
}

#[test]
fn compact_escapes_controls() {
    let v = JsonVal::Str(String::from("a\u{0001}b"));
    assert_eq!(to_compact_string(&v), "\"a\\u0001b\"");
}
