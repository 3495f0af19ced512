use janus::digest::{hash_request, sha256_hex, validate_prefixed_hex_id};
use janus::json::JsonValue;
use janus::names::NameMap;
use janus::paths::{absolute, below, is_toml_file, join};
use janus::text::{
    alphanumeric, chars_of, decimal_text, hex_digit, same, same_ignoring_case,
    signed_decimal_text, starts_with, text_less, trim,
};
use janus::time::{calculate_duration_ms, now_rfc3339, UtcInstant};

#[test]
fn texts_are_compared_and_cut() {
    assert!(same("a", "a"));
    assert!(!same("a", "A"));
    assert!(same_ignoring_case("aBc1", "AbC1"));
    assert!(!same_ignoring_case("ä", "Ä"));
    assert!(!same_ignoring_case("ab", "abc"));
    assert!(starts_with("job_1", "job_"));
    assert!(!starts_with("job", "job_"));
    assert_eq!(trim("  a b\t\n"), "a b");
    assert_eq!(trim(" \u{2003}\u{85}"), "");
    assert_eq!(trim("x"), "x");
    assert!(text_less("a", "b"));
    assert!(text_less("", "a"));
    assert!(text_less("a", "ab"));
    assert!(text_less("Z", "a"));
    assert!(text_less("z", "ä"));
    assert!(!text_less("a", "a"));
    assert_eq!(chars_of("hé"), vec!['h', 'é']);
    assert_eq!(chars_of("é").len(), 1);
}

#[test]
fn characters_are_classified() {
    for c in ['0', '9', 'a', 'f', 'A', 'F'] {
        assert!(hex_digit(c));
    }
    for c in ['g', 'G', '/', ':', '@', '`', 'é'] {
        assert!(!hex_digit(c));
    }
    assert!(alphanumeric('z') && alphanumeric('Z') && alphanumeric('5'));
    assert!(!alphanumeric('_') && !alphanumeric('ß') && !alphanumeric(' '));
}

#[test]
fn numbers_are_written_in_decimal() {
    assert_eq!(decimal_text(0), "0");
    assert_eq!(decimal_text(10), "10");
    assert_eq!(decimal_text(u64::MAX), "18446744073709551615");
    assert_eq!(signed_decimal_text(i64::MIN), "-9223372036854775808");
    assert_eq!(signed_decimal_text(i64::MAX), "9223372036854775807");
    assert_eq!(signed_decimal_text(-1), "-1");
}

#[test]
fn names_are_kept_in_order() {
    let mut map = NameMap::new();
    for (name, value) in [("b", 1), ("a", 2), ("c", 3), ("a", 4)] {
        map.insert(name.to_string(), value);
    }
    assert_eq!(map.len(), 3);
    assert_eq!(map.name_at(0), "a");
    assert_eq!(*map.value_at(0), 4);
    assert_eq!(map.get("c"), Some(&3));
    assert_eq!(map.get("d"), None);
    map.remove("b");
    map.remove("nothing");
    assert!(!map.contains_name("b"));
    assert_eq!(map.clone().len(), 2);
    assert!(!map.is_empty());
    let sorted = NameMap::from_sorted(vec![("x".to_string(), 1), ("y".to_string(), 2)]);
    assert_eq!(sorted.get("y"), Some(&2));
}

#[test]
fn json_values_are_written_compactly() {
    assert_eq!(JsonValue::Null.to_json_text(), "null");
    assert!(JsonValue::Null.is_null());
    assert_eq!(JsonValue::Bool(true).to_json_text(), "true");
    assert_eq!(JsonValue::Bool(false).to_environment_text(), "false");
    let number = JsonValue::Number {
        integer: Some(-12),
        text: "-12".to_string(),
    };
    assert_eq!(number.to_json_text(), "-12");
    let fraction = JsonValue::Number {
        integer: None,
        text: "1.5".to_string(),
    };
    assert_eq!(fraction.to_environment_text(), "1.5");
    assert_eq!(fraction.as_i64(), None);
    let text = JsonValue::Text("a\"\\\u{8}\t\n\u{c}\r\u{1}\u{1f}é/".to_string());
    assert_eq!(
        text.to_json_text(),
        "\"a\\\"\\\\\\b\\t\\n\\f\\r\\u0001\\u001fé/\""
    );
    assert_eq!(
        text.to_json_text(),
        serde_json::Value::String(text.as_str().expect("text").to_string()).to_string()
    );
    assert_eq!(JsonValue::Text("a\"b".to_string()).to_environment_text(), "a\"b");
    assert_eq!(
        JsonValue::Composite("[1]".to_string()).to_environment_text(),
        "[1]"
    );
}

#[test]
fn durations_are_whole_milliseconds() {
    let between = |from: &str, to: &str| calculate_duration_ms(from, Some(to));
    assert_eq!(
        between("2026-01-01T00:00:00Z", "2026-01-01T00:00:01.999Z"),
        Some(1999)
    );
    assert_eq!(
        between("2026-01-01T00:00:00Z", "2026-01-01T01:00:00+01:00"),
        Some(0)
    );
    assert_eq!(
        between("2026-01-01T00:00:00.0009Z", "2026-01-01T00:00:00Z"),
        Some(0)
    );
    assert_eq!(
        between("2026-01-01T00:00:01Z", "2026-01-01T00:00:00Z"),
        None
    );
    assert_eq!(between("soon", "2026-01-01T00:00:00Z"), None);
    assert_eq!(between("2026-01-01T00:00:00Z", "later"), None);
    assert_eq!(calculate_duration_ms("2026-01-01T00:00:00Z", None), None);
    // a leap second counts within its own day only
    assert_eq!(
        between("2015-06-30T23:58:60.500Z", "2015-06-30T23:59:00Z"),
        Some(500)
    );
    assert_eq!(
        between("2015-06-30T23:59:60.500Z", "2015-07-01T00:00:00Z"),
        None
    );
    assert_eq!(
        between("2015-06-30T23:59:60.250Z", "2015-06-30T23:59:60.750Z"),
        Some(500)
    );
}

#[test]
fn the_clock_is_written_in_whole_seconds() {
    let now = now_rfc3339();
    assert_eq!(now.len(), 20);
    assert!(now.ends_with('Z'));
    assert_eq!(calculate_duration_ms(&now, Some(&now)), Some(0));
    let early = UtcInstant {
        seconds: 1,
        nanos: 5,
    };
    let late = UtcInstant {
        seconds: 1,
        nanos: 6,
    };
    assert!(early.at_or_before(&late));
    assert!(early.at_or_before(&early));
    assert!(!late.at_or_before(&early));
}

#[test]
fn digests_are_lower_case_hexadecimal() {
    assert_eq!(
        sha256_hex(b""),
        "e3b0c44298fc1c149afbf4c8996fb92427ae41e4649b934ca495991b7852b855"
    );
    assert_eq!(
        hash_request("build-app", br#"{"commit":"abc123"}"#),
        "830e9dbbcb945ebbe0d1c67fab37e74834079eb4257f3d2b8f764c0a217f8604"
    );
    assert_ne!(hash_request("a", b"bc"), hash_request("ab", b"c"));
    let id = "art_00112233445566778899aabbccddeeff";
    assert!(validate_prefixed_hex_id(id, "art_"));
    assert!(validate_prefixed_hex_id(
        "art_00112233445566778899AABBCCDDEEFF",
        "art_"
    ));
    assert!(!validate_prefixed_hex_id(id, "job_"));
    assert!(!validate_prefixed_hex_id("art_", "art_"));
    assert!(!validate_prefixed_hex_id(
        "art_0011223344556677889/aabbccddeeff",
        "art_"
    ));
    assert!(!validate_prefixed_hex_id(
        "art_00112233445566778899aabbccddeeff0",
        "art_"
    ));
}

#[test]
fn paths_are_joined_and_judged() {
    assert_eq!(join("/data", "jobs"), "/data/jobs");
    assert_eq!(join("/data/", "jobs"), "/data/jobs");
    assert_eq!(join("", "jobs"), "jobs");
    assert_eq!(join("/data", "/etc"), "/etc");
    assert!(absolute("/a") && !absolute("a") && !absolute(""));
    assert!(below("a/b") && below("..a") && below("a../b") && below("."));
    assert!(!below("") && !below("/a") && !below("..") && !below("../a"));
    assert!(!below("a/..") && !below("a/../b"));
    assert!(is_toml_file("build.toml") && is_toml_file(".a.toml"));
    assert!(!is_toml_file(".toml") && !is_toml_file("toml") && !is_toml_file("build.tomlx"));
}
