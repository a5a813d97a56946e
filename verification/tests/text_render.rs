use channel_permissions::routes::delay_string;
use channel_permissions::text::{json_escape, message_body, u64_to_dec};

#[test]
fn decimal_rendering_matches_the_standard_formatter() {
    assert_eq!(u64_to_dec(0), "0");
    assert_eq!(u64_to_dec(7), "7");
    assert_eq!(u64_to_dec(10), "10");
    assert_eq!(u64_to_dec(86400), "86400");
    assert_eq!(u64_to_dec(65535), "65535");
    assert_eq!(u64_to_dec(u64::MAX), format!("{}", u64::MAX));
}

#[test]
fn delay_strings_concatenate_value_and_unit() {
    assert_eq!(delay_string(3, "d"), "3d");
    assert_eq!(delay_string(0, ""), "0");
    assert_eq!(delay_string(12, "w"), "12w");
    // The unit token's domain is deliberately unconstrained.
    assert_eq!(delay_string(1, "fortnights"), "1fortnights");
}

#[test]
fn json_escaping_matches_the_standard_form() {
    assert_eq!(json_escape("plain"), "plain");
    assert_eq!(json_escape("a\"b"), "a\\\"b");
    assert_eq!(json_escape("a\\b"), "a\\\\b");
    assert_eq!(json_escape("line\nbreak"), "line\\nbreak");
    assert_eq!(json_escape("tab\there"), "tab\\there");
    assert_eq!(json_escape("\r\u{08}\u{0c}"), "\\r\\b\\f");
    assert_eq!(json_escape("\u{01}\u{1f}"), "\\u0001\\u001f");
    assert_eq!(json_escape("ünïcode"), "ünïcode");
}

#[test]
fn message_bodies_are_json_objects() {
    assert_eq!(message_body("Bad request"), "{\"message\":\"Bad request\"}");
    assert_eq!(message_body(""), "{\"message\":\"\"}");
    assert_eq!(message_body("say \"hi\""), "{\"message\":\"say \\\"hi\\\"\"}");
}

#[test]
fn escaping_agrees_with_the_reference_json_writer() {
    for text in ["plain", "a\"b\\c", "mixed\n\t\u{02}", "ünïcode"] {
        let reference = serde_json::to_string(text).unwrap();
        assert_eq!(format!("\"{}\"", json_escape(text)), reference);
    }
}
