use mqtt_log_viewer::json_formatter::{FormatError, JsonDisplayMode, JsonFormatter};

#[test]
fn test_is_valid_json() {
    assert!(JsonFormatter::is_valid_json(r#"{"key": "value"}"#));
    assert!(JsonFormatter::is_valid_json(r#"[1, 2, 3]"#));
    assert!(!JsonFormatter::is_valid_json("not json"));
}

#[test]
fn test_format_keys_only() {
    let json = r#"{"temperature": 25.5, "unit": "C", "metadata": {"sensor": "DHT22"}}"#;
    let result = JsonFormatter::format(json, JsonDisplayMode::KeysOnly).unwrap();
    assert_eq!(result, r#"{"temperature","unit","metadata"}"#);
}

#[test]
fn test_simplify_payload() {
    let json = r#"{"temperature": 25.5, "unit": "C"}"#;
    let result = JsonFormatter::simplify_payload(json, 30);
    assert_eq!(result, r#"{"temperature","unit"}"#);

    let long_text = "This is a very long text that should be truncated";
    let result = JsonFormatter::simplify_payload(long_text, 20);
    assert_eq!(result, "This is a very lo...");

    let empty = "";
    let result = JsonFormatter::simplify_payload(empty, 20);
    assert_eq!(result, "(empty)");
}

#[test]
fn format_leaves_other_text_alone() {
    let out = JsonFormatter::format("not json", JsonDisplayMode::Full);
    assert_eq!(out, Ok::<String, FormatError>("not json".to_string()));
}

#[test]
fn format_first_level_folds_nested_values() {
    let json = r#"{"a": 1, "b": "x", "c": {"d": 2}, "e": [1, 2], "f": null, "g": true}"#;
    let out = JsonFormatter::format(json, JsonDisplayMode::FirstLevel).unwrap();
    assert_eq!(
        out,
        "{\n  \"a\": 1,\n  \"b\": \"x\",\n  \"c\": {...},\n  \"e\": [...],\n  \"f\": null,\n  \"g\": true\n}"
    );
}

#[test]
fn format_full_indents() {
    let out = JsonFormatter::format(r#"{"a":1}"#, JsonDisplayMode::Full).unwrap();
    assert_eq!(out, "{\n  \"a\": 1\n}");
}

#[test]
fn format_keys_only_of_values_without_members() {
    assert_eq!(JsonFormatter::format("[1, 2]", JsonDisplayMode::KeysOnly).unwrap(), "[...]");
    assert_eq!(JsonFormatter::format("12.5", JsonDisplayMode::KeysOnly).unwrap(), "12.5");
    assert_eq!(JsonFormatter::format(r#""a\"b""#, JsonDisplayMode::KeysOnly).unwrap(), r#""a\"b""#);
    assert_eq!(JsonFormatter::format("null", JsonDisplayMode::KeysOnly).unwrap(), "null");
    assert_eq!(JsonFormatter::format("{}", JsonDisplayMode::KeysOnly).unwrap(), "{}");
}

#[test]
fn simplify_payload_trims_and_cuts() {
    assert_eq!(JsonFormatter::simplify_payload("   \t\n ", 20), "(empty)");
    assert_eq!(JsonFormatter::simplify_payload("  hello  ", 20), "hello");
    assert_eq!(JsonFormatter::simplify_payload("abcdefghij", 10), "abcdefghij");
    assert_eq!(JsonFormatter::simplify_payload("abcdefghijk", 10), "abcdefg...");
    assert_eq!(JsonFormatter::simplify_payload("abcdefghijk", 2), "...");
    assert_eq!(
        JsonFormatter::simplify_payload(r#"{"temperature": 1, "humidity": 2}"#, 12),
        r#"{"tempera..."#
    );
}

#[test]
fn highlight_leaves_other_text_alone() {
    assert_eq!(JsonFormatter::highlight_json("plain text"), "plain text");
}

#[test]
fn highlight_colours_values_by_kind() {
    assert_eq!(JsonFormatter::highlight_json("null"), "\x1b[90mnull\x1b[0m");
    assert_eq!(JsonFormatter::highlight_json("true"), "\x1b[31mtrue\x1b[0m");
    assert_eq!(JsonFormatter::highlight_json("false"), "\x1b[31mfalse\x1b[0m");
    assert_eq!(JsonFormatter::highlight_json("12.5"), "\x1b[33m12.5\x1b[0m");
    assert_eq!(JsonFormatter::highlight_json(r#""a\"b""#), "\x1b[32m\"a\"b\"\x1b[0m");
    assert_eq!(JsonFormatter::highlight_json("[]"), "[]");
    assert_eq!(JsonFormatter::highlight_json("{}"), "{}");
}

#[test]
fn highlight_indents_nested_values() {
    let out = JsonFormatter::highlight_json(r#"{"a":[1,{"b":null}],"c":"x"}"#);
    let lines = [
        "{",
        "  \x1b[34m\"a\"\x1b[0m: [",
        "    \x1b[33m1\x1b[0m,",
        "    {",
        "      \x1b[34m\"b\"\x1b[0m: \x1b[90mnull\x1b[0m",
        "    }",
        "  ],",
        "  \x1b[34m\"c\"\x1b[0m: \x1b[32m\"x\"\x1b[0m",
        "}",
    ];
    let expected = lines.join("\n");
    assert_eq!(out, expected);
}

#[test]
fn simplify_payload_strips_every_white_space_character_and_no_other() {
    let mut spaces: Vec<u32> = vec![0x20, 0x85, 0xA0, 0x1680, 0x2028, 0x2029, 0x202F, 0x205F, 0x3000];
    spaces.extend(0x09..=0x0D);
    spaces.extend(0x2000..=0x200A);
    for code in 0..=0x10FFFFu32 {
        if let Some(c) = char::from_u32(code) {
            assert_eq!(c.is_whitespace(), spaces.contains(&code), "U+{:04X}", code);
        }
    }
    for code in spaces {
        let c = char::from_u32(code).unwrap();
        assert_eq!(JsonFormatter::simplify_payload(&format!("{}x{}{}", c, c, c), 10), "x");
    }
    for code in [0x180Eu32, 0x200B, 0x2060, 0xFEFF, 0x08, 0x1F] {
        let c = char::from_u32(code).unwrap();
        let text = format!("{}x{}", c, c);
        assert_eq!(JsonFormatter::simplify_payload(&text, 10), text);
    }
}
