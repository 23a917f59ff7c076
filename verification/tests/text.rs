use evervoice::json::{parse, quote, JsonValue};
use evervoice::text::{
    chars_of, contains, decimal_text, is_blank_text, is_whitespace_char, join, same_text,
    starts_with_ignore_ascii_case, to_ascii_lower,
};
use evervoice::transport::{bearer, error_envelope_message, status_is_server_error, status_is_success};

#[test]
fn whitespace_is_the_unicode_white_space_property() {
    let mut c = 0u32;
    while c <= 0x10FFFF {
        if let Some(ch) = char::from_u32(c) {
            assert_eq!(is_whitespace_char(ch), ch.is_whitespace(), "char {:x}", c);
        }
        c += 1;
    }
}

#[test]
fn blank_texts_are_those_that_trim_to_nothing() {
    for s in ["", " ", "\t\n\r ", "\u{a0}\u{2000}\u{200a}", " a ", "a", "\u{200b}", "  .  "] {
        assert_eq!(is_blank_text(s), s.trim().is_empty(), "{:?}", s);
    }
}

#[test]
fn ascii_lowering_matches_std() {
    let mut c = 0u32;
    while c <= 0x10FFFF {
        if let Some(ch) = char::from_u32(c) {
            assert_eq!(to_ascii_lower(ch), ch.to_ascii_lowercase());
        }
        c += 1;
    }
}

#[test]
fn text_helpers_on_concrete_values() {
    assert_eq!(chars_of("aé\u{1F600}"), vec!['a', 'é', '\u{1F600}']);
    assert!(chars_of("").is_empty());
    assert!(same_text("abc", "abc"));
    assert!(!same_text("abc", "abd"));
    assert!(!same_text("abc", "ab"));
    assert!(same_text("", ""));
    assert!(contains("the audio file", "audio"));
    assert!(contains("audio", "audio"));
    assert!(contains("x", ""));
    assert!(contains("", ""));
    assert!(!contains("", "a"));
    assert!(!contains("audi", "audio"));
    assert!(!contains("Audio", "audio"));
    assert!(contains("aab", "ab"));
    assert!(contains("héllo wörld", "wör"));
    assert!(starts_with_ignore_ascii_case("HtTp://x", "http://"));
    assert!(!starts_with_ignore_ascii_case("http:/", "http://"));
    assert!(starts_with_ignore_ascii_case("anything", ""));
    assert_eq!(join("a", "b"), "ab");
    assert_eq!(join("", ""), "");
    assert_eq!(decimal_text(0), "0");
    assert_eq!(decimal_text(9), "9");
    assert_eq!(decimal_text(10), "10");
    assert_eq!(decimal_text(404), "404");
    assert_eq!(decimal_text(65535), "65535");
    for n in [1u16, 42, 100, 999, 1000, 12345] {
        assert_eq!(decimal_text(n), n.to_string());
    }
}

#[test]
fn statuses_and_headers() {
    assert!(status_is_success(200) && status_is_success(299));
    assert!(!status_is_success(199) && !status_is_success(300));
    assert!(status_is_server_error(500) && status_is_server_error(599));
    assert!(!status_is_server_error(499) && !status_is_server_error(600));
    assert_eq!(bearer("sk-1"), "Bearer sk-1");
}

#[test]
fn json_strings_are_quoted_and_escaped() {
    assert_eq!(quote(""), "\"\"");
    assert_eq!(quote("plain"), "\"plain\"");
    assert_eq!(quote("a\"b"), "\"a\\\"b\"");
    assert_eq!(quote("a\\b"), "\"a\\\\b\"");
    assert_eq!(quote("\n\r\t\u{8}\u{c}"), "\"\\n\\r\\t\\b\\f\"");
    assert_eq!(quote("\u{0}\u{1f}"), "\"\\u0000\\u001f\"");
    assert_eq!(quote("/é\u{7f}\u{1F600}"), "\"/é\u{7f}\u{1F600}\"");
    assert_ne!(quote("x"), "x");
}

#[test]
fn json_documents_are_parsed_into_plain_values() {
    assert!(matches!(parse("null"), Ok(JsonValue::Null)));
    assert!(matches!(parse(" true "), Ok(JsonValue::Bool(true))));
    match parse("-12.5e1") {
        Ok(JsonValue::Number(n)) => assert_eq!(n, "-125.0"),
        other => panic!("{:?}", other),
    }
    match parse("17") {
        Ok(JsonValue::Number(n)) => assert_eq!(n, "17"),
        other => panic!("{:?}", other),
    }
    match parse("\"a\\nb\"") {
        Ok(JsonValue::String(s)) => assert_eq!(s, "a\nb"),
        other => panic!("{:?}", other),
    }
    match parse("[1, \"x\", []]") {
        Ok(JsonValue::Array(items)) => {
            assert_eq!(items.len(), 3);
            assert!(matches!(&items[2], JsonValue::Array(inner) if inner.is_empty()));
        }
        other => panic!("{:?}", other),
    }
    let doc = parse("{\"b\": {\"c\": \"deep\"}, \"a\": 1}").unwrap();
    assert!(doc.field("missing").is_none());
    assert!(doc.field("a").is_some());
    let deep = doc.field("b").unwrap().field("c").unwrap();
    assert_eq!(deep.as_text().map(|s| s.as_str()), Some("deep"));
    assert!(deep.field("c").is_none());
    assert!(deep.as_items().is_none());
    assert!(doc.as_text().is_none());

    let err = parse("{").unwrap_err();
    assert_eq!(err, "EOF while parsing an object at line 1 column 1");
    let err = parse("").unwrap_err();
    assert_eq!(err, "EOF while parsing a value at line 1 column 0");
    assert!(parse("{\"a\":1,}").is_err());
    assert!(parse("1 2").is_err());
}

#[test]
fn error_envelopes() {
    let parsed = parse("{\"error\":{\"message\":\"quota exceeded\",\"type\":\"x\"}}");
    assert_eq!(error_envelope_message(&parsed).as_deref(), Some("quota exceeded"));
    for text in ["{}", "{\"error\":\"x\"}", "{\"error\":{\"message\":1}}", "[]", "{\"error\":{}}", "nope"] {
        assert_eq!(error_envelope_message(&parse(text)), None, "{}", text);
    }
}

fn expected_escape(c: char) -> String {
    match c {
        '"' => "\\\"".to_string(),
        '\\' => "\\\\".to_string(),
        '\u{8}' => "\\b".to_string(),
        '\t' => "\\t".to_string(),
        '\n' => "\\n".to_string(),
        '\u{c}' => "\\f".to_string(),
        '\r' => "\\r".to_string(),
        c if (c as u32) < 0x20 => format!("\\u00{:02x}", c as u32),
        c => c.to_string(),
    }
}

#[test]
fn every_character_is_escaped_by_the_stated_rule() {
    let mut c = 0u32;
    while c <= 0x10FFFF {
        if let Some(ch) = char::from_u32(c) {
            let text = format!("a{}b", ch);
            let expected = format!("\"a{}b\"", expected_escape(ch));
            assert_eq!(quote(&text), expected, "char {:x}", c);
        }
        c += 1;
    }
    let text = "q\"\\\u{0}\u{1f} /\u{7f}é\u{2028}\u{10FFFF}\n";
    let expected: String = text.chars().map(expected_escape).collect();
    assert_eq!(quote(text), format!("\"{}\"", expected));
}
