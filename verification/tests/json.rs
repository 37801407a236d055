use cantrip::json::{parse_json, Json};
use cantrip::text::{
    blank, digit, parse_numeral, push_decimal, push_two_digits, same, same_bytes, split,
    strip_prefix, trim, white_space,
};

fn object(members: Vec<(&str, Json)>) -> Json {
    let mut object = Json::object();
    for (key, value) in members {
        object.set(key, value);
    }
    object
}

#[test]
fn a_document_is_taken_apart() {
    let parsed = parse_json(
        br#"{"flag":true,"none":null,"count":7,"below":-7,"share":0.25,"list":["a",[]],"more":{"x":"y"}}"#,
    )
    .expect("a document");
    assert_eq!(parsed.get("flag").and_then(Json::as_bool), Some(true));
    assert_eq!(parsed.get("none"), Some(&Json::Null));
    assert_eq!(parsed.get("count"), Some(&Json::Unsigned(7)));
    assert_eq!(parsed.get("below"), Some(&Json::Negative(-7)));
    assert_eq!(parsed.get("share"), Some(&Json::Float("0.25".to_owned())));
    assert_eq!(
        parsed.get("list"),
        Some(&Json::Array(vec![Json::text("a"), Json::Array(vec![])]))
    );
    assert_eq!(
        parsed.get("more"),
        Some(&object(vec![("x", Json::text("y"))]))
    );
    assert_eq!(parsed.get("missing"), None);
    assert!(parsed.is_object());
}

#[test]
fn broken_documents_are_refused() {
    for bytes in [b"".as_slice(), b"{", b"[1,]", b"nul", b"\xff", b"{} {}"] {
        assert_eq!(parse_json(bytes), None);
    }
    assert_eq!(parse_json(b" 3 "), Some(Json::Unsigned(3)));
    assert_eq!(parse_json(b"18446744073709551615"), Some(Json::Unsigned(u64::MAX)));
}

#[test]
fn members_are_read_back() {
    let mut record = object(vec![("kept", Json::Bool(false)), ("text", Json::text("old"))]);
    record.set("text", Json::text("new"));
    assert_eq!(record.text_member("text").map(String::as_str), Some("new"));
    assert_eq!(record.bool_member("kept"), Some(false));
    assert_eq!(record.text_member("kept"), None);
    assert_eq!(record.bool_member("text"), None);
    assert_eq!(record.copy(), record);
    assert_eq!(Json::text("7").as_unsigned(), None);
    assert_eq!(Json::Unsigned(7).as_text(), None);
}

#[test]
fn numbers_are_written_in_decimal() {
    let mut out = String::new();
    push_decimal(&mut out, 0);
    push_decimal(&mut out, 1_203);
    assert_eq!(out, "01203");
    push_two_digits(&mut out, 5);
    push_two_digits(&mut out, 123);
    assert_eq!(out, "0120305123");
    assert_eq!(digit(11), 'b');
}

#[test]
fn numerals_are_read() {
    assert_eq!(parse_numeral("42", 16, u64::MAX), Some(0x42));
    assert_eq!(parse_numeral("+42", 10, 42), Some(42));
    assert_eq!(parse_numeral("43", 10, 42), None);
    assert_eq!(parse_numeral("", 10, 42), None);
    assert_eq!(parse_numeral("4x", 10, 42), None);
}

#[test]
fn white_space_is_that_of_text() {
    for c in (0..=0x3100_u32).filter_map(char::from_u32) {
        assert_eq!(white_space(c), c.is_whitespace(), "{c:?}");
    }
    assert_eq!(trim(" \u{2003}two words\n"), "two words");
    assert!(blank("\t \u{a0}"));
    assert!(!blank(" x"));
}

#[test]
fn texts_are_compared_and_cut() {
    assert!(same("caf\u{e9}", "caf\u{e9}"));
    assert!(!same("cafe", "caf"));
    assert!(same_bytes(b"ab", b"ab"));
    assert!(!same_bytes(b"ab", b"abc"));
    assert_eq!(split("a|b||", '|'), vec!["a", "b", "", ""]);
    assert_eq!(split("", '|'), vec![""]);
    assert_eq!(strip_prefix("key=value", "key=").as_deref(), Some("value"));
    assert_eq!(strip_prefix("other", "key="), None);
}
