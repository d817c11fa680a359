use signal_bot::codec::decode_base64url;
use signal_bot::json::{Json, Member};
use signal_bot::text::{
    contains, decimal_int_text, decimal_text, digits_of, first_line_of, remove_any_case,
    split_on,
    starts_with, strip_prefix, trim, trim_tail,
};

#[test]
fn texts_are_searched() {
    assert!(contains("hello", "ell"));
    assert!(contains("hello", ""));
    assert!(!contains("hello", "elo"));
    assert!(starts_with("héllo", "hé"));
    assert!(!starts_with("h", "hé"));
    assert_eq!(strip_prefix("t=12", "t="), Some("12".to_string()));
    assert_eq!(strip_prefix("v1=12", "t="), None);
}

#[test]
fn texts_are_cut() {
    assert_eq!(remove_any_case("aaab", "aa"), "ab");
    assert_eq!(remove_any_case("abc", ""), "abc");
    assert_eq!(remove_any_case("xABCxabcX", "aBc"), "xxX");
    // Only the letters of ASCII have two cases here.
    assert_eq!(remove_any_case("Ü@[`ü", "ü`"), "Ü@[`ü");
    assert_eq!(remove_any_case("@[`{", "`{"), "@[");
    assert_eq!(split_on("a,,b", ','), vec!["a", "", "b"]);
    assert_eq!(split_on("", ','), vec![""]);
    assert_eq!(trim(" \t\u{a0}x y\u{2003}\n"), "x y");
    assert_eq!(trim(" \n"), "");
    assert_eq!(trim_tail("a/b//", '/'), "a/b");
    assert_eq!(trim_tail("//", '/'), "");
    assert_eq!(digits_of("+1 (٣) 23"), "123");
    assert_eq!(first_line_of("a\rb\nc"), Some("a\rb".to_string()));
    assert_eq!(first_line_of("a\r\n"), Some("a".to_string()));
    assert_eq!(first_line_of("a\r"), Some("a\r".to_string()));
    assert_eq!(first_line_of(""), None);
}

#[test]
fn numbers_are_written() {
    assert_eq!(decimal_text(0), "0");
    assert_eq!(decimal_text(u64::MAX), "18446744073709551615");
    assert_eq!(decimal_int_text(-120), "-120");
    assert_eq!(decimal_int_text(i64::MIN), "-9223372036854775808");
    assert_eq!(decimal_int_text(i64::MAX), "9223372036854775807");
}

#[test]
fn base64url_is_strict() {
    assert_eq!(decode_base64url("-_8"), Some(vec![0xfb, 0xff]));
    assert_eq!(decode_base64url(""), Some(vec![]));
    assert_eq!(decode_base64url("-_8="), None);
    assert_eq!(decode_base64url("-_9"), None);
    assert_eq!(decode_base64url("+/8"), None);
    assert_eq!(decode_base64url("A"), None);
}

#[test]
fn json_is_looked_into() {
    let member = |name: &str, value: Json| Member { name: name.to_string(), value };
    let value = Json::Object(vec![
        member("a", Json::Text("x".to_string())),
        member("b", Json::List(vec![Json::Integer(7), Json::Null])),
        member("c", Json::Bool(true)),
    ]);
    assert_eq!(value.get("a").unwrap().as_str(), Some("x"));
    assert_eq!(value.get("a").unwrap().as_i64(), None);
    assert_eq!(value.get("b").unwrap().first().unwrap().as_i64(), Some(7));
    assert!(value.get("c").unwrap().as_str().is_none());
    assert!(value.get("d").is_none());
    assert!(Json::List(vec![]).first().is_none());
    assert!(Json::OtherNumber.as_i64().is_none());
    assert!(Json::Null.get("a").is_none());
}
