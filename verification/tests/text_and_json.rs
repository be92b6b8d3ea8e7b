use obscura_mcp::json::{str_eq, Json, JsonNumber};
use obscura_mcp::text::{decimal_string, join, trim};
use obscura_mcp::scripts::{quoted, quoted_list};

fn s(v: &str) -> Json {
    Json::String(v.to_string())
}

fn obj(entries: Vec<(&str, Json)>) -> Json {
    Json::Object(entries.into_iter().map(|(k, v)| (k.to_string(), v)).collect())
}

fn num(literal: &str, whole: u64, shown: &str) -> Json {
    Json::Number(JsonNumber { literal: literal.to_string(), whole, milli_fraction: 0, shown: shown.to_string() })
}

fn frac(literal: &str, whole: u64, milli_fraction: u64) -> Json {
    Json::Number(JsonNumber { literal: literal.to_string(), whole, milli_fraction, shown: literal.to_string() })
}

#[test]
fn trim_removes_unicode_white_space_at_both_ends() {
    assert_eq!(trim("  \t hello world \n"), "hello world");
    assert_eq!(trim("\u{3000}\u{a0}x\u{2028}"), "x");
    assert_eq!(trim("   "), "");
    assert_eq!(trim(""), "");
    assert_eq!(trim("a b"), "a b");
}

#[test]
fn decimal_string_writes_numbers() {
    assert_eq!(decimal_string(0), "0");
    assert_eq!(decimal_string(7), "7");
    assert_eq!(decimal_string(30), "30");
    assert_eq!(decimal_string(200), "200");
    assert_eq!(decimal_string(u64::MAX), "18446744073709551615");
}

#[test]
fn join_puts_separator_between_neighbours() {
    let items = vec!["a".to_string(), "b".to_string(), "c".to_string()];
    assert_eq!(join(&items, "\n"), "a\nb\nc");
    assert_eq!(join(&vec!["only".to_string()], ", "), "only");
    assert_eq!(join(&Vec::new(), "\n"), "");
}

#[test]
fn str_eq_compares_text() {
    assert!(str_eq("browser_click", "browser_click"));
    assert!(!str_eq("browser_click", "browser_close"));
    assert!(!str_eq("a", "ab"));
    assert!(str_eq("", ""));
}

#[test]
fn get_finds_members_of_objects_only() {
    let v = obj(vec![("name", s("browser_click")), ("arguments", obj(vec![("selector", s("#go"))]))]);
    assert_eq!(v.get("name"), Some(&s("browser_click")));
    assert_eq!(v.get("missing"), None);
    assert_eq!(s("x").get("name"), None);
    assert_eq!(Json::Null.get("name"), None);
    assert_eq!(v.get("arguments").unwrap().str_field("selector"), Some(&"#go".to_string()));
}

#[test]
fn typed_fields_fall_back_on_other_kinds() {
    let v = obj(vec![("timeout", num("5", 5, "5")), ("x", num("1.5", 1, "1.5")), ("flag", Json::Bool(true))]);
    assert_eq!(v.whole_field("timeout", 30), 5);
    assert_eq!(v.whole_field("absent", 30), 30);
    assert_eq!(v.whole_field("flag", 30), 30);
    assert_eq!(v.shown_field("x", "0"), "1.5");
    assert_eq!(v.shown_field("y", "0"), "0");
    assert_eq!(v.str_field("timeout"), None);
    assert_eq!(obj(vec![("t", frac("0.9", 0, 900))]).fraction_field("t"), 900);
    assert_eq!(v.fraction_field("absent"), 0);
    assert_eq!(v.fraction_field("flag"), 0);
    assert_eq!(v.bool_field("flag", false), true);
    assert_eq!(v.bool_field("timeout", false), false);
}

#[test]
fn strings_field_keeps_only_string_items() {
    let v = obj(vec![("files", Json::Array(vec![s("a.txt"), num("3", 3, "3"), s("b.txt"), Json::Null]))]);
    assert_eq!(v.strings_field("files"), Some(vec!["a.txt".to_string(), "b.txt".to_string()]));
    assert_eq!(obj(vec![("files", s("a.txt"))]).strings_field("files"), None);
    assert_eq!(obj(vec![]).strings_field("files"), None);
}

#[test]
fn quoted_escapes_like_json() {
    assert_eq!(quoted("#go"), "\"#go\"");
    assert_eq!(quoted("a\"b\\c"), "\"a\\\"b\\\\c\"");
    assert_eq!(quoted("line\nnext\ttab\r\u{8}\u{c}"), "\"line\\nnext\\ttab\\r\\b\\f\"");
    assert_eq!(quoted("\u{1}\u{1f}"), "\"\\u0001\\u001f\"");
    assert_eq!(quoted("caf\u{e9} / \u{2014}"), "\"caf\u{e9} / \u{2014}\"");
    assert_eq!(quoted(""), "\"\"");
}

#[test]
fn quoted_list_is_a_compact_json_array() {
    assert_eq!(quoted_list(&vec!["a.txt".to_string(), "b \"c\".pdf".to_string()]), "[\"a.txt\",\"b \\\"c\\\".pdf\"]");
    assert_eq!(quoted_list(&Vec::new()), "[]");
}
