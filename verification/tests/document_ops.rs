use vibe_lever::document::table_get;
use vibe_lever::document::table_remove;
use vibe_lever::document::table_set;
use vibe_lever::document::ConfigValue;
use vibe_lever::text::contains_str;
use vibe_lever::text::str_eq;
use vibe_lever::text::trim_str;

fn entry(k: &str, v: ConfigValue) -> (String, ConfigValue) {
    (k.to_string(), v)
}

fn s(v: &str) -> ConfigValue {
    ConfigValue::Str(v.to_string())
}

#[test]
fn table_get_finds_first_of_equal_keys() {
    let doc = vec![entry("k", s("first")), entry("k", s("second"))];
    assert_eq!(table_get(&doc, "k"), Some(&s("first")));
    assert_eq!(table_get(&doc, "missing"), None);
}

#[test]
fn table_set_replaces_first_of_equal_keys() {
    let mut doc = vec![entry("k", s("first")), entry("k", s("second"))];
    table_set(&mut doc, "k", s("new"));
    assert_eq!(doc, vec![entry("k", s("new")), entry("k", s("second"))]);
    table_set(&mut doc, "fresh", s("x"));
    assert_eq!(doc.len(), 3);
    assert_eq!(doc[2], entry("fresh", s("x")));
}

#[test]
fn table_remove_drops_every_occurrence() {
    let mut doc = vec![entry("k", s("a")), entry("other", s("o")), entry("k", s("b"))];
    table_remove(&mut doc, "k");
    assert_eq!(doc, vec![entry("other", s("o"))]);
}

#[test]
fn duplicate_copies_nested_structure() {
    let v = ConfigValue::Table(vec![
        entry("list", ConfigValue::Arr(vec![s("a"), ConfigValue::Int(2), ConfigValue::Null])),
        entry("flag", ConfigValue::Bool(true)),
        entry("frac", ConfigValue::Raw("0.5".to_string())),
    ]);
    assert_eq!(v.duplicate(), v);
}

#[test]
fn trim_removes_surrounding_whitespace() {
    assert_eq!(trim_str("  v1.2.3 \r\n"), "v1.2.3");
    assert_eq!(trim_str("plain"), "plain");
    assert_eq!(trim_str(" \t\n"), "");
    assert_eq!(trim_str(""), "");
    assert_eq!(trim_str(" inner space kept "), "inner space kept");
}

#[test]
fn contains_finds_substrings() {
    assert!(contains_str("alpha 1234 console", "alpha"));
    assert!(contains_str("alpha", "alpha"));
    assert!(contains_str("anything", ""));
    assert!(!contains_str("alp ha", "alpha"));
    assert!(!contains_str("", "alpha"));
}

#[test]
fn str_eq_compares_content() {
    assert!(str_eq("same", "same"));
    assert!(!str_eq("same", "Same"));
    assert!(!str_eq("same", "same "));
}
