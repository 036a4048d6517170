use trill_engine::text::concat2;
use trill_engine::text::concat3;
use trill_engine::text::decimal_string;
use trill_engine::text::last_segment;
use trill_engine::text::push_decimal;
use trill_engine::text::str_eq;

#[test]
fn decimal_string_writes_numerals() {
    assert_eq!(decimal_string(0), "0");
    assert_eq!(decimal_string(7), "7");
    assert_eq!(decimal_string(10), "10");
    assert_eq!(decimal_string(1234567890), "1234567890");
    assert_eq!(decimal_string(u64::MAX), "18446744073709551615");
}

#[test]
fn push_decimal_appends() {
    let mut text = "n=".to_string();
    push_decimal(&mut text, 305);
    assert_eq!(text, "n=305");
    push_decimal(&mut text, 0);
    assert_eq!(text, "n=3050");
}

#[test]
fn str_eq_compares_characters() {
    assert!(str_eq("search", "search"));
    assert!(!str_eq("search", "Search"));
    assert!(!str_eq("search", "searc"));
    assert!(str_eq("", ""));
    assert!(str_eq("é", "é"));
}

#[test]
fn concat_joins_in_order() {
    assert_eq!(concat2("ab", "cd"), "abcd");
    assert_eq!(concat2("", ""), "");
    assert_eq!(concat3("a", "", "c"), "ac");
    assert_eq!(concat3("x", "y", "z"), "xyz");
}

#[test]
fn last_segment_follows_last_separator() {
    assert_eq!(last_segment("qwen/qwen2.5-coder-14b", '/'), "qwen2.5-coder-14b");
    assert_eq!(last_segment("a/b/c", '/'), "c");
    assert_eq!(last_segment("plain", '/'), "plain");
    assert_eq!(last_segment("trailing/", '/'), "");
    assert_eq!(last_segment("", '/'), "");
    assert_eq!(last_segment("/", '/'), "");
}
