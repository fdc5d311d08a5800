use k8s_dashboard::string_map::{entries, find, keys};
use k8s_dashboard::text::{decimal_i32, decimal_usize, join, or_default, or_empty};
use std::collections::BTreeMap;

#[test]
fn decimal_text_of_counts() {
    assert_eq!(decimal_usize(0), "0");
    assert_eq!(decimal_usize(7), "7");
    assert_eq!(decimal_usize(10), "10");
    assert_eq!(decimal_usize(1_000_000), "1000000");
    assert_eq!(decimal_usize(usize::MAX), usize::MAX.to_string());
}

#[test]
fn decimal_text_of_signed_numbers() {
    assert_eq!(decimal_i32(0), "0");
    assert_eq!(decimal_i32(-1), "-1");
    assert_eq!(decimal_i32(8080), "8080");
    assert_eq!(decimal_i32(i32::MAX), "2147483647");
    assert_eq!(decimal_i32(i32::MIN), "-2147483648");
}

#[test]
fn join_puts_the_separator_between_parts_only() {
    assert_eq!(join(&vec![], ", "), "");
    assert_eq!(join(&vec!["a".to_string()], ", "), "a");
    assert_eq!(join(&vec!["a".to_string(), "".to_string(), "c".to_string()], ", "), "a, , c");
}

#[test]
fn missing_texts_get_their_default() {
    assert_eq!(or_default(&None, "Unknown"), "Unknown");
    assert_eq!(or_default(&Some("Running".to_string()), "Unknown"), "Running");
    assert_eq!(or_empty(&None), "");
    assert_eq!(or_empty(&Some("x".to_string())), "x");
}

#[test]
fn entries_come_in_ascending_key_order() {
    let mut map = BTreeMap::new();
    map.insert("b".to_string(), "2".to_string());
    map.insert("ab".to_string(), "1b".to_string());
    map.insert("a".to_string(), "1".to_string());
    map.insert("B".to_string(), "0".to_string());
    let listed = entries(&map);
    let expected: Vec<(String, String)> = [("B", "0"), ("a", "1"), ("ab", "1b"), ("b", "2")]
        .iter()
        .map(|(k, v)| (k.to_string(), v.to_string()))
        .collect();
    assert_eq!(listed, expected);
    assert_eq!(keys(&map), vec!["B", "a", "ab", "b"]);
    assert!(entries(&BTreeMap::new()).is_empty());
}

#[test]
fn find_looks_a_key_up_by_its_text() {
    let listed = vec![
        ("cpu".to_string(), "100m".to_string()),
        ("memory".to_string(), "128Mi".to_string()),
    ];
    assert_eq!(find(&listed, "cpu"), Some("100m".to_string()));
    assert_eq!(find(&listed, "memory"), Some("128Mi".to_string()));
    assert_eq!(find(&listed, "gpu"), None);
    assert_eq!(find(&vec![], "cpu"), None);
}
