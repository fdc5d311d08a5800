use k8s_dashboard::format::{format_age, format_labels};
use std::collections::BTreeMap;

#[test]
fn format_age_passes_the_timestamp_through() {
    assert_eq!(format_age(Some("2024-01-01T00:00:00+00:00".to_string())), "2024-01-01T00:00:00+00:00");
}

#[test]
fn format_age_without_timestamp_is_unknown() {
    assert_eq!(format_age(None), "Unknown");
}

#[test]
fn format_labels_of_no_labels_is_none_marker() {
    assert_eq!(format_labels(&BTreeMap::new()), "<none>");
}

#[test]
fn format_labels_joins_pairs_in_key_order() {
    let mut labels = BTreeMap::new();
    labels.insert("tier".to_string(), "y".to_string());
    labels.insert("app".to_string(), "x".to_string());
    assert_eq!(format_labels(&labels), "app=x,tier=y");
}
