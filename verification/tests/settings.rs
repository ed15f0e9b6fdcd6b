use walli::settings::{b, i64_opt, non_empty, u64_or, SettingsMap};

fn map(pairs: &[(&str, &str)]) -> SettingsMap {
    SettingsMap::from_pairs(pairs.iter().map(|(k, v)| (k.to_string(), v.to_string())).collect())
}

#[test]
fn later_rows_replace_earlier_ones() {
    let m = map(&[("a", "1"), ("b", "2"), ("a", "3")]);
    assert_eq!(m.get("a").map(String::as_str), Some("3"));
    assert_eq!(m.get("b").map(String::as_str), Some("2"));
    assert_eq!(m.get("c"), None);
}

#[test]
fn insert_then_get_reads_back() {
    let mut m = map(&[("interval_seconds", "3600")]);
    assert_eq!(m.get("interval_seconds").map(String::as_str), Some("3600"));
    m.insert("interval_seconds".to_string(), "7200".to_string());
    assert_eq!(m.get("interval_seconds").map(String::as_str), Some("7200"));
    m.insert("paused".to_string(), "true".to_string());
    assert_eq!(m.get("interval_seconds").map(String::as_str), Some("7200"));
    assert!(b(&m, "paused"));
}

#[test]
fn readers_of_settings() {
    let m = map(&[("paused", "true"), ("x", "TRUE"), ("n", "42"), ("bad", "4x"), ("id", "-3"), ("empty", "")]);
    assert!(b(&m, "paused"));
    assert!(!b(&m, "x"));
    assert!(!b(&m, "missing"));
    assert_eq!(u64_or(&m, "n", 3600), 42);
    assert_eq!(u64_or(&m, "bad", 3600), 3600);
    assert_eq!(u64_or(&m, "missing", 3600), 3600);
    assert_eq!(i64_opt(&m, "id"), Some(-3));
    assert_eq!(i64_opt(&m, "bad"), None);
    assert!(non_empty(&m, "n"));
    assert!(!non_empty(&m, "empty"));
    assert!(!non_empty(&m, "missing"));
}
