use openstack_tui::client::swift::{account_stats_from_headers, header_count};
use openstack_tui::strmap::StrMap;
use openstack_tui::text::{truncate_text, contains, contains_ci, parse_u64, starts_with, str_eq, trim_trailing_slashes, u64_to_string};

#[test]
fn decimal_text_round_trips() {
    for n in [0u64, 7, 10, 99, 100, 12345, u64::MAX] {
        let t = u64_to_string(n);
        assert_eq!(t, n.to_string());
        assert_eq!(parse_u64(&t), Some(n));
    }
}

#[test]
fn parse_like_std() {
    for s in ["", "+", "-1", "12a", "+42", "007", "18446744073709551615", "18446744073709551616", " 1", "١"] {
        assert_eq!(parse_u64(s), s.parse::<u64>().ok(), "input {:?}", s);
    }
}

#[test]
fn swift_headers() {
    assert_eq!(header_count(Some("12")), 12);
    assert_eq!(header_count(Some("x")), 0);
    assert_eq!(header_count(None), 0);
    let st = account_stats_from_headers(Some("3"), None, Some("1024"));
    assert_eq!((st.container_count, st.object_count, st.bytes_used), (3, 0, 1024));
}

#[test]
fn string_helpers() {
    assert_eq!(trim_trailing_slashes("http://a///"), "http://a");
    assert_eq!(trim_trailing_slashes("///"), "");
    assert!(contains("hello", "ll"));
    assert!(contains("hello", ""));
    assert!(!contains("he", "hello"));
    assert!(starts_with("abcdef", "abc"));
    assert!(!starts_with("ab", "abc"));
    assert!(str_eq("a", "a") && !str_eq("a", "b"));
    assert!(contains_ci("ÀB", "àb"));
    assert!(contains_ci("Compute-Node", "NODE"));
}

#[test]
fn truncating_twice_changes_nothing() {
    for (text, max) in [("abcdefghij", 5usize), ("héllo wörld", 4), ("short", 10), ("exactly", 7)] {
        let once = truncate_text(text, max);
        assert!(once.chars().count() <= max);
        assert_eq!(truncate_text(&once, max), once);
    }
}

#[test]
fn strmap_clone_keeps_keys() {
    let mut m: StrMap<String> = StrMap::new();
    m.insert("a".to_string(), "1".to_string());
    m.insert("b".to_string(), "2".to_string());
    let c = m.clone();
    assert_eq!(c.len(), 2);
    assert_eq!(c.get("a").map(|v| v.as_str()), Some("1"));
    assert_eq!(c.get("b").map(|v| v.as_str()), Some("2"));
}
