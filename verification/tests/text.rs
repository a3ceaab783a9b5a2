use outrider::text::{
    join, join3, join4, last_path_segment, last_slash_position, matches_at, starts_with, str_eq,
    with_last_segment,
};

#[test]
fn str_eq_compares_characters() {
    assert!(str_eq("", ""));
    assert!(str_eq("true", "true"));
    assert!(!str_eq("true", "True"));
    assert!(!str_eq("true", "true "));
    assert!(str_eq("\u{e4}\u{1f511}", "\u{e4}\u{1f511}"));
}

#[test]
fn starts_with_is_a_prefix_test() {
    assert!(starts_with("outrider.geeko.me/enabled", "outrider.geeko.me/"));
    assert!(starts_with("abc", ""));
    assert!(starts_with("", ""));
    assert!(starts_with("abc", "abc"));
    assert!(!starts_with("ab", "abc"));
    assert!(!starts_with("xabc", "abc"));
    assert!(starts_with("\u{e4}bc", "\u{e4}b"));
}

#[test]
fn matches_at_looks_at_a_position() {
    assert!(matches_at("hello", 1, "ell"));
    assert!(!matches_at("hello", 2, "ell"));
    assert!(matches_at("hello", 5, ""));
    assert!(!matches_at("hello", 4, "oo"));
    assert!(matches_at("\u{e4}\u{e4}x", 2, "x"));
}

#[test]
fn join_joins_in_order() {
    assert_eq!(join("a", "b"), "ab");
    assert_eq!(join3("a", "", "c"), "ac");
    assert_eq!(join4("a", "b", "c", "d"), "abcd");
}

#[test]
fn last_path_segment_follows_the_last_slash() {
    assert_eq!(last_path_segment("https://h/k8s/clusters/local"), "local");
    assert_eq!(last_path_segment("local"), "local");
    assert_eq!(last_path_segment("a/"), "");
    assert_eq!(last_path_segment(""), "");
    assert_eq!(last_path_segment("/"), "");
    assert_eq!(last_path_segment("a/\u{e4}b"), "\u{e4}b");
    for text in ["https://h/k8s/clusters/local", "local", "a/", "", "/", "//x//y"] {
        assert_eq!(last_path_segment(text), text.rsplit('/').next().unwrap());
    }
}

#[test]
fn last_slash_position_counts_characters() {
    assert_eq!(last_slash_position("https://h/k8s/clusters/local"), 23);
    assert_eq!(last_slash_position("local"), 0);
    assert_eq!(last_slash_position(""), 0);
    assert_eq!(last_slash_position("/"), 1);
    assert_eq!(last_slash_position("a/"), 2);
    assert_eq!(last_slash_position("\u{e4}\u{1f511}/x"), 3);
}

#[test]
fn with_last_segment_replaces_only_the_last_segment() {
    assert_eq!(
        with_last_segment("https://localhost:8443/k8s/clusters/local", "c-12345"),
        "https://localhost:8443/k8s/clusters/c-12345"
    );
    assert_eq!(with_last_segment("local/local", "c-1"), "local/c-1");
    assert_eq!(with_last_segment("local", "c-1"), "c-1");
    assert_eq!(with_last_segment("a/", "b"), "a/b");
    assert_eq!(with_last_segment("", "b"), "b");
    assert_eq!(with_last_segment("a/b", ""), "a/");
    assert_eq!(with_last_segment("\u{e4}/x", "\u{1f511}"), "\u{e4}/\u{1f511}");
}
