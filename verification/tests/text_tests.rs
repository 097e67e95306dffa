use price_watch::text::{str_contains, str_eq, str_has_token};

#[test]
fn contains_finds_substrings() {
    assert!(str_contains("content", "content"));
    assert!(str_contains("itemprop-content-x", "content"));
    assert!(str_contains("abc", ""));
    assert!(str_contains("", ""));
    assert!(!str_contains("", "a"));
    assert!(!str_contains("conten", "content"));
    assert!(!str_contains("Content", "content"));
}

#[test]
fn token_membership() {
    assert!(str_has_token("header-item", "header-item"));
    assert!(str_has_token("top header-item big", "header-item"));
    assert!(str_has_token("a\theader-item\nb", "header-item"));
    assert!(!str_has_token("header-items", "header-item"));
    assert!(!str_has_token("xheader-item", "header-item"));
    assert!(!str_has_token("header", "header-item"));
    assert!(!str_has_token("anything", ""));
}

#[test]
fn string_equality() {
    assert!(str_eq("", ""));
    assert!(str_eq("h1", "h1"));
    assert!(str_eq("🎉📷", "🎉📷"));
    assert!(!str_eq("h1", "h2"));
    assert!(!str_eq("h1", "h11"));
}
