use servoshell::content_blocking::{builtin_filters, create_engine, filter_list_text, should_block};

#[test]
fn blocks_known_trackers() {
    let engine = create_engine();
    assert!(should_block(&engine, "https://www.google-analytics.com/analytics.js", "https://example.com/", "script"));
    assert!(should_block(&engine, "https://coinhive.com/lib/miner.js", "https://example.com/", "script"));
}

#[test]
fn lets_ordinary_requests_through() {
    let engine = create_engine();
    assert!(!should_block(&engine, "https://example.com/app.js", "https://example.com/", "script"));
}

#[test]
fn unreadable_url_is_not_blocked() {
    let engine = create_engine();
    assert!(!should_block(&engine, "not a url", "https://example.com/", "script"));
}

#[test]
fn filter_list_has_one_rule_per_line() {
    let rules = builtin_filters();
    assert_eq!(rules.len(), 24);
    let text = filter_list_text(&rules);
    assert_eq!(text.lines().count(), 24);
    assert!(text.starts_with("||google-analytics.com^\n"));
    assert!(text.ends_with("||cryptoloot.pro^\n"));
}
