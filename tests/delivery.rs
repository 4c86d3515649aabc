use based_ffmpreg::delivery::{
    exceeds_upload_limit, fallback_link, is_foreign_command, single_link, strip_code_fence, LinkMatch,
};

fn link(i: usize, url: &str) -> LinkMatch {
    LinkMatch { rule_index: i, url: url.to_string() }
}

#[test]
fn fences_are_stripped() {
    assert_eq!(strip_code_fence("```json\n{\"a\":1}\n```"), "{\"a\":1}");
    assert_eq!(strip_code_fence("```\n{}\n```"), "{}");
    assert_eq!(strip_code_fence("```json\n{}"), "```json\n{}");
    assert_eq!(strip_code_fence("{}"), "{}");
    assert_eq!(strip_code_fence("```\n\n```"), "");
}

#[test]
fn only_single_links_are_served() {
    assert!(single_link(vec![]).is_none());
    assert_eq!(single_link(vec![link(1, "u")]).unwrap().url, "u");
    assert!(single_link(vec![link(0, "a"), link(0, "b")]).is_none());
}

#[test]
fn foreign_commands_and_limits() {
    assert!(is_foreign_command(".dl https://x"));
    assert!(!is_foreign_command(".dlx"));
    assert!(!exceeds_upload_limit(10 * 1024 * 1024));
    assert!(exceeds_upload_limit(10 * 1024 * 1024 + 1));
}

#[test]
fn fallback_only_for_changed_links_on_size_rejection() {
    assert_eq!(fallback_link(true, Some("https://fx/1".to_string()), "https://x/1"), Some("https://fx/1".to_string()));
    assert_eq!(fallback_link(true, Some("https://x/1".to_string()), "https://x/1"), None);
    assert_eq!(fallback_link(false, Some("https://fx/1".to_string()), "https://x/1"), None);
    assert_eq!(fallback_link(true, None, "https://x/1"), None);
}
