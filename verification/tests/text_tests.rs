use rustdesk_update_api::text::{ends_with, same_text, trim_start_matches};

#[test]
fn same_text_compares_characters() {
    assert!(same_text("abc", "abc"));
    assert!(!same_text("abc", "abd"));
    assert!(!same_text("abc", "ab"));
    assert!(same_text("", ""));
}

#[test]
fn ends_with_checks_suffix() {
    assert!(ends_with("rustdesk-1.4.6-x86_64.exe", "x86_64.exe"));
    assert!(!ends_with("rustdesk-1.4.6-x86_64.msi", "x86_64.exe"));
    assert!(ends_with("abc", ""));
    assert!(!ends_with("exe", "x86_64.exe"));
    assert!(ends_with("黑风雷.exe", "雷.exe"));
}

#[test]
fn trim_start_matches_removes_every_leading_copy() {
    assert_eq!(trim_start_matches("vv1.0.0", "v"), "1.0.0");
    assert_eq!(trim_start_matches("1.0.0v", "v"), "1.0.0v");
    assert_eq!(trim_start_matches("sha256:sha256:ab", "sha256:"), "ab");
    assert_eq!(trim_start_matches("sha256", "sha256:"), "sha256");
    assert_eq!(trim_start_matches("", "v"), "");
    assert_eq!(trim_start_matches("abc", ""), "abc");
}
