use rustdesk_update_api::version::should_update;

fn some(s: &str) -> Option<String> {
    Some(s.to_string())
}

#[test]
fn client_without_version_always_updates() {
    assert!(should_update(&None, "1.4.6"));
    assert!(should_update(&None, "not a version"));
}

#[test]
fn newer_release_is_offered() {
    assert!(should_update(&some("1.4.0"), "1.4.6"));
    assert!(should_update(&some("1.4.5"), "v1.4.6"));
    assert!(should_update(&some("0.9.9"), "1.0.0"));
}

#[test]
fn same_or_older_release_is_not_offered() {
    assert!(!should_update(&some("1.4.6"), "1.4.6"));
    assert!(!should_update(&some("v1.4.6"), "1.4.6"));
    assert!(!should_update(&some("1.4.7"), "v1.4.6"));
    assert!(!should_update(&some("2.0.0"), "1.9.9"));
}

#[test]
fn numeric_components_compare_as_numbers() {
    assert!(should_update(&some("1.4.9"), "1.4.10"));
    assert!(!should_update(&some("1.10.0"), "1.9.0"));
}

#[test]
fn prerelease_is_below_release() {
    assert!(should_update(&some("1.4.6-beta"), "1.4.6"));
    assert!(!should_update(&some("1.4.6"), "1.4.6-rc.1"));
    assert!(should_update(&some("1.4.6-alpha"), "1.4.6-beta"));
}

#[test]
fn repeated_v_prefixes_are_stripped() {
    assert!(should_update(&some("vv1.0.0"), "vvv1.0.1"));
}

#[test]
fn unparsable_versions_never_update() {
    assert!(!should_update(&some("1.4"), "1.4.6"));
    assert!(!should_update(&some("1.4.5"), "latest"));
    assert!(!should_update(&some(""), "1.4.6"));
    assert!(!should_update(&some("1.04.5"), "1.4.6"));
    assert!(!should_update(&some(" 1.4.5"), "1.4.6"));
}

#[test]
fn build_metadata_orders_after_numbers() {
    assert!(should_update(&some("1.4.6"), "1.4.6+build.2"));
    assert!(!should_update(&some("1.4.6+b"), "1.4.6+a"));
}

#[test]
fn older_client_or_newer_tag_keeps_the_update() {
    assert!(should_update(&some("1.4.5"), "1.4.6"));
    assert!(should_update(&some("1.4.5-rc.1"), "1.4.6"));
    assert!(should_update(&some("1.4.5"), "1.5.0-beta"));
    assert!(should_update(&some("v1.0.0"), "2.0.0"));
}
