use rustdesk_update_api::asset::{
    match_asset, normalize_platform, target_suffix, AssetError, GithubAsset,
};

fn asset(name: &str) -> GithubAsset {
    GithubAsset {
        browser_download_url: format!("https://example.com/{}", name),
        name: name.to_string(),
        digest: format!("sha256:{}", "a".repeat(64)),
    }
}

fn release_assets() -> Vec<GithubAsset> {
    vec![
        asset("rustdesk-1.4.6-x86_64.exe"),
        asset("rustdesk-1.4.6-x86_64.msi"),
        asset("rustdesk-1.4.6-aarch64-aarch64.dmg"),
        asset("rustdesk-1.4.6-x86_64-x86_64.dmg"),
        asset("rustdesk-1.4.6-x86_64.deb"),
        asset("rustdesk-1.4.6-aarch64.apk"),
    ]
}

#[test]
fn windows_x86_64_gets_the_exe() {
    let assets = release_assets();
    let chosen = match_asset(&assets, "windows", "x86_64").ok().unwrap();
    assert_eq!(chosen.name, "rustdesk-1.4.6-x86_64.exe");
}

#[test]
fn macos_aarch64_gets_the_dmg() {
    let assets = release_assets();
    let chosen = match_asset(&assets, "macos", "aarch64").ok().unwrap();
    assert_eq!(chosen.name, "rustdesk-1.4.6-aarch64-aarch64.dmg");
}

#[test]
fn mac_os_is_an_alias_of_macos() {
    let assets = release_assets();
    let chosen = match_asset(&assets, "Mac OS", "x86_64").ok().unwrap();
    assert_eq!(chosen.name, "rustdesk-1.4.6-x86_64-x86_64.dmg");
    assert_eq!(normalize_platform("mac os"), "macos");
    assert_eq!(normalize_platform("linux"), "linux");
    assert_eq!(normalize_platform("freebsd"), "freebsd");
}

#[test]
fn names_are_compared_in_lowercase() {
    let assets = release_assets();
    let chosen = match_asset(&assets, "Linux", "X86_64").ok().unwrap();
    assert_eq!(chosen.name, "rustdesk-1.4.6-x86_64.deb");
    let chosen = match_asset(&assets, "WINDOWS", "X86_64_MSI").ok().unwrap();
    assert_eq!(chosen.name, "rustdesk-1.4.6-x86_64.msi");
}

#[test]
fn first_matching_asset_wins() {
    let assets = vec![
        asset("other.txt"),
        asset("first-x86_64.apk"),
        asset("second-x86_64.apk"),
    ];
    let chosen = match_asset(&assets, "android", "x86_64").ok().unwrap();
    assert_eq!(chosen.name, "first-x86_64.apk");
}

#[test]
fn unsupported_pair_is_refused() {
    let assets = release_assets();
    match match_asset(&assets, "Mac OS", "ARMV7") {
        Err(e @ AssetError::UnsupportedTarget { .. }) => {
            assert_eq!(e.message(), "不支持的平台/架构: macos armv7");
        }
        _ => panic!("expected an unsupported target"),
    }
    match match_asset(&assets, "ios", "aarch64") {
        Err(e) => assert_eq!(e.message(), "不支持的平台/架构: ios aarch64"),
        Ok(_) => panic!("expected a refusal"),
    }
}

#[test]
fn missing_asset_is_refused_with_the_suffix() {
    let assets = release_assets();
    match match_asset(&assets, "Linux", "aarch64_rpm") {
        Err(e @ AssetError::NoMatchingAsset { .. }) => {
            assert_eq!(
                e.message(),
                "未找到匹配的资产: platform=Linux, arch=aarch64_rpm, 期望后缀=aarch64.rpm"
            );
        }
        _ => panic!("expected no matching asset"),
    }
    match match_asset(&[], "windows", "x86") {
        Err(AssetError::NoMatchingAsset { suffix, .. }) => assert_eq!(suffix, "x86-sciter.exe"),
        _ => panic!("expected no matching asset"),
    }
}

#[test]
fn suffix_table_covers_every_build() {
    let cases = [
        ("windows", "x86_64", "x86_64.exe"),
        ("windows", "x86_64_msi", "x86_64.msi"),
        ("windows", "x86", "x86-sciter.exe"),
        ("macos", "aarch64", "aarch64-aarch64.dmg"),
        ("macos", "x86_64", "x86_64-x86_64.dmg"),
        ("linux", "x86_64", "x86_64.deb"),
        ("linux", "x86_64_suse_rpm", "x86_64-suse.rpm"),
        ("linux", "x86_64_rpm", "x86_64.rpm"),
        ("linux", "x86_64_appimage", "x86_64.AppImage"),
        ("linux", "x86_64_flatpak", "x86_64.flatpak"),
        ("linux", "x86_64_sciter_deb", "x86_64-sciter.deb"),
        ("linux", "x86_64_sciter_flatpak", "x86_64-sciter.flatpak"),
        ("linux", "aarch64", "aarch64.deb"),
        ("linux", "aarch64_suse_rpm", "aarch64-suse.rpm"),
        ("linux", "aarch64_rpm", "aarch64.rpm"),
        ("linux", "aarch64_appimage", "aarch64.AppImage"),
        ("linux", "aarch64_flatpak", "aarch64.flatpak"),
        ("linux", "armv7_sciter_deb", "armv7-sciter.deb"),
        ("linux", "x86_64_pkg_tar_zst", "x86_64.pkg.tar.zst"),
        ("android", "aarch64", "aarch64.apk"),
        ("android", "armv7", "armv7.apk"),
        ("android", "universal", "universal.apk"),
        ("android", "x86_64", "x86_64.apk"),
    ];
    for (p, a, s) in cases {
        assert_eq!(target_suffix(p, a), Some(s));
    }
    assert_eq!(target_suffix("windows", "aarch64"), None);
    assert_eq!(target_suffix("mac os", "aarch64"), None);
}
