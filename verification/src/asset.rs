//! Choosing, among the assets of a release, the download for a platform and an
//! architecture.

use crate::text::{
    all_ascii, ascii_lower, ends_with, is_suffix_of, same_text, spec_to_lowercase, to_lowercase,
};
use vstd::prelude::*;
use vstd::string::StringExecFns;

verus! {

/// A downloadable file attached to a release.
#[derive(Debug)]
pub struct GithubAsset {
    pub browser_download_url: String,
    pub name: String,
    /// Checksum as the release lists it, such as `sha256:74379f...`.
    pub digest: String,
}

/// A release: its tag and its assets.
#[derive(Debug)]
pub struct GithubRelease {
    pub tag_name: String,
    pub assets: Vec<GithubAsset>,
}

/// Why no asset was chosen.
#[derive(Debug)]
pub enum AssetError {
    /// The (normalized, lowercased) platform and architecture have no known file name.
    UnsupportedTarget { platform: String, arch: String },
    /// No asset name ends with the expected suffix; the platform and architecture
    /// are those of the request.
    NoMatchingAsset { platform: String, arch: String, suffix: String },
}

/// The message for a platform and architecture with no known asset name.
pub open spec fn unsupported_text(platform: Seq<char>, arch: Seq<char>) -> Seq<char> {
    "不支持的平台/架构: "@ + platform + " "@ + arch
}

/// The message for a release with no asset of the expected name.
pub open spec fn no_asset_text(platform: Seq<char>, arch: Seq<char>, suffix: Seq<char>) -> Seq<
    char,
> {
    "未找到匹配的资产: platform="@ + platform + ", arch="@ + arch + ", 期望后缀="@ + suffix
}

/// The text of an [`AssetError`].
pub open spec fn asset_error_text(e: AssetError) -> Seq<char> {
    match e {
        AssetError::UnsupportedTarget { platform, arch } => unsupported_text(platform@, arch@),
        AssetError::NoMatchingAsset { platform, arch, suffix } => no_asset_text(
            platform@,
            arch@,
            suffix@,
        ),
    }
}

impl AssetError {
    /// The message that the service sends for this error.
    pub fn message(&self) -> (r: String)
        ensures
            r@ == asset_error_text(*self),
    {
        match self {
            AssetError::UnsupportedTarget { platform, arch } => {
                let mut m = String::from_str("不支持的平台/架构: ");
                m.append(platform.as_str());
                m.append(" ");
                m.append(arch.as_str());
                m
            },
            AssetError::NoMatchingAsset { platform, arch, suffix } => {
                let mut m = String::from_str("未找到匹配的资产: platform=");
                m.append(platform.as_str());
                m.append(", arch=");
                m.append(arch.as_str());
                m.append(", 期望后缀=");
                m.append(suffix.as_str());
                m
            },
        }
    }
}

/// The platform name under which assets are looked up: clients may say `mac os`
/// for `macos`; every other name stands for itself.
pub open spec fn normalized_platform(p: Seq<char>) -> Seq<char> {
    if p == "mac os"@ {
        "macos"@
    } else {
        p
    }
}

/// The end of the asset file name for a (normalized) platform and an architecture,
/// following the release naming of RustDesk; `None` for a pair with no build.
pub open spec fn spec_target_suffix(platform: Seq<char>, arch: Seq<char>) -> Option<Seq<char>> {
    if platform == "windows"@ {
        if arch == "x86_64"@ {
            Some("x86_64.exe"@)
        } else if arch == "x86_64_msi"@ {
            Some("x86_64.msi"@)
        } else if arch == "x86"@ {
            Some("x86-sciter.exe"@)
        } else {
            None
        }
    } else if platform == "macos"@ {
        if arch == "aarch64"@ {
            Some("aarch64-aarch64.dmg"@)
        } else if arch == "x86_64"@ {
            Some("x86_64-x86_64.dmg"@)
        } else {
            None
        }
    } else if platform == "linux"@ {
        if arch == "x86_64"@ {
            Some("x86_64.deb"@)
        } else if arch == "x86_64_suse_rpm"@ {
            Some("x86_64-suse.rpm"@)
        } else if arch == "x86_64_rpm"@ {
            Some("x86_64.rpm"@)
        } else if arch == "x86_64_appimage"@ {
            Some("x86_64.AppImage"@)
        } else if arch == "x86_64_flatpak"@ {
            Some("x86_64.flatpak"@)
        } else if arch == "x86_64_sciter_deb"@ {
            Some("x86_64-sciter.deb"@)
        } else if arch == "x86_64_sciter_flatpak"@ {
            Some("x86_64-sciter.flatpak"@)
        } else if arch == "aarch64"@ {
            Some("aarch64.deb"@)
        } else if arch == "aarch64_suse_rpm"@ {
            Some("aarch64-suse.rpm"@)
        } else if arch == "aarch64_rpm"@ {
            Some("aarch64.rpm"@)
        } else if arch == "aarch64_appimage"@ {
            Some("aarch64.AppImage"@)
        } else if arch == "aarch64_flatpak"@ {
            Some("aarch64.flatpak"@)
        } else if arch == "armv7_sciter_deb"@ {
            Some("armv7-sciter.deb"@)
        } else if arch == "x86_64_pkg_tar_zst"@ {
            Some("x86_64.pkg.tar.zst"@)
        } else {
            None
        }
    } else if platform == "android"@ {
        if arch == "aarch64"@ {
            Some("aarch64.apk"@)
        } else if arch == "armv7"@ {
            Some("armv7.apk"@)
        } else if arch == "universal"@ {
            Some("universal.apk"@)
        } else if arch == "x86_64"@ {
            Some("x86_64.apk"@)
        } else {
            None
        }
    } else {
        None
    }
}

/// The character view of an optional string slice.
pub open spec fn opt_str_view(s: Option<&str>) -> Option<Seq<char>> {
    match s {
        Some(t) => Some(t@),
        None => None,
    }
}

/// Clients that say `mac os` get the same file as those that say `macos`.
pub proof fn law_mac_os_alias(arch: Seq<char>)
    ensures
        spec_target_suffix(normalized_platform("mac os"@), arch) == spec_target_suffix(
            normalized_platform("macos"@),
            arch,
        ),
{
}

/// Normalizes a lowercased platform name.
pub fn normalize_platform<'a>(platform: &'a str) -> (r: &'a str)
    ensures
        r@ == normalized_platform(platform@),
{
    if same_text(platform, "mac os") {
        "macos"
    } else {
        platform
    }
}

/// Looks up the asset file-name suffix for a normalized platform and a lowercased
/// architecture.
pub fn target_suffix(platform: &str, arch: &str) -> (r: Option<&'static str>)
    ensures
        opt_str_view(r) == spec_target_suffix(platform@, arch@),
{
    if same_text(platform, "windows") {
        if same_text(arch, "x86_64") {
            Some("x86_64.exe")
        } else if same_text(arch, "x86_64_msi") {
            Some("x86_64.msi")
        } else if same_text(arch, "x86") {
            Some("x86-sciter.exe")
        } else {
            None
        }
    } else if same_text(platform, "macos") {
        if same_text(arch, "aarch64") {
            Some("aarch64-aarch64.dmg")
        } else if same_text(arch, "x86_64") {
            Some("x86_64-x86_64.dmg")
        } else {
            None
        }
    } else if same_text(platform, "linux") {
        if same_text(arch, "x86_64") {
            Some("x86_64.deb")
        } else if same_text(arch, "x86_64_suse_rpm") {
            Some("x86_64-suse.rpm")
        } else if same_text(arch, "x86_64_rpm") {
            Some("x86_64.rpm")
        } else if same_text(arch, "x86_64_appimage") {
            Some("x86_64.AppImage")
        } else if same_text(arch, "x86_64_flatpak") {
            Some("x86_64.flatpak")
        } else if same_text(arch, "x86_64_sciter_deb") {
            Some("x86_64-sciter.deb")
        } else if same_text(arch, "x86_64_sciter_flatpak") {
            Some("x86_64-sciter.flatpak")
        } else if same_text(arch, "aarch64") {
            Some("aarch64.deb")
        } else if same_text(arch, "aarch64_suse_rpm") {
            Some("aarch64-suse.rpm")
        } else if same_text(arch, "aarch64_rpm") {
            Some("aarch64.rpm")
        } else if same_text(arch, "aarch64_appimage") {
            Some("aarch64.AppImage")
        } else if same_text(arch, "aarch64_flatpak") {
            Some("aarch64.flatpak")
        } else if same_text(arch, "armv7_sciter_deb") {
            Some("armv7-sciter.deb")
        } else if same_text(arch, "x86_64_pkg_tar_zst") {
            Some("x86_64.pkg.tar.zst")
        } else {
            None
        }
    } else if same_text(platform, "android") {
        if same_text(arch, "aarch64") {
            Some("aarch64.apk")
        } else if same_text(arch, "armv7") {
            Some("armv7.apk")
        } else if same_text(arch, "universal") {
            Some("universal.apk")
        } else if same_text(arch, "x86_64") {
            Some("x86_64.apk")
        } else {
            None
        }
    } else {
        None
    }
}

/// The asset's file name ends with `suffix`.
pub open spec fn asset_matches(asset: GithubAsset, suffix: Seq<char>) -> bool {
    is_suffix_of(suffix, asset.name@)
}

/// `i` is the first position in `assets` whose name ends with `suffix`.
pub open spec fn is_first_match(assets: Seq<GithubAsset>, suffix: Seq<char>, i: int) -> bool {
    &&& 0 <= i < assets.len()
    &&& asset_matches(assets[i], suffix)
    &&& forall|j: int| 0 <= j < i ==> !asset_matches(#[trigger] assets[j], suffix)
}

/// The position of the first asset whose name ends with `suffix`, if any.
pub open spec fn first_match(assets: Seq<GithubAsset>, suffix: Seq<char>) -> Option<int> {
    if exists|i: int| is_first_match(assets, suffix, i) {
        Some(choose|i: int| is_first_match(assets, suffix, i))
    } else {
        None
    }
}

/// At most one position is the first match.
pub proof fn lemma_first_match_unique(assets: Seq<GithubAsset>, suffix: Seq<char>, i: int, j: int)
    requires
        is_first_match(assets, suffix, i),
        is_first_match(assets, suffix, j),
    ensures
        i == j,
{
    if i < j {
        assert(!asset_matches(assets[i], suffix));
    } else if j < i {
        assert(!asset_matches(assets[j], suffix));
    }
}

/// The first match found by a search is the one `first_match` names.
pub proof fn lemma_first_match_is(assets: Seq<GithubAsset>, suffix: Seq<char>, i: int)
    requires
        is_first_match(assets, suffix, i),
    ensures
        first_match(assets, suffix) == Some(i),
{
    let k = choose|k: int| is_first_match(assets, suffix, k);
    lemma_first_match_unique(assets, suffix, i, k);
}

/// With no asset of the wanted name, there is no first match.
pub proof fn lemma_no_match(assets: Seq<GithubAsset>, suffix: Seq<char>)
    requires
        forall|i: int| 0 <= i < assets.len() ==> !asset_matches(#[trigger] assets[i], suffix),
    ensures
        first_match(assets, suffix) is None,
{
    if exists|i: int| is_first_match(assets, suffix, i) {
        let k = choose|k: int| is_first_match(assets, suffix, k);
        assert(asset_matches(assets[k], suffix));
    }
}

/// What choosing among `assets` must give for a request for `platform` and `arch`,
/// whose lowercase forms are `lower_platform` and `lower_arch`: an unsupported pair
/// is refused; otherwise the first asset whose name ends with the pair's suffix is
/// chosen, and when there is none the request is refused with that suffix.
pub open spec fn asset_outcome<'a>(
    assets: Seq<GithubAsset>,
    lower_platform: Seq<char>,
    lower_arch: Seq<char>,
    platform: Seq<char>,
    arch: Seq<char>,
    r: Result<&'a GithubAsset, AssetError>,
) -> bool {
    let p = normalized_platform(lower_platform);
    match spec_target_suffix(p, lower_arch) {
        None => match r {
            Err(AssetError::UnsupportedTarget { platform: ep, arch: ea }) => ep@ == p && ea@
                == lower_arch,
            _ => false,
        },
        Some(suffix) => match r {
            Ok(a) => exists|i: int| is_first_match(assets, suffix, i) && assets[i] == *a,
            Err(AssetError::NoMatchingAsset { platform: ep, arch: ea, suffix: es }) => {
                &&& ep@ == platform
                &&& ea@ == arch
                &&& es@ == suffix
                &&& forall|i: int| 0 <= i < assets.len() ==> !asset_matches(#[trigger] assets[i], suffix)
            },
            _ => false,
        },
    }
}

/// Chooses the download for `platform` and `arch` among `assets`. Both names are
/// compared in lowercase (for ASCII names: `A`..`Z` read as `a`..`z`).
#[verifier::loop_isolation(false)]
pub fn match_asset<'a>(assets: &'a [GithubAsset], platform: &str, arch: &str) -> (r: Result<
    &'a GithubAsset,
    AssetError,
>)
    ensures
        asset_outcome(
            assets@,
            spec_to_lowercase(platform@),
            spec_to_lowercase(arch@),
            platform@,
            arch@,
            r,
        ),
        all_ascii(platform@) && all_ascii(arch@) ==> asset_outcome(
            assets@,
            ascii_lower(platform@),
            ascii_lower(arch@),
            platform@,
            arch@,
            r,
        ),
{
    let platform_lower = to_lowercase(platform);
    let normalized = normalize_platform(platform_lower.as_str());
    let arch_lower = to_lowercase(arch);
    let suffix = match target_suffix(normalized, arch_lower.as_str()) {
        Some(s) => s,
        None => {
            return Err(
                AssetError::UnsupportedTarget {
                    platform: normalized.to_owned(),
                    arch: arch_lower,
                },
            );
        },
    };
    let mut i: usize = 0;
    while i < assets.len()
        invariant
            i <= assets@.len(),
            forall|j: int| 0 <= j < i ==> !asset_matches(#[trigger] assets@[j], suffix@),
        decreases assets@.len() - i,
    {
        if ends_with(assets[i].name.as_str(), suffix) {
            let found = &assets[i];
            assert(is_first_match(assets@, suffix@, i as int) && assets@[i as int] == *found);
            return Ok(found);
        }
        i = i + 1;
    }
    Err(
        AssetError::NoMatchingAsset {
            platform: platform.to_owned(),
            arch: arch.to_owned(),
            suffix: suffix.to_owned(),
        },
    )
}

} // verus!
