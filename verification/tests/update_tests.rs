use rustdesk_update_api::asset::{GithubAsset, GithubRelease};
use rustdesk_update_api::update::{
    authorization, checksum_hex, conclude, failure_response, latest_release_url, plan_fetch,
    release_page, respond, select_target, Failure, FetchOutcome, ServiceConfig, UpdateQuery,
    UpdateResponse,
};

const HEX: &str = "74379f36f014656c4056696a63465360bd20379f936190d858b9c009789e12b1";

fn query(os: Option<&str>, platform: Option<&str>, arch: Option<&str>, version: Option<&str>) -> UpdateQuery {
    UpdateQuery {
        os: os.map(|s| s.to_string()),
        os_version: None,
        arch: arch.map(|s| s.to_string()),
        device_id: None,
        typ: None,
        platform: platform.map(|s| s.to_string()),
        version: version.map(|s| s.to_string()),
    }
}

fn config(token: &str) -> ServiceConfig {
    ServiceConfig {
        api_base: "https://api.github.com/repos".to_string(),
        owner: "wuyuzaddd".to_string(),
        repo: "rustdesk".to_string(),
        token: token.to_string(),
    }
}

fn release(tag: &str, digest: &str) -> GithubRelease {
    GithubRelease {
        tag_name: tag.to_string(),
        assets: vec![
            GithubAsset {
                browser_download_url: "https://example.com/a.deb".to_string(),
                name: "rustdesk-1.4.6-x86_64.deb".to_string(),
                digest: "sha256:00".to_string(),
            },
            GithubAsset {
                browser_download_url: "https://example.com/a.exe".to_string(),
                name: "rustdesk-1.4.6-x86_64.exe".to_string(),
                digest: digest.to_string(),
            },
        ],
    }
}

fn assert_failure(r: &UpdateResponse, version: &str, message: &str) {
    assert_eq!(r.url, "");
    assert_eq!(r.version, version);
    assert_eq!(r.digest, "");
    assert_eq!(r.error.as_deref(), Some(message));
}

#[test]
fn os_is_preferred_over_platform() {
    let (p, a) = select_target(&query(Some("windows"), Some("linux"), Some("x86_64"), None)).unwrap();
    assert_eq!((p.as_str(), a.as_str()), ("windows", "x86_64"));
    let (p, _) = select_target(&query(None, Some("linux"), Some("x86_64"), None)).unwrap();
    assert_eq!(p, "linux");
}

#[test]
fn missing_platform_or_arch_is_refused() {
    let r = plan_fetch(&query(None, None, Some("x86_64"), None), &config("")).err().unwrap();
    assert_failure(&r, "", "缺少平台信息");
    let r = plan_fetch(&query(Some("windows"), None, None, None), &config("")).err().unwrap();
    assert_failure(&r, "", "缺少架构信息");
    assert!(matches!(select_target(&query(None, None, None, None)), Err(Failure::MissingPlatform)));
}

#[test]
fn plan_names_the_latest_release_url() {
    let plan = plan_fetch(&query(Some("windows"), None, Some("x86_64"), None), &config("")).unwrap();
    assert_eq!(plan.url, "https://api.github.com/repos/wuyuzaddd/rustdesk/releases/latest");
    assert_eq!(plan.platform, "windows");
    assert_eq!(plan.arch, "x86_64");
    assert!(plan.authorization.is_none());
    assert_eq!(latest_release_url(&config("")), plan.url);
}

#[test]
fn token_becomes_an_authorization_header() {
    let plan = plan_fetch(&query(Some("windows"), None, Some("x86_64"), None), &config("abc123")).unwrap();
    assert_eq!(plan.authorization.as_deref(), Some("token abc123"));
    assert_eq!(authorization("x").unwrap().as_deref(), Some("token x"));
    assert!(authorization("").unwrap().is_none());
}

#[test]
fn bad_token_is_refused() {
    match authorization("abc\n") {
        Err(f @ Failure::AuthHeader(_)) => {
            assert_eq!(f.message(), "构建认证头失败: failed to parse header value")
        }
        _ => panic!("expected a refused header"),
    }
    let r = plan_fetch(&query(Some("windows"), None, Some("x86_64"), None), &config("a\u{7f}")).err().unwrap();
    assert_failure(&r, "", "构建认证头失败: failed to parse header value");
}

#[test]
fn checksum_loses_its_prefix() {
    let with_prefix = format!("sha256:{}", HEX);
    assert_eq!(checksum_hex(&with_prefix), Some(HEX.to_string()));
    assert_eq!(checksum_hex(HEX), Some(HEX.to_string()));
    assert_eq!(checksum_hex("sha256:abc"), None);
    assert_eq!(checksum_hex(""), None);
}

#[test]
fn download_is_offered_for_a_newer_release() {
    let digest = format!("sha256:{}", HEX);
    let r = respond(&Some("1.4.5".to_string()), "windows", "x86_64", &config(""), &release("1.4.6", &digest)).unwrap();
    assert_eq!(r.url, "https://github.com/wuyuzaddd/rustdesk/releases/tag/1.4.6");
    assert_eq!(r.version, "1.4.6");
    assert_eq!(r.digest, HEX);
    assert!(r.error.is_none());
    assert_eq!(release_page(&config(""), "1.4.6"), r.url);
}

#[test]
fn up_to_date_client_is_told_so() {
    let digest = format!("sha256:{}", HEX);
    let r = respond(&Some("1.4.6".to_string()), "windows", "x86_64", &config(""), &release("v1.4.6", &digest)).unwrap();
    assert_failure(&r, "v1.4.6", "当前已是最新版本");
}

#[test]
fn bad_checksum_is_refused() {
    let r = respond(&None, "windows", "x86_64", &config(""), &release("1.4.6", "sha256:1234")).err().unwrap();
    assert_failure(&r, "1.4.6", "无效的 SHA256 校验和：sha256:1234");
}

#[test]
fn missing_asset_names_the_tag() {
    let r = respond(&None, "android", "armv7", &config(""), &release("1.4.6", HEX)).err().unwrap();
    assert_failure(
        &r,
        "1.4.6",
        "未找到匹配的资产: platform=android, arch=armv7, 期望后缀=armv7.apk",
    );
    let r = respond(&None, "windows", "sparc", &config(""), &release("1.4.6", HEX)).err().unwrap();
    assert_failure(&r, "1.4.6", "不支持的平台/架构: windows sparc");
}

#[test]
fn fetch_failures_are_passed_on() {
    let q = query(Some("windows"), None, Some("x86_64"), None);
    let plan = plan_fetch(&q, &config("")).unwrap();
    let r = conclude(&q, &plan, &config(""), &FetchOutcome::SendFailed("timeout".to_string())).err().unwrap();
    assert_failure(&r, "", "GitHub API请求失败: timeout");
    let r = conclude(&q, &plan, &config(""), &FetchOutcome::ErrorStatus("404 Not Found".to_string())).err().unwrap();
    assert_failure(&r, "", "GitHub API返回错误: 404 Not Found");
    let r = conclude(&q, &plan, &config(""), &FetchOutcome::UnreadableRelease("eof".to_string())).err().unwrap();
    assert_failure(&r, "", "解析GitHub响应失败: eof");
    let r = conclude(&q, &plan, &config(""), &FetchOutcome::Fetched(release("1.4.6", HEX))).unwrap();
    assert_eq!(r.digest, HEX);
}

#[test]
fn failure_messages() {
    assert_eq!(Failure::UnsupportedMethod.message(), "不支持的请求方法");
    assert_eq!(Failure::BadParameters("x".to_string()).message(), "缺少必要的请求参数: x");
    let r = failure_response(&Failure::MissingArch, "1.0.0".to_string());
    assert_failure(&r, "1.0.0", "缺少架构信息");
}
