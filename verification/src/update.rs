//! Answering an update request: which platform and architecture it asks for, how
//! the newest release is fetched, and what the client is told.

use crate::asset::{
    asset_error_text, asset_outcome, lemma_first_match_is, lemma_no_match,
    first_match, is_first_match, lemma_first_match_unique, match_asset, no_asset_text,
    normalized_platform, spec_target_suffix, unsupported_text, AssetError, GithubAsset,
    GithubRelease,
};
use crate::text::{all_ascii, ascii_lower, copies, is_prefix_of, law_trim_start_removes_copies, lemma_trim_start_no_prefix, spec_to_lowercase, trim_start, trim_start_matches};
use crate::version::{opt_view, should_update, spec_should_update, strip_v};
use reqwest::header::HeaderValue;
use vstd::prelude::*;
use vstd::string::StringExecFns;
use vstd::utf8::encode_utf8;

verus! {

/// The parameters of an update request. Clients send either `os` (RustDesk's own
/// form) or `platform`, and `arch`; `version` is the version they run.
#[derive(Debug)]
pub struct UpdateQuery {
    pub os: Option<String>,
    pub os_version: Option<String>,
    pub arch: Option<String>,
    pub device_id: Option<Vec<u8>>,
    pub typ: Option<String>,
    pub platform: Option<String>,
    pub version: Option<String>,
}

/// The answer sent to a client.
#[derive(Debug)]
pub struct UpdateResponse {
    /// Page of the release to download from, empty when there is nothing to download.
    pub url: String,
    /// Tag of the newest release, empty when it is not known.
    pub version: String,
    /// SHA-256 checksum of the download, in hex, empty when there is none.
    pub digest: String,
    /// What went wrong, or why there is nothing to download.
    pub error: Option<String>,
}

/// The mathematical view of an [`UpdateResponse`].
pub struct ResponseView {
    pub url: Seq<char>,
    pub version: Seq<char>,
    pub digest: Seq<char>,
    pub error: Option<Seq<char>>,
}

impl View for UpdateResponse {
    type V = ResponseView;

    open spec fn view(&self) -> ResponseView {
        ResponseView {
            url: self.url@,
            version: self.version@,
            digest: self.digest@,
            error: opt_view(self.error),
        }
    }
}

/// The view of an answer: `Ok` for one sent as a success, `Err` for one sent as a
/// failure.
pub open spec fn answer_view(r: Result<UpdateResponse, UpdateResponse>) -> Result<
    ResponseView,
    ResponseView,
> {
    match r {
        Ok(a) => Ok(a@),
        Err(a) => Err(a@),
    }
}

/// Where the releases are read: the GitHub API, the repository and its owner, and a
/// personal access token (empty for none).
#[derive(Debug)]
pub struct ServiceConfig {
    pub api_base: String,
    pub owner: String,
    pub repo: String,
    pub token: String,
}

/// Why a request cannot be answered with a download.
#[derive(Debug)]
pub enum Failure {
    /// The request's parameters could not be read; the reader's explanation.
    BadParameters(String),
    UnsupportedMethod,
    MissingPlatform,
    MissingArch,
    /// The authorization header could not be built; the explanation.
    AuthHeader(String),
    /// The request to GitHub failed; the explanation.
    RequestFailed(String),
    /// GitHub answered with an error status; the status.
    ErrorStatus(String),
    /// GitHub's answer is no release; the explanation.
    BadReleaseData(String),
    /// No asset fits the request.
    Asset(AssetError),
    /// The chosen asset's checksum is no SHA-256 checksum; the checksum as listed.
    InvalidDigest(String),
}

/// The text of a [`Failure`].
pub open spec fn failure_text(f: Failure) -> Seq<char> {
    match f {
        Failure::BadParameters(d) => "缺少必要的请求参数: "@ + d@,
        Failure::UnsupportedMethod => "不支持的请求方法"@,
        Failure::MissingPlatform => "缺少平台信息"@,
        Failure::MissingArch => "缺少架构信息"@,
        Failure::AuthHeader(d) => "构建认证头失败: "@ + d@,
        Failure::RequestFailed(d) => "GitHub API请求失败: "@ + d@,
        Failure::ErrorStatus(d) => "GitHub API返回错误: "@ + d@,
        Failure::BadReleaseData(d) => "解析GitHub响应失败: "@ + d@,
        Failure::Asset(AssetError::UnsupportedTarget { platform, arch }) => unsupported_text(
            platform@,
            arch@,
        ),
        Failure::Asset(AssetError::NoMatchingAsset { platform, arch, suffix }) => no_asset_text(
            platform@,
            arch@,
            suffix@,
        ),
        Failure::InvalidDigest(d) => invalid_digest_text(d@),
    }
}

/// The message for an asset whose checksum is unusable.
pub open spec fn invalid_digest_text(digest: Seq<char>) -> Seq<char> {
    "无效的 SHA256 校验和："@ + digest
}

/// The message for a client that already runs the newest release.
pub open spec fn up_to_date_text() -> Seq<char> {
    "当前已是最新版本"@
}

/// A failure answer: no download, the given version, and the message.
pub open spec fn failure_view(message: Seq<char>, version: Seq<char>) -> ResponseView {
    ResponseView { url: Seq::empty(), version, digest: Seq::empty(), error: Some(message) }
}

/// Builds a string from a literal and a text.
fn joined(head: &str, tail: &str) -> (r: String)
    ensures
        r@ == head@ + tail@,
{
    let mut m = String::from_str(head);
    m.append(tail);
    m
}

impl Failure {
    /// The message that the service sends for this failure.
    pub fn message(&self) -> (r: String)
        ensures
            r@ == failure_text(*self),
    {
        match self {
            Failure::BadParameters(d) => joined("缺少必要的请求参数: ", d.as_str()),
            Failure::UnsupportedMethod => String::from_str("不支持的请求方法"),
            Failure::MissingPlatform => String::from_str("缺少平台信息"),
            Failure::MissingArch => String::from_str("缺少架构信息"),
            Failure::AuthHeader(d) => joined("构建认证头失败: ", d.as_str()),
            Failure::RequestFailed(d) => joined("GitHub API请求失败: ", d.as_str()),
            Failure::ErrorStatus(d) => joined("GitHub API返回错误: ", d.as_str()),
            Failure::BadReleaseData(d) => joined("解析GitHub响应失败: ", d.as_str()),
            Failure::Asset(e) => e.message(),
            Failure::InvalidDigest(d) => joined("无效的 SHA256 校验和：", d.as_str()),
        }
    }
}

/// The failure answer for `failure`, naming the release `version` (empty when no
/// release is known yet).
pub fn failure_response(failure: &Failure, version: String) -> (r: UpdateResponse)
    ensures
        r@ == failure_view(failure_text(*failure), version@),
{
    UpdateResponse {
        url: String::new(),
        version,
        digest: String::new(),
        error: Some(failure.message()),
    }
}


/// The platform and architecture a query asks for: `os` is preferred over
/// `platform`; `None` for the failure when either is missing.
pub open spec fn spec_target(q: UpdateQuery) -> Result<(Seq<char>, Seq<char>), Failure> {
    let platform = match q.os {
        Some(os) => Some(os@),
        None => opt_view(q.platform),
    };
    match platform {
        None => Err(Failure::MissingPlatform),
        Some(p) => match q.arch {
            None => Err(Failure::MissingArch),
            Some(a) => Ok((p, a@)),
        },
    }
}

/// Reads the platform and architecture out of a query.
pub fn select_target(query: &UpdateQuery) -> (r: Result<(String, String), Failure>)
    ensures
        match (r, spec_target(*query)) {
            (Ok((p, a)), Ok((sp, sa))) => p@ == sp && a@ == sa,
            (Err(Failure::MissingPlatform), Err(Failure::MissingPlatform)) => true,
            (Err(Failure::MissingArch), Err(Failure::MissingArch)) => true,
            _ => false,
        },
        r is Ok ==> query.arch is Some && r->Ok_0.1@ == query.arch->0@,
        r is Ok ==> (query.os is Some ==> r->Ok_0.0@ == query.os->0@),
        r is Ok ==> (query.os is None ==> query.platform is Some && r->Ok_0.0@
            == query.platform->0@),
{
    let platform = match &query.os {
        Some(os) => os.clone(),
        None => match &query.platform {
            Some(p) => p.clone(),
            None => {
                return Err(Failure::MissingPlatform);
            },
        },
    };
    match &query.arch {
        Some(a) => Ok((platform, a.clone())),
        None => Err(Failure::MissingArch),
    }
}

/// The API address of a repository's latest release.
pub open spec fn latest_release_url_text(api_base: Seq<char>, owner: Seq<char>, repo: Seq<char>) -> Seq<
    char,
> {
    api_base + "/"@ + owner + "/"@ + repo + "/releases/latest"@
}

/// The web page of a release.
pub open spec fn release_page_text(owner: Seq<char>, repo: Seq<char>, tag: Seq<char>) -> Seq<char> {
    "https://github.com/"@ + owner + "/"@ + repo + "/releases/tag/"@ + tag
}

/// Builds the API address of the configured repository's latest release.
pub fn latest_release_url(config: &ServiceConfig) -> (r: String)
    ensures
        r@ == latest_release_url_text(config.api_base@, config.owner@, config.repo@),
{
    let mut url = config.api_base.clone();
    url.append("/");
    url.append(config.owner.as_str());
    url.append("/");
    url.append(config.repo.as_str());
    url.append("/releases/latest");
    url
}

/// Builds the web page address of the release `tag` of the configured repository.
pub fn release_page(config: &ServiceConfig, tag: &str) -> (r: String)
    ensures
        r@ == release_page_text(config.owner@, config.repo@, tag@),
{
    let mut url = String::from_str("https://github.com/");
    url.append(config.owner.as_str());
    url.append("/");
    url.append(config.repo.as_str());
    url.append("/releases/tag/");
    url.append(tag);
    url
}

/// A byte that an HTTP header value may hold: visible ASCII, a tab, or a byte of
/// 128 or more.
pub open spec fn header_byte_ok(b: u8) -> bool {
    (b >= 32 && b != 127) || b == 9
}

/// Every byte of `bytes` may stand in an HTTP header value.
pub open spec fn header_text_ok(bytes: Seq<u8>) -> bool {
    forall|i: int| 0 <= i < bytes.len() ==> header_byte_ok(#[trigger] bytes[i])
}

/// Calls `HeaderValue::from_str` of the `http` crate (re-exported by `reqwest`) and
/// keeps only whether it succeeded. Trusted: it succeeds exactly when every byte of
/// the text's UTF-8 encoding may stand in a header value, and its error reads
/// `failed to parse header value`.
#[verifier::external_body]
fn check_header_value(text: &str) -> (r: Result<(), String>)
    ensures
        r is Ok <==> header_text_ok(encode_utf8(text@)),
        r matches Err(m) ==> m@ == "failed to parse header value"@,
{
    match HeaderValue::from_str(text) {
        Ok(_) => Ok(()),
        Err(e) => Err(e.to_string()),
    }
}

/// The text of the authorization header for a non-empty token.
pub open spec fn authorization_text(token: Seq<char>) -> Seq<char> {
    "token "@ + token
}

/// The authorization header value for the configured token: none for an empty
/// token, `token <TOKEN>` otherwise, refused when that text cannot stand in a header.
pub fn authorization(token: &str) -> (r: Result<Option<String>, Failure>)
    ensures
        token@.len() == 0 ==> r matches Ok(None),
        token@.len() > 0 && header_text_ok(encode_utf8(authorization_text(token@))) ==> (r matches Ok(
            Some(t),
        ) && t@ == authorization_text(token@)),
        token@.len() > 0 && !header_text_ok(encode_utf8(authorization_text(token@))) ==> (r matches Err(
            Failure::AuthHeader(m),
        ) && m@ == "failed to parse header value"@),
{
    if token.is_empty() {
        return Ok(None);
    }
    let text = joined("token ", token);
    match check_header_value(text.as_str()) {
        Ok(()) => Ok(Some(text)),
        Err(m) => Err(Failure::AuthHeader(m)),
    }
}

/// What the service needs to fetch the newest release for a request.
#[derive(Debug)]
pub struct FetchPlan {
    /// Platform as the client named it.
    pub platform: String,
    /// Architecture as the client named it.
    pub arch: String,
    /// API address of the latest release.
    pub url: String,
    /// Value of the authorization header, when a token is configured.
    pub authorization: Option<String>,
}

/// First step of answering `query`: read what it asks for and plan the request to
/// GitHub, or answer at once with a failure.
pub fn plan_fetch(query: &UpdateQuery, config: &ServiceConfig) -> (r: Result<FetchPlan, UpdateResponse>)
    ensures
        match spec_target(*query) {
            Err(f) => r matches Err(a) && a@ == failure_view(failure_text(f), Seq::empty()),
            Ok((p, a)) => match r {
                Ok(plan) => {
                    &&& plan.platform@ == p
                    &&& plan.arch@ == a
                    &&& plan.url@ == latest_release_url_text(
                        config.api_base@,
                        config.owner@,
                        config.repo@,
                    )
                    &&& (plan.authorization is None <==> config.token@.len() == 0)
                    &&& plan.authorization matches Some(t) ==> t@ == authorization_text(
                        config.token@,
                    )
                    &&& config.token@.len() > 0 ==> header_text_ok(
                        encode_utf8(authorization_text(config.token@)),
                    )
                },
                Err(e) => {
                    &&& config.token@.len() > 0
                    &&& !header_text_ok(encode_utf8(authorization_text(config.token@)))
                    &&& e@ == failure_view(
                        "构建认证头失败: "@ + "failed to parse header value"@,
                        Seq::empty(),
                    )
                },
            },
        },
{
    let (platform, arch) = match select_target(query) {
        Ok(t) => t,
        Err(f) => {
            return Err(failure_response(&f, String::new()));
        },
    };
    let url = latest_release_url(config);
    let authorization = match authorization(config.token.as_str()) {
        Ok(h) => h,
        Err(f) => {
            return Err(failure_response(&f, String::new()));
        },
    };
    Ok(FetchPlan { platform, arch, url, authorization })
}


/// The checksum an asset lists, without its leading `sha256:` prefixes, when what
/// is left is 64 bytes long.
pub open spec fn spec_checksum(raw: Seq<char>) -> Option<Seq<char>> {
    let d = trim_start(raw, "sha256:"@);
    if encode_utf8(d).len() as usize == 64 {
        Some(d)
    } else {
        None
    }
}

/// The hex checksum of an asset, or `None` when the listed one is no SHA-256 checksum.
pub fn checksum_hex(raw: &str) -> (r: Option<String>)
    ensures
        opt_view(r) == spec_checksum(raw@),
{
    let d = trim_start_matches(raw, "sha256:");
    if d.len() == 64 {
        Some(d.to_owned())
    } else {
        None
    }
}

/// The answer, once the newest release (tagged `tag`, with `assets`) is known, to a
/// client at version `client` asking for `platform` and `arch`, whose lowercase forms
/// are `lower_platform` and `lower_arch`:
/// - a client that needs no update is told so, with the tag;
/// - otherwise the first asset whose name ends with the suffix of the pair is chosen
///   and the client gets the release page, the tag and the asset's hex checksum;
/// - an unsupported pair, a release without such an asset, or an asset whose
///   checksum is not 64 bytes once `sha256:` is removed is a failure naming the tag.
pub open spec fn spec_respond(
    client: Option<Seq<char>>,
    platform: Seq<char>,
    arch: Seq<char>,
    lower_platform: Seq<char>,
    lower_arch: Seq<char>,
    owner: Seq<char>,
    repo: Seq<char>,
    tag: Seq<char>,
    assets: Seq<GithubAsset>,
) -> Result<ResponseView, ResponseView> {
    if !spec_should_update(client, tag) {
        Ok(
            ResponseView {
                url: Seq::empty(),
                version: tag,
                digest: Seq::empty(),
                error: Some(up_to_date_text()),
            },
        )
    } else {
        let p = normalized_platform(lower_platform);
        match spec_target_suffix(p, lower_arch) {
            None => Err(failure_view(unsupported_text(p, lower_arch), tag)),
            Some(suffix) => match first_match(assets, suffix) {
                None => Err(failure_view(no_asset_text(platform, arch, suffix), tag)),
                Some(i) => match spec_checksum(assets[i].digest@) {
                    None => Err(failure_view(invalid_digest_text(assets[i].digest@), tag)),
                    Some(d) => Ok(
                        ResponseView {
                            url: release_page_text(owner, repo, tag),
                            version: tag,
                            digest: d,
                            error: None,
                        },
                    ),
                },
            },
        }
    }
}

/// Ties what `match_asset` promises to `first_match`.
proof fn lemma_outcome_found(
    assets: Seq<GithubAsset>,
    lower_platform: Seq<char>,
    lower_arch: Seq<char>,
    platform: Seq<char>,
    arch: Seq<char>,
    found: &GithubAsset,
)
    requires
        asset_outcome(assets, lower_platform, lower_arch, platform, arch, Ok(found)),
    ensures
        spec_target_suffix(normalized_platform(lower_platform), lower_arch) matches Some(suffix)
            && first_match(assets, suffix) matches Some(i) && 0 <= i < assets.len() && assets[i]
            == *found,
{
    let suffix = spec_target_suffix(normalized_platform(lower_platform), lower_arch)->0;
    let i = choose|i: int| is_first_match(assets, suffix, i) && assets[i] == *found;
    lemma_first_match_is(assets, suffix, i);
}

/// Ties what `match_asset` promises on a refusal to `spec_respond`.
proof fn lemma_outcome_refused(
    assets: Seq<GithubAsset>,
    lower_platform: Seq<char>,
    lower_arch: Seq<char>,
    platform: Seq<char>,
    arch: Seq<char>,
    e: AssetError,
)
    requires
        asset_outcome(assets, lower_platform, lower_arch, platform, arch, Err(e)),
    ensures
        match spec_target_suffix(normalized_platform(lower_platform), lower_arch) {
            None => asset_error_text(e) == unsupported_text(
                normalized_platform(lower_platform),
                lower_arch,
            ),
            Some(suffix) => first_match(assets, suffix) is None && asset_error_text(e)
                == no_asset_text(platform, arch, suffix),
        },
{
    if let Some(suffix) = spec_target_suffix(normalized_platform(lower_platform), lower_arch) {
        lemma_no_match(assets, suffix);
    }
}

/// Second step of answering: the answer once the newest release is known.
pub fn respond(
    client_version: &Option<String>,
    platform: &str,
    arch: &str,
    config: &ServiceConfig,
    release: &GithubRelease,
) -> (r: Result<UpdateResponse, UpdateResponse>)
    ensures
        answer_view(r) == spec_respond(
            opt_view(*client_version),
            platform@,
            arch@,
            spec_to_lowercase(platform@),
            spec_to_lowercase(arch@),
            config.owner@,
            config.repo@,
            release.tag_name@,
            release.assets@,
        ),
        all_ascii(platform@) && all_ascii(arch@) ==> answer_view(r) == spec_respond(
            opt_view(*client_version),
            platform@,
            arch@,
            ascii_lower(platform@),
            ascii_lower(arch@),
            config.owner@,
            config.repo@,
            release.tag_name@,
            release.assets@,
        ),
        client_version matches Some(c) && strip_v(c@) == strip_v(release.tag_name@) ==> answer_view(
            r,
        ) == Ok::<ResponseView, ResponseView>(
            ResponseView {
                url: Seq::empty(),
                version: release.tag_name@,
                digest: Seq::empty(),
                error: Some(up_to_date_text()),
            },
        ),
{
    let tag = &release.tag_name;
    if !should_update(client_version, tag.as_str()) {
        return Ok(
            UpdateResponse {
                url: String::new(),
                version: tag.clone(),
                digest: String::new(),
                error: Some(String::from_str("当前已是最新版本")),
            },
        );
    }
    let found = match match_asset(release.assets.as_slice(), platform, arch) {
        Ok(a) => a,
        Err(e) => {
            proof {
                lemma_outcome_refused(
                    release.assets@,
                    spec_to_lowercase(platform@),
                    spec_to_lowercase(arch@),
                    platform@,
                    arch@,
                    e,
                );
                if all_ascii(platform@) && all_ascii(arch@) {
                    lemma_outcome_refused(
                        release.assets@,
                        ascii_lower(platform@),
                        ascii_lower(arch@),
                        platform@,
                        arch@,
                        e,
                    );
                }
            }
            return Err(failure_response(&Failure::Asset(e), tag.clone()));
        },
    };
    proof {
        lemma_outcome_found(
            release.assets@,
            spec_to_lowercase(platform@),
            spec_to_lowercase(arch@),
            platform@,
            arch@,
            found,
        );
        if all_ascii(platform@) && all_ascii(arch@) {
            lemma_outcome_found(
                release.assets@,
                ascii_lower(platform@),
                ascii_lower(arch@),
                platform@,
                arch@,
                found,
            );
        }
    }
    match checksum_hex(found.digest.as_str()) {
        None => Err(failure_response(&Failure::InvalidDigest(found.digest.clone()), tag.clone())),
        Some(digest) => Ok(
            UpdateResponse {
                url: release_page(config, tag.as_str()),
                version: tag.clone(),
                digest,
                error: None,
            },
        ),
    }
}


/// What came of the request to GitHub.
#[derive(Debug)]
pub enum FetchOutcome {
    /// The request could not be sent or answered; the explanation.
    SendFailed(String),
    /// GitHub answered with a status other than success; the status.
    ErrorStatus(String),
    /// The answer's body is no release; the explanation.
    UnreadableRelease(String),
    /// The newest release.
    Fetched(GithubRelease),
}

/// The answer to `query` once the request planned in `plan` had `outcome`: each
/// failure of the request is passed on with its explanation and no version;
/// a fetched release is answered as `spec_respond` says, with the lowercase forms
/// `lower_platform` and `lower_arch` of the plan's names.
pub open spec fn spec_conclude(
    query: UpdateQuery,
    plan: FetchPlan,
    config: ServiceConfig,
    outcome: FetchOutcome,
    lower_platform: Seq<char>,
    lower_arch: Seq<char>,
) -> Result<ResponseView, ResponseView> {
    match outcome {
        FetchOutcome::SendFailed(e) => Err(
            failure_view("GitHub API请求失败: "@ + e@, Seq::empty()),
        ),
        FetchOutcome::ErrorStatus(st) => Err(
            failure_view("GitHub API返回错误: "@ + st@, Seq::empty()),
        ),
        FetchOutcome::UnreadableRelease(e) => Err(
            failure_view("解析GitHub响应失败: "@ + e@, Seq::empty()),
        ),
        FetchOutcome::Fetched(release) => spec_respond(
            opt_view(query.version),
            plan.platform@,
            plan.arch@,
            lower_platform,
            lower_arch,
            config.owner@,
            config.repo@,
            release.tag_name@,
            release.assets@,
        ),
    }
}

/// Last step of answering `query`: the answer once the request planned in `plan`
/// had `outcome`.
pub fn conclude(
    query: &UpdateQuery,
    plan: &FetchPlan,
    config: &ServiceConfig,
    outcome: &FetchOutcome,
) -> (r: Result<UpdateResponse, UpdateResponse>)
    ensures
        answer_view(r) == spec_conclude(
            *query,
            *plan,
            *config,
            *outcome,
            spec_to_lowercase(plan.platform@),
            spec_to_lowercase(plan.arch@),
        ),
        all_ascii(plan.platform@) && all_ascii(plan.arch@) ==> answer_view(r) == spec_conclude(
            *query,
            *plan,
            *config,
            *outcome,
            ascii_lower(plan.platform@),
            ascii_lower(plan.arch@),
        ),
        outcome is Fetched ==> answer_view(r) == spec_respond(
            opt_view(query.version),
            plan.platform@,
            plan.arch@,
            spec_to_lowercase(plan.platform@),
            spec_to_lowercase(plan.arch@),
            config.owner@,
            config.repo@,
            outcome->Fetched_0.tag_name@,
            outcome->Fetched_0.assets@,
        ),
        outcome is Fetched && query.version is Some && strip_v(query.version->0@) == strip_v(
            outcome->Fetched_0.tag_name@,
        ) ==> answer_view(r) == Ok::<ResponseView, ResponseView>(
            ResponseView {
                url: Seq::empty(),
                version: outcome->Fetched_0.tag_name@,
                digest: Seq::empty(),
                error: Some(up_to_date_text()),
            },
        ),
{
    match outcome {
        FetchOutcome::SendFailed(e) => Err(
            failure_response(&Failure::RequestFailed(e.clone()), String::new()),
        ),
        FetchOutcome::ErrorStatus(st) => Err(
            failure_response(&Failure::ErrorStatus(st.clone()), String::new()),
        ),
        FetchOutcome::UnreadableRelease(e) => Err(
            failure_response(&Failure::BadReleaseData(e.clone()), String::new()),
        ),
        FetchOutcome::Fetched(release) => respond(
            &query.version,
            plan.platform.as_str(),
            plan.arch.as_str(),
            config,
            release,
        ),
    }
}


/// The platform a client names with `os` wins over the one it names with `platform`.
pub proof fn law_os_preferred(query: UpdateQuery)
    ensures
        query.os matches Some(os) ==> (spec_target(query) is Ok ==> spec_target(query)->Ok_0.0
            == os@),
        query.os is None && query.platform is None ==> spec_target(query) == Err::<
            (Seq<char>, Seq<char>),
            Failure,
        >(Failure::MissingPlatform),
{
}

/// Once the newest release is known, every answer names its tag; a download is only
/// offered for the first asset whose name ends with the suffix of the requested pair,
/// from the release page, with a checksum of 64 bytes that no longer starts with
/// `sha256:`, and it is taken from that asset's listed checksum.
pub proof fn law_download_answer(
    client: Option<Seq<char>>,
    platform: Seq<char>,
    arch: Seq<char>,
    lower_platform: Seq<char>,
    lower_arch: Seq<char>,
    owner: Seq<char>,
    repo: Seq<char>,
    tag: Seq<char>,
    assets: Seq<GithubAsset>,
)
    ensures
        ({
            let r = spec_respond(
                client,
                platform,
                arch,
                lower_platform,
                lower_arch,
                owner,
                repo,
                tag,
                assets,
            );
            &&& match r {
                Ok(v) => v.version == tag,
                Err(v) => v.version == tag && v.url.len() == 0 && v.error is Some,
            }
            &&& r is Ok && r->Ok_0.error is None ==> {
                let v = r->Ok_0;
                &&& v.url == release_page_text(owner, repo, tag)
                &&& encode_utf8(v.digest).len() as usize == 64
                &&& !is_prefix_of("sha256:"@, v.digest)
                &&& spec_should_update(client, tag)
                &&& exists|i: int|
                    is_first_match(
                        assets,
                        spec_target_suffix(normalized_platform(lower_platform), lower_arch)->0,
                        i,
                    ) && v.digest == trim_start(#[trigger] assets[i].digest@, "sha256:"@)
            }
        }),
{
    reveal_strlit("sha256:");
    if spec_should_update(client, tag) {
        let p = normalized_platform(lower_platform);
        if let Some(suffix) = spec_target_suffix(p, lower_arch) {
            if let Some(i) = first_match(assets, suffix) {
                lemma_trim_start_no_prefix(assets[i].digest@, "sha256:"@);
                assert(is_first_match(assets, suffix, i));
            }
        }
    }
}


/// The answer depends on the query only through the version it reports: two queries
/// that report the same `version` get the same answer for the same plan and outcome,
/// whatever else (`os_version`, `device_id`, `typ`, ...) they carry.
pub proof fn law_answer_reads_only_reported_version(
    q1: UpdateQuery,
    q2: UpdateQuery,
    plan: FetchPlan,
    config: ServiceConfig,
    outcome: FetchOutcome,
    lower_platform: Seq<char>,
    lower_arch: Seq<char>,
)
    requires
        opt_view(q1.version) == opt_view(q2.version),
    ensures
        spec_conclude(q1, plan, config, outcome, lower_platform, lower_arch) == spec_conclude(
            q2,
            plan,
            config,
            outcome,
            lower_platform,
            lower_arch,
        ),
{
}

/// The architecture read from a query is the one the client sent, whichever field
/// named the platform; the platform is `os` when present and `platform` otherwise;
/// both present means the query is read.
pub proof fn law_target_is_what_the_client_sent(q: UpdateQuery)
    ensures
        spec_target(q) is Ok ==> q.arch is Some && spec_target(q)->Ok_0.1 == q.arch->0@,
        spec_target(q) is Ok && q.os is Some ==> spec_target(q)->Ok_0.0 == q.os->0@,
        spec_target(q) is Ok && q.os is None ==> q.platform is Some && spec_target(q)->Ok_0.0
            == q.platform->0@,
        q.arch is Some && (q.os is Some || q.platform is Some) ==> spec_target(q) is Ok,
{
}

/// A checksum is accepted whenever what is left after removing the leading `sha256:`
/// prefixes is 64 bytes long (and only when its byte length, as a `usize`, is 64),
/// and then it is that text; and what is left
/// is the listed checksum with whole copies of `sha256:` removed from its front and
/// nothing else.
pub proof fn law_checksum_complete(raw: Seq<char>)
    ensures
        encode_utf8(trim_start(raw, "sha256:"@)).len() == 64 ==> spec_checksum(raw) is Some,
        (spec_checksum(raw) is Some) <==> encode_utf8(trim_start(raw, "sha256:"@)).len() as usize
            == 64,
        spec_checksum(raw) is Some ==> spec_checksum(raw)->0 == trim_start(raw, "sha256:"@),
        exists|k: nat| raw == copies("sha256:"@, k) + trim_start(raw, "sha256:"@),
        !is_prefix_of("sha256:"@, trim_start(raw, "sha256:"@)),
{
    reveal_strlit("sha256:");
    lemma_trim_start_no_prefix(raw, "sha256:"@);
    law_trim_start_removes_copies(raw, "sha256:"@);
}

/// The latest-release API address is the configured API base, a `/`, the configured
/// owner, a `/`, the configured repository and `/releases/latest`, in that order.
pub proof fn law_latest_release_url_parts(base: Seq<char>, owner: Seq<char>, repo: Seq<char>)
    ensures
        ({
            let t = latest_release_url_text(base, owner, repo);
            let b = base.len() as int;
            let o = owner.len() as int;
            let n = repo.len() as int;
            &&& t.len() == b + o + n + 18
            &&& t.subrange(0, b) == base
            &&& t[b] == '/'
            &&& t.subrange(b + 1, b + 1 + o) == owner
            &&& t[b + 1 + o] == '/'
            &&& t.subrange(b + 2 + o, b + 2 + o + n) == repo
            &&& t.skip(b + 2 + o + n) == "/releases/latest"@
        }),
{
    reveal_strlit("/");
    reveal_strlit("/releases/latest");
    let t = latest_release_url_text(base, owner, repo);
    let b = base.len() as int;
    let o = owner.len() as int;
    let n = repo.len() as int;
    assert(t.subrange(0, b) =~= base);
    assert(t.subrange(b + 1, b + 1 + o) =~= owner);
    assert(t.subrange(b + 2 + o, b + 2 + o + n) =~= repo);
    assert(t.skip(b + 2 + o + n) =~= "/releases/latest"@);
}

/// The release page is `https://github.com/`, the configured owner, a `/`, the
/// configured repository, `/releases/tag/` and the tag, in that order.
pub proof fn law_release_page_parts(owner: Seq<char>, repo: Seq<char>, tag: Seq<char>)
    ensures
        ({
            let t = release_page_text(owner, repo, tag);
            let o = owner.len() as int;
            let n = repo.len() as int;
            &&& t.len() == 19 + o + 1 + n + 14 + tag.len()
            &&& t.subrange(0, 19) == "https://github.com/"@
            &&& t.subrange(19, 19 + o) == owner
            &&& t[19 + o] == '/'
            &&& t.subrange(20 + o, 20 + o + n) == repo
            &&& t.subrange(20 + o + n, 34 + o + n) == "/releases/tag/"@
            &&& t.skip(34 + o + n) == tag
        }),
{
    reveal_strlit("https://github.com/");
    reveal_strlit("/");
    reveal_strlit("/releases/tag/");
    let t = release_page_text(owner, repo, tag);
    let o = owner.len() as int;
    let n = repo.len() as int;
    assert(t.subrange(0, 19) =~= "https://github.com/"@);
    assert(t.subrange(19, 19 + o) =~= owner);
    assert(t.subrange(20 + o, 20 + o + n) =~= repo);
    assert(t.subrange(20 + o + n, 34 + o + n) =~= "/releases/tag/"@);
    assert(t.skip(34 + o + n) =~= tag);
}

} // verus!
