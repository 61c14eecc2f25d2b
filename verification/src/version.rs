//! Release versions: parsing with the `semver` crate, and the decision whether a
//! client should update to the newest release.

use crate::text::{trim_start, trim_start_matches};
use semver::{BuildMetadata as B, Prerelease as P, Version as V};
use vstd::prelude::*;

verus! {

/// A parsed semantic version, held as plain values.
#[derive(Debug)]
pub struct SemVer {
    pub major: u64,
    pub minor: u64,
    pub patch: u64,
    /// Pre-release identifiers (after `-`), empty when there are none.
    pub pre: String,
    /// Build metadata (after `+`), empty when there is none.
    pub build: String,
}

/// The mathematical view of a [`SemVer`].
pub struct SemVerView {
    pub major: u64,
    pub minor: u64,
    pub patch: u64,
    pub pre: Seq<char>,
    pub build: Seq<char>,
}

impl View for SemVer {
    type V = SemVerView;

    open spec fn view(&self) -> SemVerView {
        SemVerView {
            major: self.major,
            minor: self.minor,
            patch: self.patch,
            pre: self.pre@,
            build: self.build@,
        }
    }
}

/// The decimal digits of `n`, without leading zeros.
pub open spec fn decimal(n: nat) -> Seq<char>
    decreases n,
{
    if n < 10 {
        seq![((48 + n) as u32) as char]
    } else {
        decimal(n / 10) + seq![((48 + n % 10) as u32) as char]
    }
}

/// The text `MAJOR.MINOR.PATCH[-PRE][+BUILD]` of a version.
pub open spec fn render(v: SemVerView) -> Seq<char> {
    decimal(v.major as nat) + seq!['.'] + decimal(v.minor as nat) + seq!['.'] + decimal(
        v.patch as nat,
    ) + (if v.pre.len() > 0 {
        seq!['-'] + v.pre
    } else {
        Seq::empty()
    }) + (if v.build.len() > 0 {
        seq!['+'] + v.build
    } else {
        Seq::empty()
    })
}

/// What `semver::Version::parse` makes of a text: the version, or `None` when
/// the crate refuses the text.
pub uninterp spec fn spec_parse_semver(text: Seq<char>) -> Option<SemVerView>;

/// Whether `semver`'s version order puts `a` strictly above `b`.
pub uninterp spec fn spec_semver_gt(a: SemVerView, b: SemVerView) -> bool;

/// `v` is what the `semver` crate parsed out of some text.
pub open spec fn parsed_somewhere(v: SemVerView) -> bool {
    exists|text: Seq<char>| spec_parse_semver(text) == Some(v)
}

/// The numeric triple of `a` is lexicographically above that of `b`.
pub open spec fn triple_gt(a: SemVerView, b: SemVerView) -> bool {
    ||| a.major > b.major
    ||| a.major == b.major && a.minor > b.minor
    ||| a.major == b.major && a.minor == b.minor && a.patch > b.patch
}

/// `a` and `b` have the same numeric triple.
pub open spec fn same_triple(a: SemVerView, b: SemVerView) -> bool {
    a.major == b.major && a.minor == b.minor && a.patch == b.patch
}

/// Calls `semver::Version::parse`. Trusted: the result is the crate's parse of the
/// text (named `spec_parse_semver`); a parsed version written back out as
/// `MAJOR.MINOR.PATCH[-PRE][+BUILD]` is the text itself (the crate refuses
/// leading zeros, surrounding text and empty parts); and a text that is the plain
/// `MAJOR.MINOR.PATCH` of three `u64` numbers is accepted. Which texts with
/// pre-release or build parts it accepts is left unsaid.
#[verifier::external_body]
pub(crate) fn parse_semver(text: &str) -> (r: Option<SemVer>)
    ensures
        r matches Some(v) ==> spec_parse_semver(text@) == Some(v@) && render(v@) == text@,
        r is None ==> spec_parse_semver(text@) is None,
        forall|v: SemVerView|
            v.pre.len() == 0 && v.build.len() == 0 && #[trigger] render(v) == text@ ==> r is Some && r->0@
                == v,
{
    match semver::Version::parse(text) {
        Ok(v) => Some(
            SemVer {
                major: v.major,
                minor: v.minor,
                patch: v.patch,
                pre: v.pre.as_str().to_string(),
                build: v.build.as_str().to_string(),
            },
        ),
        Err(_) => None,
    }
}

/// Calls `>` on two `semver::Version` values built from `a` and `b`. Trusted: the
/// result is the crate's order (named `spec_semver_gt`), which compares major, minor
/// and patch numerically first, puts a pre-release below the release of the same
/// numbers, never puts a version above itself, is asymmetric, and, being a total
/// order, puts every version at or above `a` above every version at or below `b`
/// when it puts `a` above `b`. How pre-release and
/// build identifiers are ordered among themselves is left unsaid; a pre-release or
/// build text that the crate refuses is read as empty.
#[verifier::external_body]
pub(crate) fn semver_gt(a: &SemVer, b: &SemVer) -> (r: bool)
    ensures
        r == spec_semver_gt(a@, b@),
        !same_triple(a@, b@) ==> r == triple_gt(a@, b@),
        same_triple(a@, b@) && a@.pre.len() == 0 && b@.pre.len() > 0 && parsed_somewhere(b@)
            ==> r,
        same_triple(a@, b@) && a@.pre.len() > 0 && b@.pre.len() == 0 && parsed_somewhere(a@)
            ==> !r,
        a@ == b@ ==> !r,
        r ==> !spec_semver_gt(b@, a@),
        forall|x: SemVerView, y: SemVerView|
            #![trigger spec_semver_gt(x, b@), spec_semver_gt(a@, y)]
            r && !spec_semver_gt(x, b@) && !spec_semver_gt(a@, y) ==> spec_semver_gt(y, x),
{
    let x = V {
        major: a.major, minor: a.minor, patch: a.patch,
        pre: P::new(&a.pre).unwrap_or(P::EMPTY), build: B::new(&a.build).unwrap_or(B::EMPTY),
    };
    let y = V {
        major: b.major, minor: b.minor, patch: b.patch,
        pre: P::new(&b.pre).unwrap_or(P::EMPTY), build: B::new(&b.build).unwrap_or(B::EMPTY),
    };
    x > y
}

/// The character view of an optional string.
pub open spec fn opt_view(s: Option<String>) -> Option<Seq<char>> {
    match s {
        Some(t) => Some(t@),
        None => None,
    }
}

/// Strips every leading `v` from a version text.
pub open spec fn strip_v(s: Seq<char>) -> Seq<char> {
    trim_start(s, seq!['v'])
}

/// Whether a client that reports `client` (if anything) should move to the release
/// tagged `latest_tag`: always when it reports nothing; otherwise only when both
/// texts, without leading `v`s, are versions and the release is the higher one.
pub open spec fn spec_should_update(client: Option<Seq<char>>, latest_tag: Seq<char>) -> bool {
    match client {
        None => true,
        Some(c) => match (spec_parse_semver(strip_v(latest_tag)), spec_parse_semver(strip_v(c))) {
            (Some(l), Some(v)) => spec_semver_gt(l, v),
            _ => false,
        },
    }
}

/// `older` is a version at or below `client`, and `newer` one at or above `latest_tag`
/// (in `semver`'s order, leading `v`s removed); then a client at `older` must also
/// be told to update to `newer`.
pub open spec fn update_is_monotone(
    client: Seq<char>,
    latest_tag: Seq<char>,
    older: Seq<char>,
    newer: Seq<char>,
) -> bool {
    match (
        spec_parse_semver(strip_v(client)),
        spec_parse_semver(strip_v(latest_tag)),
        spec_parse_semver(strip_v(older)),
        spec_parse_semver(strip_v(newer)),
    ) {
        (Some(c), Some(l), Some(o), Some(n)) => !spec_semver_gt(o, c) && !spec_semver_gt(l, n)
            ==> spec_should_update(Some(older), newer),
        _ => true,
    }
}

/// Decides whether the client at `client_version` needs the release tagged
/// `latest_tag`.
pub fn should_update(client_version: &Option<String>, latest_tag: &str) -> (r: bool)
    ensures
        r == spec_should_update(opt_view(*client_version), latest_tag@),
        client_version is None ==> r,
        client_version matches Some(c) && strip_v(c@) == strip_v(latest_tag@) ==> !r,
        client_version matches Some(c) ==> (r ==> !spec_should_update(Some(latest_tag@), c@)),
        client_version matches Some(c) ==> (r ==> forall|older: Seq<char>, newer: Seq<char>|
            #![trigger spec_should_update(Some(older), newer)]
            update_is_monotone(c@, latest_tag@, older, newer)),
        client_version matches Some(c) ==> ({
            match (spec_parse_semver(strip_v(latest_tag@)), spec_parse_semver(strip_v(c@))) {
                (Some(l), Some(v)) => !same_triple(l, v) ==> r == triple_gt(l, v),
                _ => !r,
            }
        }),
{
    let client_text = match client_version {
        None => {
            return true;
        },
        Some(c) => c,
    };
    proof {
        reveal_strlit("v");
        assert("v"@ =~= seq!['v']);
    }
    let latest_text = trim_start_matches(latest_tag, "v");
    let latest = match parse_semver(latest_text) {
        None => {
            return false;
        },
        Some(v) => v,
    };
    let client = match parse_semver(trim_start_matches(client_text.as_str(), "v")) {
        None => {
            return false;
        },
        Some(v) => v,
    };
    semver_gt(&latest, &client)
}

/// Leading `v`s of a version text are ignored: `v1.4.6` is read as `1.4.6`.
pub proof fn lemma_strip_v_prefix(s: Seq<char>)
    ensures
        strip_v(seq!['v'] + s) == strip_v(s),
{
    let t = seq!['v'] + s;
    assert(t.subrange(0, 1) =~= seq!['v']);
    assert(t.skip(1) =~= s);
}

/// A release tagged `v1.4.6` gets the same decision as one tagged `1.4.6`, and a
/// client reporting `v1.4.5` the same as one reporting `1.4.5`.
pub proof fn law_v_prefix_ignored(client: Seq<char>, latest_tag: Seq<char>)
    ensures
        spec_should_update(Some(client), seq!['v'] + latest_tag) == spec_should_update(
            Some(client),
            latest_tag,
        ),
        spec_should_update(Some(seq!['v'] + client), latest_tag) == spec_should_update(
            Some(client),
            latest_tag,
        ),
{
    lemma_strip_v_prefix(client);
    lemma_strip_v_prefix(latest_tag);
}

/// A client that reports no version is always told to update.
pub proof fn law_unknown_client_updates(latest_tag: Seq<char>)
    ensures
        spec_should_update(None, latest_tag),
{
}

} // verus!
