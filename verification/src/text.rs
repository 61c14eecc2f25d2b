//! Text helpers over the character views of `str` and `String`.

use vstd::prelude::*;

verus! {

/// `suffix` is a suffix of `s`.
pub open spec fn is_suffix_of(suffix: Seq<char>, s: Seq<char>) -> bool {
    &&& suffix.len() <= s.len()
    &&& s.subrange(s.len() - suffix.len(), s.len() as int) == suffix
}

/// `prefix` is a prefix of `s`.
pub open spec fn is_prefix_of(prefix: Seq<char>, s: Seq<char>) -> bool {
    &&& prefix.len() <= s.len()
    &&& s.subrange(0, prefix.len() as int) == prefix
}

/// What is left of `s` once every leading copy of `pat` is removed (nothing is
/// removed for an empty `pat`).
pub open spec fn trim_start(s: Seq<char>, pat: Seq<char>) -> Seq<char>
    decreases s.len(),
{
    if pat.len() > 0 && is_prefix_of(pat, s) {
        trim_start(s.skip(pat.len() as int), pat)
    } else {
        s
    }
}

/// A text ends with `suffix` exactly when it is some text followed by `suffix`.
pub proof fn law_suffix_is_a_tail(suffix: Seq<char>, s: Seq<char>)
    ensures
        is_suffix_of(suffix, s) <==> exists|head: Seq<char>| s == head + suffix,
{
    if is_suffix_of(suffix, s) {
        let head = s.subrange(0, s.len() - suffix.len());
        assert(s =~= head + suffix);
    }
    if exists|head: Seq<char>| s == head + suffix {
        let head = choose|head: Seq<char>| s == head + suffix;
        assert(s.subrange(s.len() - suffix.len(), s.len() as int) =~= suffix);
    }
}

/// `k` copies of `pat` one after the other.
pub open spec fn copies(pat: Seq<char>, k: nat) -> Seq<char>
    decreases k,
{
    if k == 0 {
        Seq::empty()
    } else {
        pat + copies(pat, (k - 1) as nat)
    }
}

/// Trimming removes whole copies of the pattern from the front and nothing else:
/// the text is some number of copies followed by what is left.
pub proof fn law_trim_start_removes_copies(s: Seq<char>, pat: Seq<char>)
    ensures
        exists|k: nat| s == copies(pat, k) + trim_start(s, pat),
    decreases s.len(),
{
    if pat.len() > 0 && is_prefix_of(pat, s) {
        let rest = s.skip(pat.len() as int);
        law_trim_start_removes_copies(rest, pat);
        let k = choose|k: nat| rest == copies(pat, k) + trim_start(rest, pat);
        assert(copies(pat, k + 1) == pat + copies(pat, k));
        assert(s =~= pat + rest);
        assert(s =~= copies(pat, k + 1) + trim_start(s, pat));
    } else {
        assert(s =~= copies(pat, 0) + s);
    }
}

/// Once trimmed, a text no longer starts with the pattern.
pub proof fn lemma_trim_start_no_prefix(s: Seq<char>, pat: Seq<char>)
    requires
        pat.len() > 0,
    ensures
        !is_prefix_of(pat, trim_start(s, pat)),
    decreases s.len(),
{
    if is_prefix_of(pat, s) {
        lemma_trim_start_no_prefix(s.skip(pat.len() as int), pat);
    }
}

/// Compares two string slices character by character.
pub fn same_text(a: &str, b: &str) -> (r: bool)
    ensures
        r == (a@ == b@),
{
    let x = a.to_owned();
    let y = b.to_owned();
    x == y
}

/// Whether `s` ends with `suffix`.
pub fn ends_with(s: &str, suffix: &str) -> (r: bool)
    ensures
        r == is_suffix_of(suffix@, s@),
{
    let n = s.unicode_len();
    let m = suffix.unicode_len();
    if m > n {
        false
    } else {
        same_text(s.substring_char(n - m, n), suffix)
    }
}

/// Removes every leading copy of the pattern `pat` from `s`; an empty pattern
/// removes nothing.
pub fn trim_start_matches<'a>(s: &'a str, pat: &str) -> (r: &'a str)
    ensures
        r@ == trim_start(s@, pat@),
{
    let n = s.unicode_len();
    let m = pat.unicode_len();
    if m == 0 {
        return s;
    }
    let mut i: usize = 0;
    assert(s@.subrange(0, n as int) =~= s@);
    while i <= n && m <= n - i && same_text(s.substring_char(i, i + m), pat)
        invariant
            i <= n,
            n == s@.len(),
            m == pat@.len(),
            m > 0,
            trim_start(s@, pat@) == trim_start(s@.subrange(i as int, n as int), pat@),
        decreases n - i,
    {
        let ghost rest = s@.subrange(i as int, n as int);
        assert(rest.subrange(0, m as int) =~= s@.subrange(i as int, (i + m) as int));
        assert(rest.skip(m as int) =~= s@.subrange((i + m) as int, n as int));
        i = i + m;
    }
    let r = s.substring_char(i, n);
    proof {
        let rest = s@.subrange(i as int, n as int);
        if m <= n - i {
            assert(rest.subrange(0, m as int) =~= s@.subrange(i as int, (i + m) as int));
        }
    }
    r
}

/// Every character of `s` is ASCII.
pub open spec fn all_ascii(s: Seq<char>) -> bool {
    forall|i: int| 0 <= i < s.len() ==> (#[trigger] s[i] as u32) < 128
}

/// The ASCII lowercase of one character: `A`..`Z` become `a`..`z`, all else stays.
pub open spec fn ascii_lower_char(c: char) -> char {
    if 'A' <= c && c <= 'Z' {
        ((c as u32) + 32) as char
    } else {
        c
    }
}

/// The ASCII lowercase of a character sequence.
pub open spec fn ascii_lower(s: Seq<char>) -> Seq<char> {
    s.map_values(|c: char| ascii_lower_char(c))
}

/// What `str::to_lowercase` returns for a text: its Unicode lowercase mapping.
pub uninterp spec fn spec_to_lowercase(s: Seq<char>) -> Seq<char>;

/// Calls `str::to_lowercase` of std. Trusted: the result is the Unicode lowercase
/// mapping of the argument (named `spec_to_lowercase`), which for a text made of
/// ASCII characters alone maps `A`..`Z` to `a`..`z` and keeps every other character.
/// The mapping of the other characters is left unsaid.
#[verifier::external_body]
pub(crate) fn to_lowercase(s: &str) -> (r: String)
    ensures
        r@ == spec_to_lowercase(s@),
        all_ascii(s@) ==> r@ == ascii_lower(s@),
{
    s.to_lowercase()
}

} // verus!
