//! The check for a newer release: what is kept in the cache file, when to
//! ask again, and when to tell the user.
use vstd::prelude::*;

use crate::paths::{opt_text, path_join, path_joined};
use crate::text::{strip_leading_v, strip_v};

verus! {

/// What the cache file `update-check.json` holds: when the last check ran
/// (seconds since the epoch), the newest release seen, and its page.
#[derive(Debug, Clone, PartialEq, Eq)]
pub struct UpdateCache {
    pub last_check: u64,
    pub latest_version: String,
    pub html_url: Option<String>,
}

/// A version as SemVer reads it: major, minor and patch numbers, pre-release
/// text and build metadata text.
pub type VersionParts = (u64, u64, u64, Seq<char>, Seq<char>);

/// A version that `semver::Version::parse` accepted, held by its parts.
struct SemanticVersion {
    major: u64,
    minor: u64,
    patch: u64,
    pre: String,
    build: String,
}

impl SemanticVersion {
    closed spec fn parts(self) -> VersionParts {
        (self.major, self.minor, self.patch, self.pre@, self.build@)
    }
}

/// The parts of the version that `text` spells, when `semver::Version::parse`
/// accepts it; `None` when it refuses it.
pub uninterp spec fn semver_parsed(text: Seq<char>) -> Option<VersionParts>;

/// Whether `semver` orders version `a` after version `b` (`a > b` on
/// `semver::Version`).
pub uninterp spec fn semver_greater(a: VersionParts, b: VersionParts) -> bool;

/// The parts of some version that `semver` accepted.
pub open spec fn is_parsed_version(v: VersionParts) -> bool {
    exists|t: Seq<char>| #[trigger] semver_parsed(t) == Some(v)
}

/// Calls `semver::Version::parse` and keeps the parts of the result.
/// The contract claims that the outcome is a function of the text alone,
/// named `semver_parsed`; which texts are accepted is left to `semver`.
#[verifier::external_body]
fn parse_version(text: &str) -> (r: Option<SemanticVersion>)
    ensures
        match r {
            Some(v) => semver_parsed(text@) == Some(v.parts()),
            None => semver_parsed(text@) is None,
        },
{
    semver::Version::parse(text).ok().map(
        |v| SemanticVersion {
            major: v.major,
            minor: v.minor,
            patch: v.patch,
            pre: v.pre.as_str().to_string(),
            build: v.build.as_str().to_string(),
        },
    )
}

/// Rebuilds both `semver::Version`s from their parts and compares them with
/// `>`. The contract claims what the derived order of `Version` (major, then
/// minor, then patch, then pre-release, then build) and the documented order
/// of pre-releases (a release ranks above any of its pre-releases) give; the
/// order among pre-release and build texts otherwise is named
/// `semver_greater` and left to `semver`.
#[verifier::external_body]
fn version_greater(a: &SemanticVersion, b: &SemanticVersion) -> (r: bool)
    requires
        is_parsed_version(a.parts()),
        is_parsed_version(b.parts()),
    ensures
        r == semver_greater(a.parts(), b.parts()),
        a.parts().0 != b.parts().0 ==> r == (a.parts().0 > b.parts().0),
        a.parts().0 == b.parts().0 && a.parts().1 != b.parts().1 ==> r == (a.parts().1 > b.parts().1),
        a.parts().0 == b.parts().0 && a.parts().1 == b.parts().1 && a.parts().2 != b.parts().2
            ==> r == (a.parts().2 > b.parts().2),
        a.parts().0 == b.parts().0 && a.parts().1 == b.parts().1 && a.parts().2 == b.parts().2
            && a.parts().3.len() == 0 && b.parts().3.len() > 0 ==> r,
        a.parts().0 == b.parts().0 && a.parts().1 == b.parts().1 && a.parts().2 == b.parts().2
            && a.parts().3.len() > 0 && b.parts().3.len() == 0 ==> !r,
        a.parts() == b.parts() ==> !r,
{
    let rebuild = |v: &SemanticVersion| semver::Version {
        major: v.major,
        minor: v.minor,
        patch: v.patch,
        pre: semver::Prerelease::new(&v.pre).unwrap(),
        build: semver::BuildMetadata::new(&v.build).unwrap(),
    };
    rebuild(a) > rebuild(b)
}

impl SemanticVersion {
    /// Whether the version has a pre-release part.
    fn is_prerelease(&self) -> (r: bool)
        ensures
            r == (self.parts().3.len() > 0),
    {
        self.pre.unicode_len() > 0
    }
}

/// The page where releases are listed.
pub open spec fn release_url() -> Seq<char> {
    "https://github.com/revises-org/cram/releases"@
}

fn release_url_text() -> (r: &'static str)
    ensures
        r@ == release_url(),
{
    "https://github.com/revises-org/cram/releases"
}

/// The notice owed for a cached latest version `latest`, while `current`
/// runs: the version without its leading `v`s and the release page, when
/// both versions parse, the latest is newer, and it is not a pre-release
/// while the running version is a release.
pub open spec fn notice_for(latest: Seq<char>, current: Seq<char>) -> Option<(Seq<char>, Seq<char>)> {
    let clean = strip_leading_v(latest);
    match (semver_parsed(clean), semver_parsed(current)) {
        (Some(l), Some(c)) => if semver_greater(l, c) && !(l.3.len() > 0 && c.3.len() == 0) {
            Some((clean, release_url()))
        } else {
            None
        },
        _ => None,
    }
}

pub open spec fn opt_pair_text(o: Option<(String, String)>) -> Option<(Seq<char>, Seq<char>)> {
    match o {
        Some(p) => Some((p.0@, p.1@)),
        None => None,
    }
}

/// The update notice to show at start-up, from the cache file's contents
/// (`None` when the file is missing or does not parse) and the running
/// version `current_version`. Nothing is shown when the check is disabled.
pub fn get_cached_update_notice(
    disabled: bool,
    cache: Option<&UpdateCache>,
    current_version: &str,
) -> (r: Option<(String, String)>)
    ensures
        disabled ==> r is None,
        !disabled && cache is None ==> r is None,
        !disabled ==> (cache matches Some(c) ==> opt_pair_text(r) == notice_for(
            c.latest_version@,
            current_version@,
        )),
{
    if disabled {
        return None;
    }
    let cache = match cache {
        Some(c) => c,
        None => {
            return None;
        },
    };
    let clean_latest = strip_v(cache.latest_version.as_str());
    let latest_ver = match parse_version(clean_latest) {
        Some(v) => v,
        None => {
            return None;
        },
    };
    let current_ver = match parse_version(current_version) {
        Some(v) => v,
        None => {
            return None;
        },
    };
    assert(semver_parsed(clean_latest@) == Some(latest_ver.parts()));
    assert(semver_parsed(current_version@) == Some(current_ver.parts()));
    if version_greater(&latest_ver, &current_ver) {
        // Ignore prereleases unless the running version is a prerelease
        if latest_ver.is_prerelease() && !current_ver.is_prerelease() {
            return None;
        }
        return Some((String::from_str(clean_latest), String::from_str(release_url_text())));
    }
    None
}

/// How long, in seconds, a check result stays fresh.
pub const CHECK_INTERVAL_SECS: u64 = 86400;

/// A new check is owed when it is not disabled and the cache is missing or
/// at least a day old (a cache dated after `now` counts as fresh).
pub open spec fn check_due(disabled: bool, now: u64, last_check: Option<u64>) -> bool {
    !disabled && match last_check {
        Some(last) => now >= last && now - last >= CHECK_INTERVAL_SECS,
        None => true,
    }
}

/// Whether to ask for the latest release now, given the time of the last
/// check found in the cache file (`None` when there is none that parses).
pub fn should_check_for_update(disabled: bool, now: u64, last_check: Option<u64>) -> (r: bool)
    ensures
        r == check_due(disabled, now, last_check),
{
    if disabled {
        return false;
    }
    match last_check {
        Some(last) => !(now.saturating_sub(last) < CHECK_INTERVAL_SECS),
        None => true,
    }
}

/// The cache entry to write after a release with tag `tag_name` was found at
/// time `now`: the tag without its leading `v`s, when that parses as a
/// version; `None` otherwise (nothing is written).
pub fn cache_from_release(now: u64, tag_name: &str, html_url: Option<String>) -> (r: Option<UpdateCache>)
    ensures
        match r {
            Some(c) => {
                &&& semver_parsed(strip_leading_v(tag_name@)) is Some
                &&& c.last_check == now
                &&& c.latest_version@ == strip_leading_v(tag_name@)
                &&& opt_text(c.html_url) == opt_text(html_url)
            },
            None => semver_parsed(strip_leading_v(tag_name@)) is None,
        },
{
    let clean_tag = strip_v(tag_name);
    match parse_version(clean_tag) {
        Some(_) => Some(
            UpdateCache { last_check: now, latest_version: String::from_str(clean_tag), html_url },
        ),
        None => None,
    }
}

/// Where the cache file lives under the configuration directory `home`.
pub fn cache_path(home: &str) -> (r: String)
    ensures
        r@ == path_joined(home@, "update-check.json"@),
{
    proof {
        reveal_strlit("update-check.json");
    }
    path_join(home, "update-check.json")
}

/// Taking the leading `v`s away twice is the same as once.
pub proof fn lemma_strip_leading_v_idempotent(s: Seq<char>)
    ensures
        strip_leading_v(strip_leading_v(s)) == strip_leading_v(s),
    decreases s.len(),
{
    if s.len() > 0 && s[0] == 'v' {
        lemma_strip_leading_v_idempotent(s.drop_first());
    }
}

/// What is written to the cache is what is read back: the notice for a
/// cached release names exactly the version that was stored, and is owed
/// exactly when that version is newer than the running one (and not a
/// pre-release while a release runs).
pub proof fn law_cached_release_notice(now: u64, tag_name: Seq<char>, current: Seq<char>)
    requires
        semver_parsed(strip_leading_v(tag_name)) is Some,
    ensures
        notice_for(strip_leading_v(tag_name), current) == notice_for(tag_name, current),
        notice_for(tag_name, current) matches Some(n) ==> n.0 == strip_leading_v(tag_name),
{
    lemma_strip_leading_v_idempotent(tag_name);
}

/// A check has just run (the cache is dated `now`): no new check is owed
/// until a day has passed.
pub proof fn law_fresh_cache_is_not_rechecked(now: u64, elapsed: u64)
    requires
        now as int + elapsed as int <= u64::MAX,
    ensures
        check_due(false, (now + elapsed) as u64, Some(now)) <==> elapsed >= CHECK_INTERVAL_SECS,
{
}

/// Which releases are announced: a cached release that semver orders above
/// the running version is announced (with its leading `v`s taken away and
/// the release page) when it is a release, or when the running version is
/// itself a pre-release, whatever part of the version differs; a release
/// that is not newer is never announced, nor a pre-release while a release
/// runs.
pub proof fn law_newer_release_is_announced(
    latest: Seq<char>,
    current: Seq<char>,
    l: VersionParts,
    c: VersionParts,
)
    requires
        semver_parsed(strip_leading_v(latest)) == Some(l),
        semver_parsed(current) == Some(c),
    ensures
        semver_greater(l, c) && l.3.len() == 0 ==> notice_for(latest, current) == Some(
            (strip_leading_v(latest), "https://github.com/revises-org/cram/releases"@),
        ),
        semver_greater(l, c) && c.3.len() > 0 ==> notice_for(latest, current) == Some(
            (strip_leading_v(latest), "https://github.com/revises-org/cram/releases"@),
        ),
        !semver_greater(l, c) ==> notice_for(latest, current) is None,
        l.3.len() > 0 && c.3.len() == 0 ==> notice_for(latest, current) is None,
{
}

} // verus!
