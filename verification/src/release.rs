//! Releases published on Codeberg, and the decision whether to tell the user
//! about a newer one.
use vstd::prelude::*;
use vstd::string::*;

use crate::error::CheeseError;
use crate::message::{Message, UpdateMessage};
use crate::text::{
    find_from, first_match, lemma_next_newline_bounds, line_end,
    matches_at, next_newline, strip_prefix_or_keep, sub_chars, strip_suffix_or_keep, to_chars, trim,
    trimmed_range,
};

verus! {

/// A release as the Codeberg API describes it.
#[derive(Debug, Clone)]
pub struct CodebergRelease {
    pub tag_name: String,
    pub name: String,
    pub body: String,
    pub html_url: String,
}

impl CodebergRelease {
    /// A copy of the release.
    pub fn duplicate(&self) -> (copy: Self)
        ensures
            copy == *self,
    {
        CodebergRelease {
            tag_name: self.tag_name.clone(),
            name: self.name.clone(),
            body: self.body.clone(),
            html_url: self.html_url.clone(),
        }
    }
}

/// The versions that one platform lists.
#[derive(Debug, Clone, PartialEq, Eq)]
pub struct PlatformVersions {
    pub platform: String,
    pub versions: Vec<String>,
}

/// The model of [`PlatformVersions`]: the platform and its version texts.
pub open spec fn platform_view(p: PlatformVersions) -> (Seq<char>, Seq<Seq<char>>) {
    (p.platform@, p.versions@.map_values(|v: String| v@))
}

/// A top-level table of version lists, by platform.
#[derive(Debug)]
pub struct VersionSection {
    pub name: String,
    pub platforms: Vec<PlatformVersions>,
}

/// The model of a list of platforms.
pub open spec fn platforms_view(ps: Seq<PlatformVersions>) -> Seq<(Seq<char>, Seq<Seq<char>>)> {
    ps.map_values(|p: PlatformVersions| platform_view(p))
}

/// The model of [`VersionSection`].
pub open spec fn section_view(s: VersionSection) -> (Seq<char>, Seq<(Seq<char>, Seq<Seq<char>>)>) {
    (s.name@, platforms_view(s.platforms@))
}

/// The model of a list of sections.
pub open spec fn sections_view(ss: Seq<VersionSection>) -> Seq<
    (Seq<char>, Seq<(Seq<char>, Seq<Seq<char>>)>),
> {
    ss.map_values(|s: VersionSection| section_view(s))
}

/// What `toml::from_str` reads from `text` as a table of tables of string
/// lists: each top-level key with its entries, in key order, or `None`
/// when the text is not such a document.
pub uninterp spec fn toml_version_sections(text: Seq<char>) -> Option<
    Seq<(Seq<char>, Seq<(Seq<char>, Seq<Seq<char>>)>)>,
>;

/// `toml::from_str::<BTreeMap<String, BTreeMap<String, Vec<String>>>>` on
/// `text`, with both maps turned into lists in their (sorted) key order.
/// Claimed: the result is the named reading of `text`. What that reading is
/// (the TOML grammar) is left unsaid.
#[verifier::external_body]
fn parse_version_sections(text: &str) -> (sections: Option<Vec<VersionSection>>)
    ensures
        match sections {
            Some(v) => toml_version_sections(text@) == Some(sections_view(v@)),
            None => toml_version_sections(text@) is None,
        },
{
    let map = toml::from_str::<
        std::collections::BTreeMap<String, std::collections::BTreeMap<String, Vec<String>>>,
    >(text).ok()?;
    Some(
        map.into_iter().map(
            |(name, platforms)|
                VersionSection {
                    name,
                    platforms: platforms.into_iter().map(
                        |(platform, versions)| PlatformVersions { platform, versions },
                    ).collect(),
                },
        ).collect(),
    )
}

/// Whether `semver::Version::parse` accepts a text.
pub uninterp spec fn semver_parses(text: Seq<char>) -> bool;

/// `semver::Version::parse(text).is_ok()`. Claimed: the result is the named
/// acceptance of `text`; an empty text is refused.
#[verifier::external_body]
pub(crate) fn semver_valid(text: &str) -> (ok: bool)
    ensures
        ok == semver_parses(text@),
        text@.len() == 0 ==> !ok,
{
    semver::Version::parse(text).is_ok()
}

/// Whether both texts parse as versions and the first is less than the
/// second in semver precedence.
pub uninterp spec fn semver_less(a: Seq<char>, b: Seq<char>) -> bool;

/// `<` on the `semver::Version`s parsed from `a` and `b` (`false` when one
/// does not parse). Claimed: the result is the named comparison; it holds
/// only of texts that parse, and never of a text with itself. `Version`
/// derives `Ord` over its fields, whose orders are total and agree with
/// their `==`, so the order is total and transitive: when `a < b`, every
/// version below `a`, or the same as `a`, is below `b`; and of two texts
/// that parse, either `a < b`, or `b` is the same version as `a`, or
/// `b < a`.
#[verifier::external_body]
pub(crate) fn semver_lt(a: &str, b: &str) -> (lt: bool)
    ensures
        lt == semver_less(a@, b@),
        lt ==> semver_parses(a@) && semver_parses(b@),
        a@ == b@ ==> !lt,
        lt ==> forall|x: Seq<char>| #[trigger] semver_less(x, a@) ==> semver_less(x, b@),
        lt ==> forall|x: Seq<char>| #[trigger] semver_same(x, a@) ==> semver_less(x, b@),
        semver_parses(a@) && semver_parses(b@) ==> lt || semver_same(b@, a@) || semver_less(
            b@,
            a@,
        ),
{
    match (semver::Version::parse(a), semver::Version::parse(b)) {
        (Ok(x), Ok(y)) => x < y,
        _ => false,
    }
}

/// Whether both texts parse as the same version.
pub uninterp spec fn semver_same(a: Seq<char>, b: Seq<char>) -> bool;

/// `==` on the `semver::Version`s parsed from `a` and `b` (`false` when one
/// does not parse). Claimed: the result is the named equality, and it
/// holds only of texts that parse.
#[verifier::external_body]
pub(crate) fn semver_eq(a: &str, b: &str) -> (eq: bool)
    ensures
        eq == semver_same(a@, b@),
        eq ==> semver_parses(a@) && semver_parses(b@),
{
    match (semver::Version::parse(a), semver::Version::parse(b)) {
        (Ok(x), Ok(y)) => x == y,
        _ => false,
    }
}

/// Every version text in the sections parses as a version.
pub open spec fn all_versions_valid(secs: Seq<(Seq<char>, Seq<(Seq<char>, Seq<Seq<char>>)>)>) -> bool {
    forall|i: int, j: int, k: int|
        0 <= i < secs.len() && 0 <= j < secs[i].1.len() && 0 <= k < secs[i].1[j].1.len()
            ==> #[trigger] semver_parses(secs[i].1[j].1[k])
}

/// The entries of the first section named `name`, searching from `i`.
pub open spec fn section_lookup(
    secs: Seq<(Seq<char>, Seq<(Seq<char>, Seq<Seq<char>>)>)>,
    name: Seq<char>,
    i: int,
) -> Option<Seq<(Seq<char>, Seq<Seq<char>>)>>
    decreases secs.len() - i,
{
    if i < 0 || i >= secs.len() {
        None
    } else if secs[i].0 == name {
        Some(secs[i].1)
    } else {
        section_lookup(secs, name, i + 1)
    }
}

/// The versions listed for the first platform named `name`, searching from `i`.
pub open spec fn platform_lookup(ps: Seq<(Seq<char>, Seq<Seq<char>>)>, name: Seq<char>, i: int) -> Option<
    Seq<Seq<char>>,
>
    decreases ps.len() - i,
{
    if i < 0 || i >= ps.len() {
        None
    } else if ps[i].0 == name {
        Some(ps[i].1)
    } else {
        platform_lookup(ps, name, i + 1)
    }
}

/// The key that marks a line of a release body as a version equivalence.
pub open spec fn equivalence_key() -> Seq<char> {
    "equivalent-to"@
}

/// The text of a line that is read as TOML: trimmed, without an HTML
/// comment's opening and closing marks, and trimmed again.
pub open spec fn line_candidate(line: Seq<char>) -> Seq<char> {
    trim(strip_suffix_or_keep(strip_prefix_or_keep(trim(line), "<!--"@), "-->"@))
}

/// What a line of a release body says: `None` when it is not a version
/// equivalence (the search goes on), otherwise the entries under the
/// `equivalent-to` key (possibly none).
pub open spec fn line_equivalence(line: Seq<char>) -> Option<Option<Seq<(Seq<char>, Seq<Seq<char>>)>>> {
    if first_match(line, equivalence_key()) is Some {
        match toml_version_sections(line_candidate(line)) {
            Some(secs) => if all_versions_valid(secs) {
                Some(section_lookup(secs, equivalence_key(), 0))
            } else {
                None
            },
            None => None,
        }
    } else {
        None
    }
}

/// The version equivalence given by the first line, from position `start`
/// of the body on, that is one.
pub open spec fn equivalence_from(body: Seq<char>, start: int) -> Option<
    Seq<(Seq<char>, Seq<Seq<char>>)>,
>
    decreases body.len() + 1 - start,
{
    if start < 0 || start > body.len() {
        None
    } else {
        let end = next_newline(body, start);
        match line_equivalence(body.subrange(start, end)) {
            Some(found) => found,
            None => if end >= body.len() {
                None
            } else {
                proof {
                    lemma_next_newline_bounds(body, start);
                }
                equivalence_from(body, end + 1)
            },
        }
    }
}

/// Whether every version text in `secs` parses.
fn versions_all_valid(secs: &Vec<VersionSection>) -> (ok: bool)
    ensures
        ok == all_versions_valid(sections_view(secs@)),
{
    let ghost view = sections_view(secs@);
    let mut i: usize = 0;
    while i < secs.len()
        invariant
            view == sections_view(secs@),
            i <= secs@.len(),
            forall|i2: int, j: int, k: int|
                0 <= i2 < i && 0 <= j < view[i2].1.len() && 0 <= k < view[i2].1[j].1.len()
                    ==> #[trigger] semver_parses(view[i2].1[j].1[k]),
        decreases secs@.len() - i,
    {
        let platforms = &secs[i].platforms;
        let mut j: usize = 0;
        while j < platforms.len()
            invariant
                view == sections_view(secs@),
                i < secs@.len(),
                platforms == secs@[i as int].platforms,
                j <= platforms@.len(),
                forall|i2: int, j2: int, k: int|
                    0 <= i2 < i && 0 <= j2 < view[i2].1.len() && 0 <= k < view[i2].1[j2].1.len()
                        ==> #[trigger] semver_parses(view[i2].1[j2].1[k]),
                forall|j2: int, k: int|
                    0 <= j2 < j && 0 <= k < view[i as int].1[j2].1.len() ==> #[trigger] semver_parses(
                        view[i as int].1[j2].1[k],
                    ),
            decreases platforms@.len() - j,
        {
            let versions = &platforms[j].versions;
            let mut k: usize = 0;
            while k < versions.len()
                invariant
                    view == sections_view(secs@),
                    i < secs@.len(),
                    platforms == secs@[i as int].platforms,
                    j < platforms@.len(),
                    versions == platforms@[j as int].versions,
                    k <= versions@.len(),
                    forall|k2: int| 0 <= k2 < k ==> #[trigger] semver_parses(versions@[k2]@),
                decreases versions@.len() - k,
            {
                if !semver_valid(versions[k].as_str()) {
                    assert(view[i as int].1[j as int].1[k as int] == versions@[k as int]@);
                    return false;
                }
                k = k + 1;
            }
            assert forall|k2: int| 0 <= k2 < view[i as int].1[j as int].1.len() implies #[trigger] semver_parses(
                view[i as int].1[j as int].1[k2],
            ) by {
                assert(view[i as int].1[j as int].1[k2] == versions@[k2]@);
            }
            j = j + 1;
        }
        i = i + 1;
    }
    true
}

/// Reads one line of a release body (see [`line_equivalence`]).
fn scan_line(body: &str, chars: &[char], start: usize, end: usize) -> (found: Option<
    Option<Vec<PlatformVersions>>,
>)
    requires
        chars@ == body@,
        start <= end <= chars@.len(),
    ensures
        match found {
            None => line_equivalence(chars@.subrange(start as int, end as int)) is None,
            Some(None) => line_equivalence(chars@.subrange(start as int, end as int)) == Some(
                None::<Seq<(Seq<char>, Seq<Seq<char>>)>>,
            ),
            Some(Some(ps)) => line_equivalence(chars@.subrange(start as int, end as int)) == Some(
                Some(platforms_view(ps@)),
            ),
        },
{
    let line = sub_chars(chars, start, end);
    let key = to_chars("equivalent-to");
    assert(line@.take(line@.len() as int) =~= line@);
    if find_from(line.as_slice(), line.len(), key.as_slice(), 0).is_none() {
        return None;
    }
    let (a1, b1) = trimmed_range(line.as_slice(), 0, line.len());
    assert(line@.subrange(0, line@.len() as int) =~= line@);
    let open = to_chars("<!--");
    let a2 = if open.len() <= b1 - a1 && matches_at(line.as_slice(), open.as_slice(), a1) {
        assert(line@.subrange(a1 as int, b1 as int).take(open@.len() as int) =~= line@.subrange(
            a1 as int,
            a1 + open@.len(),
        ));
        assert(line@.subrange(a1 as int, b1 as int).skip(open@.len() as int) =~= line@.subrange(
            a1 + open@.len(),
            b1 as int,
        ));
        a1 + open.len()
    } else {
        assert(open@.len() <= b1 - a1 ==> line@.subrange(a1 as int, b1 as int).take(
            open@.len() as int,
        ) =~= line@.subrange(a1 as int, a1 + open@.len()));
        a1
    };
    assert(line@.subrange(a2 as int, b1 as int) == strip_prefix_or_keep(
        line@.subrange(a1 as int, b1 as int),
        "<!--"@,
    ));
    let close = to_chars("-->");
    let b2 = if close.len() <= b1 - a2 && matches_at(
        line.as_slice(),
        close.as_slice(),
        b1 - close.len(),
    ) {
        assert(line@.subrange(a2 as int, b1 as int).skip(b1 - a2 - close@.len()) =~= line@.subrange(
            b1 - close@.len(),
            b1 as int,
        ));
        assert(line@.subrange(a2 as int, b1 as int).take(b1 - a2 - close@.len()) =~= line@.subrange(
            a2 as int,
            b1 - close@.len(),
        ));
        b1 - close.len()
    } else {
        assert(close@.len() <= b1 - a2 ==> line@.subrange(a2 as int, b1 as int).skip(
            b1 - a2 - close@.len(),
        ) =~= line@.subrange(b1 - close@.len(), b1 as int));
        b1
    };
    assert(line@.subrange(a2 as int, b2 as int) == strip_suffix_or_keep(
        line@.subrange(a2 as int, b1 as int),
        "-->"@,
    ));
    let (a3, b3) = trimmed_range(line.as_slice(), a2, b2);
    assert(line@.subrange(a3 as int, b3 as int) == line_candidate(line@));
    let text = body.substring_char(start + a3, start + b3);
    assert(text@ =~= line@.subrange(a3 as int, b3 as int));
    let mut secs = match parse_version_sections(text) {
        Some(secs) => secs,
        None => return None,
    };
    if !versions_all_valid(&secs) {
        return None;
    }
    let ghost view = sections_view(secs@);
    assert(line_equivalence(line@) == Some(section_lookup(view, equivalence_key(), 0)));
    let mut i: usize = 0;
    while i < secs.len()
        invariant
            view == sections_view(secs@),
            line@ == chars@.subrange(start as int, end as int),
            line_equivalence(line@) == Some(section_lookup(view, equivalence_key(), 0)),
            i <= secs@.len(),
            section_lookup(view, equivalence_key(), 0) == section_lookup(
                view,
                equivalence_key(),
                i as int,
            ),
        decreases secs@.len() - i,
    {
        if str_eq_string(&secs[i].name, "equivalent-to") {
            let ghost before = secs@;
            let section = secs.remove(i);
            assert(section == before[i as int]);
            assert(view[i as int] == section_view(section));
            assert(view[i as int].0 == equivalence_key());
            return Some(Some(section.platforms));
        }
        i = i + 1;
    }
    Some(None)
}

/// Whether a string holds exactly the text of a slice.
fn str_eq_string(s: &String, t: &str) -> (same: bool)
    ensures
        same == (s@ == t@),
{
    crate::text::str_eq(s.as_str(), t)
}

impl CodebergRelease {
    /// The version equivalence announced in the release body: the first
    /// line that mentions `equivalent-to` and reads (after trimming and
    /// removing HTML comment marks) as a TOML table of version lists gives
    /// the lists under its `equivalent-to` key, by platform.
    pub fn equivalent_versions(&self) -> (table: Option<Vec<PlatformVersions>>)
        ensures
            match table {
                Some(ps) => equivalence_from(self.body@, 0) == Some(platforms_view(ps@)),
                None => equivalence_from(self.body@, 0) is None,
            },
    {
        let body = self.body.as_str();
        let chars = to_chars(body);
        let mut start: usize = 0;
        loop
            invariant
                chars@ == body@,
                body@ == self.body@,
                start <= chars@.len(),
                equivalence_from(chars@, 0) == equivalence_from(chars@, start as int),
            decreases chars@.len() - start,
        {
            let end = line_end(chars.as_slice(), start);
            proof {
                lemma_next_newline_bounds(chars@, start as int);
            }
            match scan_line(body, chars.as_slice(), start, end) {
                Some(found) => return found,
                None => {
                    if end >= chars.len() {
                        return None;
                    }
                    start = end + 1;
                },
            }
        }
    }
}

/// The version of this build of the editor.
pub open spec fn current_version() -> Seq<char> {
    "0.9.0"@
}

/// The version of this build of the editor.
pub fn current() -> (version: &'static str)
    ensures
        version@ == current_version(),
{
    "0.9.0"
}

/// The running version as the update check compares it: the current
/// version, or `0.0.0` when it does not parse.
pub open spec fn running_version() -> Seq<char> {
    if semver_parses(current_version()) {
        current_version()
    } else {
        "0.0.0"@
    }
}

/// The version a release must be newer than: the running version, or the
/// version the user chose to skip when it parses and is newer.
pub open spec fn compare_version(ignore: Seq<char>) -> Seq<char> {
    if !semver_parses(ignore) {
        running_version()
    } else if semver_less(running_version(), ignore) {
        ignore
    } else {
        running_version()
    }
}

/// The release body lists `version` as equivalent for platform `os`.
pub open spec fn listed_equivalent(body: Seq<char>, os: Seq<char>, version: Seq<char>) -> bool {
    match equivalence_from(body, 0) {
        Some(ps) => match platform_lookup(ps, os, 0) {
            Some(vs) => exists|k: int| 0 <= k < vs.len() && #[trigger] semver_same(vs[k], version),
            None => false,
        },
        None => false,
    }
}

/// Whether a release is announced: its tag is newer than the version to
/// compare with, and the release does not say that version is equivalent
/// on this platform.
pub open spec fn announces(release: CodebergRelease, ignore: Seq<char>, os: Seq<char>) -> bool {
    &&& semver_less(compare_version(ignore), release.tag_name@)
    &&& !listed_equivalent(release.body@, os, compare_version(ignore))
}

/// Whether some entry of `versions` is the same version as `version`.
fn lists_version(versions: &Vec<String>, version: &str) -> (found: bool)
    ensures
        found == exists|k: int|
            0 <= k < versions@.len() && #[trigger] semver_same(versions@[k]@, version@),
{
    let mut k: usize = 0;
    while k < versions.len()
        invariant
            k <= versions@.len(),
            forall|k2: int| 0 <= k2 < k ==> !#[trigger] semver_same(versions@[k2]@, version@),
        decreases versions@.len() - k,
    {
        if semver_eq(versions[k].as_str(), version) {
            return true;
        }
        k = k + 1;
    }
    false
}

/// Whether the release body lists `version` as equivalent for `os`.
fn is_listed_equivalent(release: &CodebergRelease, os: &str, version: &str) -> (listed: bool)
    ensures
        listed == listed_equivalent(release.body@, os@, version@),
{
    let table = match release.equivalent_versions() {
        Some(table) => table,
        None => return false,
    };
    let ghost view = platforms_view(table@);
    let mut i: usize = 0;
    while i < table.len()
        invariant
            view == platforms_view(table@),
            equivalence_from(release.body@, 0) == Some(view),
            i <= table@.len(),
            platform_lookup(view, os@, 0) == platform_lookup(view, os@, i as int),
        decreases table@.len() - i,
    {
        if str_eq_string(&table[i].platform, os) {
            let found = lists_version(&table[i].versions, version);
            assert(view[i as int].1 == table@[i as int].versions@.map_values(|v: String| v@));
            assert(found ==> exists|k: int|
                0 <= k < view[i as int].1.len() && #[trigger] semver_same(view[i as int].1[k], version@)) by {
                if found {
                    let k = choose|k: int|
                        0 <= k < table@[i as int].versions@.len() && #[trigger] semver_same(
                            table@[i as int].versions@[k]@,
                            version@,
                        );
                    assert(view[i as int].1[k] == table@[i as int].versions@[k]@);
                }
            }
            assert(!found ==> !exists|k: int|
                0 <= k < view[i as int].1.len() && #[trigger] semver_same(view[i as int].1[k], version@)) by {
                if !found {
                    assert forall|k: int| 0 <= k < view[i as int].1.len() implies !#[trigger] semver_same(
                        view[i as int].1[k],
                        version@,
                    ) by {
                        assert(view[i as int].1[k] == table@[i as int].versions@[k]@);
                    }
                }
            }
            return found;
        }
        i = i + 1;
    }
    false
}

/// Decides whether the user is told about a newer release. `latest` is the
/// outcome of fetching the latest release (`None` while it is still under
/// way), `update_ignore_version` the version the user chose to skip (empty
/// when none), `os` the platform the editor runs on. The outer `None` means
/// the check has not finished; `Some(None)` means there is nothing to show.
/// A version the user chose to skip is never announced, nor is any release
/// whose version is not newer than the skipped one; and whatever the
/// skipped version is, a release that is not newer than the running
/// version is never announced (the version compared with is never below
/// the running one).
pub fn check_for_updates(
    latest: Option<&Result<CodebergRelease, CheeseError>>,
    update_ignore_version: &str,
    os: &str,
) -> (outcome: Option<Option<Message>>)
    ensures
        match latest {
            None => outcome is None,
            Some(Err(_)) => outcome == Some(None::<Message>),
            Some(Ok(release)) => if announces(*release, update_ignore_version@, os@) {
                outcome == Some(Some(Message::Update(UpdateMessage { release: *release })))
            } else {
                outcome == Some(None::<Message>)
            },
        },
        latest matches Some(Ok(release)) && update_ignore_version@ == release.tag_name@
            ==> outcome == Some(None::<Message>),
        latest matches Some(Ok(release)) && !semver_less(running_version(), release.tag_name@)
            ==> outcome == Some(None::<Message>),
        latest matches Some(Ok(release)) && semver_parses(update_ignore_version@) && semver_parses(
            release.tag_name@,
        ) && !semver_less(
            update_ignore_version@,
            release.tag_name@,
        ) ==> outcome == Some(None::<Message>),
{
    let release = match latest {
        None => return None,
        Some(Err(_)) => return Some(None),
        Some(Ok(release)) => release,
    };
    let running = if semver_valid(current()) {
        current()
    } else {
        "0.0.0"
    };
    let compare = if !semver_valid(update_ignore_version) {
        running
    } else if semver_lt(running, update_ignore_version) {
        update_ignore_version
    } else {
        running
    };
    assert(compare@ == compare_version(update_ignore_version@));
    if semver_lt(compare, release.tag_name.as_str()) {
        if is_listed_equivalent(release, os, compare) {
            Some(None)
        } else {
            Some(Some(Message::Update(UpdateMessage::new(release.duplicate()))))
        }
    } else {
        Some(None)
    }
}

} // verus!
