//! Semantic versions read from a program's `--version` output, and the
//! install decision that compares a candidate with what is installed.

use std::cmp::Ordering;
use semver::{BuildMetadata, Prerelease};
use vstd::prelude::*;
use crate::text::{
    first_line, first_line_end, is_space, skip_spaces, space_char, word_end, words, words_from,
    lemma_skip_spaces_bounds, lemma_word_end_bounds,
};

verus! {

/// Major, minor and patch numbers, then the pre-release and build texts.
pub type VersionView = (u64, u64, u64, Seq<char>, Seq<char>);

/// What `semver::Version::parse` makes of a text: `None` where it refuses it.
pub uninterp spec fn semver_of(text: Seq<char>) -> Option<VersionView>;

/// The order of `semver::Version` between two versions.
pub uninterp spec fn semver_order(a: VersionView, b: VersionView) -> Ordering;

/// Lexicographic order of the numeric triples.
pub open spec fn triple_order(a: VersionView, b: VersionView) -> Ordering {
    if a.0 != b.0 {
        if a.0 < b.0 { Ordering::Less } else { Ordering::Greater }
    } else if a.1 != b.1 {
        if a.1 < b.1 { Ordering::Less } else { Ordering::Greater }
    } else if a.2 != b.2 {
        if a.2 < b.2 { Ordering::Less } else { Ordering::Greater }
    } else {
        Ordering::Equal
    }
}

/// A value that some text parses to.
pub open spec fn is_semver(v: VersionView) -> bool {
    exists|t: Seq<char>| semver_of(t) == Some(v)
}

/// A semantic version, as parsed from text.
#[derive(Debug, PartialEq, Eq)]
pub struct Version {
    major: u64,
    minor: u64,
    patch: u64,
    pre: String,
    build: String,
}

impl View for Version {
    type V = VersionView;

    closed spec fn view(&self) -> VersionView {
        (self.major, self.minor, self.patch, self.pre@, self.build@)
    }
}

impl Version {
    #[verifier::type_invariant]
    spec fn parsed(self) -> bool {
        is_semver(self@)
    }

    pub fn major(&self) -> (r: u64)
        ensures
            r == self@.0,
    {
        self.major
    }

    pub fn minor(&self) -> (r: u64)
        ensures
            r == self@.1,
    {
        self.minor
    }

    pub fn patch(&self) -> (r: u64)
        ensures
            r == self@.2,
    {
        self.patch
    }

    /// The pre-release text, empty for a release.
    pub fn pre(&self) -> (r: &str)
        ensures
            r@ == self@.3,
    {
        self.pre.as_str()
    }

    /// The build metadata text, empty when there is none.
    pub fn build(&self) -> (r: &str)
        ensures
            r@ == self@.4,
    {
        self.build.as_str()
    }
}

/// Relies on `semver::Version::parse`: `Ok` exactly where `semver_of` holds a
/// value, and then the fields of that value.
#[verifier::external_body]
fn parse_semver(text: &str) -> (r: Option<Version>)
    ensures
        match r {
            Some(v) => semver_of(text@) == Some(v@),
            None => semver_of(text@) is None,
        },
{
    match semver::Version::parse(text) {
        Ok(v) => Some(Version {
            major: v.major,
            minor: v.minor,
            patch: v.patch,
            pre: v.pre.as_str().to_string(),
            build: v.build.as_str().to_string(),
        }),
        Err(_) => None,
    }
}

/// Relies on the `Ord` that `semver::Version` derives: fields compared in the
/// order major, minor, patch, pre-release, build, and `Equal` only between
/// equal versions. The texts of a parsed version are accepted again by
/// `Prerelease::new` and `BuildMetadata::new`.
#[verifier::external_body]
fn compare_semver(a: &Version, b: &Version) -> (r: Ordering)
    requires
        is_semver(a@),
        is_semver(b@),
    ensures
        r == semver_order(a@, b@),
        r == Ordering::Equal <==> a@ == b@,
        triple_order(a@, b@) != Ordering::Equal ==> r == triple_order(a@, b@),
{
    let x = semver::Version {
        major: a.major, minor: a.minor, patch: a.patch,
        pre: Prerelease::new(&a.pre).unwrap(), build: BuildMetadata::new(&a.build).unwrap(),
    };
    let y = semver::Version {
        major: b.major, minor: b.minor, patch: b.patch,
        pre: Prerelease::new(&b.pre).unwrap(), build: BuildMetadata::new(&b.build).unwrap(),
    };
    x.cmp(&y)
}

/// A word without its one optional leading `v`.
pub open spec fn strip_v(w: Seq<char>) -> Seq<char> {
    if w.len() > 0 && w[0] == 'v' { w.drop_first() } else { w }
}

/// The version of the first word that parses, once its `v` is stripped.
pub open spec fn first_version(ws: Seq<Seq<char>>) -> Option<VersionView>
    decreases ws.len(),
{
    if ws.len() == 0 {
        None
    } else {
        match semver_of(strip_v(ws[0])) {
            Some(v) => Some(v),
            None => first_version(ws.drop_first()),
        }
    }
}

/// The version that a probe's output reports: taken from the words of its
/// first line.
pub open spec fn reported_version(output: Seq<char>) -> Option<VersionView> {
    first_version(words(first_line(output)))
}

/// Reads the version that a probe printed: the first whitespace-separated
/// word of the first line that parses as a semantic version, with an optional
/// leading `v`. `None` when no word does.
pub fn parse_version(output: &str) -> (r: Option<Version>)
    ensures
        match r {
            Some(v) => reported_version(output@) == Some(v@),
            None => reported_version(output@) is None,
        },
{
    let end = first_line_end(output);
    let line = output.substring_char(0, end);
    assert(line@ =~= first_line(output@));
    let m = line.unicode_len();
    let ghost l = line@;
    let mut i: usize = 0;
    loop
        invariant
            m == l.len(),
            l == line@,
            l == first_line(output@),
            i <= m,
            first_version(words(l)) == first_version(words_from(l, i as int)),
        decreases m - i,
    {
        let mut st: usize = i;
        while st < m && space_char(line.get_char(st))
            invariant
                m == l.len(),
                l == line@,
                i <= st <= m,
                skip_spaces(l, i as int) == skip_spaces(l, st as int),
            decreases m - st,
        {
            st = st + 1;
        }
        assert(skip_spaces(l, st as int) == st as int);
        if st >= m {
            assert(words_from(l, i as int) =~= Seq::<Seq<char>>::empty());
            return None;
        }
        let mut en: usize = st + 1;
        while en < m && !space_char(line.get_char(en))
            invariant
                m == l.len(),
                l == line@,
                st < en <= m,
                !is_space(l[st as int]),
                word_end(l, st as int) == word_end(l, en as int),
            decreases m - en,
        {
            en = en + 1;
        }
        proof {
            assert(word_end(l, en as int) == en as int);
            lemma_word_end_bounds(l, st as int);
            lemma_skip_spaces_bounds(l, i as int);
            let w = l.subrange(st as int, en as int);
            let rest = words_from(l, en as int);
            assert(words_from(l, i as int) == seq![w] + rest);
            assert((seq![w] + rest)[0] == w);
            assert((seq![w] + rest).drop_first() =~= rest);
        }
        let token = if line.get_char(st) == 'v' {
            line.substring_char(st + 1, en)
        } else {
            line.substring_char(st, en)
        };
        assert(token@ =~= strip_v(l.subrange(st as int, en as int)));
        match parse_semver(token) {
            Some(v) => {
                assert(first_version(words_from(l, i as int)) == Some(v@));
                return Some(v);
            },
            None => {
                i = en;
            },
        }
    }
}

/// What to do with a candidate, given how it compares with what is installed.
#[derive(Clone, Copy, Debug, PartialEq, Eq)]
pub enum InstallDecision {
    /// Nothing is installed, or its version is unknown.
    Install,
    /// The candidate is newer.
    Upgrade,
    /// Same version, and a reinstall was forced.
    Reinstall,
    /// Same version, not forced.
    Skip,
    /// The installed version is newer: nothing is copied.
    DowngradeBlock,
}

/// The decision, from the candidate's order against the installed version
/// (`None` when none is known) and the force flag.
pub open spec fn decision_of(order: Option<Ordering>, force: bool) -> InstallDecision {
    match order {
        None => InstallDecision::Install,
        Some(Ordering::Greater) => InstallDecision::Upgrade,
        Some(Ordering::Equal) => if force {
            InstallDecision::Reinstall
        } else {
            InstallDecision::Skip
        },
        Some(Ordering::Less) => InstallDecision::DowngradeBlock,
    }
}

/// Decides from an order already computed.
pub fn decision_for(order: Option<Ordering>, force: bool) -> (r: InstallDecision)
    ensures
        r == decision_of(order, force),
{
    match order {
        None => InstallDecision::Install,
        Some(Ordering::Greater) => InstallDecision::Upgrade,
        Some(Ordering::Equal) => if force {
            InstallDecision::Reinstall
        } else {
            InstallDecision::Skip
        },
        Some(Ordering::Less) => InstallDecision::DowngradeBlock,
    }
}

/// The view of an optional version.
pub open spec fn view_of(v: Option<Version>) -> Option<VersionView> {
    match v {
        Some(x) => Some(x@),
        None => None,
    }
}

/// What is known of the semver order between two versions: `Equal` only
/// between equal versions, and the numeric triple decides where it differs.
pub open spec fn order_facts(a: VersionView, b: VersionView) -> bool {
    &&& (semver_order(a, b) == Ordering::Equal <==> a == b)
    &&& (triple_order(a, b) != Ordering::Equal ==> semver_order(a, b) == triple_order(a, b))
}

/// The order of a candidate against an optional installed version.
pub open spec fn order_against(candidate: VersionView, installed: Option<VersionView>) -> Option<
    Ordering,
> {
    match installed {
        Some(i) => Some(semver_order(candidate, i)),
        None => None,
    }
}

/// Compares the candidate with the installed version and decides.
pub fn decide(candidate: &Version, installed: &Option<Version>, force: bool) -> (r:
    InstallDecision)
    ensures
        r == decision_of(order_against(candidate@, view_of(*installed)), force),
        match view_of(*installed) {
            Some(i) => order_facts(candidate@, i),
            None => true,
        },
{
    let order = match installed {
        Some(i) => {
            proof {
                use_type_invariant(candidate);
                use_type_invariant(i);
            }
            Some(compare_semver(candidate, i))
        },
        None => None,
    };
    decision_for(order, force)
}

/// The installed version, from what the probe of the installed binary printed
/// (`None` when it timed out, failed or printed nothing usable).
pub fn installed_version(probe: &Option<String>) -> (r: Option<Version>)
    ensures
        match probe {
            None => r is None,
            Some(out) => match r {
                Some(v) => reported_version(out@) == Some(v@),
                None => reported_version(out@) is None,
            },
        },
{
    match probe {
        Some(out) => parse_version(out.as_str()),
        None => None,
    }
}

} // verus!
