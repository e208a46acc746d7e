//! Semantic versions: parsing and ordering come from the `semver` crate,
//! printing and picking the greatest are done here.
use vstd::prelude::*;
use crate::text::{decimal, decimal_string};

verus! {

#[verifier::external_type_specification]
#[verifier::external_body]
pub struct ExSemverVersion(semver::Version);

/// What a parsed version holds: three numbers, the pre-release and the build
/// metadata (each empty when absent).
pub ghost struct SemVerParts {
    pub major: u64,
    pub minor: u64,
    pub patch: u64,
    pub pre: Seq<char>,
    pub build: Seq<char>,
}

/// A version that `semver::Version::parse` accepted, with its parts.
pub struct SemVer {
    major: u64,
    minor: u64,
    patch: u64,
    pre: String,
    build: String,
    parsed: semver::Version,
}

impl View for SemVer {
    type V = SemVerParts;

    closed spec fn view(&self) -> SemVerParts {
        SemVerParts {
            major: self.major,
            minor: self.minor,
            patch: self.patch,
            pre: self.pre@,
            build: self.build@,
        }
    }
}

/// What `semver::Version::parse` gives for a text: `None` where it reports
/// an error.
pub uninterp spec fn semver_parse(text: Seq<char>) -> Option<SemVerParts>;

/// How `semver::Version`'s derived order ranks two versions whose numbers
/// are equal, by their pre-release and build metadata.
pub uninterp spec fn semver_tail_less(
    a_pre: Seq<char>,
    a_build: Seq<char>,
    b_pre: Seq<char>,
    b_build: Seq<char>,
) -> bool;

/// Calls `semver::Version::parse` and keeps the parts of an accepted version.
/// The contract names the outcome `semver_parse` and states what the parser
/// shows: it accepts exactly `major.minor.patch[-pre][+build]` with no leading
/// zeros and takes the pre-release and build text verbatim, so printing an
/// accepted version gives back the text.
#[verifier::external_body]
fn semver_parse_call(text: &str) -> (r: Option<SemVer>)
    ensures
        match r {
            Some(v) => semver_parse(text@) == Some(v@),
            None => semver_parse(text@) is None,
        },
        r matches Some(v) ==> version_text(v@) == text@,
{
    match semver::Version::parse(text) {
        Ok(v) => Some(SemVer {
            major: v.major,
            minor: v.minor,
            patch: v.patch,
            pre: v.pre.as_str().to_string(),
            build: v.build.as_str().to_string(),
            parsed: v,
        }),
        Err(_) => None,
    }
}

/// Calls `<` on two `semver::Version`s. Its derived order compares major,
/// minor and patch numerically in that order, then pre-release and build
/// metadata; the contract names that last step `semver_tail_less` and states
/// what the crate documents of it: equal versions are not less than each
/// other, and with equal numbers a pre-release ranks below the release.
#[verifier::external_body]
fn semver_less_call(a: &SemVer, b: &SemVer) -> (r: bool)
    ensures
        r == (a@.major < b@.major || (a@.major == b@.major && (a@.minor < b@.minor || (a@.minor
            == b@.minor && (a@.patch < b@.patch || (a@.patch == b@.patch && semver_tail_less(
            a@.pre,
            a@.build,
            b@.pre,
            b@.build,
        ))))))),
        a@ == b@ ==> !r,
        (a@.major == b@.major && a@.minor == b@.minor && a@.patch == b@.patch && a@.pre.len() > 0
            && b@.pre.len() == 0) ==> r,
        (a@.major == b@.major && a@.minor == b@.minor && a@.patch == b@.patch && a@.pre.len() == 0
            && b@.pre.len() > 0) ==> !r,
{
    a.parsed < b.parsed
}

/// Whether `a` is a pre-release of the release `b`: the same numbers, `a`
/// with a pre-release and `b` without.
pub open spec fn prerelease_of(a: SemVerParts, b: SemVerParts) -> bool {
    a.major == b.major && a.minor == b.minor && a.patch == b.patch && a.pre.len() > 0
        && b.pre.len() == 0
}

/// The order on versions, as `semver::Version`'s `<` decides it.
pub open spec fn version_less(a: SemVerParts, b: SemVerParts) -> bool {
    a.major < b.major || (a.major == b.major && (a.minor < b.minor || (a.minor == b.minor && (
    a.patch < b.patch || (a.patch == b.patch && semver_tail_less(a.pre, a.build, b.pre, b.build))))))
}

/// Versions are ordered by major, then minor, then patch number; only when
/// all three are equal do the pre-release and build decide.
pub proof fn law_version_order_by_numbers(a: SemVerParts, b: SemVerParts)
    ensures
        a.major < b.major ==> version_less(a, b),
        a.major > b.major ==> !version_less(a, b),
        a.major == b.major && a.minor < b.minor ==> version_less(a, b),
        a.major == b.major && a.minor > b.minor ==> !version_less(a, b),
        a.major == b.major && a.minor == b.minor && a.patch < b.patch ==> version_less(a, b),
        a.major == b.major && a.minor == b.minor && a.patch > b.patch ==> !version_less(a, b),
{
}

/// The text `{}` prints for a version: `major.minor.patch`, then `-pre` and
/// `+build` where those are not empty.
pub open spec fn version_text(v: SemVerParts) -> Seq<char> {
    let numbers = decimal(v.major as nat) + seq!['.'] + decimal(v.minor as nat) + seq!['.']
        + decimal(v.patch as nat);
    let with_pre = if v.pre.len() > 0 {
        numbers + seq!['-'] + v.pre
    } else {
        numbers
    };
    if v.build.len() > 0 {
        with_pre + seq!['+'] + v.build
    } else {
        with_pre
    }
}

impl SemVer {
    /// Parses a version as `semver::Version::parse` does.
    pub fn parse(text: &str) -> (r: Option<SemVer>)
        ensures
            match r {
                Some(v) => semver_parse(text@) == Some(v@),
                None => semver_parse(text@) is None,
            },
            r matches Some(v) ==> version_text(v@) == text@,
    {
        semver_parse_call(text)
    }

    /// Whether `self` ranks below `other`.
    pub fn less_than(&self, other: &SemVer) -> (r: bool)
        ensures
            r == version_less(self@, other@),
            self@ == other@ ==> !r,
            prerelease_of(self@, other@) ==> r,
            prerelease_of(other@, self@) ==> !r,
            self@.major < other@.major ==> r,
            self@.major > other@.major ==> !r,
            self@.major == other@.major && self@.minor < other@.minor ==> r,
            self@.major == other@.major && self@.minor > other@.minor ==> !r,
            self@.major == other@.major && self@.minor == other@.minor && self@.patch
                < other@.patch ==> r,
            self@.major == other@.major && self@.minor == other@.minor && self@.patch
                > other@.patch ==> !r,
    {
        semver_less_call(self, other)
    }

    /// The version as `{}` prints it.
    pub fn render(&self) -> (r: String)
        ensures
            r@ == version_text(self@),
    {
        let mut out = decimal_string(self.major);
        out.push('.');
        let minor = decimal_string(self.minor);
        out.append(minor.as_str());
        out.push('.');
        let patch = decimal_string(self.patch);
        out.append(patch.as_str());
        if !self.pre.as_str().is_empty() {
            out.push('-');
            out.append(self.pre.as_str());
        }
        if !self.build.as_str().is_empty() {
            out.push('+');
            out.append(self.build.as_str());
        }
        out
    }
}

/// The parts of each version of a list.
pub open spec fn parts_of(vs: Seq<SemVer>) -> Seq<SemVerParts> {
    vs.map_values(|x: SemVer| x@)
}

/// The greatest of a list of versions as `Iterator::max` picks it: of equal
/// greatest versions, the last one.
pub open spec fn greatest_version(vs: Seq<SemVerParts>) -> Option<SemVerParts>
    decreases vs.len(),
{
    if vs.len() == 0 {
        None
    } else {
        match greatest_version(vs.drop_last()) {
            None => Some(vs.last()),
            Some(best) => if version_less(vs.last(), best) {
                Some(best)
            } else {
                Some(vs.last())
            },
        }
    }
}

/// The greatest version of a list is one of its versions, and there is one
/// exactly when the list is not empty.
pub proof fn law_greatest_is_listed(vs: Seq<SemVerParts>)
    ensures
        greatest_version(vs) is None <==> vs.len() == 0,
        greatest_version(vs) matches Some(g) ==> vs.contains(g),
    decreases vs.len(),
{
    if vs.len() > 0 {
        law_greatest_is_listed(vs.drop_last());
        assert(vs[vs.len() - 1] == vs.last());
        match greatest_version(vs.drop_last()) {
            Some(b) => {
                let k = choose|k: int| 0 <= k < vs.drop_last().len() && vs.drop_last()[k] == b;
                assert(vs[k] == b);
            },
            None => {},
        }
    }
}

/// The greatest version of a list, `None` for an empty list.
pub fn max_version(versions: Vec<SemVer>) -> (r: Option<SemVer>)
    ensures
        match r {
            Some(v) => greatest_version(parts_of(versions@)) == Some(v@),
            None => greatest_version(parts_of(versions@)) is None,
        },
{
    let ghost all = parts_of(versions@);
    let mut rest = versions;
    let mut best: Option<SemVer> = None;
    let ghost mut taken: int = 0;
    assert(all.skip(0) =~= parts_of(rest@));
    assert(all.take(0) =~= Seq::<SemVerParts>::empty());
    while rest.len() > 0
        invariant
            0 <= taken <= all.len(),
            parts_of(rest@) == all.skip(taken),
            match best {
                Some(b) => greatest_version(all.take(taken)) == Some(b@),
                None => greatest_version(all.take(taken)) is None,
            },
        decreases rest@.len(),
    {
        let ghost before = rest@;
        let next = rest.remove(0);
        proof {
            assert(parts_of(before).len() == before.len());
            assert(taken < all.len());
            assert(all.skip(taken)[0] == parts_of(before)[0]);
            assert(all[taken] == next@);
            assert(all.take(taken + 1).drop_last() =~= all.take(taken));
            assert(all.take(taken + 1).last() == next@);
            assert(rest@ =~= before.drop_first());
            assert forall|j: int| 0 <= j < rest@.len() implies #[trigger] parts_of(rest@)[j]
                == all.skip(taken + 1)[j] by {
                assert(parts_of(before)[j + 1] == all.skip(taken)[j + 1]);
            }
            assert(parts_of(rest@) =~= all.skip(taken + 1));
            taken = taken + 1;
        }
        best = match best {
            None => Some(next),
            Some(b) => if next.less_than(&b) {
                Some(b)
            } else {
                Some(next)
            },
        };
    }
    assert(all.take(taken) =~= all);
    best
}

} // verus!
