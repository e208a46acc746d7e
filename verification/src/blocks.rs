//! The lines of the report: an `InfoBlock` is a key with an optional value
//! and suffix, a `VersionBlock` a key with an installed and a latest version.
use vstd::prelude::*;
use crate::version::{SemVer, SemVerParts, semver_parse, version_less, version_text, prerelease_of};

verus! {

/// The text of an optional part: its characters, or nothing.
pub open spec fn opt_text(o: Option<Seq<char>>) -> Seq<char> {
    match o {
        Some(s) => s,
        None => Seq::empty(),
    }
}

/// The blank line that opens a section, or nothing.
pub open spec fn section_break(section: bool) -> Seq<char> {
    if section {
        seq!['\n']
    } else {
        Seq::empty()
    }
}

/// One line of the report: a key, optionally ` - value`, optionally a
/// suffix; a section starts with a blank line.
pub struct InfoBlock {
    pub section: bool,
    pub key: &'static str,
    pub value: Option<String>,
    pub suffix: Option<String>,
}

/// The text an `InfoBlock` prints.
pub open spec fn info_text(
    section: bool,
    key: Seq<char>,
    value: Option<Seq<char>>,
    suffix: Option<Seq<char>>,
) -> Seq<char> {
    section_break(section) + key + (match value {
        Some(v) => seq![' ', '-', ' '] + v,
        None => Seq::empty(),
    }) + opt_text(suffix) + seq!['\n']
}

impl InfoBlock {
    /// The text the line prints.
    pub open spec fn display_text(&self) -> Seq<char> {
        info_text(self.section, self.key@, self.value.deep_view(), self.suffix.deep_view())
    }

    /// A plain line with only a key.
    pub fn new(key: &'static str) -> (r: InfoBlock)
        ensures
            !r.section,
            r.key@ == key@,
            r.value is None,
            r.suffix is None,
    {
        InfoBlock { section: false, key, value: None, suffix: None }
    }

    /// The same line, opening a section.
    pub fn section(self) -> (r: InfoBlock)
        ensures
            r.section,
            r.key@ == self.key@,
            r.value.deep_view() == self.value.deep_view(),
            r.suffix.deep_view() == self.suffix.deep_view(),
    {
        let mut b = self;
        b.section = true;
        b
    }

    /// The same line with the given value.
    pub fn value(self, value: Option<String>) -> (r: InfoBlock)
        ensures
            r.section == self.section,
            r.key@ == self.key@,
            r.value.deep_view() == value.deep_view(),
            r.suffix.deep_view() == self.suffix.deep_view(),
    {
        let mut b = self;
        b.value = value;
        b
    }

    /// The same line with the given suffix.
    pub fn suffix(self, suffix: Option<String>) -> (r: InfoBlock)
        ensures
            r.section == self.section,
            r.key@ == self.key@,
            r.value.deep_view() == self.value.deep_view(),
            r.suffix.deep_view() == suffix.deep_view(),
    {
        let mut b = self;
        b.suffix = suffix;
        b
    }

    /// The text the line prints, trailing line feed included.
    pub fn display(&self) -> (r: String)
        ensures
            r@ == info_text(self.section, self.key@, self.value.deep_view(), self.suffix.deep_view()),
    {
        let mut out = String::new();
        if self.section {
            out.push('\n');
        }
        out.append(self.key);
        match &self.value {
            Some(v) => {
                out.push(' ');
                out.push('-');
                out.push(' ');
                out.append(v.as_str());
            },
            None => {},
        }
        match &self.suffix {
            Some(s) => {
                out.append(s.as_str());
            },
            None => {},
        }
        out.push('\n');
        assert(out@ =~= info_text(
            self.section,
            self.key@,
            self.value.deep_view(),
            self.suffix.deep_view(),
        ));
        out
    }
}

/// The note that a version is behind the latest one, or nothing.
pub open spec fn outdated_note(version: SemVerParts, latest: SemVerParts) -> Option<Seq<char>> {
    if version_less(version, latest) {
        Some(" (outdated, latest: "@ + version_text(latest) + seq![')'])
    } else {
        None
    }
}

/// ` (outdated, latest: <latest>)` when `version` ranks below `latest`.
pub fn outdated_suffix(version: &SemVer, latest: &SemVer) -> (r: Option<String>)
    ensures
        r.deep_view() == outdated_note(version@, latest@),
        version@ == latest@ ==> r is None,
        prerelease_of(version@, latest@) ==> r.deep_view() == Some(
            " (outdated, latest: "@ + version_text(latest@) + seq![')'],
        ),
        prerelease_of(latest@, version@) ==> r is None,
{
    if version.less_than(latest) {
        let mut out = String::from_str(" (outdated, latest: ");
        let text = latest.render();
        out.append(text.as_str());
        out.push(')');
        assert(out@ =~= " (outdated, latest: "@ + version_text(latest@) + seq![')']);
        Some(out)
    } else {
        None
    }
}

/// A line that shows an installed version and, where it is behind, the
/// latest one.
pub struct VersionBlock {
    pub section: bool,
    pub key: &'static str,
    pub version: Option<String>,
    pub target_version: Option<String>,
}

/// Whether the versions a `VersionBlock` compares can be parsed: both are
/// compared only when both are present.
pub open spec fn comparable(version: Option<Seq<char>>, target: Option<Seq<char>>) -> bool {
    (version is Some && target is Some) ==> (semver_parse(version->0) is Some && semver_parse(
        target->0,
    ) is Some)
}

/// The text a `VersionBlock` prints.
pub open spec fn version_block_text(
    section: bool,
    key: Seq<char>,
    version: Option<Seq<char>>,
    target: Option<Seq<char>>,
) -> Seq<char> {
    section_break(section) + key + (match version {
        Some(v) => seq![' ', '-', ' '] + v,
        None => " - Not installed"@,
    }) + (if version is Some && target is Some {
        opt_text(outdated_note(semver_parse(version->0)->0, semver_parse(target->0)->0))
    } else {
        Seq::empty()
    }) + seq!['\n']
}

impl VersionBlock {
    /// A line for `key` with the installed version, if any.
    pub fn new(key: &'static str, version: Option<String>) -> (r: VersionBlock)
        ensures
            !r.section,
            r.key@ == key@,
            r.version.deep_view() == version.deep_view(),
            r.target_version is None,
    {
        VersionBlock { section: false, key, version, target_version: None }
    }

    /// The same line with the latest version to compare against.
    pub fn target_version(self, version: Option<String>) -> (r: VersionBlock)
        ensures
            r.section == self.section,
            r.key@ == self.key@,
            r.version.deep_view() == self.version.deep_view(),
            r.target_version.deep_view() == version.deep_view(),
    {
        let mut b = self;
        b.target_version = version;
        b
    }

    /// The text the line prints, trailing line feed included. When both
    /// versions are present they must parse.
    pub fn display(&self) -> (r: String)
        requires
            comparable(self.version.deep_view(), self.target_version.deep_view()),
        ensures
            r@ == version_block_text(
                self.section,
                self.key@,
                self.version.deep_view(),
                self.target_version.deep_view(),
            ),
            self.version.deep_view() == self.target_version.deep_view() ==> r@ == version_block_text(
                self.section,
                self.key@,
                self.version.deep_view(),
                None,
            ),
            (self.version is Some && self.target_version is Some && prerelease_of(
                semver_parse(self.version->0@)->0,
                semver_parse(self.target_version->0@)->0,
            )) ==> r@ == section_break(self.section) + self.key@ + seq![' ', '-', ' ']
                + self.version->0@ + " (outdated, latest: "@ + self.target_version->0@ + seq![
                ')',
                '\n',
            ],
            (self.version is Some && self.target_version is Some && prerelease_of(
                semver_parse(self.target_version->0@)->0,
                semver_parse(self.version->0@)->0,
            )) ==> r@ == version_block_text(
                self.section,
                self.key@,
                self.version.deep_view(),
                None,
            ),
    {
        let mut out = String::new();
        if self.section {
            out.push('\n');
        }
        out.append(self.key);
        match &self.version {
            Some(v) => {
                out.push(' ');
                out.push('-');
                out.push(' ');
                out.append(v.as_str());
            },
            None => {
                out.append(" - Not installed");
            },
        }
        let ghost before = out@;
        match (&self.version, &self.target_version) {
            (Some(v), Some(t)) => {
                let version = SemVer::parse(v.as_str());
                let target = SemVer::parse(t.as_str());
                match (version, target) {
                    (Some(version), Some(target)) => {
                        assert(version_text(target@) == t@);
                        match outdated_suffix(&version, &target) {
                            Some(s) => {
                                out.append(s.as_str());
                            },
                            None => {},
                        }
                    },
                    _ => {
                        assert(false);
                    },
                }
            },
            _ => {},
        }
        out.push('\n');
        assert(out@ =~= version_block_text(
            self.section,
            self.key@,
            self.version.deep_view(),
            self.target_version.deep_view(),
        ));
        assert(self.version.deep_view() == self.target_version.deep_view() ==> out@ =~= version_block_text(
            self.section,
            self.key@,
            self.version.deep_view(),
            None,
        ));
        out
    }

    /// The text the line prints, or `None` where a version to compare does
    /// not parse (where `display` may not be called).
    pub fn try_display(&self) -> (r: Option<String>)
        ensures
            comparable(self.version.deep_view(), self.target_version.deep_view()) ==> (r matches Some(
                s,
            ) && s@ == version_block_text(
                self.section,
                self.key@,
                self.version.deep_view(),
                self.target_version.deep_view(),
            )),
            !comparable(self.version.deep_view(), self.target_version.deep_view()) ==> r is None,
    {
        match (&self.version, &self.target_version) {
            (Some(v), Some(t)) => {
                let version = SemVer::parse(v.as_str());
                let target = SemVer::parse(t.as_str());
                if version.is_none() || target.is_none() {
                    return None;
                }
            },
            _ => {},
        }
        Some(self.display())
    }
}

} // verus!
