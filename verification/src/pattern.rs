//! Regular expressions come from the `regex` crate; picking the wanted group
//! out of what it matched is done here.
use vstd::prelude::*;

verus! {

#[verifier::external_type_specification]
#[verifier::external_body]
pub struct ExRegex(regex::Regex);

/// A regular expression that `regex::Regex::new` accepted, with its source.
pub struct Pattern {
    source: String,
    compiled: regex::Regex,
}

impl View for Pattern {
    type V = Seq<char>;

    closed spec fn view(&self) -> Seq<char> {
        self.source@
    }
}

/// Whether `regex::Regex::new` accepts a pattern.
pub uninterp spec fn regex_accepts(pattern: Seq<char>) -> bool;

/// What `captures_iter` yields for a pattern on a haystack: for each match,
/// from the left, the text of each group (group 0 is the whole match), or
/// `None` for a group that took no part in it.
pub uninterp spec fn regex_captures(pattern: Seq<char>, haystack: Seq<char>) -> Seq<
    Seq<Option<Seq<char>>>,
>;

/// The pattern that finds `@version` in a package manager's listing; group 1
/// is the version.
pub open spec fn package_version_pattern() -> Seq<char> {
    "@([\\da-zA-Z\\-\\.]+)"@
}

/// The pattern that finds Build Tools versions in `Get-VSSetupInstance`
/// output; group 1 is the version.
pub open spec fn build_tools_pattern() -> Seq<char> {
    "Visual Studio Build Tools (?P<version>\\d+)"@
}

/// The two fixed patterns of the report.
pub open spec fn is_report_pattern(pattern: Seq<char>) -> bool {
    pattern == package_version_pattern() || pattern == build_tools_pattern()
}

/// Calls `regex::Regex::new`; the contract says that it succeeds exactly on
/// the patterns `regex_accepts` holds of, keeps the source, and that the two
/// fixed patterns of the report are well-formed (a literal, then one
/// capturing group of a repeated class), so `regex` accepts them.
#[verifier::external_body]
fn regex_new_call(pattern: &str) -> (r: Option<Pattern>)
    ensures
        r is Some <==> regex_accepts(pattern@),
        r matches Some(p) ==> p@ == pattern@,
        is_report_pattern(pattern@) ==> r is Some,
{
    match regex::Regex::new(pattern) {
        Ok(compiled) => Some(Pattern { source: pattern.to_string(), compiled }),
        Err(_) => None,
    }
}

/// Calls `captures_iter` and hands out each match's groups as strings. The
/// contract names the result `regex_captures` and states what the crate
/// documents of it: group 0 of every match is present, and a group that is
/// neither optional nor in an alternative takes part in every match, as
/// group 1 of each fixed pattern of the report does.
#[verifier::external_body]
fn captures_call(p: &Pattern, haystack: &str) -> (r: Vec<Vec<Option<String>>>)
    ensures
        r.deep_view() == regex_captures(p@, haystack@),
        forall|i: int|
            0 <= i < r.deep_view().len() ==> #[trigger] r.deep_view()[i].len() >= 1
                && r.deep_view()[i][0] is Some,
        is_report_pattern(p@) ==> group_in_every_match(r.deep_view(), 1),
{
    p.compiled.captures_iter(haystack).map(
        |caps| caps.iter().map(|m| m.map(|m| m.as_str().to_string())).collect(),
    ).collect()
}

impl Pattern {
    /// Compiles a pattern, `None` where `regex::Regex::new` refuses it.
    pub fn new(pattern: &str) -> (r: Option<Pattern>)
        ensures
            r is Some <==> regex_accepts(pattern@),
            r matches Some(p) ==> p@ == pattern@,
            is_report_pattern(pattern@) ==> r is Some,
    {
        regex_new_call(pattern)
    }

    /// Every match in `haystack`, each as the list of its groups.
    pub fn captures(&self, haystack: &str) -> (r: Vec<Vec<Option<String>>>)
        ensures
            r.deep_view() == regex_captures(self@, haystack@),
            is_report_pattern(self@) ==> group_in_every_match(r.deep_view(), 1),
    {
        captures_call(self, haystack)
    }
}

/// Group `group` of the last match, `None` when there is no match or that
/// group took no part in it.
pub open spec fn last_group_of(caps: Seq<Seq<Option<Seq<char>>>>, group: int) -> Option<Seq<char>> {
    if caps.len() == 0 {
        None
    } else if 0 <= group < caps.last().len() {
        caps.last()[group]
    } else {
        None
    }
}

/// Group `group` of the last match, as `captures_iter(..).last()` followed by
/// `get(group)` gives it.
pub fn last_group(caps: &Vec<Vec<Option<String>>>, group: usize) -> (r: Option<String>)
    ensures
        r.deep_view() == last_group_of(caps.deep_view(), group as int),
{
    if caps.len() == 0 {
        return None;
    }
    let last = &caps[caps.len() - 1];
    assert(caps.deep_view().last() == last.deep_view());
    if group < last.len() {
        match &last[group] {
            Some(s) => {
                assert(last.deep_view()[group as int] == Some(s@));
                Some(s.clone())
            },
            None => None,
        }
    } else {
        None
    }
}

/// Group `group` of every match, in order; every match must have it.
pub open spec fn all_groups_of(caps: Seq<Seq<Option<Seq<char>>>>, group: int) -> Seq<Seq<char>> {
    caps.map_values(|c: Seq<Option<Seq<char>>>| c[group]->0)
}

/// Whether group `group` took part in every match.
pub open spec fn group_in_every_match(caps: Seq<Seq<Option<Seq<char>>>>, group: int) -> bool {
    forall|i: int| 0 <= i < caps.len() ==> 0 <= group < #[trigger] caps[i].len() && caps[i][group] is Some
}

/// Group `group` of every match, as indexing each match by it gives; every
/// match must have that group.
pub fn all_groups(caps: &Vec<Vec<Option<String>>>, group: usize) -> (r: Vec<String>)
    requires
        group_in_every_match(caps.deep_view(), group as int),
    ensures
        r.deep_view() == all_groups_of(caps.deep_view(), group as int),
{
    let mut out: Vec<String> = Vec::new();
    let mut i: usize = 0;
    while i < caps.len()
        invariant
            i <= caps@.len(),
            group_in_every_match(caps.deep_view(), group as int),
            out.deep_view() == all_groups_of(caps.deep_view().take(i as int), group as int),
        decreases caps@.len() - i,
    {
        assert(caps.deep_view()[i as int] == caps@[i as int].deep_view());
        assert(caps.deep_view()[i as int].len() > group);
        match &caps[i][group] {
            Some(s) => {
                assert(caps.deep_view()[i as int][group as int] == Some(s@));
                out.push(s.clone());
            },
            None => {
                assert(false);
            },
        }
        assert(all_groups_of(caps.deep_view().take(i + 1), group as int) =~= all_groups_of(
            caps.deep_view().take(i as int),
            group as int,
        ).push(caps.deep_view()[i as int][group as int]->0));
        i = i + 1;
    }
    assert(caps.deep_view().take(caps@.len() as int) =~= caps.deep_view());
    out
}

} // verus!
