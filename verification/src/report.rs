//! The pieces of the report that are worked out from what the machine and
//! the project answered.
use vstd::prelude::*;
use crate::text::{
    join,
    join_seq,
    lex_less,
    str_less,
    concat_strs,
    replace_all,
    occurs_in,
    lemma_replace_absent,
    replace_str,
    after_first_char,
    skip_first_char,
    split_on,
    second_field,
};
use crate::blocks::{InfoBlock, VersionBlock};

verus! {

/// The options of the `info` command (it takes none).
pub struct Options;

/// The text of the operating-system line: `<type>, version <version> <bitness>`.
pub open spec fn os_text(os_type: Seq<char>, version: Seq<char>, bitness: Seq<char>) -> Seq<char> {
    os_type + ", version "@ + version + seq![' '] + bitness
}

/// The operating-system line, which opens the report. The arguments are the
/// type and version as `os_info` prints them and its bitness as `{:?}` does.
pub fn os_block(os_type: &str, version: &str, bitness: &str) -> (r: InfoBlock)
    ensures
        r.section,
        r.key@ == "Operating System"@,
        r.value.deep_view() == Some(os_text(os_type@, version@, bitness@)),
        r.suffix is None,
{
    let mut text = concat_strs(os_type, ", version ");
    text.append(version);
    text.push(' ');
    text.append(bitness);
    InfoBlock { section: true, key: "Operating System", value: Some(text), suffix: None }
}

/// The note for Build Tools older than 2019.
pub open spec fn required_note() -> Seq<char> {
    "(>= 2019 required)"@
}

/// The note for several Build Tools installed at once.
pub open spec fn multiple_note() -> Seq<char> {
    "(multiple versions might conflict; keep only 2019 if build errors occur)"@
}

/// What the report says of the installed Build Tools versions: a single
/// version alone, with the requirement when it is older than 2019; several
/// versions joined with `, `, with a warning, and the requirement too when
/// 2019 is not among them.
pub open spec fn build_tools_text(v: Seq<Seq<char>>) -> Seq<char> {
    let joined = join_seq(v, ", "@);
    if v.len() == 1 && lex_less(v[0], "2019"@) {
        v[0] + seq![' '] + required_note()
    } else if v.len() == 1 {
        v[0]
    } else if v.contains("2019"@) {
        joined + seq![' '] + multiple_note()
    } else {
        joined + seq![' '] + required_note() + seq![' '] + multiple_note()
    }
}

/// With two or more versions, the summary is the versions joined with `, `
/// and then the conflict warning; the requirement note comes before the
/// warning exactly when no version, at any position, is 2019.
pub proof fn law_build_tools_requirement_note(v: Seq<Seq<char>>)
    requires
        v.len() >= 2,
    ensures
        (exists|i: int| 0 <= i < v.len() && v[i] == "2019"@) ==> build_tools_text(v) == join_seq(
            v,
            ", "@,
        ) + seq![' '] + "(multiple versions might conflict; keep only 2019 if build errors occur)"@,
        !(exists|i: int| 0 <= i < v.len() && v[i] == "2019"@) ==> build_tools_text(v) == join_seq(
            v,
            ", "@,
        ) + seq![' '] + "(>= 2019 required)"@ + seq![' ']
            + "(multiple versions might conflict; keep only 2019 if build errors occur)"@,
{
}

/// Whether `v` contains `s`.
fn contains_string(v: &Vec<String>, s: &String) -> (r: bool)
    ensures
        r == v.deep_view().contains(s@),
{
    let mut i: usize = 0;
    while i < v.len()
        invariant
            i <= v@.len(),
            forall|j: int| 0 <= j < i ==> v.deep_view()[j] != s@,
        decreases v@.len() - i,
    {
        assert(v.deep_view()[i as int] == v@[i as int]@);
        if v[i] == *s {
            assert(v.deep_view()[i as int] == s@);
            return true;
        }
        i = i + 1;
    }
    false
}

/// Sums up the installed Build Tools versions.
pub fn build_tools_summary(v: &Vec<String>) -> (r: String)
    ensures
        r@ == build_tools_text(v.deep_view()),
{
    let y2019 = String::from_str("2019");
    if v.len() == 1 {
        assert(v.deep_view()[0] == v@[0]@);
        if str_less(v[0].as_str(), "2019") {
            let mut out = v[0].clone();
            out.push(' ');
            out.append("(>= 2019 required)");
            return out;
        } else {
            return v[0].clone();
        }
    }
    let mut out = join(v, ", ");
    out.push(' ');
    if contains_string(v, &y2019) {
        out.append("(multiple versions might conflict; keep only 2019 if build errors occur)");
    } else {
        out.append("(>= 2019 required)");
        out.push(' ');
        out.append("(multiple versions might conflict; keep only 2019 if build errors occur)");
    }
    out
}

/// The Build Tools entry of the report: the summary of the versions found.
pub fn build_tools_entry(found: Option<Vec<String>>) -> (r: Option<String>)
    ensures
        match found {
            Some(v) => r matches Some(s) && s@ == build_tools_text(v.deep_view()),
            None => r is None,
        },
{
    match found {
        Some(v) => Some(build_tools_summary(&v)),
        None => None,
    }
}

/// The Node.js line: the installed version without its leading `v`, against
/// the required version without its `>= `.
pub fn node_version_block(node_version: &str, required: &str) -> (r: VersionBlock)
    ensures
        !r.section,
        r.key@ == "  Node.js"@,
        r.version.deep_view() == Some(after_first_char(node_version@)),
        r.target_version.deep_view() == Some(replace_all(required@, ">= "@, Seq::empty())),
{
    proof {
        reveal_strlit(">= ");
        reveal_strlit("");
        assert(""@ =~= Seq::<char>::empty());
    }
    let version = skip_first_char(node_version);
    let target = replace_str(required, ">= ", "");
    VersionBlock::new("  Node.js", Some(version)).target_version(Some(target))
}

/// The version a Rust tool printed: the second word of `<tool> <version> ...`.
/// A printed line must hold a space.
pub fn tool_version(output: Option<String>) -> (r: Option<String>)
    requires
        output matches Some(v) ==> v@.contains(' '),
    ensures
        match output {
            Some(v) => r matches Some(w) && w@ == split_on(v@, ' ')[1],
            None => r is None,
        },
{
    match output {
        Some(v) => Some(second_field(v.as_str(), ' ')),
        None => None,
    }
}

/// The configuration lines of the app: build type, CSP, dist dir and dev
/// path. `csp` is `None` without a security section, `Some(None)` when it
/// sets no CSP.
pub fn config_blocks(
    bundle_active: bool,
    csp: Option<Option<String>>,
    dist_dir: String,
    dev_path: String,
) -> (r: Vec<InfoBlock>)
    ensures
        r@.len() == 4,
        r@[0].key@ == "  build-type"@ && r@[0].value.deep_view() == Some(
            if bundle_active {
                "bundle"@
            } else {
                "build"@
            },
        ),
        r@[1].key@ == "  CSP"@ && r@[1].value.deep_view() == Some(
            match csp {
                Some(Some(c)) => c@,
                _ => "unset"@,
            },
        ),
        r@[2].key@ == "  distDir"@ && r@[2].value.deep_view() == Some(dist_dir@),
        r@[3].key@ == "  devPath"@ && r@[3].value.deep_view() == Some(dev_path@),
        forall|i: int| 0 <= i < 4 ==> !(#[trigger] r@[i]).section && r@[i].suffix is None,
{
    let build_type = if bundle_active {
        String::from_str("bundle")
    } else {
        String::from_str("build")
    };
    let csp_text = match csp {
        Some(Some(c)) => c,
        _ => String::from_str("unset"),
    };
    let mut out: Vec<InfoBlock> = Vec::new();
    out.push(InfoBlock::new("  build-type").value(Some(build_type)));
    out.push(InfoBlock::new("  CSP").value(Some(csp_text)));
    out.push(InfoBlock::new("  distDir").value(Some(dist_dir)));
    out.push(InfoBlock::new("  devPath").value(Some(dev_path)));
    out
}

/// The framework and bundler lines, for those that were recognised.
pub fn framework_blocks(framework: Option<String>, bundler: Option<String>) -> (r: Vec<InfoBlock>)
    ensures
        r@.len() == (if framework is Some { 1int } else { 0 }) + (if bundler is Some { 1int } else { 0 }),
        framework matches Some(f) ==> r@[0].key@ == "  framework"@ && r@[0].value.deep_view()
            == Some(f@),
        bundler matches Some(b) ==> r@.last().key@ == "  bundler"@ && r@.last().value.deep_view()
            == Some(b@),
        forall|i: int| 0 <= i < r@.len() ==> !(#[trigger] r@[i]).section && r@[i].suffix is None,
{
    let mut out: Vec<InfoBlock> = Vec::new();
    match framework {
        Some(f) => out.push(InfoBlock::new("  framework").value(Some(f))),
        None => {},
    }
    match bundler {
        Some(b) => out.push(InfoBlock::new("  bundler").value(Some(b))),
        None => {},
    }
    out
}

/// The line listing a directory of the app: `/<name>`.
pub fn directory_line(name: &str) -> (r: String)
    ensures
        r@ == seq!['/'] + name@ + seq!['\n'],
{
    let mut out = String::new();
    out.push('/');
    out.append(name);
    out.push('\n');
    out
}

/// The docs.rs page of a crate, which redirects to its latest version.
pub open spec fn docs_rs_url_of(name: Seq<char>) -> Seq<char> {
    "https://docs.rs/crate/"@ + name + seq!['/']
}

/// The docs.rs page of a crate.
pub fn docs_rs_url(name: &str) -> (r: String)
    ensures
        r@ == docs_rs_url_of(name@),
{
    let mut out = concat_strs("https://docs.rs/crate/", name);
    out.push('/');
    out
}

/// A redirect to the crate's page followed by a version gives that version,
/// unless the page address occurs in the version itself.
pub proof fn law_redirect_gives_version(name: Seq<char>, version: Seq<char>)
    requires
        !occurs_in(version, docs_rs_url_of(name)),
    ensures
        replace_all(docs_rs_url_of(name) + version, docs_rs_url_of(name), Seq::empty()) == version,
{
    let url = docs_rs_url_of(name);
    let s = url + version;
    reveal_strlit("https://docs.rs/crate/");
    assert(url.len() > 0);
    assert(s.take(url.len() as int) =~= url);
    assert(s.skip(url.len() as int) =~= version);
    lemma_replace_absent(version, url, Seq::empty());
    assert(Seq::<char>::empty() + version =~= version);
}

/// The latest version docs.rs names for a crate: a redirect (status 302)
/// to a location gives that location with the page address taken out; any
/// other answer gives none.
pub fn latest_version_from_redirect(name: &str, status: u16, location: Option<String>) -> (r: Option<String>)
    ensures
        (status == 302 && location is Some) ==> (r matches Some(v) && v@ == replace_all(
            location->0@,
            docs_rs_url_of(name@),
            Seq::empty(),
        )),
        !(status == 302 && location is Some) ==> r is None,
{
    if status == 302 {
        match location {
            Some(loc) => {
                let url = docs_rs_url(name);
                proof {
                    reveal_strlit("https://docs.rs/crate/");
                    reveal_strlit("");
                    assert(""@ =~= Seq::<char>::empty());
                }
                Some(replace_str(loc.as_str(), url.as_str(), ""))
            },
            None => None,
        }
    } else {
        None
    }
}

} // verus!
