//! What the report makes of the output of the programs it runs.
use vstd::prelude::*;
use crate::text::{
    without_char,
    remove_char,
    lemma_without_char_absent,
    lemma_without_char_noop,
    lemma_without_char_keeps_absent,
};
use crate::pattern::{Pattern, regex_captures, all_groups_of, all_groups, build_tools_pattern};

verus! {

/// The outcome of running a program: whether it exited successfully, and
/// what it wrote to standard output.
pub struct CommandOutput {
    pub success: bool,
    pub stdout: String,
}

/// `s` without line feeds and carriage returns.
pub open spec fn one_line(s: Seq<char>) -> Seq<char> {
    without_char(without_char(s, '\n'), '\r')
}

/// A version read from a program's output holds no line break, and reading
/// it again changes nothing.
pub proof fn law_version_output_is_one_line(s: Seq<char>)
    ensures
        !one_line(s).contains('\n'),
        !one_line(s).contains('\r'),
        one_line(one_line(s)) == one_line(s),
{
    lemma_without_char_absent(s, '\n');
    lemma_without_char_keeps_absent(without_char(s, '\n'), '\r', '\n');
    lemma_without_char_absent(without_char(s, '\n'), '\r');
    let t = one_line(s);
    lemma_without_char_noop(t, '\n');
    lemma_without_char_noop(t, '\r');
}

/// What a `--version` style query reports: its output on one line, when the
/// program succeeded.
pub open spec fn reported_version(success: bool, stdout: Seq<char>) -> Option<Seq<char>> {
    if success {
        Some(one_line(stdout))
    } else {
        None
    }
}

/// The arguments of a version query: the program, its own arguments, then
/// `--version`.
pub fn version_query(command: &str, args: &Vec<String>) -> (r: Vec<String>)
    ensures
        r.deep_view() == seq![command@] + args.deep_view() + seq!["--version"@],
{
    let mut out: Vec<String> = Vec::new();
    out.push(String::from_str(command));
    let mut i: usize = 0;
    while i < args.len()
        invariant
            i <= args@.len(),
            out.deep_view() == seq![command@] + args.deep_view().take(i as int),
        decreases args@.len() - i,
    {
        let ghost prev = out.deep_view();
        let a = args[i].clone();
        out.push(a);
        assert(out.deep_view() =~= prev.push(a@));
        assert(args.deep_view().take(i + 1) =~= args.deep_view().take(i as int).push(
            args@[i as int]@,
        ));
        assert(out.deep_view() =~= seq![command@] + args.deep_view().take(i + 1));
        i = i + 1;
    }
    out.push(String::from_str("--version"));
    assert(args.deep_view().take(args@.len() as int) =~= args.deep_view());
    assert(out.deep_view() =~= seq![command@] + args.deep_view() + seq!["--version"@]);
    out
}

/// The version a program reported, as `get_version` reads it from the
/// program's output.
pub fn get_version(output: &CommandOutput) -> (r: Option<String>)
    ensures
        r.deep_view() == reported_version(output.success, output.stdout@),
{
    if output.success {
        let no_lf = remove_char(output.stdout.as_str(), '\n');
        Some(remove_char(no_lf.as_str(), '\r'))
    } else {
        None
    }
}

/// The arguments that ask rustup for the active toolchain.
pub fn active_toolchain_query() -> (r: Vec<String>)
    ensures
        r.deep_view() == seq!["rustup"@, "show"@, "active-toolchain"@],
{
    let mut out: Vec<String> = Vec::new();
    out.push(String::from_str("rustup"));
    out.push(String::from_str("show"));
    out.push(String::from_str("active-toolchain"));
    assert(out.deep_view() =~= seq!["rustup"@, "show"@, "active-toolchain"@]);
    out
}

/// The active toolchain, as rustup reported it.
pub fn get_active_rust_toolchain(output: &CommandOutput) -> (r: Option<String>)
    ensures
        r.deep_view() == reported_version(output.success, output.stdout@),
{
    get_version(output)
}

/// How many registry locations are probed for WebView2.
pub open spec fn webview2_locations() -> nat {
    3
}

/// The PowerShell command that reads the WebView2 version from registry
/// location `attempt`: machine-wide 64-bit, machine-wide 32-bit, then the
/// user's.
pub fn webview2_query(attempt: usize) -> (r: &'static str)
    requires
        attempt < webview2_locations(),
    ensures
        attempt == 0 ==> r@ == "Get-ItemProperty -Path 'HKLM:\\SOFTWARE\\WOW6432Node\\Microsoft\\EdgeUpdate\\Clients\\{F3017226-FE2A-4295-8BDF-00C3A9A7E4C5}' | ForEach-Object {$_.pv}"@,
        attempt == 1 ==> r@ == "Get-ItemProperty -Path 'HKLM:\\SOFTWARE\\Microsoft\\EdgeUpdate\\Clients\\{F3017226-FE2A-4295-8BDF-00C3A9A7E4C5}' | ForEach-Object {$_.pv}"@,
        attempt == 2 ==> r@ == "Get-ItemProperty -Path 'HKCU:\\SOFTWARE\\Microsoft\\EdgeUpdate\\Clients\\{F3017226-FE2A-4295-8BDF-00C3A9A7E4C5}' | ForEach-Object {$_.pv}"@,
{
    if attempt == 0 {
        "Get-ItemProperty -Path 'HKLM:\\SOFTWARE\\WOW6432Node\\Microsoft\\EdgeUpdate\\Clients\\{F3017226-FE2A-4295-8BDF-00C3A9A7E4C5}' | ForEach-Object {$_.pv}"
    } else if attempt == 1 {
        "Get-ItemProperty -Path 'HKLM:\\SOFTWARE\\Microsoft\\EdgeUpdate\\Clients\\{F3017226-FE2A-4295-8BDF-00C3A9A7E4C5}' | ForEach-Object {$_.pv}"
    } else {
        "Get-ItemProperty -Path 'HKCU:\\SOFTWARE\\Microsoft\\EdgeUpdate\\Clients\\{F3017226-FE2A-4295-8BDF-00C3A9A7E4C5}' | ForEach-Object {$_.pv}"
    }
}

/// What to do after a WebView2 probe.
pub enum Webview2Step {
    /// Probe the registry location with this number next.
    Probe(usize),
    /// The search is over, with the version found, if any.
    Done(Option<String>),
}

/// The WebView2 search: the first location whose query succeeds gives the
/// version (its output without line feeds); when every location fails there
/// is none.
pub fn webview2_version(attempt: usize, output: &CommandOutput) -> (r: Webview2Step)
    requires
        attempt < webview2_locations(),
    ensures
        output.success ==> (r matches Webview2Step::Done(Some(v)) && v@ == without_char(
            output.stdout@,
            '\n',
        )),
        !output.success && attempt + 1 < webview2_locations() ==> r == Webview2Step::Probe(
            (attempt + 1) as usize,
        ),
        !output.success && attempt + 1 == webview2_locations() ==> r matches Webview2Step::Done(
            None,
        ),
{
    if output.success {
        Webview2Step::Done(Some(remove_char(output.stdout.as_str(), '\n')))
    } else if attempt + 1 < 3 {
        Webview2Step::Probe(attempt + 1)
    } else {
        Webview2Step::Done(None)
    }
}

/// The Build Tools versions found in the output, in order of appearance;
/// `None` when the query failed or found none.
pub open spec fn build_tools_found(success: bool, caps: Seq<Seq<Option<Seq<char>>>>) -> Option<
    Seq<Seq<char>>,
> {
    if !success || caps.len() == 0 {
        None
    } else {
        Some(all_groups_of(caps, 1))
    }
}

/// The installed Visual Studio Build Tools versions, read from the output of
/// `Get-VSSetupInstance`.
pub fn build_tools_version(output: &CommandOutput) -> (r: Option<Vec<String>>)
    ensures
        r.deep_view() == build_tools_found(
            output.success,
            regex_captures(build_tools_pattern(), output.stdout@),
        ),
{
    if !output.success {
        return None;
    }
    let pattern = match Pattern::new("Visual Studio Build Tools (?P<version>\\d+)") {
        Some(p) => p,
        None => {
            assert(false);
            return None;
        },
    };
    let caps = pattern.captures(output.stdout.as_str());
    let versions = all_groups(&caps, 1);
    assert(versions.deep_view().len() == caps.deep_view().len());
    if versions.len() == 0 {
        None
    } else {
        Some(versions)
    }
}

} // verus!
