//! Which JavaScript package manager a project uses, and how to ask it about
//! a package.
use vstd::prelude::*;
use crate::text::{join, join_seq, without_char, remove_char};
use crate::pattern::{Pattern, regex_captures, last_group_of, last_group, package_version_pattern};
use crate::probe::CommandOutput;

verus! {

/// A JavaScript package manager.
#[derive(Clone, Copy, PartialEq, Eq, Structural, Debug)]
pub enum PackageManager {
    Npm,
    Pnpm,
    Yarn,
}

/// Why the report cannot go on.
#[derive(Debug)]
pub enum InfoError {
    /// Lock files of more than one package manager were found; the names of
    /// those managers, in the order npm, pnpm, yarn.
    MultiplePackageManagers(Vec<String>),
}

/// The text shown for the error "more than one package manager".
pub open spec fn multiple_managers_message(found: Seq<Seq<char>>) -> Seq<char> {
    "only one package mangager should be used, but found "@ + join_seq(found, " and "@)
        + "\nplease remove unused package manager lock files"@
}

impl InfoError {
    /// The message the error is reported with.
    pub fn message(&self) -> (r: String)
        ensures
            match self {
                InfoError::MultiplePackageManagers(found) => r@ == multiple_managers_message(
                    found.deep_view(),
                ),
            },
    {
        match self {
            InfoError::MultiplePackageManagers(found) => {
                let mut out = String::from_str(
                    "only one package mangager should be used, but found ",
                );
                let names = join(found, " and ");
                out.append(names.as_str());
                out.append("\nplease remove unused package manager lock files");
                out
            },
        }
    }
}

/// The package manager chosen, with the warning to show when no lock file
/// was found.
pub struct PackageManagerChoice {
    pub manager: PackageManager,
    pub warning: Option<String>,
}

/// The warning shown when no lock file is found.
pub open spec fn no_lock_file_warning() -> Seq<char> {
    "WARNING: no lock files found, defaulting to npm"@
}

/// The lock file names that point at npm, pnpm and yarn.
pub open spec fn npm_lock() -> Seq<char> {
    "package-lock.json"@
}

pub open spec fn pnpm_lock() -> Seq<char> {
    "pnpm-lock.yaml"@
}

pub open spec fn yarn_lock() -> Seq<char> {
    "yarn.lock"@
}

/// The managers whose lock files occur among `names`, in the order npm,
/// pnpm, yarn.
pub open spec fn managers_found(names: Seq<Seq<char>>) -> Seq<Seq<char>> {
    (if names.contains(npm_lock()) { seq!["npm"@] } else { Seq::empty() }) + (if names.contains(
        pnpm_lock(),
    ) {
        seq!["pnpm"@]
    } else {
        Seq::empty()
    }) + (if names.contains(yarn_lock()) { seq!["yarn"@] } else { Seq::empty() })
}

/// The manager a single kind of lock file points at (npm when there is none).
pub open spec fn manager_for(names: Seq<Seq<char>>) -> PackageManager {
    if names.contains(npm_lock()) {
        PackageManager::Npm
    } else if names.contains(pnpm_lock()) {
        PackageManager::Pnpm
    } else if names.contains(yarn_lock()) {
        PackageManager::Yarn
    } else {
        PackageManager::Npm
    }
}

/// The name the report gives a package manager.
pub open spec fn manager_name(pm: PackageManager) -> Seq<char> {
    match pm {
        PackageManager::Npm => "npm"@,
        PackageManager::Pnpm => "pnpm"@,
        PackageManager::Yarn => "yarn"@,
    }
}

/// Which package manager is chosen depends only on which file names occur,
/// not on their order or on repeated names.
pub proof fn law_choice_ignores_order(a: Seq<Seq<char>>, b: Seq<Seq<char>>)
    requires
        a.to_set() == b.to_set(),
    ensures
        managers_found(a) == managers_found(b),
        manager_for(a) == manager_for(b),
{
    assert(a.contains(npm_lock()) == a.to_set().contains(npm_lock()));
    assert(b.contains(npm_lock()) == b.to_set().contains(npm_lock()));
    assert(a.contains(pnpm_lock()) == a.to_set().contains(pnpm_lock()));
    assert(b.contains(pnpm_lock()) == b.to_set().contains(pnpm_lock()));
    assert(a.contains(yarn_lock()) == a.to_set().contains(yarn_lock()));
    assert(b.contains(yarn_lock()) == b.to_set().contains(yarn_lock()));
}

/// The rank of a manager's name in the list of managers found.
pub open spec fn manager_rank(name: Seq<char>) -> int {
    if name == "npm"@ {
        0
    } else if name == "pnpm"@ {
        1
    } else {
        2
    }
}

/// The managers found are exactly those whose lock file is among the names:
/// npm for `package-lock.json`, pnpm for `pnpm-lock.yaml`, yarn for
/// `yarn.lock`, each once, in the order npm, pnpm, yarn. So lock files of two
/// different managers always make the choice fail.
pub proof fn law_managers_found_are_the_lock_files(names: Seq<Seq<char>>)
    ensures
        managers_found(names).contains("npm"@) <==> names.contains("package-lock.json"@),
        managers_found(names).contains("pnpm"@) <==> names.contains("pnpm-lock.yaml"@),
        managers_found(names).contains("yarn"@) <==> names.contains("yarn.lock"@),
        managers_found(names).len() == (if names.contains("package-lock.json"@) { 1int } else { 0 })
            + (if names.contains("pnpm-lock.yaml"@) { 1int } else { 0 }) + (if names.contains(
            "yarn.lock"@,
        ) {
            1int
        } else {
            0
        }),
        forall|i: int, j: int|
            0 <= i < j < managers_found(names).len() ==> manager_rank(
                #[trigger] managers_found(names)[i],
            ) < manager_rank(#[trigger] managers_found(names)[j]),
        (names.contains("package-lock.json"@) && names.contains("pnpm-lock.yaml"@))
            || (names.contains("package-lock.json"@) && names.contains("yarn.lock"@))
            || (names.contains("pnpm-lock.yaml"@) && names.contains("yarn.lock"@)) ==> managers_found(
            names,
        ).len() >= 2,
{
    reveal_strlit("npm");
    reveal_strlit("pnpm");
    reveal_strlit("yarn");
    let f = managers_found(names);
    let a = if names.contains(npm_lock()) { seq!["npm"@] } else { Seq::<Seq<char>>::empty() };
    let b = if names.contains(pnpm_lock()) { seq!["pnpm"@] } else { Seq::<Seq<char>>::empty() };
    let c = if names.contains(yarn_lock()) { seq!["yarn"@] } else { Seq::<Seq<char>>::empty() };
    assert(f == a + b + c);
    assert("npm"@ != "pnpm"@) by {
        assert("npm"@.len() != "pnpm"@.len());
    }
    assert("npm"@ != "yarn"@) by {
        assert("npm"@[0] != "yarn"@[0]);
    }
    assert("pnpm"@ != "yarn"@) by {
        assert("pnpm"@[0] != "yarn"@[0]);
    }
    assert(f.contains("npm"@) <==> a.contains("npm"@)) by {
        if f.contains("npm"@) {
            let k = choose|k: int| 0 <= k < f.len() && f[k] == "npm"@;
            if k >= a.len() {
                assert(f[k] == (b + c)[k - a.len()]);
            }
        }
        if a.contains("npm"@) {
            assert(f[0] == "npm"@);
        }
    }
    assert(f.contains("pnpm"@) <==> b.contains("pnpm"@)) by {
        if f.contains("pnpm"@) {
            let k = choose|k: int| 0 <= k < f.len() && f[k] == "pnpm"@;
            if k >= a.len() + b.len() {
                assert(f[k] == c[k - a.len() - b.len()]);
            } else if k >= a.len() {
                assert(f[k] == b[k - a.len()]);
            } else {
                assert(f[k] == a[k]);
            }
        }
        if b.contains("pnpm"@) {
            assert(f[a.len() as int] == "pnpm"@);
        }
    }
    assert(f.contains("yarn"@) <==> c.contains("yarn"@)) by {
        if f.contains("yarn"@) {
            let k = choose|k: int| 0 <= k < f.len() && f[k] == "yarn"@;
            if k >= a.len() + b.len() {
                assert(f[k] == c[k - a.len() - b.len()]);
            } else if k >= a.len() {
                assert(f[k] == b[k - a.len()]);
            } else {
                assert(f[k] == a[k]);
            }
        }
        if c.contains("yarn"@) {
            assert(f[(a.len() + b.len()) as int] == "yarn"@);
        }
    }
    assert(a.contains("npm"@) <==> names.contains(npm_lock())) by {
        if a.contains("npm"@) && !names.contains(npm_lock()) {
            assert(a.len() == 0);
        }
        if names.contains(npm_lock()) {
            assert(a[0] == "npm"@);
        }
    }
    assert(b.contains("pnpm"@) <==> names.contains(pnpm_lock())) by {
        if b.contains("pnpm"@) && !names.contains(pnpm_lock()) {
            assert(b.len() == 0);
        }
        if names.contains(pnpm_lock()) {
            assert(b[0] == "pnpm"@);
        }
    }
    assert(c.contains("yarn"@) <==> names.contains(yarn_lock())) by {
        if c.contains("yarn"@) && !names.contains(yarn_lock()) {
            assert(c.len() == 0);
        }
        if names.contains(yarn_lock()) {
            assert(c[0] == "yarn"@);
        }
    }
    assert forall|i: int, j: int| 0 <= i < j < f.len() implies manager_rank(#[trigger] f[i])
        < manager_rank(#[trigger] f[j]) by {
        assert(manager_rank("npm"@) == 0);
        assert(manager_rank("pnpm"@) == 1);
        assert(manager_rank("yarn"@) == 2);
        if i < a.len() {
            assert(f[i] == "npm"@);
        } else if i < a.len() + b.len() {
            assert(f[i] == "pnpm"@);
        } else {
            assert(f[i] == "yarn"@);
        }
        if j < a.len() {
            assert(f[j] == "npm"@);
        } else if j < a.len() + b.len() {
            assert(f[j] == "pnpm"@);
        } else {
            assert(f[j] == "yarn"@);
        }
    }
}

/// When the lock files of exactly one package manager are present, that
/// manager is chosen.
pub proof fn law_single_lock_kind_decides(names: Seq<Seq<char>>)
    requires
        managers_found(names).len() == 1,
    ensures
        manager_name(manager_for(names)) == managers_found(names)[0],
{
}

/// Picks the package manager from the file names of the app directory: the
/// one whose lock file is there; npm, with a warning, when there is none; an
/// error when lock files of several managers are there.
pub fn get_package_manager(file_names: &Vec<String>) -> (r: Result<PackageManagerChoice, InfoError>)
    ensures
        managers_found(file_names.deep_view()).len() > 1 <==> r is Err,
        r matches Err(InfoError::MultiplePackageManagers(found)) ==> found.deep_view()
            == managers_found(file_names.deep_view()),
        r matches Ok(choice) ==> choice.manager == manager_for(file_names.deep_view()),
        r matches Ok(choice) ==> (choice.warning is Some <==> managers_found(
            file_names.deep_view(),
        ).len() == 0),
        r matches Ok(choice) ==> (choice.warning matches Some(w) ==> w@ == no_lock_file_warning()),
{
    let npm_name = String::from_str("package-lock.json");
    let pnpm_name = String::from_str("pnpm-lock.yaml");
    let yarn_name = String::from_str("yarn.lock");
    let mut use_npm = false;
    let mut use_pnpm = false;
    let mut use_yarn = false;
    let ghost names = file_names.deep_view();
    let mut i: usize = 0;
    while i < file_names.len()
        invariant
            i <= names.len(),
            names == file_names.deep_view(),
            npm_name@ == npm_lock(),
            pnpm_name@ == pnpm_lock(),
            yarn_name@ == yarn_lock(),
            use_npm == names.take(i as int).contains(npm_lock()),
            use_pnpm == names.take(i as int).contains(pnpm_lock()),
            use_yarn == names.take(i as int).contains(yarn_lock()),
        decreases names.len() - i,
    {
        let name = &file_names[i];
        assert(names[i as int] == name@);
        assert(names.take(i + 1) =~= names.take(i as int).push(name@));
        if *name == npm_name {
            use_npm = true;
        } else if *name == pnpm_name {
            use_pnpm = true;
        } else if *name == yarn_name {
            use_yarn = true;
        }
        proof {
            let t = names.take(i as int);
            let t1 = names.take(i + 1);
            assert(t1.last() == name@);
            assert(t1.contains(npm_lock()) == (t.contains(npm_lock()) || name@ == npm_lock())) by {
                if t1.contains(npm_lock()) && name@ != npm_lock() {
                    let k = choose|k: int| 0 <= k < t1.len() && t1[k] == npm_lock();
                    assert(t[k] == npm_lock());
                }
                if t.contains(npm_lock()) {
                    let k = choose|k: int| 0 <= k < t.len() && t[k] == npm_lock();
                    assert(t1[k] == npm_lock());
                }
            }
            assert(t1.contains(pnpm_lock()) == (t.contains(pnpm_lock()) || name@ == pnpm_lock()))
                by {
                if t1.contains(pnpm_lock()) && name@ != pnpm_lock() {
                    let k = choose|k: int| 0 <= k < t1.len() && t1[k] == pnpm_lock();
                    assert(t[k] == pnpm_lock());
                }
                if t.contains(pnpm_lock()) {
                    let k = choose|k: int| 0 <= k < t.len() && t[k] == pnpm_lock();
                    assert(t1[k] == pnpm_lock());
                }
            }
            assert(t1.contains(yarn_lock()) == (t.contains(yarn_lock()) || name@ == yarn_lock()))
                by {
                if t1.contains(yarn_lock()) && name@ != yarn_lock() {
                    let k = choose|k: int| 0 <= k < t1.len() && t1[k] == yarn_lock();
                    assert(t[k] == yarn_lock());
                }
                if t.contains(yarn_lock()) {
                    let k = choose|k: int| 0 <= k < t.len() && t[k] == yarn_lock();
                    assert(t1[k] == yarn_lock());
                }
            }
            reveal_strlit("package-lock.json");
            reveal_strlit("pnpm-lock.yaml");
            reveal_strlit("yarn.lock");
        }
        i = i + 1;
    }
    assert(names.take(names.len() as int) =~= names);
    if !use_npm && !use_pnpm && !use_yarn {
        return Ok(
            PackageManagerChoice {
                manager: PackageManager::Npm,
                warning: Some(String::from_str("WARNING: no lock files found, defaulting to npm")),
            },
        );
    }
    let mut found: Vec<String> = Vec::new();
    if use_npm {
        found.push(String::from_str("npm"));
    }
    if use_pnpm {
        found.push(String::from_str("pnpm"));
    }
    if use_yarn {
        found.push(String::from_str("yarn"));
    }
    assert(found.deep_view() =~= managers_found(names));
    if found.len() > 1 {
        return Err(InfoError::MultiplePackageManagers(found));
    }
    if use_npm {
        Ok(PackageManagerChoice { manager: PackageManager::Npm, warning: None })
    } else if use_pnpm {
        Ok(PackageManagerChoice { manager: PackageManager::Pnpm, warning: None })
    } else {
        Ok(PackageManagerChoice { manager: PackageManager::Yarn, warning: None })
    }
}


/// The arguments that ask a package manager for the latest published version
/// of a package.
pub open spec fn latest_version_query_of(pm: PackageManager, name: Seq<char>) -> Seq<Seq<char>> {
    match pm {
        PackageManager::Yarn => seq!["yarn"@, "info"@, name, "version"@, "--json"@],
        PackageManager::Npm => seq!["npm"@, "show"@, name, "version"@],
        PackageManager::Pnpm => seq!["pnpm"@, "info"@, name, "version"@],
    }
}

/// The arguments that ask a package manager which version of a package the
/// project has installed.
pub open spec fn package_version_query_of(pm: PackageManager, name: Seq<char>) -> Seq<Seq<char>> {
    match pm {
        PackageManager::Yarn => seq!["yarn"@, "list"@, "--pattern"@, name, "--depth"@, "0"@],
        PackageManager::Npm => seq!["npm"@, "list"@, name, "version"@, "--depth"@, "0"@],
        PackageManager::Pnpm => seq!["pnpm"@, "list"@, name, "--parseable"@, "--depth"@, "0"@],
    }
}

/// The program and arguments of a latest-version query.
pub fn npm_latest_version_query(pm: &PackageManager, name: &str) -> (r: Vec<String>)
    ensures
        r.deep_view() == latest_version_query_of(*pm, name@),
{
    let mut out: Vec<String> = Vec::new();
    match pm {
        PackageManager::Yarn => {
            out.push(String::from_str("yarn"));
            out.push(String::from_str("info"));
            out.push(String::from_str(name));
            out.push(String::from_str("version"));
            out.push(String::from_str("--json"));
        },
        PackageManager::Npm => {
            out.push(String::from_str("npm"));
            out.push(String::from_str("show"));
            out.push(String::from_str(name));
            out.push(String::from_str("version"));
        },
        PackageManager::Pnpm => {
            out.push(String::from_str("pnpm"));
            out.push(String::from_str("info"));
            out.push(String::from_str(name));
            out.push(String::from_str("version"));
        },
    }
    assert(out.deep_view() =~= latest_version_query_of(*pm, name@));
    out
}

/// The program and arguments of an installed-version query.
pub fn npm_package_version_query(pm: &PackageManager, name: &str) -> (r: Vec<String>)
    ensures
        r.deep_view() == package_version_query_of(*pm, name@),
{
    let mut out: Vec<String> = Vec::new();
    match pm {
        PackageManager::Yarn => {
            out.push(String::from_str("yarn"));
            out.push(String::from_str("list"));
            out.push(String::from_str("--pattern"));
            out.push(String::from_str(name));
        },
        PackageManager::Npm => {
            out.push(String::from_str("npm"));
            out.push(String::from_str("list"));
            out.push(String::from_str(name));
            out.push(String::from_str("version"));
        },
        PackageManager::Pnpm => {
            out.push(String::from_str("pnpm"));
            out.push(String::from_str("list"));
            out.push(String::from_str(name));
            out.push(String::from_str("--parseable"));
        },
    }
    out.push(String::from_str("--depth"));
    out.push(String::from_str("0"));
    assert(out.deep_view() =~= package_version_query_of(*pm, name@));
    out
}

/// The latest version a package manager reported: nothing when the query
/// failed; for yarn the last entry of the `data` list of its JSON answer;
/// for npm and pnpm the output without line feeds.
pub open spec fn latest_version_reported(
    pm: PackageManager,
    success: bool,
    stdout: Seq<char>,
    yarn_data: Option<Seq<Seq<char>>>,
) -> Option<Seq<char>> {
    if !success {
        None
    } else {
        match pm {
            PackageManager::Yarn => Some(yarn_data->0.last()),
            _ => Some(without_char(stdout, '\n')),
        }
    }
}

/// The latest published version, read from the answer of the query that
/// `npm_latest_version_query` gives. For yarn, `yarn_data` is the `data`
/// list of its JSON answer; it must hold an entry when the query succeeded.
pub fn npm_latest_version(
    pm: &PackageManager,
    output: &CommandOutput,
    yarn_data: &Option<Vec<String>>,
) -> (r: Option<String>)
    requires
        (*pm == PackageManager::Yarn && output.success) ==> (yarn_data matches Some(d) && d@.len()
            > 0),
    ensures
        r.deep_view() == latest_version_reported(
            *pm,
            output.success,
            output.stdout@,
            yarn_data.deep_view(),
        ),
{
    if !output.success {
        return None;
    }
    match pm {
        PackageManager::Yarn => {
            match yarn_data {
                Some(data) => {
                    let last = data[data.len() - 1].clone();
                    assert(data.deep_view().last() == last@);
                    Some(last)
                },
                None => {
                    assert(false);
                    None
                },
            }
        },
        _ => Some(remove_char(output.stdout.as_str(), '\n')),
    }
}

/// The installed version of a package, read from the answer of the query
/// that `npm_package_version_query` gives: group 1 of the last match of
/// `package_version_pattern`, nothing when the query failed.
pub fn npm_package_version(output: &CommandOutput) -> (r: Option<String>)
    ensures
        !output.success ==> r is None,
        output.success ==> r.deep_view() == last_group_of(
            regex_captures(package_version_pattern(), output.stdout@),
            1,
        ),
{
    if !output.success {
        return None;
    }
    match Pattern::new("@([\\da-zA-Z\\-\\.]+)") {
        Some(pattern) => {
            let caps = pattern.captures(output.stdout.as_str());
            last_group(&caps, 1)
        },
        None => {
            assert(false);
            None
        },
    }
}

} // verus!
