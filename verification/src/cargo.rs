//! Which tauri version the Rust side of the app uses, read from its
//! `Cargo.toml` and `Cargo.lock`.
use vstd::prelude::*;
use crate::text::{has_prefix, starts_with, debug_text, debug_string, path_debug_text, debug_path};
use crate::version::{
    SemVer,
    SemVerParts,
    semver_parse,
    greatest_version,
    parts_of,
    max_version,
    version_less,
    version_text,
};
use crate::blocks::{InfoBlock, info_text, outdated_note, outdated_suffix};

verus! {

/// A `[[package]]` entry of `Cargo.lock`.
pub struct CargoLockPackage {
    pub name: String,
    pub version: String,
    pub source: Option<String>,
}

/// The packages of `Cargo.lock`.
pub struct CargoLock {
    pub package: Vec<CargoLockPackage>,
}

/// A dependency given as a table in `Cargo.toml`.
pub struct CargoManifestDependencyPackage {
    pub version: Option<String>,
    pub git: Option<String>,
    pub path: Option<String>,
}

/// A dependency of `Cargo.toml`: a bare version, or a table.
pub enum CargoManifestDependency {
    Version(String),
    Package(CargoManifestDependencyPackage),
}

/// The `[package]` table of `Cargo.toml`.
pub struct CargoManifestPackage {
    pub version: String,
}

/// What the report reads of `Cargo.toml`: the package and the dependencies,
/// by name (the names are distinct, as the keys of a TOML table are).
pub struct CargoManifest {
    pub package: CargoManifestPackage,
    pub dependencies: Vec<(String, CargoManifestDependency)>,
}

/// The name of the crate whose version the report shows.
pub open spec fn tauri_name() -> Seq<char> {
    "tauri"@
}

/// Whether a lock entry is the tauri crate.
pub open spec fn is_tauri(p: CargoLockPackage) -> bool {
    p.name@ == tauri_name()
}

/// The tauri entries of the lock file, in order (none without a lock file).
pub open spec fn tauri_lock_packages(lock: Option<CargoLock>) -> Seq<CargoLockPackage> {
    match lock {
        Some(l) => l.package@.filter(|p: CargoLockPackage| is_tauri(p)),
        None => Seq::empty(),
    }
}

/// `(git lockfile)` for a lock entry that comes from git, else nothing.
pub open spec fn git_lock_suffix(p: CargoLockPackage) -> Seq<char> {
    match p.source {
        Some(s) => if has_prefix(s@, "git"@) {
            "(git lockfile)"@
        } else {
            Seq::empty()
        },
        None => Seq::empty(),
    }
}

/// The position of the first dependency called `name`.
pub open spec fn dependency_index(deps: Seq<(String, CargoManifestDependency)>, name: Seq<char>) -> Option<
    int,
>
    decreases deps.len(),
{
    if deps.len() == 0 {
        None
    } else {
        match dependency_index(deps.drop_last(), name) {
            Some(i) => Some(i),
            None => if deps.last().0@ == name {
                Some(deps.len() - 1)
            } else {
                None
            },
        }
    }
}

/// The tauri dependency of the manifest, if there is a manifest and it has one.
pub open spec fn tauri_dependency(manifest: Option<CargoManifest>) -> Option<CargoManifestDependency> {
    match manifest {
        Some(m) => match dependency_index(m.dependencies@, tauri_name()) {
            Some(i) => Some(m.dependencies@[i].1),
            None => None,
        },
        None => None,
    }
}

/// What the manifest says of tauri: the text shown, the versions it names,
/// and whether it comes from git. `path_version` is the version in the
/// manifest of a path dependency (`None` when it could not be read).
pub open spec fn manifest_account(
    dep: Option<CargoManifestDependency>,
    path_version: Option<Seq<char>>,
) -> (Seq<char>, Seq<Seq<char>>, bool) {
    match dep {
        Some(CargoManifestDependency::Version(v)) => (v@, seq![v@], false),
        Some(CargoManifestDependency::Package(p)) => match p.version {
            Some(v) => (v@, seq![v@], false),
            None => match p.path {
                Some(path) => (
                    "path:"@ + path_debug_text(path@) + seq![' ', '['] + (match path_version {
                        Some(v) => v,
                        None => "unknown version"@,
                    }) + seq![']'],
                    Seq::empty(),
                    false,
                ),
                None => match p.git {
                    Some(g) => ("git:"@ + debug_text(g@), Seq::empty(), true),
                    None => ("unknown manifest"@, Seq::empty(), false),
                },
            },
        },
        None => ("no manifest"@, Seq::empty(), false),
    }
}

/// What the lock file says of tauri when it does not name exactly one tauri
/// package.
pub open spec fn lock_account(lock: Option<CargoLock>) -> Seq<char> {
    match lock {
        Some(_) => if tauri_lock_packages(lock).len() == 0 {
            Seq::empty()
        } else {
            "unknown lockfile"@
        },
        None => "no lockfile"@,
    }
}

/// The text shown for tauri and the versions found, as the report works
/// them out: a lock file with exactly one tauri entry decides; otherwise the
/// manifest is read, and the lock file is summed up in brackets.
pub open spec fn tauri_account(
    manifest: Option<CargoManifest>,
    lock: Option<CargoLock>,
    path_version: Option<Seq<char>>,
) -> (Seq<char>, Seq<Seq<char>>) {
    let pkgs = tauri_lock_packages(lock);
    if lock is Some && pkgs.len() == 1 {
        let p = pkgs[0];
        let base = p.version@ + seq![' '] + git_lock_suffix(p);
        if manifest is Some {
            (base, seq![p.version@])
        } else {
            (base + "(no manifest)"@, seq![p.version@])
        }
    } else {
        let (text, found, is_git) = manifest_account(tauri_dependency(manifest), path_version);
        (
            text + seq![' '] + (if is_git {
                "(git manifest)"@
            } else {
                Seq::empty()
            }) + seq!['('] + lock_account(lock) + seq![')'],
            found,
        )
    }
}

/// The path whose manifest the report reads: that of a tauri dependency
/// given by path without a version, when the lock file does not decide.
pub open spec fn tauri_path_of(manifest: Option<CargoManifest>, lock: Option<CargoLock>) -> Option<
    Seq<char>,
> {
    if lock is Some && tauri_lock_packages(lock).len() == 1 {
        None
    } else {
        match tauri_dependency(manifest) {
            Some(CargoManifestDependency::Package(p)) => match p.version {
                Some(_) => None,
                None => match p.path {
                    Some(path) => Some(path@),
                    None => None,
                },
            },
            _ => None,
        }
    }
}

/// The version read from a path dependency's manifest matters only when
/// `tauri_path_dependency` names a path.
pub proof fn law_path_version_needed_only_for_path(
    manifest: Option<CargoManifest>,
    lock: Option<CargoLock>,
    a: Option<Seq<char>>,
    b: Option<Seq<char>>,
)
    requires
        tauri_path_of(manifest, lock) is None,
    ensures
        tauri_account(manifest, lock, a) == tauri_account(manifest, lock, b),
{
}

/// The first dependency named tauri is the one the report reads.
proof fn lemma_first_tauri_dependency(deps: Seq<(String, CargoManifestDependency)>, i: int)
    requires
        0 <= i < deps.len(),
        deps[i].0@ == tauri_name(),
        forall|j: int| 0 <= j < i ==> deps[j].0@ != tauri_name(),
    ensures
        dependency_index(deps, tauri_name()) == Some(i),
    decreases deps.len(),
{
    if deps.len() - 1 > i {
        lemma_first_tauri_dependency(deps.drop_last(), i);
    } else {
        assert(dependency_index(deps.drop_last(), tauri_name()) is None) by {
            lemma_no_tauri_dependency(deps.drop_last());
        }
    }
}

/// A list without a dependency named tauri has none to read.
proof fn lemma_no_tauri_dependency(deps: Seq<(String, CargoManifestDependency)>)
    requires
        forall|j: int| 0 <= j < deps.len() ==> deps[j].0@ != tauri_name(),
    ensures
        dependency_index(deps, tauri_name()) is None,
    decreases deps.len(),
{
    if deps.len() > 0 {
        lemma_no_tauri_dependency(deps.drop_last());
    }
}

/// When the lock file does not decide (absent, or without exactly one tauri
/// entry) and the manifest's tauri dependency names a version, as a bare
/// string or as the `version` of a table, that version is the one version
/// found, and the text shown begins with it.
pub proof fn law_manifest_version_is_found(
    m: CargoManifest,
    lock: Option<CargoLock>,
    path_version: Option<Seq<char>>,
    i: int,
    v: Seq<char>,
)
    requires
        !(lock is Some && tauri_lock_packages(lock).len() == 1),
        0 <= i < m.dependencies@.len(),
        m.dependencies@[i].0@ == "tauri"@,
        forall|j: int| 0 <= j < i ==> m.dependencies@[j].0@ != "tauri"@,
        match m.dependencies@[i].1 {
            CargoManifestDependency::Version(s) => s@ == v,
            CargoManifestDependency::Package(p) => p.version matches Some(s) && s@ == v,
        },
    ensures
        tauri_account(Some(m), lock, path_version).1 == seq![v],
        tauri_account(Some(m), lock, path_version).0.take(v.len() as int) == v,
{
    lemma_first_tauri_dependency(m.dependencies@, i);
    let t = tauri_account(Some(m), lock, path_version).0;
    assert(t.take(v.len() as int) =~= v);
}

/// A lock file with exactly one tauri entry decides the version found,
/// whatever the manifest says.
pub proof fn law_single_lock_entry_decides(
    m1: Option<CargoManifest>,
    m2: Option<CargoManifest>,
    lock: Option<CargoLock>,
    a: Option<Seq<char>>,
    b: Option<Seq<char>>,
)
    requires
        lock is Some,
        tauri_lock_packages(lock).len() == 1,
    ensures
        tauri_account(m1, lock, a).1 == tauri_account(m2, lock, b).1,
        tauri_account(m1, lock, a).1 == seq![tauri_lock_packages(lock)[0].version@],
{
}

/// The text shown for tauri and the versions found in the manifest or lock file.
pub struct TauriVersions {
    pub summary: String,
    pub found: Vec<String>,
}

/// How many tauri entries the lock file has, and the position of the first.
fn count_tauri(lock: &CargoLock) -> (r: (usize, usize))
    ensures
        r.0 == tauri_lock_packages(Some(*lock)).len(),
        r.0 > 0 ==> r.1 < lock.package@.len() && lock.package@[r.1 as int] == tauri_lock_packages(
            Some(*lock),
        )[0],
{
    let tauri = String::from_str("tauri");
    let ghost all = lock.package@;
    let mut count: usize = 0;
    let mut first: usize = 0;
    let mut i: usize = 0;
    while i < lock.package.len()
        invariant
            i <= all.len(),
            all == lock.package@,
            tauri@ == tauri_name(),
            count as int == all.take(i as int).filter(|p: CargoLockPackage| is_tauri(p)).len(),
            count <= i,
            count > 0 ==> first < i && all[first as int] == all.take(i as int).filter(
                |p: CargoLockPackage| is_tauri(p),
            )[0],
        decreases all.len() - i,
    {
        let ghost pre = all.take(i as int);
        let ghost next = all.take(i + 1);
        proof {
            assert(next.drop_last() =~= pre);
            assert(next.last() == all[i as int]);
            reveal_with_fuel(Seq::filter, 1);
            if count > 0 {
                let f = pre.filter(|p: CargoLockPackage| is_tauri(p));
                let g = next.filter(|p: CargoLockPackage| is_tauri(p));
                if is_tauri(all[i as int]) {
                    assert(g == f.push(all[i as int]));
                    assert(g[0] == f[0]);
                }
            }
        }
        if lock.package[i].name == tauri {
            if count == 0 {
                first = i;
            }
            count = count + 1;
        }
        i = i + 1;
    }
    assert(all.take(all.len() as int) =~= all);
    (count, first)
}

/// The position of the first dependency called `name`.
fn find_dependency(deps: &Vec<(String, CargoManifestDependency)>, name: &String) -> (r: Option<usize>)
    ensures
        match r {
            Some(i) => dependency_index(deps@, name@) == Some(i as int) && i < deps@.len(),
            None => dependency_index(deps@, name@) is None,
        },
{
    let mut i: usize = 0;
    while i < deps.len()
        invariant
            i <= deps@.len(),
            dependency_index(deps@.take(i as int), name@) is None,
        decreases deps@.len() - i,
    {
        assert(deps@.take(i + 1).drop_last() =~= deps@.take(i as int));
        if deps[i].0 == *name {
            proof {
                lemma_dependency_index_prefix(deps@, name@, i + 1);
            }
            return Some(i);
        }
        i = i + 1;
    }
    assert(deps@.take(deps@.len() as int) =~= deps@);
    None
}

/// A match found in a prefix is the first match of the whole list.
proof fn lemma_dependency_index_prefix(
    deps: Seq<(String, CargoManifestDependency)>,
    name: Seq<char>,
    n: int,
)
    requires
        0 <= n <= deps.len(),
        dependency_index(deps.take(n), name) is Some,
    ensures
        dependency_index(deps, name) == dependency_index(deps.take(n), name),
    decreases deps.len() - n,
{
    if n < deps.len() {
        assert(deps.take(n + 1).drop_last() =~= deps.take(n));
        lemma_dependency_index_prefix(deps, name, n + 1);
    } else {
        assert(deps.take(n) =~= deps);
    }
}

/// The tauri dependency of the manifest.
fn tauri_dependency_of(manifest: &Option<CargoManifest>) -> (r: Option<&CargoManifestDependency>)
    ensures
        match r {
            Some(d) => tauri_dependency(*manifest) == Some(*d),
            None => tauri_dependency(*manifest) is None,
        },
{
    match manifest {
        Some(m) => {
            let tauri = String::from_str("tauri");
            match find_dependency(&m.dependencies, &tauri) {
                Some(i) => Some(&m.dependencies[i].1),
                None => None,
            }
        },
        None => None,
    }
}

/// The path of a tauri dependency whose manifest must be read to finish the
/// account (see `tauri_versions`), if any.
pub fn tauri_path_dependency(manifest: &Option<CargoManifest>, lock: &Option<CargoLock>) -> (r: Option<String>)
    ensures
        r.deep_view() == tauri_path_of(*manifest, *lock),
{
    match lock {
        Some(l) => {
            let (count, _) = count_tauri(l);
            if count == 1 {
                return None;
            }
        },
        None => {},
    }
    match tauri_dependency_of(manifest) {
        Some(CargoManifestDependency::Package(p)) => match &p.version {
            Some(_) => None,
            None => match &p.path {
                Some(path) => Some(path.clone()),
                None => None,
            },
        },
        _ => None,
    }
}

/// Works out the tauri line: the text shown and the versions found.
/// `path_version` is the version read from the manifest at the path that
/// `tauri_path_dependency` names (`None` when it could not be read).
pub fn tauri_versions(
    manifest: &Option<CargoManifest>,
    lock: &Option<CargoLock>,
    path_version: &Option<String>,
) -> (r: TauriVersions)
    ensures
        r.summary@ == tauri_account(*manifest, *lock, path_version.deep_view()).0,
        r.found.deep_view() == tauri_account(*manifest, *lock, path_version.deep_view()).1,
        r.found@.len() <= 1,
{
    let mut decided: Option<usize> = None;
    match lock {
        Some(l) => {
            let (count, first) = count_tauri(l);
            if count == 1 {
                decided = Some(first);
            }
        },
        None => {},
    }
    match (lock, decided) {
        (Some(l), Some(first)) => {
            let p = &l.package[first];
            let mut summary = p.version.clone();
            summary.push(' ');
            match &p.source {
                Some(s) => {
                    if starts_with(s.as_str(), "git") {
                        summary.append("(git lockfile)");
                    }
                },
                None => {},
            }
            if manifest.is_none() {
                summary.append("(no manifest)");
            }
            let mut found: Vec<String> = Vec::new();
            found.push(p.version.clone());
            assert(found.deep_view() =~= seq![p.version@]);
            let ghost acc = tauri_account(*manifest, *lock, path_version.deep_view());
            assert(summary@ =~= acc.0);
            return TauriVersions { summary, found };
        },
        _ => {},
    }
    let mut found: Vec<String> = Vec::new();
    let mut is_git = false;
    let mut summary = match tauri_dependency_of(manifest) {
        Some(CargoManifestDependency::Version(v)) => {
            found.push(v.clone());
            v.clone()
        },
        Some(CargoManifestDependency::Package(p)) => match &p.version {
            Some(v) => {
                found.push(v.clone());
                v.clone()
            },
            None => match &p.path {
                Some(path) => {
                    let mut text = String::from_str("path:");
                    let quoted = debug_path(path.as_str());
                    text.append(quoted.as_str());
                    text.push(' ');
                    text.push('[');
                    match path_version {
                        Some(v) => text.append(v.as_str()),
                        None => text.append("unknown version"),
                    }
                    text.push(']');
                    text
                },
                None => match &p.git {
                    Some(g) => {
                        is_git = true;
                        let mut text = String::from_str("git:");
                        let quoted = debug_string(g.as_str());
                        text.append(quoted.as_str());
                        text
                    },
                    None => String::from_str("unknown manifest"),
                },
            },
        },
        None => String::from_str("no manifest"),
    };
    let ghost dep_account = manifest_account(tauri_dependency(*manifest), path_version.deep_view());
    assert(summary@ =~= dep_account.0);
    assert(found.deep_view() =~= dep_account.1);
    assert(is_git == dep_account.2);
    summary.push(' ');
    if is_git {
        summary.append("(git manifest)");
    }
    summary.push('(');
    match lock {
        Some(l) => {
            let (count, _) = count_tauri(l);
            if count != 0 {
                summary.append("unknown lockfile");
            }
        },
        None => {
            summary.append("no lockfile");
        },
    }
    summary.push(')');
    let ghost acc = tauri_account(*manifest, *lock, path_version.deep_view());
    assert(summary@ =~= acc.0);
    TauriVersions { summary, found }
}

/// Whether every version found parses, and the latest one does where it is
/// compared (when a version was found).
pub open spec fn tauri_versions_parse(found: Seq<Seq<char>>, latest: Option<Seq<char>>) -> bool {
    &&& forall|i: int| 0 <= i < found.len() ==> (#[trigger] semver_parse(found[i])) is Some
    &&& (found.len() > 0 && latest is Some) ==> semver_parse(latest->0) is Some
}

/// The parsed versions found.
pub open spec fn parsed_all(found: Seq<Seq<char>>) -> Seq<SemVerParts> {
    found.map_values(|v: Seq<char>| semver_parse(v)->0)
}

/// The suffix of the tauri line: the outdated note when the greatest
/// version found ranks below the latest published one.
pub open spec fn tauri_suffix(found: Seq<Seq<char>>, latest: Option<Seq<char>>) -> Option<Seq<char>> {
    match (greatest_version(parsed_all(found)), latest) {
        (Some(v), Some(t)) => outdated_note(v, semver_parse(t)->0),
        _ => None,
    }
}

/// The tauri line carries the outdated note, with the latest version as
/// printed, exactly when the greatest version found ranks below the latest
/// one; nothing about the texts of the versions changes that.
pub proof fn law_tauri_outdated_note(found: Seq<Seq<char>>, latest: Seq<char>)
    requires
        found.len() > 0,
    ensures
        greatest_version(parsed_all(found)) matches Some(g) && version_less(
            g,
            semver_parse(latest)->0,
        ) ==> tauri_suffix(found, Some(latest)) == Some(
            " (outdated, latest: "@ + version_text(semver_parse(latest)->0) + seq![')'],
        ),
        greatest_version(parsed_all(found)) matches Some(g) && !version_less(
            g,
            semver_parse(latest)->0,
        ) ==> tauri_suffix(found, Some(latest)) is None,
        tauri_suffix(found, None) is None,
{
    crate::version::law_greatest_is_listed(parsed_all(found));
}

/// Parses every version found.
fn parse_all(found: &Vec<String>) -> (r: Vec<SemVer>)
    requires
        forall|i: int| 0 <= i < found.deep_view().len() ==> (#[trigger] semver_parse(
            found.deep_view()[i],
        )) is Some,
    ensures
        parts_of(r@) == parsed_all(found.deep_view()),
{
    let mut out: Vec<SemVer> = Vec::new();
    let mut i: usize = 0;
    while i < found.len()
        invariant
            i <= found@.len(),
            forall|i: int| 0 <= i < found.deep_view().len() ==> (#[trigger] semver_parse(
                found.deep_view()[i],
            )) is Some,
            parts_of(out@) == parsed_all(found.deep_view().take(i as int)),
        decreases found@.len() - i,
    {
        assert(found.deep_view()[i as int] == found@[i as int]@);
        match SemVer::parse(found[i].as_str()) {
            Some(v) => {
                let ghost before = out@;
                out.push(v);
                assert(parts_of(out@) =~= parts_of(before).push(v@));
                assert(parsed_all(found.deep_view().take(i + 1)) =~= parsed_all(
                    found.deep_view().take(i as int),
                ).push(semver_parse(found.deep_view()[i as int])->0));
            },
            None => {
                assert(false);
            },
        }
        i = i + 1;
    }
    assert(found.deep_view().take(found@.len() as int) =~= found.deep_view());
    out
}

/// The tauri line of the report, given the versions found and the latest
/// published version. The versions compared must parse.
pub fn tauri_block(versions: TauriVersions, latest: &Option<String>) -> (r: InfoBlock)
    requires
        tauri_versions_parse(versions.found.deep_view(), latest.deep_view()),
    ensures
        r.display_text() == info_text(
            false,
            "  tauri.rs"@,
            Some(versions.summary@),
            tauri_suffix(versions.found.deep_view(), latest.deep_view()),
        ),
{
    let parsed = parse_all(&versions.found);
    let greatest = max_version(parsed);
    let suffix = match (greatest, latest) {
        (Some(v), Some(t)) => match SemVer::parse(t.as_str()) {
            Some(target) => outdated_suffix(&v, &target),
            None => {
                assert(false);
                None
            },
        },
        _ => None,
    };
    InfoBlock::new("  tauri.rs").value(Some(versions.summary)).suffix(suffix)
}

/// The tauri line, or `None` where a version to compare does not parse
/// (where `tauri_block` may not be called).
pub fn try_tauri_block(versions: TauriVersions, latest: &Option<String>) -> (r: Option<InfoBlock>)
    ensures
        tauri_versions_parse(versions.found.deep_view(), latest.deep_view()) ==> (r matches Some(b)
            && b.display_text() == info_text(
            false,
            "  tauri.rs"@,
            Some(versions.summary@),
            tauri_suffix(versions.found.deep_view(), latest.deep_view()),
        )),
        !tauri_versions_parse(versions.found.deep_view(), latest.deep_view()) ==> r is None,
{
    let mut i: usize = 0;
    while i < versions.found.len()
        invariant
            i <= versions.found@.len(),
            forall|j: int| 0 <= j < i ==> (#[trigger] semver_parse(versions.found.deep_view()[j])) is Some,
        decreases versions.found@.len() - i,
    {
        assert(versions.found.deep_view()[i as int] == versions.found@[i as int]@);
        if SemVer::parse(versions.found[i].as_str()).is_none() {
            return None;
        }
        i = i + 1;
    }
    if versions.found.len() > 0 {
        match latest {
            Some(t) => {
                if SemVer::parse(t.as_str()).is_none() {
                    return None;
                }
            },
            None => {},
        }
    }
    Some(tauri_block(versions, latest))
}

} // verus!
