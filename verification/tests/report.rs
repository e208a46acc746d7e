use tauri_info::blocks::{outdated_suffix, InfoBlock, VersionBlock};
use tauri_info::cargo::{
    tauri_block, tauri_path_dependency, tauri_versions, try_tauri_block, CargoLock,
    CargoLockPackage, CargoManifest, CargoManifestDependency, CargoManifestDependencyPackage,
    CargoManifestPackage, TauriVersions,
};
use tauri_info::package_manager::{
    get_package_manager, npm_latest_version, npm_latest_version_query, npm_package_version,
    npm_package_version_query, InfoError, PackageManager,
};
use tauri_info::probe::{
    build_tools_version, get_active_rust_toolchain, get_version, version_query, webview2_query,
    webview2_version, CommandOutput, Webview2Step, active_toolchain_query,
};
use tauri_info::report::{
    build_tools_entry, build_tools_summary, config_blocks, directory_line, docs_rs_url,
    framework_blocks, latest_version_from_redirect, node_version_block, os_block, tool_version,
};
use tauri_info::version::{max_version, SemVer};

fn names(v: &[&str]) -> Vec<String> {
    v.iter().map(|s| s.to_string()).collect()
}

fn ok(stdout: &str) -> CommandOutput {
    CommandOutput { success: true, stdout: stdout.to_string() }
}

fn failed(stdout: &str) -> CommandOutput {
    CommandOutput { success: false, stdout: stdout.to_string() }
}

const MULTIPLE: &str = "(multiple versions might conflict; keep only 2019 if build errors occur)";

#[test]
fn package_manager_from_single_lock_file() {
    let c = get_package_manager(&names(&["src", "package-lock.json"])).unwrap();
    assert_eq!(c.manager, PackageManager::Npm);
    assert!(c.warning.is_none());
    let c = get_package_manager(&names(&["pnpm-lock.yaml"])).unwrap();
    assert_eq!(c.manager, PackageManager::Pnpm);
    let c = get_package_manager(&names(&["yarn.lock", "package.json"])).unwrap();
    assert_eq!(c.manager, PackageManager::Yarn);
    assert!(c.warning.is_none());
}

#[test]
fn package_manager_defaults_to_npm_with_warning() {
    let c = get_package_manager(&names(&["package.json", "README.md"])).unwrap();
    assert_eq!(c.manager, PackageManager::Npm);
    assert_eq!(c.warning.as_deref(), Some("WARNING: no lock files found, defaulting to npm"));
    let c = get_package_manager(&Vec::new()).unwrap();
    assert_eq!(c.manager, PackageManager::Npm);
    assert!(c.warning.is_some());
}

#[test]
fn package_manager_refuses_several_lock_kinds() {
    let e = get_package_manager(&names(&["yarn.lock", "pnpm-lock.yaml"]));
    match e {
        Err(err @ InfoError::MultiplePackageManagers(_)) => {
            assert_eq!(
                err.message(),
                "only one package mangager should be used, but found pnpm and yarn\nplease remove unused package manager lock files"
            );
        }
        Ok(_) => panic!("expected an error"),
    }
    let e = get_package_manager(&names(&["yarn.lock", "package-lock.json", "pnpm-lock.yaml"]));
    match e {
        Err(InfoError::MultiplePackageManagers(found)) => {
            assert_eq!(found, names(&["npm", "pnpm", "yarn"]))
        }
        Ok(_) => panic!("expected an error"),
    }
}

#[test]
fn package_manager_ignores_order_and_repeats() {
    let a = get_package_manager(&names(&["yarn.lock", "x"])).unwrap();
    let b = get_package_manager(&names(&["x", "yarn.lock", "yarn.lock"])).unwrap();
    assert_eq!(a.manager, b.manager);
    assert_eq!(a.warning, b.warning);
}

#[test]
fn version_queries() {
    assert_eq!(version_query("node", &Vec::new()), names(&["node", "--version"]));
    assert_eq!(
        version_query("cargo", &names(&["+nightly"])),
        names(&["cargo", "+nightly", "--version"])
    );
    assert_eq!(active_toolchain_query(), names(&["rustup", "show", "active-toolchain"]));
}

#[test]
fn version_output_is_one_line() {
    assert_eq!(get_version(&ok("v16.13.0\r\n")), Some("v16.13.0".to_string()));
    assert_eq!(get_version(&ok("a\nb\rc")), Some("abc".to_string()));
    assert_eq!(get_version(&failed("v16.13.0\n")), None);
    let once = get_version(&ok("x\r\n")).unwrap();
    assert_eq!(get_version(&ok(&once)), Some(once.clone()));
    assert_eq!(
        get_active_rust_toolchain(&ok("stable-x86_64-unknown-linux-gnu (default)\n")),
        Some("stable-x86_64-unknown-linux-gnu (default)".to_string())
    );
}

#[test]
fn latest_version_queries() {
    assert_eq!(
        npm_latest_version_query(&PackageManager::Yarn, "@tauri-apps/cli"),
        names(&["yarn", "info", "@tauri-apps/cli", "version", "--json"])
    );
    assert_eq!(
        npm_latest_version_query(&PackageManager::Npm, "@tauri-apps/cli"),
        names(&["npm", "show", "@tauri-apps/cli", "version"])
    );
    assert_eq!(
        npm_latest_version_query(&PackageManager::Pnpm, "x"),
        names(&["pnpm", "info", "x", "version"])
    );
    assert_eq!(
        npm_package_version_query(&PackageManager::Yarn, "x"),
        names(&["yarn", "list", "--pattern", "x", "--depth", "0"])
    );
    assert_eq!(
        npm_package_version_query(&PackageManager::Npm, "x"),
        names(&["npm", "list", "x", "version", "--depth", "0"])
    );
    assert_eq!(
        npm_package_version_query(&PackageManager::Pnpm, "x"),
        names(&["pnpm", "list", "x", "--parseable", "--depth", "0"])
    );
}

#[test]
fn latest_version_answers() {
    assert_eq!(
        npm_latest_version(&PackageManager::Npm, &ok("1.0.0-beta.9\n"), &None),
        Some("1.0.0-beta.9".to_string())
    );
    assert_eq!(
        npm_latest_version(&PackageManager::Pnpm, &ok("2.0.0\n\n"), &None),
        Some("2.0.0".to_string())
    );
    assert_eq!(
        npm_latest_version(
            &PackageManager::Yarn,
            &ok("{}"),
            &Some(names(&["1.0.0", "1.0.1"]))
        ),
        Some("1.0.1".to_string())
    );
    assert_eq!(npm_latest_version(&PackageManager::Npm, &failed("x"), &None), None);
}

#[test]
fn installed_package_version() {
    let listing = "app@0.1.0 /home/me/app\n└── @tauri-apps/api@1.0.0-beta.8\n";
    assert_eq!(npm_package_version(&ok(listing)), Some("1.0.0-beta.8".to_string()));
    assert_eq!(npm_package_version(&ok("(empty)")), None);
    assert_eq!(npm_package_version(&failed(listing)), None);
}

#[test]
fn build_tools_versions() {
    let out = "InstallationName : Visual Studio Build Tools 2019\nx\nVisual Studio Build Tools 2017\n";
    assert_eq!(build_tools_version(&ok(out)), Some(names(&["2019", "2017"])));
    assert_eq!(build_tools_version(&ok("nothing here")), None);
    assert_eq!(build_tools_version(&failed(out)), None);
}

#[test]
fn build_tools_summaries() {
    assert_eq!(build_tools_summary(&names(&["2017"])), "2017 (>= 2019 required)");
    assert_eq!(build_tools_summary(&names(&["2019"])), "2019");
    assert_eq!(build_tools_summary(&names(&["2022"])), "2022");
    assert_eq!(
        build_tools_summary(&names(&["2017", "2019"])),
        format!("2017, 2019 {}", MULTIPLE)
    );
    assert_eq!(
        build_tools_summary(&names(&["2015", "2017"])),
        format!("2015, 2017 (>= 2019 required) {}", MULTIPLE)
    );
    assert_eq!(
        build_tools_summary(&Vec::new()),
        format!(" (>= 2019 required) {}", MULTIPLE)
    );
    assert_eq!(build_tools_entry(None), None);
    assert_eq!(build_tools_entry(Some(names(&["2019"]))), Some("2019".to_string()));
}

#[test]
fn webview2_search_order() {
    match webview2_version(0, &ok("96.0.1054.62\n")) {
        Webview2Step::Done(Some(v)) => assert_eq!(v, "96.0.1054.62"),
        _ => panic!("expected a version"),
    }
    match webview2_version(0, &failed("")) {
        Webview2Step::Probe(1) => {}
        _ => panic!("expected the next location"),
    }
    match webview2_version(1, &failed("")) {
        Webview2Step::Probe(2) => {}
        _ => panic!("expected the next location"),
    }
    match webview2_version(2, &failed("")) {
        Webview2Step::Done(None) => {}
        _ => panic!("expected the end"),
    }
    assert!(webview2_query(0).contains("HKLM:\\SOFTWARE\\WOW6432Node\\Microsoft"));
    assert!(webview2_query(2).starts_with("Get-ItemProperty -Path 'HKCU:"));
}

#[test]
fn info_block_text() {
    assert_eq!(InfoBlock::new("App").section().display(), "\nApp\n");
    assert_eq!(
        InfoBlock::new("  tauri.rs")
            .value(Some("1.0.0".to_string()))
            .suffix(Some(" (outdated)".to_string()))
            .display(),
        "  tauri.rs - 1.0.0 (outdated)\n"
    );
    let b = InfoBlock::new("k").value(Some("a".to_string())).value(None);
    assert_eq!(b.display(), "k\n");
}

#[test]
fn version_block_text() {
    let b = VersionBlock::new("  npm", Some("8.1.0".to_string()));
    assert_eq!(b.display(), "  npm - 8.1.0\n");
    let b = VersionBlock::new("  yarn", None);
    assert_eq!(b.display(), "  yarn - Not installed\n");
    let b = VersionBlock::new("  @tauri-apps/cli", Some("1.0.0-beta.8".to_string()))
        .target_version(Some("1.0.0-beta.10".to_string()));
    assert_eq!(
        b.display(),
        "  @tauri-apps/cli - 1.0.0-beta.8 (outdated, latest: 1.0.0-beta.10)\n"
    );
    let b = VersionBlock::new("  x", Some("2.0.0".to_string()))
        .target_version(Some("1.9.9".to_string()));
    assert_eq!(b.display(), "  x - 2.0.0\n");
    let b = VersionBlock::new("  x", None).target_version(Some("1.0.0".to_string()));
    assert_eq!(b.display(), "  x - Not installed\n");
}

#[test]
fn version_block_same_version_not_outdated() {
    let b = VersionBlock::new("  x", Some("1.2.3-rc.1".to_string()))
        .target_version(Some("1.2.3-rc.1".to_string()));
    assert_eq!(b.display(), "  x - 1.2.3-rc.1\n");
}

#[test]
fn version_block_prerelease_is_outdated() {
    let b = VersionBlock::new("  @tauri-apps/cli", Some("1.0.0-rc.5".to_string()))
        .target_version(Some("1.0.0".to_string()));
    assert_eq!(b.display(), "  @tauri-apps/cli - 1.0.0-rc.5 (outdated, latest: 1.0.0)\n");
    let b = VersionBlock::new("  @tauri-apps/cli", Some("1.0.0".to_string()))
        .target_version(Some("1.0.0-rc.5+b.1".to_string()));
    assert_eq!(b.display(), "  @tauri-apps/cli - 1.0.0\n");
}

#[test]
fn version_block_unparsable() {
    let b = VersionBlock::new("  x", Some("1.2".to_string()))
        .target_version(Some("1.2.0".to_string()));
    assert_eq!(b.try_display(), None);
    let b = VersionBlock::new("  x", Some("1.2".to_string()));
    assert_eq!(b.try_display(), Some("  x - 1.2\n".to_string()));
}

#[test]
fn semver_parse_and_print() {
    let v = SemVer::parse("1.2.3-beta.1+build.5").unwrap();
    assert_eq!(v.render(), "1.2.3-beta.1+build.5");
    assert_eq!(SemVer::parse("10.0.20").unwrap().render(), "10.0.20");
    assert!(SemVer::parse("1.0").is_none());
    assert!(SemVer::parse("1.0.01").is_none());
    assert!(SemVer::parse("v1.0.0").is_none());
    for t in ["0.0.0", "1.0.0-rc.5", "2.10.3+build.007", "1.0.0-x-y.0.a+z"] {
        assert_eq!(SemVer::parse(t).unwrap().render(), t);
    }
}

#[test]
fn semver_order() {
    let p = |s: &str| SemVer::parse(s).unwrap();
    assert!(p("1.0.0-beta").less_than(&p("1.0.0")));
    assert!(!p("1.0.0").less_than(&p("1.0.0-beta")));
    assert!(p("1.2.0").less_than(&p("1.10.0")));
    assert!(p("1.0.0-beta.2").less_than(&p("1.0.0-beta.11")));
    assert!(!p("2.0.0").less_than(&p("2.0.0")));
    assert_eq!(outdated_suffix(&p("1.0.0"), &p("1.0.1")), Some(" (outdated, latest: 1.0.1)".to_string()));
    assert_eq!(outdated_suffix(&p("1.0.1"), &p("1.0.1")), None);
}

#[test]
fn greatest_version() {
    let vs = vec![
        SemVer::parse("1.0.0").unwrap(),
        SemVer::parse("1.3.0").unwrap(),
        SemVer::parse("1.2.9").unwrap(),
    ];
    assert_eq!(max_version(vs).unwrap().render(), "1.3.0");
    assert!(max_version(Vec::new()).is_none());
}

#[test]
fn rust_tool_versions() {
    assert_eq!(
        tool_version(Some("rustc 1.56.0 (09c42c458 2021-10-18)".to_string())),
        Some("1.56.0".to_string())
    );
    assert_eq!(tool_version(Some("cargo  1.0".to_string())), Some("".to_string()));
    assert_eq!(tool_version(None), None);
}

#[test]
fn node_versions() {
    let b = node_version_block("v14.17.0", ">= 12.13.0");
    assert_eq!(b.version.as_deref(), Some("14.17.0"));
    assert_eq!(b.target_version.as_deref(), Some("12.13.0"));
    assert_eq!(b.display(), "  Node.js - 14.17.0\n");
    let b = node_version_block("v10.0.0", ">= 12.13.0");
    assert_eq!(b.display(), "  Node.js - 10.0.0 (outdated, latest: 12.13.0)\n");
    let b = node_version_block("", "12.0.0");
    assert_eq!(b.version.as_deref(), Some(""));
}

#[test]
fn docs_rs_redirects() {
    assert_eq!(docs_rs_url("tauri"), "https://docs.rs/crate/tauri/");
    assert_eq!(
        latest_version_from_redirect(
            "tauri",
            302,
            Some("https://docs.rs/crate/tauri/1.0.0-beta.8".to_string())
        ),
        Some("1.0.0-beta.8".to_string())
    );
    assert_eq!(
        latest_version_from_redirect("tauri", 302, Some("/crate/tauri/1.0.0".to_string())),
        Some("/crate/tauri/1.0.0".to_string())
    );
    assert_eq!(latest_version_from_redirect("tauri", 200, Some("x".to_string())), None);
    assert_eq!(latest_version_from_redirect("tauri", 302, None), None);
}

#[test]
fn os_and_app_lines() {
    let b = os_block("Ubuntu", "20.4.0", "X64");
    assert_eq!(b.display(), "\nOperating System - Ubuntu, version 20.4.0 X64\n");
    assert_eq!(directory_line("src-tauri"), "/src-tauri\n");
    let blocks = config_blocks(true, Some(None), "../dist".to_string(), "http://localhost:8080".to_string());
    let text: Vec<String> = blocks.iter().map(|b| b.display()).collect();
    assert_eq!(
        text,
        names(&[
            "  build-type - bundle\n",
            "  CSP - unset\n",
            "  distDir - ../dist\n",
            "  devPath - http://localhost:8080\n"
        ])
    );
    let blocks = config_blocks(false, Some(Some("default-src 'self'".to_string())), "d".to_string(), "p".to_string());
    assert_eq!(blocks[0].display(), "  build-type - build\n");
    assert_eq!(blocks[1].display(), "  CSP - default-src 'self'\n");
    let f = framework_blocks(Some("Svelte".to_string()), None);
    assert_eq!(f.len(), 1);
    assert_eq!(f[0].display(), "  framework - Svelte\n");
    let f = framework_blocks(None, Some("Webpack".to_string()));
    assert_eq!(f[0].display(), "  bundler - Webpack\n");
}

fn lock(pkgs: &[(&str, &str, Option<&str>)]) -> Option<CargoLock> {
    Some(CargoLock {
        package: pkgs
            .iter()
            .map(|(n, v, s)| CargoLockPackage {
                name: n.to_string(),
                version: v.to_string(),
                source: s.map(|s| s.to_string()),
            })
            .collect(),
    })
}

fn manifest(dep: Option<CargoManifestDependency>) -> Option<CargoManifest> {
    let mut dependencies = vec![(
        "serde".to_string(),
        CargoManifestDependency::Version("1.0".to_string()),
    )];
    if let Some(d) = dep {
        dependencies.push(("tauri".to_string(), d));
    }
    Some(CargoManifest {
        package: CargoManifestPackage { version: "0.1.0".to_string() },
        dependencies,
    })
}

fn table(version: Option<&str>, git: Option<&str>, path: Option<&str>) -> CargoManifestDependency {
    CargoManifestDependency::Package(CargoManifestDependencyPackage {
        version: version.map(|s| s.to_string()),
        git: git.map(|s| s.to_string()),
        path: path.map(|s| s.to_string()),
    })
}

#[test]
fn tauri_version_from_lock_file() {
    let l = lock(&[("serde", "1.0.0", None), ("tauri", "1.0.0-beta.8", Some("registry+https://github.com/rust-lang/crates.io-index"))]);
    let m = manifest(Some(CargoManifestDependency::Version("1.0.0-beta.5".to_string())));
    let r = tauri_versions(&m, &l, &None);
    assert_eq!(r.summary, "1.0.0-beta.8 ");
    assert_eq!(r.found, names(&["1.0.0-beta.8"]));
    let r = tauri_versions(&None, &l, &None);
    assert_eq!(r.summary, "1.0.0-beta.8 (no manifest)");
    let g = lock(&[("tauri", "1.0.0-beta.8", Some("git+https://github.com/tauri-apps/tauri#abc"))]);
    assert_eq!(tauri_versions(&m, &g, &None).summary, "1.0.0-beta.8 (git lockfile)");
    assert_eq!(tauri_path_dependency(&manifest(Some(table(None, None, Some("../tauri")))), &l), None);
}

#[test]
fn tauri_version_from_manifest() {
    let m = manifest(Some(CargoManifestDependency::Version("1.0.0-beta.5".to_string())));
    let r = tauri_versions(&m, &None, &None);
    assert_eq!(r.summary, "1.0.0-beta.5 (no lockfile)");
    assert_eq!(r.found, names(&["1.0.0-beta.5"]));
    let l = lock(&[("serde", "1.0.0", None)]);
    let r = tauri_versions(&manifest(Some(table(Some("1.0.0"), None, None))), &l, &None);
    assert_eq!(r.summary, "1.0.0 ()");
    let two = lock(&[("tauri", "1.0.0", None), ("tauri", "0.9.0", None)]);
    let r = tauri_versions(&m, &two, &None);
    assert_eq!(r.summary, "1.0.0-beta.5 (unknown lockfile)");
    let r = tauri_versions(&manifest(Some(table(None, Some("https://github.com/tauri-apps/tauri"), None))), &None, &None);
    assert_eq!(r.summary, "git:\"https://github.com/tauri-apps/tauri\" (git manifest)(no lockfile)");
    assert!(r.found.is_empty());
    let r = tauri_versions(&manifest(Some(table(None, None, None))), &None, &None);
    assert_eq!(r.summary, "unknown manifest (no lockfile)");
    let r = tauri_versions(&manifest(None), &None, &None);
    assert_eq!(r.summary, "no manifest (no lockfile)");
    let r = tauri_versions(&None, &None, &None);
    assert_eq!(r.summary, "no manifest (no lockfile)");
}

#[test]
fn tauri_version_from_path_dependency() {
    let m = manifest(Some(table(None, None, Some("../../core/tauri"))));
    assert_eq!(tauri_path_dependency(&m, &None), Some("../../core/tauri".to_string()));
    let r = tauri_versions(&m, &None, &Some("1.0.0-beta.8".to_string()));
    assert_eq!(r.summary, "path:\"../../core/tauri\" [1.0.0-beta.8] (no lockfile)");
    assert!(r.found.is_empty());
    let r = tauri_versions(&m, &None, &None);
    assert_eq!(r.summary, "path:\"../../core/tauri\" [unknown version] (no lockfile)");
    let q = manifest(Some(table(None, None, Some("../it's"))));
    let r = tauri_versions(&q, &None, &None);
    assert_eq!(
        r.summary,
        format!("path:{:?} [unknown version] (no lockfile)", std::path::PathBuf::from("../it's"))
    );
    let v = manifest(Some(CargoManifestDependency::Version("1.0.0".to_string())));
    assert_eq!(tauri_path_dependency(&v, &None), None);
}

#[test]
fn tauri_line() {
    let v = TauriVersions { summary: "1.0.0-beta.5 ".to_string(), found: names(&["1.0.0-beta.5"]) };
    assert_eq!(
        tauri_block(v, &Some("1.0.0-beta.8".to_string())).display(),
        "  tauri.rs - 1.0.0-beta.5  (outdated, latest: 1.0.0-beta.8)\n"
    );
    let v = TauriVersions { summary: "1.0.0 ".to_string(), found: names(&["1.0.0"]) };
    assert_eq!(tauri_block(v, &Some("1.0.0".to_string())).display(), "  tauri.rs - 1.0.0 \n");
    let v = TauriVersions { summary: "no manifest (no lockfile)".to_string(), found: Vec::new() };
    assert_eq!(
        tauri_block(v, &Some("not a version".to_string())).display(),
        "  tauri.rs - no manifest (no lockfile)\n"
    );
    let v = TauriVersions { summary: "1.0 ".to_string(), found: names(&["1.0"]) };
    assert!(try_tauri_block(v, &None).is_none());
    let v = TauriVersions { summary: "1.0.0 ".to_string(), found: names(&["1.0.0"]) };
    assert!(try_tauri_block(v, &Some("latest".to_string())).is_none());
    let v = TauriVersions { summary: "1.0.0 ".to_string(), found: names(&["1.0.0"]) };
    assert_eq!(try_tauri_block(v, &None).unwrap().display(), "  tauri.rs - 1.0.0 \n");
}
