# tauri_info

The `info` command of a Tauri CLI: it reports the operating system, the
JavaScript and Rust toolchains, and the tauri version and configuration of
the app in the current directory.

- `src/` is the verified library (Verus). From what the machine answered it
  works out which package manager a project uses, what a program's
  `--version` output means, which tauri version the manifest and lock file
  name, whether a version is outdated, and the exact text of each line.
  - `text.rs`: character-level string operations (replace, split, join,
    ordering, decimal printing).
  - `version.rs`: semantic versions; parsing and ordering call `semver`.
  - `pattern.rs`: regular expressions; matching calls `regex`.
  - `probe.rs`: reading the output of `--version` queries, WebView2 and
    Build Tools probes.
  - `package_manager.rs`: npm, pnpm or yarn, and what they report.
  - `cargo.rs`: the tauri version from `Cargo.toml` and `Cargo.lock`.
  - `blocks.rs`: the lines of the report.
  - `report.rs`: the remaining pieces of the report.
- `app/` runs the programs, reads the files and the network, decides which
  sections to show in which order, and prints.
- `tests/` runs the library on concrete inputs.
