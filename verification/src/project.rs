//! Project metadata: the app's display name, version and package manager,
//! taken from overrides and from the project's own files.
use vstd::prelude::*;

use crate::cli::PackageManager;
use crate::text::{contains_str, owned, views};

verus! {

/// What a release is named and built with.
#[derive(Debug, Clone)]
pub struct ProjectMetadata {
    pub display_name: String,
    pub version: String,
    pub package_manager: PackageManager,
}

/// The fields read from `src-tauri/Cargo.toml`.
#[derive(Debug, Clone)]
pub struct CargoToml {
    pub package: Option<CargoPackage>,
}

/// `[package]` of `src-tauri/Cargo.toml`.
#[derive(Debug, Clone)]
pub struct CargoPackage {
    pub name: Option<String>,
    pub version: Option<String>,
}

/// The fields read from `tauri.conf.json`.
#[derive(Debug, Clone)]
pub struct TauriConfig {
    pub product_name: Option<String>,
    pub version: Option<String>,
}

/// The fields read from `package.json`.
#[derive(Debug, Clone)]
pub struct PackageJson {
    pub name: Option<String>,
    pub version: Option<String>,
}

/// What was read from a project directory: the names of the lockfiles present
/// in it and the parsed manifests (`None` where absent or unreadable).
#[derive(Debug, Clone)]
pub struct ProjectSources {
    pub files: Vec<String>,
    pub package_json: Option<PackageJson>,
    pub cargo_toml: Option<CargoToml>,
    pub tauri_config: Option<TauriConfig>,
}

/// The first present value of the list, else `fallback`.
pub open spec fn first_present(values: Seq<Option<String>>, fallback: Seq<char>) -> Seq<char>
    decreases values.len(),
{
    if values.len() == 0 {
        fallback
    } else {
        match values[0] {
            Some(v) => v@,
            None => first_present(values.drop_first(), fallback),
        }
    }
}

/// The candidate names, most authoritative first.
pub open spec fn name_candidates(
    override_name: Option<String>,
    tauri_config: Option<TauriConfig>,
    package_json: Option<PackageJson>,
    cargo_toml: Option<CargoToml>,
) -> Seq<Option<String>> {
    seq![
        override_name,
        match tauri_config { Some(c) => c.product_name, None => None },
        match package_json { Some(p) => p.name, None => None },
        match cargo_toml { Some(c) => match c.package { Some(p) => p.name, None => None }, None => None },
    ]
}

/// The candidate versions, most authoritative first.
pub open spec fn version_candidates(
    override_version: Option<String>,
    tauri_config: Option<TauriConfig>,
    package_json: Option<PackageJson>,
    cargo_toml: Option<CargoToml>,
) -> Seq<Option<String>> {
    seq![
        override_version,
        match tauri_config { Some(c) => c.version, None => None },
        match package_json { Some(p) => p.version, None => None },
        match cargo_toml { Some(c) => match c.package { Some(p) => p.version, None => None }, None => None },
    ]
}

/// The version of a project comes from the first source that has one, in
/// the order: the override, `tauri.conf.json`, `package.json`, `Cargo.toml`;
/// `0.0.0` when none has one. In particular the Tauri config's version wins
/// over `package.json` and `Cargo.toml` whenever there is no override.
pub proof fn law_version_precedence(
    override_version: Option<String>,
    tauri_config: Option<TauriConfig>,
    package_json: Option<PackageJson>,
    cargo_toml: Option<CargoToml>,
)
    ensures
        ({
            let v = first_present(
                version_candidates(override_version, tauri_config, package_json, cargo_toml),
                "0.0.0"@,
            );
            let tauri = match tauri_config { Some(c) => c.version, None => None };
            let json = match package_json { Some(p) => p.version, None => None };
            let cargo = match cargo_toml {
                Some(c) => match c.package { Some(p) => p.version, None => None },
                None => None,
            };
            &&& override_version matches Some(o) ==> v == o@
            &&& override_version is None && tauri is Some ==> v == tauri.unwrap()@
            &&& override_version is None && tauri is None && json is Some ==> v == json.unwrap()@
            &&& override_version is None && tauri is None && json is None && cargo is Some
                ==> v == cargo.unwrap()@
            &&& override_version is None && tauri is None && json is None && cargo is None ==> v
                == "0.0.0"@
        }),
{
    reveal_with_fuel(first_present, 5);
    let s = version_candidates(override_version, tauri_config, package_json, cargo_toml);
    assert(s.drop_first() =~= seq![s[1], s[2], s[3]]);
    assert(s.drop_first().drop_first() =~= seq![s[2], s[3]]);
    assert(s.drop_first().drop_first().drop_first() =~= seq![s[3]]);
    assert(s.drop_first().drop_first().drop_first().drop_first() =~= Seq::<Option<String>>::empty());
}

/// The display name of a project comes from the first source that has one,
/// in the order: the override, `tauri.conf.json` (`productName`),
/// `package.json`, `Cargo.toml`; `tauri-app` when none has one.
pub proof fn law_name_precedence(
    override_name: Option<String>,
    tauri_config: Option<TauriConfig>,
    package_json: Option<PackageJson>,
    cargo_toml: Option<CargoToml>,
)
    ensures
        ({
            let v = first_present(
                name_candidates(override_name, tauri_config, package_json, cargo_toml),
                "tauri-app"@,
            );
            let tauri = match tauri_config { Some(c) => c.product_name, None => None };
            let json = match package_json { Some(p) => p.name, None => None };
            let cargo = match cargo_toml {
                Some(c) => match c.package { Some(p) => p.name, None => None },
                None => None,
            };
            &&& override_name matches Some(o) ==> v == o@
            &&& override_name is None && tauri is Some ==> v == tauri.unwrap()@
            &&& override_name is None && tauri is None && json is Some ==> v == json.unwrap()@
            &&& override_name is None && tauri is None && json is None && cargo is Some
                ==> v == cargo.unwrap()@
            &&& override_name is None && tauri is None && json is None && cargo is None ==> v
                == "tauri-app"@
        }),
{
    reveal_with_fuel(first_present, 5);
    let s = name_candidates(override_name, tauri_config, package_json, cargo_toml);
    assert(s.drop_first() =~= seq![s[1], s[2], s[3]]);
    assert(s.drop_first().drop_first() =~= seq![s[2], s[3]]);
    assert(s.drop_first().drop_first().drop_first() =~= seq![s[3]]);
    assert(s.drop_first().drop_first().drop_first().drop_first() =~= Seq::<Option<String>>::empty());
}

/// The package manager whose lockfile is present in the app directory,
/// checked in the order pnpm, npm, yarn, bun; pnpm when none is.
pub open spec fn detected_package_manager(files: Seq<Seq<char>>) -> PackageManager {
    if files.contains("pnpm-lock.yaml"@) || files.contains("pnpm-workspace.yaml"@) {
        PackageManager::Pnpm
    } else if files.contains("package-lock.json"@) {
        PackageManager::Npm
    } else if files.contains("yarn.lock"@) {
        PackageManager::Yarn
    } else if files.contains("bun.lockb"@) || files.contains("bun.lock"@) {
        PackageManager::Bun
    } else {
        PackageManager::Pnpm
    }
}

/// The package manager of an app directory, from the names of the files
/// present in it.
pub fn detect_package_manager(files: &Vec<String>) -> (r: PackageManager)
    ensures
        r == detected_package_manager(views(files@)),
{
    if contains_str(files, "pnpm-lock.yaml") || contains_str(files, "pnpm-workspace.yaml") {
        PackageManager::Pnpm
    } else if contains_str(files, "package-lock.json") {
        PackageManager::Npm
    } else if contains_str(files, "yarn.lock") {
        PackageManager::Yarn
    } else if contains_str(files, "bun.lockb") || contains_str(files, "bun.lock") {
        PackageManager::Bun
    } else {
        PackageManager::Pnpm
    }
}

fn first_of(a: Option<String>, b: Option<String>, c: Option<String>, d: Option<String>, fallback: &str) -> (r: String)
    ensures
        r@ == first_present(seq![a, b, c, d], fallback@),
{
    proof {
        let s = seq![a, b, c, d];
        reveal_with_fuel(first_present, 5);
        assert(s[0] == a && s[1] == b && s[2] == c && s[3] == d);
        assert(s.drop_first() =~= seq![b, c, d]);
        assert(s.drop_first().drop_first() =~= seq![c, d]);
        assert(s.drop_first().drop_first().drop_first() =~= seq![d]);
        assert(s.drop_first().drop_first().drop_first().drop_first() =~= Seq::<Option<String>>::empty());
    }
    match a {
        Some(v) => v,
        None => match b {
            Some(v) => v,
            None => match c {
                Some(v) => v,
                None => match d {
                    Some(v) => v,
                    None => owned(fallback),
                },
            },
        },
    }
}

/// The metadata of a project: each value from the override, else
/// `tauri.conf.json`, else `package.json`, else `src-tauri/Cargo.toml`, else
/// `tauri-app` and `0.0.0`; the package manager from the override, else from
/// the lockfiles among `files`.
pub fn detect_metadata(
    override_name: Option<String>,
    override_version: Option<String>,
    override_pm: Option<PackageManager>,
    files: &Vec<String>,
    package_json: Option<PackageJson>,
    cargo_toml: Option<CargoToml>,
    tauri_config: Option<TauriConfig>,
) -> (r: ProjectMetadata)
    ensures
        r.display_name@ == first_present(
            name_candidates(override_name, tauri_config, package_json, cargo_toml),
            "tauri-app"@,
        ),
        r.version@ == first_present(
            version_candidates(override_version, tauri_config, package_json, cargo_toml),
            "0.0.0"@,
        ),
        r.package_manager == match override_pm {
            Some(pm) => pm,
            None => detected_package_manager(views(files@)),
        },
{
    let package_manager = match override_pm {
        Some(pm) => pm,
        None => detect_package_manager(files),
    };
    let (tauri_name, tauri_version) = match tauri_config {
        Some(c) => (c.product_name, c.version),
        None => (None, None),
    };
    let (json_name, json_version) = match package_json {
        Some(p) => (p.name, p.version),
        None => (None, None),
    };
    let (cargo_name, cargo_version) = match cargo_toml {
        Some(c) => match c.package {
            Some(p) => (p.name, p.version),
            None => (None, None),
        },
        None => (None, None),
    };
    assert(name_candidates(override_name, tauri_config, package_json, cargo_toml) =~= seq![
        override_name,
        tauri_name,
        json_name,
        cargo_name,
    ]);
    assert(version_candidates(override_version, tauri_config, package_json, cargo_toml) =~= seq![
        override_version,
        tauri_version,
        json_version,
        cargo_version,
    ]);
    let display_name = first_of(override_name, tauri_name, json_name, cargo_name, "tauri-app");
    let version = first_of(override_version, tauri_version, json_version, cargo_version, "0.0.0");
    ProjectMetadata { display_name, version, package_manager }
}

} // verus!
