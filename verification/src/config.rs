//! The release configuration (`tauri-release.toml`), its defaults, and the
//! build strategies of the platforms.
use vstd::prelude::*;

use crate::cli::{ContainerEngine, PackageManager};
use crate::env_map::EnvMap;
use crate::error::ReleaseError;
use crate::text::{owned, views};

verus! {

/// The whole release configuration.
#[derive(Debug, Clone)]
pub struct ReleaseConfig {
    pub project: ProjectConfig,
    pub container: ContainerConfig,
    pub output: OutputConfig,
    pub artifacts: ArtifactConfig,
    pub linux: LinuxConfig,
    pub android: AndroidConfig,
    pub windows: HostPlatformConfig,
    pub macos: HostPlatformConfig,
    pub ios: HostPlatformConfig,
}

/// `[project]`: where the app lives and how it is named and installed.
#[derive(Debug, Clone)]
pub struct ProjectConfig {
    pub project_dir: String,
    pub package_manager: Option<PackageManagerSerde>,
    pub install_command: Option<String>,
    pub app_name: Option<String>,
    pub version: Option<String>,
    pub env: EnvMap,
}

/// `[container]`: the engine, the shared cache and the default images.
#[derive(Debug, Clone)]
pub struct ContainerConfig {
    pub engine: ContainerEngineSerde,
    pub cache_dir: Option<String>,
    pub linux_image: String,
    pub android_image: String,
    pub windows_image: String,
    pub macos_image: String,
    pub ios_image: String,
    pub userns_keep_id: bool,
    pub network: Option<String>,
}

/// `[output]`: where the release goes and what is written beside it.
#[derive(Debug, Clone)]
pub struct OutputConfig {
    pub dir: Option<String>,
    pub clean: bool,
    pub sha256: bool,
    pub manifest: bool,
}

/// `[artifacts]`: which files count as release artifacts.
#[derive(Debug, Clone)]
pub struct ArtifactConfig {
    pub include_extensions: Vec<String>,
    pub include_files: Vec<String>,
    pub keep_relative_paths: bool,
    /// Accept a platform that produced no artifact.
    pub allow_empty: bool,
}

/// `[linux]`.
#[derive(Debug, Clone)]
pub struct LinuxConfig {
    pub enabled: bool,
    pub strategy: BuildStrategy,
    pub image: Option<String>,
    pub bundles: Vec<String>,
    pub targets: Vec<String>,
    pub command: Option<String>,
}

/// `[android]`.
#[derive(Debug, Clone)]
pub struct AndroidConfig {
    pub enabled: bool,
    pub strategy: BuildStrategy,
    pub image: Option<String>,
    pub apk: bool,
    pub aab: bool,
    pub split_per_abi: bool,
    pub targets: Vec<String>,
    pub command: Option<String>,
}

/// `[windows]`, `[macos]` and `[ios]`: platforms whose native toolchain
/// lives on a matching host, or in an image that provides it.
#[derive(Debug, Clone)]
pub struct HostPlatformConfig {
    pub enabled: bool,
    pub strategy: BuildStrategy,
    pub image: Option<String>,
    pub command: Option<String>,
    pub targets: Vec<String>,
}

/// How a platform build runs.
#[derive(Clone, Copy, Debug, PartialEq, Eq, Structural)]
pub enum BuildStrategy {
    /// On the host when it matches the platform, else in a container.
    Auto,
    /// Always in a container.
    Container,
    /// Always on the host.
    HostOnly,
    /// Refuse the platform.
    Disabled,
}

/// The two strategies of a platform that is only ever built where its
/// toolchain is installed: refused, or run on the host.
#[derive(Clone, Copy, Debug, PartialEq, Eq, Structural)]
pub enum HostStrategy {
    Disabled,
    HostOnly,
}

/// The container engine as written in the config file.
#[derive(Clone, Copy, Debug, PartialEq, Eq, Structural)]
pub enum ContainerEngineSerde {
    Podman,
    Docker,
}

/// The package manager as written in the config file.
#[derive(Clone, Copy, Debug, PartialEq, Eq, Structural)]
pub enum PackageManagerSerde {
    Pnpm,
    Npm,
    Yarn,
    Bun,
    Cargo,
}

/// The same strategy in the general form.
pub open spec fn host_to_build(s: HostStrategy) -> BuildStrategy {
    match s {
        HostStrategy::Disabled => BuildStrategy::Disabled,
        HostStrategy::HostOnly => BuildStrategy::HostOnly,
    }
}

impl HostStrategy {
    /// The same strategy in the general form.
    pub fn build_strategy(self) -> (r: BuildStrategy)
        ensures
            r == host_to_build(self),
    {
        match self {
            HostStrategy::Disabled => BuildStrategy::Disabled,
            HostStrategy::HostOnly => BuildStrategy::HostOnly,
        }
    }
}

impl Default for HostStrategy {
    fn default() -> (r: Self)
        ensures
            r == HostStrategy::Disabled,
    {
        HostStrategy::Disabled
    }
}

impl Default for ContainerEngineSerde {
    fn default() -> (r: Self)
        ensures
            r == ContainerEngineSerde::Podman,
    {
        ContainerEngineSerde::Podman
    }
}

impl From<ContainerEngineSerde> for ContainerEngine {
    fn from(value: ContainerEngineSerde) -> (r: Self) {
        match value {
            ContainerEngineSerde::Podman => ContainerEngine::Podman,
            ContainerEngineSerde::Docker => ContainerEngine::Docker,
        }
    }
}

impl vstd::std_specs::convert::FromSpecImpl<ContainerEngineSerde> for ContainerEngine {
    open spec fn obeys_from_spec() -> bool {
        true
    }

    open spec fn from_spec(v: ContainerEngineSerde) -> ContainerEngine {
        match v {
            ContainerEngineSerde::Podman => ContainerEngine::Podman,
            ContainerEngineSerde::Docker => ContainerEngine::Docker,
        }
    }
}

impl From<ContainerEngine> for ContainerEngineSerde {
    fn from(value: ContainerEngine) -> (r: Self) {
        match value {
            ContainerEngine::Podman => ContainerEngineSerde::Podman,
            ContainerEngine::Docker => ContainerEngineSerde::Docker,
        }
    }
}

impl vstd::std_specs::convert::FromSpecImpl<ContainerEngine> for ContainerEngineSerde {
    open spec fn obeys_from_spec() -> bool {
        true
    }

    open spec fn from_spec(v: ContainerEngine) -> ContainerEngineSerde {
        match v {
            ContainerEngine::Podman => ContainerEngineSerde::Podman,
            ContainerEngine::Docker => ContainerEngineSerde::Docker,
        }
    }
}

impl From<PackageManagerSerde> for PackageManager {
    fn from(value: PackageManagerSerde) -> (r: Self) {
        match value {
            PackageManagerSerde::Pnpm => PackageManager::Pnpm,
            PackageManagerSerde::Npm => PackageManager::Npm,
            PackageManagerSerde::Yarn => PackageManager::Yarn,
            PackageManagerSerde::Bun => PackageManager::Bun,
            PackageManagerSerde::Cargo => PackageManager::Cargo,
        }
    }
}

impl vstd::std_specs::convert::FromSpecImpl<PackageManagerSerde> for PackageManager {
    open spec fn obeys_from_spec() -> bool {
        true
    }

    open spec fn from_spec(v: PackageManagerSerde) -> PackageManager {
        match v {
            PackageManagerSerde::Pnpm => PackageManager::Pnpm,
            PackageManagerSerde::Npm => PackageManager::Npm,
            PackageManagerSerde::Yarn => PackageManager::Yarn,
            PackageManagerSerde::Bun => PackageManager::Bun,
            PackageManagerSerde::Cargo => PackageManager::Cargo,
        }
    }
}

impl From<PackageManager> for PackageManagerSerde {
    fn from(value: PackageManager) -> (r: Self) {
        match value {
            PackageManager::Pnpm => PackageManagerSerde::Pnpm,
            PackageManager::Npm => PackageManagerSerde::Npm,
            PackageManager::Yarn => PackageManagerSerde::Yarn,
            PackageManager::Bun => PackageManagerSerde::Bun,
            PackageManager::Cargo => PackageManagerSerde::Cargo,
        }
    }
}

impl vstd::std_specs::convert::FromSpecImpl<PackageManager> for PackageManagerSerde {
    open spec fn obeys_from_spec() -> bool {
        true
    }

    open spec fn from_spec(v: PackageManager) -> PackageManagerSerde {
        match v {
            PackageManager::Pnpm => PackageManagerSerde::Pnpm,
            PackageManager::Npm => PackageManagerSerde::Npm,
            PackageManager::Yarn => PackageManagerSerde::Yarn,
            PackageManager::Bun => PackageManagerSerde::Bun,
            PackageManager::Cargo => PackageManagerSerde::Cargo,
        }
    }
}

/// The config file's engine as an engine.
pub open spec fn engine_of(v: ContainerEngineSerde) -> ContainerEngine {
    match v {
        ContainerEngineSerde::Podman => ContainerEngine::Podman,
        ContainerEngineSerde::Docker => ContainerEngine::Docker,
    }
}

/// The engine as written in the config file.
pub open spec fn engine_serde_of(v: ContainerEngine) -> ContainerEngineSerde {
    match v {
        ContainerEngine::Podman => ContainerEngineSerde::Podman,
        ContainerEngine::Docker => ContainerEngineSerde::Docker,
    }
}

/// The config file's package manager as a package manager.
pub open spec fn package_manager_of(v: PackageManagerSerde) -> PackageManager {
    match v {
        PackageManagerSerde::Pnpm => PackageManager::Pnpm,
        PackageManagerSerde::Npm => PackageManager::Npm,
        PackageManagerSerde::Yarn => PackageManager::Yarn,
        PackageManagerSerde::Bun => PackageManager::Bun,
        PackageManagerSerde::Cargo => PackageManager::Cargo,
    }
}

/// The package manager as written in the config file.
pub open spec fn package_manager_serde_of(v: PackageManager) -> PackageManagerSerde {
    match v {
        PackageManager::Pnpm => PackageManagerSerde::Pnpm,
        PackageManager::Npm => PackageManagerSerde::Npm,
        PackageManager::Yarn => PackageManagerSerde::Yarn,
        PackageManager::Bun => PackageManagerSerde::Bun,
        PackageManager::Cargo => PackageManagerSerde::Cargo,
    }
}

/// The engine named in the config file.
pub fn engine_from_serde(v: ContainerEngineSerde) -> (r: ContainerEngine)
    ensures
        r == engine_of(v),
{
    ContainerEngine::from(v)
}

/// The package manager named in the config file.
pub fn package_manager_from_serde(v: PackageManagerSerde) -> (r: PackageManager)
    ensures
        r == package_manager_of(v),
{
    PackageManager::from(v)
}

/// A vector of owned strings with the given views, built from literals.
fn strings2(a: &str, b: &str) -> (r: Vec<String>)
    ensures
        views(r@) == seq![a@, b@],
{
    let mut r: Vec<String> = Vec::new();
    r.push(owned(a));
    r.push(owned(b));
    assert(views(r@) =~= seq![a@, b@]);
    r
}

impl Default for ProjectConfig {
    fn default() -> (r: Self)
        ensures
            r.project_dir@ == "."@,
            r.package_manager is None,
            r.install_command is None,
            r.app_name is None,
            r.version is None,
            r.env@.len() == 0,
    {
        ProjectConfig {
            project_dir: owned("."),
            package_manager: None,
            install_command: None,
            app_name: None,
            version: None,
            env: EnvMap::new(),
        }
    }
}

impl Default for ContainerConfig {
    fn default() -> (r: Self)
        ensures
            r.engine == ContainerEngineSerde::Podman,
            r.cache_dir is None,
            r.linux_image@ == "ghcr.io/your-org/tauri-release-linux:latest"@,
            r.android_image@ == "ghcr.io/your-org/tauri-release-android:latest"@,
            r.windows_image@ == "ghcr.io/your-org/tauri-release-windows:latest"@,
            r.macos_image@ == "ghcr.io/your-org/tauri-release-macos:latest"@,
            r.ios_image@ == "ghcr.io/your-org/tauri-release-ios:latest"@,
            r.userns_keep_id,
            r.network is None,
    {
        ContainerConfig {
            engine: ContainerEngineSerde::Podman,
            cache_dir: None,
            linux_image: owned("ghcr.io/your-org/tauri-release-linux:latest"),
            android_image: owned("ghcr.io/your-org/tauri-release-android:latest"),
            windows_image: owned("ghcr.io/your-org/tauri-release-windows:latest"),
            macos_image: owned("ghcr.io/your-org/tauri-release-macos:latest"),
            ios_image: owned("ghcr.io/your-org/tauri-release-ios:latest"),
            userns_keep_id: true,
            network: None,
        }
    }
}

impl Default for OutputConfig {
    fn default() -> (r: Self)
        ensures
            r.dir is None,
            r.clean,
            r.sha256,
            r.manifest,
    {
        OutputConfig { dir: None, clean: true, sha256: true, manifest: true }
    }
}

/// The file extensions collected by default.
pub open spec fn default_extensions() -> Seq<Seq<char>> {
    seq![
        "AppImage"@,
        "deb"@,
        "rpm"@,
        "exe"@,
        "msi"@,
        "zip"@,
        "dmg"@,
        "apk"@,
        "aab"@,
        "ipa"@,
        "sig"@,
        "json"@,
    ]
}

impl Default for ArtifactConfig {
    fn default() -> (r: Self)
        ensures
            views(r.include_extensions@) == default_extensions(),
            views(r.include_files@) == seq!["latest.json"@, "release.json"@],
            !r.keep_relative_paths,
            !r.allow_empty,
    {
        let mut ext: Vec<String> = Vec::new();
        ext.push(owned("AppImage"));
        ext.push(owned("deb"));
        ext.push(owned("rpm"));
        ext.push(owned("exe"));
        ext.push(owned("msi"));
        ext.push(owned("zip"));
        ext.push(owned("dmg"));
        ext.push(owned("apk"));
        ext.push(owned("aab"));
        ext.push(owned("ipa"));
        ext.push(owned("sig"));
        ext.push(owned("json"));
        assert(views(ext@) =~= default_extensions());
        ArtifactConfig {
            include_extensions: ext,
            include_files: strings2("latest.json", "release.json"),
            keep_relative_paths: false,
            allow_empty: false,
        }
    }
}

impl Default for LinuxConfig {
    fn default() -> (r: Self)
        ensures
            r.enabled,
            r.strategy == BuildStrategy::Auto,
            r.image is None,
            views(r.bundles@) == seq!["appimage"@, "deb"@, "rpm"@],
            r.targets@.len() == 0,
            r.command is None,
    {
        let mut bundles: Vec<String> = Vec::new();
        bundles.push(owned("appimage"));
        bundles.push(owned("deb"));
        bundles.push(owned("rpm"));
        assert(views(bundles@) =~= seq!["appimage"@, "deb"@, "rpm"@]);
        LinuxConfig {
            enabled: true,
            strategy: BuildStrategy::Auto,
            image: None,
            bundles,
            targets: Vec::new(),
            command: None,
        }
    }
}

impl Default for AndroidConfig {
    fn default() -> (r: Self)
        ensures
            r.enabled,
            r.strategy == BuildStrategy::Container,
            r.image is None,
            r.apk,
            r.aab,
            !r.split_per_abi,
            views(r.targets@) == seq!["aarch64"@],
            r.command is None,
    {
        let mut targets: Vec<String> = Vec::new();
        targets.push(owned("aarch64"));
        assert(views(targets@) =~= seq!["aarch64"@]);
        AndroidConfig {
            enabled: true,
            strategy: BuildStrategy::Container,
            image: None,
            apk: true,
            aab: true,
            split_per_abi: false,
            targets,
            command: None,
        }
    }
}

impl Default for HostPlatformConfig {
    fn default() -> (r: Self)
        ensures
            !r.enabled,
            r.strategy == BuildStrategy::Disabled,
            r.image is None,
            r.command is None,
            r.targets@.len() == 0,
    {
        HostPlatformConfig {
            enabled: false,
            strategy: BuildStrategy::Disabled,
            image: None,
            command: None,
            targets: Vec::new(),
        }
    }
}

impl HostPlatformConfig {
    /// Windows: off, built on the host with `pnpm tauri build`.
    pub fn windows_default() -> (r: Self)
        ensures
            !r.enabled,
            r.strategy == BuildStrategy::HostOnly,
            r.image is None,
            r.command matches Some(c) && c@ == "pnpm tauri build"@,
            r.targets@.len() == 0,
    {
        HostPlatformConfig {
            enabled: false,
            strategy: BuildStrategy::HostOnly,
            image: None,
            command: Some(owned("pnpm tauri build")),
            targets: Vec::new(),
        }
    }

    /// macOS: off, built on the host with `pnpm tauri build`.
    pub fn macos_default() -> (r: Self)
        ensures
            !r.enabled,
            r.strategy == BuildStrategy::HostOnly,
            r.image is None,
            r.command matches Some(c) && c@ == "pnpm tauri build"@,
            r.targets@.len() == 0,
    {
        HostPlatformConfig {
            enabled: false,
            strategy: BuildStrategy::HostOnly,
            image: None,
            command: Some(owned("pnpm tauri build")),
            targets: Vec::new(),
        }
    }

    /// iOS: off, built on the host with `pnpm tauri ios build --ci`.
    pub fn ios_default() -> (r: Self)
        ensures
            !r.enabled,
            r.strategy == BuildStrategy::HostOnly,
            r.image is None,
            r.command matches Some(c) && c@ == "pnpm tauri ios build --ci"@,
            r.targets@.len() == 0,
    {
        HostPlatformConfig {
            enabled: false,
            strategy: BuildStrategy::HostOnly,
            image: None,
            command: Some(owned("pnpm tauri ios build --ci")),
            targets: Vec::new(),
        }
    }
}

impl Default for ReleaseConfig {
    /// Every section at its default; Windows, macOS and iOS at their
    /// platform defaults.
    fn default() -> (r: Self)
        ensures
            r.project.project_dir@ == "."@,
            r.project.package_manager is None,
            r.project.install_command is None,
            r.project.app_name is None,
            r.project.version is None,
            r.project.env@.len() == 0,
            r.container.engine == ContainerEngineSerde::Podman,
            r.container.cache_dir is None,
            r.container.linux_image@ == "ghcr.io/your-org/tauri-release-linux:latest"@,
            r.container.android_image@ == "ghcr.io/your-org/tauri-release-android:latest"@,
            r.container.windows_image@ == "ghcr.io/your-org/tauri-release-windows:latest"@,
            r.container.macos_image@ == "ghcr.io/your-org/tauri-release-macos:latest"@,
            r.container.ios_image@ == "ghcr.io/your-org/tauri-release-ios:latest"@,
            r.container.userns_keep_id,
            r.container.network is None,
            r.output.dir is None,
            r.output.clean && r.output.sha256 && r.output.manifest,
            views(r.artifacts.include_extensions@) == default_extensions(),
            views(r.artifacts.include_files@) == seq!["latest.json"@, "release.json"@],
            !r.artifacts.keep_relative_paths && !r.artifacts.allow_empty,
            r.linux.enabled && r.linux.strategy == BuildStrategy::Auto,
            r.linux.image is None && r.linux.command is None,
            views(r.linux.bundles@) == seq!["appimage"@, "deb"@, "rpm"@],
            r.linux.targets@.len() == 0,
            r.android.enabled && r.android.strategy == BuildStrategy::Container,
            r.android.image is None && r.android.command is None,
            r.android.apk && r.android.aab && !r.android.split_per_abi,
            views(r.android.targets@) == seq!["aarch64"@],
            !r.windows.enabled && r.windows.strategy == BuildStrategy::HostOnly,
            r.windows.command matches Some(c) && c@ == "pnpm tauri build"@,
            !r.macos.enabled && r.macos.strategy == BuildStrategy::HostOnly,
            r.macos.command matches Some(c) && c@ == "pnpm tauri build"@,
            !r.ios.enabled && r.ios.strategy == BuildStrategy::HostOnly,
            r.ios.command matches Some(c) && c@ == "pnpm tauri ios build --ci"@,
            r.windows.targets@.len() == 0 && r.macos.targets@.len() == 0 && r.ios.targets@.len()
                == 0,
            r.windows.image is None && r.macos.image is None && r.ios.image is None,
    {
        ReleaseConfig {
            project: ProjectConfig::default(),
            container: ContainerConfig::default(),
            output: OutputConfig::default(),
            artifacts: ArtifactConfig::default(),
            linux: LinuxConfig::default(),
            android: AndroidConfig::default(),
            windows: HostPlatformConfig::windows_default(),
            macos: HostPlatformConfig::macos_default(),
            ios: HostPlatformConfig::ios_default(),
        }
    }
}

/// The config file read when no path is given.
pub open spec fn config_file_path_spec(path: Option<Seq<char>>) -> Seq<char> {
    match path {
        Some(p) => p,
        None => "tauri-release.toml"@,
    }
}

/// The config file to read: the given path, else `tauri-release.toml`.
pub fn config_file_path(path: Option<String>) -> (r: String)
    ensures
        r@ == config_file_path_spec(crate::util::opt_view(path)),
{
    match path {
        Some(p) => p,
        None => owned("tauri-release.toml"),
    }
}

/// Whether `init` may write its example config to `path`: it may unless the
/// file exists and `force` is off.
pub fn check_example_config_target(path: &str, present: bool, force: bool) -> (r: Result<
    (),
    ReleaseError,
>)
    ensures
        r.is_ok() == (!present || force),
        r matches Err(e) ==> e matches ReleaseError::ConfigExists { path: p } && p@ == path@,
{
    if present && !force {
        Err(ReleaseError::ConfigExists { path: owned(path) })
    } else {
        Ok(())
    }
}

} // verus!
