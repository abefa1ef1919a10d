//! The command-line surface: subcommands, build arguments, and the container
//! engines and package managers that a user can name.
use vstd::prelude::*;

verus! {

/// The parsed command line.
#[derive(Debug, Clone)]
pub struct Cli {
    /// The subcommand; none means `build`.
    pub command: Option<Commands>,
    /// Build arguments given without a subcommand.
    pub build: BuildArgs,
}

impl Cli {
    /// The subcommand to run: the one given, else `build` with the
    /// top-level build arguments.
    pub fn resolved_command(self) -> (r: Commands)
        ensures
            r == match self.command {
                Some(c) => c,
                None => Commands::Build(self.build),
            },
    {
        match self.command {
            Some(c) => c,
            None => Commands::Build(self.build),
        }
    }
}

/// The subcommands.
#[derive(Debug, Clone)]
pub enum Commands {
    /// Build release artifacts. This is also the default command.
    Build(BuildArgs),
    /// Print the resolved release plan without running containers.
    Plan(BuildArgs),
    /// Create a tauri-release.toml example config.
    Init(InitArgs),
    /// Remove shared tool/cache directories used by tauri-release.
    CleanCache(CleanCacheArgs),
}

/// Arguments of `build` and `plan`. Paths are held as strings.
#[derive(Debug, Clone)]
pub struct BuildArgs {
    /// Path to tauri-release.toml.
    pub config: Option<String>,
    /// Tauri app root.
    pub project_dir: Option<String>,
    /// Output directory. Defaults to dist/<version>.
    pub output: Option<String>,
    /// Container engine to use.
    pub engine: Option<ContainerEngine>,
    /// Package manager used by the Tauri frontend.
    pub package_manager: Option<PackageManager>,
    /// Build Linux desktop bundles.
    pub linux: bool,
    /// Build Android APK/AAB artifacts.
    pub android: bool,
    /// Build Windows artifacts.
    pub windows: bool,
    /// Build macOS artifacts.
    pub macos: bool,
    /// Build iOS artifacts.
    pub ios: bool,
    /// Build all supported targets from config.
    pub all: bool,
    /// Build APKs when Android is selected.
    pub apk: bool,
    /// Build AABs when Android is selected.
    pub aab: bool,
    /// Split Android APK/AAB per ABI.
    pub split_per_abi: bool,
    /// Android targets, for example: aarch64 armv7 i686 x86_64.
    pub android_targets: Vec<String>,
    /// Extra arguments passed to the Tauri CLI.
    pub tauri_args: Vec<String>,
    /// Do not remove the output directory before building.
    pub keep_output: bool,
    /// Print commands without executing them.
    pub dry_run: bool,
    /// Keep temporary container work directories where possible.
    pub keep_workdir: bool,
    /// Show container and build command output.
    pub verbose: bool,
}

impl Default for BuildArgs {
    /// No paths, no overrides, no flags and no repeated values.
    fn default() -> (r: Self)
        ensures
            r.config is None,
            r.project_dir is None,
            r.output is None,
            r.engine is None,
            r.package_manager is None,
            !r.linux && !r.android && !r.windows && !r.macos && !r.ios && !r.all,
            !r.apk && !r.aab && !r.split_per_abi,
            r.android_targets@.len() == 0,
            r.tauri_args@.len() == 0,
            !r.keep_output && !r.dry_run && !r.keep_workdir && !r.verbose,
    {
        BuildArgs {
            config: None,
            project_dir: None,
            output: None,
            engine: None,
            package_manager: None,
            linux: false,
            android: false,
            windows: false,
            macos: false,
            ios: false,
            all: false,
            apk: false,
            aab: false,
            split_per_abi: false,
            android_targets: Vec::new(),
            tauri_args: Vec::new(),
            keep_output: false,
            dry_run: false,
            keep_workdir: false,
            verbose: false,
        }
    }
}

/// Arguments of `init`.
#[derive(Debug, Clone)]
pub struct InitArgs {
    /// Config file path to create.
    pub path: String,
    /// Overwrite an existing config file.
    pub force: bool,
}

/// Arguments of `clean-cache`.
#[derive(Debug, Clone)]
pub struct CleanCacheArgs {
    /// Cache directory to remove. Defaults to the tauri-release cache root.
    pub cache_dir: Option<String>,
}

/// The container engines.
#[derive(Clone, Copy, Debug, PartialEq, Eq, Structural)]
pub enum ContainerEngine {
    Podman,
    Docker,
}

/// The executable of an engine.
pub open spec fn engine_executable(e: ContainerEngine) -> Seq<char> {
    match e {
        ContainerEngine::Podman => "podman"@,
        ContainerEngine::Docker => "docker"@,
    }
}

impl ContainerEngine {
    /// The engine's executable: `podman` or `docker`.
    pub fn executable(self) -> (r: &'static str)
        ensures
            r@ == engine_executable(self),
    {
        match self {
            ContainerEngine::Podman => "podman",
            ContainerEngine::Docker => "docker",
        }
    }
}

/// The frontend package managers.
#[derive(Clone, Copy, Debug, PartialEq, Eq, Structural)]
pub enum PackageManager {
    Pnpm,
    Npm,
    Yarn,
    Bun,
    Cargo,
}

/// The command that runs the Tauri CLI through a package manager.
pub open spec fn tauri_command_of(pm: PackageManager) -> Seq<char> {
    match pm {
        PackageManager::Pnpm => "pnpm tauri"@,
        PackageManager::Npm => "npm run tauri --"@,
        PackageManager::Yarn => "yarn tauri"@,
        PackageManager::Bun => "bun tauri"@,
        PackageManager::Cargo => "cargo tauri"@,
    }
}

/// The command that installs a project's dependencies with a package manager.
pub open spec fn install_command_of(pm: PackageManager) -> Seq<char> {
    match pm {
        PackageManager::Pnpm => "corepack enable && pnpm install --frozen-lockfile"@,
        PackageManager::Npm => "npm ci"@,
        PackageManager::Yarn => "corepack enable && yarn install --immutable"@,
        PackageManager::Bun => "bun install --frozen-lockfile"@,
        PackageManager::Cargo => "cargo fetch"@,
    }
}

impl PackageManager {
    /// The command prefix that runs the Tauri CLI.
    pub fn tauri_command(self) -> (r: &'static str)
        ensures
            r@ == tauri_command_of(self),
    {
        match self {
            PackageManager::Pnpm => "pnpm tauri",
            PackageManager::Npm => "npm run tauri --",
            PackageManager::Yarn => "yarn tauri",
            PackageManager::Bun => "bun tauri",
            PackageManager::Cargo => "cargo tauri",
        }
    }

    /// The command that installs dependencies reproducibly.
    pub fn install_command(self) -> (r: &'static str)
        ensures
            r@ == install_command_of(self),
    {
        match self {
            PackageManager::Pnpm => "corepack enable && pnpm install --frozen-lockfile",
            PackageManager::Npm => "npm ci",
            PackageManager::Yarn => "corepack enable && yarn install --immutable",
            PackageManager::Bun => "bun install --frozen-lockfile",
            PackageManager::Cargo => "cargo fetch",
        }
    }
}

} // verus!
