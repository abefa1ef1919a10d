use tauri_release::cli::{BuildArgs, Cli, CleanCacheArgs, Commands, ContainerEngine, InitArgs, PackageManager};
use tauri_release::config::{
    check_example_config_target, config_file_path, engine_from_serde, package_manager_from_serde,
    AndroidConfig, ArtifactConfig, BuildStrategy, ContainerConfig, ContainerEngineSerde,
    HostPlatformConfig, HostStrategy, LinuxConfig, OutputConfig, PackageManagerSerde,
    ProjectConfig, ReleaseConfig,
};
use tauri_release::env_map::EnvMap;
use tauri_release::error::ReleaseError;

#[test]
fn engine_executables() {
    assert_eq!(ContainerEngine::Podman.executable(), "podman");
    assert_eq!(ContainerEngine::Docker.executable(), "docker");
}

#[test]
fn package_manager_commands() {
    assert_eq!(PackageManager::Pnpm.tauri_command(), "pnpm tauri");
    assert_eq!(PackageManager::Npm.tauri_command(), "npm run tauri --");
    assert_eq!(PackageManager::Yarn.tauri_command(), "yarn tauri");
    assert_eq!(PackageManager::Bun.tauri_command(), "bun tauri");
    assert_eq!(PackageManager::Cargo.tauri_command(), "cargo tauri");
    assert_eq!(PackageManager::Pnpm.install_command(), "corepack enable && pnpm install --frozen-lockfile");
    assert_eq!(PackageManager::Npm.install_command(), "npm ci");
    assert_eq!(PackageManager::Yarn.install_command(), "corepack enable && yarn install --immutable");
    assert_eq!(PackageManager::Bun.install_command(), "bun install --frozen-lockfile");
    assert_eq!(PackageManager::Cargo.install_command(), "cargo fetch");
}

#[test]
fn missing_subcommand_means_build() {
    let mut build = BuildArgs::default();
    build.linux = true;
    let cli = Cli { command: None, build };
    match cli.resolved_command() {
        Commands::Build(args) => assert!(args.linux),
        _ => panic!("expected build"),
    }
    let cli = Cli {
        command: Some(Commands::Init(InitArgs { path: "x.toml".to_string(), force: true })),
        build: BuildArgs::default(),
    };
    match cli.resolved_command() {
        Commands::Init(args) => {
            assert_eq!(args.path, "x.toml");
            assert!(args.force);
        }
        _ => panic!("expected init"),
    }
    let cli = Cli {
        command: Some(Commands::CleanCache(CleanCacheArgs { cache_dir: None })),
        build: BuildArgs::default(),
    };
    assert!(matches!(cli.resolved_command(), Commands::CleanCache(_)));
}

#[test]
fn build_args_default_is_empty() {
    let a = BuildArgs::default();
    assert!(a.config.is_none() && a.project_dir.is_none() && a.output.is_none());
    assert!(a.engine.is_none() && a.package_manager.is_none());
    assert!(!a.linux && !a.android && !a.windows && !a.macos && !a.ios && !a.all);
    assert!(a.android_targets.is_empty() && a.tauri_args.is_empty());
    assert!(!a.dry_run && !a.verbose && !a.keep_output && !a.keep_workdir);
}

#[test]
fn release_config_defaults() {
    let c = ReleaseConfig::default();
    assert_eq!(c.project.project_dir, ".");
    assert!(c.project.package_manager.is_none());
    assert_eq!(c.project.env.len(), 0);
    assert_eq!(c.container.engine, ContainerEngineSerde::Podman);
    assert_eq!(c.container.linux_image, "ghcr.io/your-org/tauri-release-linux:latest");
    assert_eq!(c.container.android_image, "ghcr.io/your-org/tauri-release-android:latest");
    assert_eq!(c.container.windows_image, "ghcr.io/your-org/tauri-release-windows:latest");
    assert_eq!(c.container.macos_image, "ghcr.io/your-org/tauri-release-macos:latest");
    assert_eq!(c.container.ios_image, "ghcr.io/your-org/tauri-release-ios:latest");
    assert!(c.container.userns_keep_id);
    assert!(c.output.dir.is_none() && c.output.clean && c.output.sha256 && c.output.manifest);
    assert_eq!(
        c.artifacts.include_extensions,
        vec!["AppImage", "deb", "rpm", "exe", "msi", "zip", "dmg", "apk", "aab", "ipa", "sig", "json"]
    );
    assert_eq!(c.artifacts.include_files, vec!["latest.json", "release.json"]);
    assert!(!c.artifacts.keep_relative_paths && !c.artifacts.allow_empty);
    assert!(c.linux.enabled);
    assert_eq!(c.linux.strategy, BuildStrategy::Auto);
    assert_eq!(c.linux.bundles, vec!["appimage", "deb", "rpm"]);
    assert!(c.android.enabled && c.android.apk && c.android.aab && !c.android.split_per_abi);
    assert_eq!(c.android.strategy, BuildStrategy::Container);
    assert_eq!(c.android.targets, vec!["aarch64"]);
    assert!(!c.windows.enabled && !c.macos.enabled && !c.ios.enabled);
    assert_eq!(c.windows.command.as_deref(), Some("pnpm tauri build"));
    assert_eq!(c.macos.command.as_deref(), Some("pnpm tauri build"));
    assert_eq!(c.ios.command.as_deref(), Some("pnpm tauri ios build --ci"));
    assert_eq!(c.ios.strategy, BuildStrategy::HostOnly);
    assert_eq!(c.windows.strategy, BuildStrategy::HostOnly);
    assert_eq!(c.macos.strategy, BuildStrategy::HostOnly);
    assert!(c.windows.image.is_none() && c.macos.image.is_none() && c.ios.image.is_none());
}

#[test]
fn section_defaults() {
    assert!(!HostPlatformConfig::default().enabled);
    assert_eq!(HostPlatformConfig::default().strategy, BuildStrategy::Disabled);
    assert!(HostPlatformConfig::default().image.is_none());
    assert!(HostPlatformConfig::default().command.is_none());
    assert_eq!(HostPlatformConfig::windows_default().strategy, BuildStrategy::HostOnly);
    assert_eq!(HostPlatformConfig::macos_default().command.as_deref(), Some("pnpm tauri build"));
    assert_eq!(HostPlatformConfig::ios_default().command.as_deref(), Some("pnpm tauri ios build --ci"));
    assert_eq!(HostStrategy::default(), HostStrategy::Disabled);
    assert_eq!(ContainerEngineSerde::default(), ContainerEngineSerde::Podman);
    assert_eq!(ProjectConfig::default().project_dir, ".");
    assert!(ContainerConfig::default().network.is_none());
    assert!(OutputConfig::default().clean);
    assert_eq!(ArtifactConfig::default().include_files.len(), 2);
    assert!(LinuxConfig::default().command.is_none());
    assert!(AndroidConfig::default().image.is_none());
}

#[test]
fn host_strategy_in_general_form() {
    assert_eq!(HostStrategy::Disabled.build_strategy(), BuildStrategy::Disabled);
    assert_eq!(HostStrategy::HostOnly.build_strategy(), BuildStrategy::HostOnly);
}

#[test]
fn serde_enums_convert_both_ways() {
    assert_eq!(engine_from_serde(ContainerEngineSerde::Docker), ContainerEngine::Docker);
    assert_eq!(ContainerEngine::from(ContainerEngineSerde::Podman), ContainerEngine::Podman);
    assert_eq!(ContainerEngineSerde::from(ContainerEngine::Docker), ContainerEngineSerde::Docker);
    assert_eq!(package_manager_from_serde(PackageManagerSerde::Bun), PackageManager::Bun);
    assert_eq!(PackageManager::from(PackageManagerSerde::Yarn), PackageManager::Yarn);
    assert_eq!(PackageManagerSerde::from(PackageManager::Cargo), PackageManagerSerde::Cargo);
    assert_eq!(PackageManagerSerde::from(PackageManager::Npm), PackageManagerSerde::Npm);
}

#[test]
fn config_path_defaults_to_toml_in_cwd() {
    assert_eq!(config_file_path(None), "tauri-release.toml");
    assert_eq!(config_file_path(Some("release/x.toml".to_string())), "release/x.toml");
}

#[test]
fn init_refuses_existing_file_without_force() {
    assert!(check_example_config_target("a.toml", false, false).is_ok());
    assert!(check_example_config_target("a.toml", true, true).is_ok());
    let err = check_example_config_target("a.toml", true, false).unwrap_err();
    assert!(matches!(err, ReleaseError::ConfigExists { .. }));
    assert_eq!(err.message(), "a.toml already exists. Use --force to overwrite it.");
}

#[test]
fn env_map_orders_by_name_and_replaces() {
    let mut m = EnvMap::new();
    m.insert("B".to_string(), "2".to_string());
    m.insert("A".to_string(), "1".to_string());
    m.insert("C".to_string(), "3".to_string());
    m.insert("B".to_string(), "two".to_string());
    let entries: Vec<(String, String)> = m.entries().clone();
    assert_eq!(
        entries,
        vec![
            ("A".to_string(), "1".to_string()),
            ("B".to_string(), "two".to_string()),
            ("C".to_string(), "3".to_string()),
        ]
    );
    assert_eq!(m.len(), 3);
}

#[test]
fn env_map_orders_by_code_point() {
    let mut m = EnvMap::new();
    m.insert("a".to_string(), "x".to_string());
    m.insert("Z".to_string(), "y".to_string());
    m.insert("AB".to_string(), "z".to_string());
    m.insert("A".to_string(), "w".to_string());
    let keys: Vec<String> = m.entries().iter().map(|(k, _)| k.clone()).collect();
    assert_eq!(keys, vec!["A", "AB", "Z", "a"]);
}

#[test]
fn error_messages() {
    assert_eq!(ReleaseError::NoTargetSelected.message(), "no release target selected");
    assert_eq!(ReleaseError::LinuxDisabled.message(), "Linux build is disabled.");
    assert_eq!(ReleaseError::AndroidDisabled.message(), "Android build is disabled.");
    assert_eq!(ReleaseError::IosDisabled.message(), "iOS build is disabled.");
    assert_eq!(
        ReleaseError::MacosDisabled.message(),
        "macOS build is disabled. Enable [macos] strategy = 'host-only' in tauri-release.toml."
    );
    assert_eq!(
        ReleaseError::WindowsDisabled.message(),
        "windows build is disabled. Enable [windows] strategy = 'host-only' in tauri-release.toml."
    );
    assert_eq!(
        ReleaseError::MacosHostRequired.message(),
        "macOS Tauri bundles require a macOS host/runner for signing, DMG and notarization."
    );
    assert!(ReleaseError::WindowsHostRequired.message().starts_with("windows Tauri installer build requires a Windows host/runner."));
    assert_eq!(
        ReleaseError::NoArtifacts { platform: "linux".to_string() }.message(),
        "no release artifacts were collected for linux. Check the build output or set artifacts.allow_empty = true intentionally."
    );
    assert_eq!(
        ReleaseError::NoArtifactsSearched { platform: "ios".to_string(), searched: "a, b".to_string() }.message(),
        "no release artifacts were collected for ios. Searched: a, b. Check the build output or set artifacts.allow_empty = true intentionally."
    );
    assert_eq!(
        ReleaseError::ArtifactCollision { source: "s/x.deb".to_string(), destination: "o/x.deb".to_string() }.message(),
        "artifact collision: s/x.deb would overwrite o/x.deb. Enable artifacts.keep_relative_paths or make artifact names unique."
    );
    assert_eq!(
        ReleaseError::MissingFileName { path: "..".to_string() }.message(),
        "release artifact has no file name: .."
    );
}
