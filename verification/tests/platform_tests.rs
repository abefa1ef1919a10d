use tauri_release::cli::BuildArgs;
use tauri_release::config::{ArtifactConfig, BuildStrategy, ReleaseConfig};
use tauri_release::container::copy_artifact_script;
use tauri_release::context::{BuildContext, HostEnv};
use tauri_release::error::ReleaseError;
use tauri_release::platforms::android::ANDROID_EXPORTS;
use tauri_release::platforms::common::{
    add_source, bundles_arg, check_host_artifacts, extra_tauri_args, host_artifact_sources,
    shell_args, target_arg, BuildStep,
};
use tauri_release::platforms::{android, ios, linux, macos, windows};
use tauri_release::project::ProjectSources;
use tauri_release::util::HostStyle;

fn strings(v: &[&str]) -> Vec<String> {
    v.iter().map(|s| s.to_string()).collect()
}

fn ctx(args: BuildArgs, config: ReleaseConfig, os: &str) -> BuildContext {
    BuildContext::from_sources(
        args,
        config,
        ProjectSources { files: vec![], package_json: None, cargo_toml: None, tauri_config: None },
        HostEnv {
            cwd: "/r".to_string(),
            cache_dir_var: Some("/c".to_string()),
            home: None,
            user_profile: None,
            pid: 1,
            millis: 2,
            target_os: os.to_string(),
        },
    )
}

#[test]
fn bundles_and_targets_arguments() {
    assert_eq!(bundles_arg(&strings(&[]), HostStyle::Posix), "");
    assert_eq!(bundles_arg(&strings(&["deb", "rpm"]), HostStyle::Posix), " --bundles deb,rpm");
    assert_eq!(bundles_arg(&strings(&["a b", "c"]), HostStyle::Posix), " --bundles 'a b,c'");
    assert_eq!(target_arg(&strings(&[]), HostStyle::Posix), "");
    assert_eq!(target_arg(&strings(&["x86_64", "y z"]), HostStyle::Posix), " --target x86_64 'y z'");
    assert_eq!(shell_args(&strings(&["--a", "b c", ""]), HostStyle::Posix), "--a 'b c' ''");
    assert_eq!(shell_args(&strings(&[]), HostStyle::Posix), "");
}

#[test]
fn extra_tauri_arguments() {
    let c = ctx(BuildArgs::default(), ReleaseConfig::default(), "linux");
    assert_eq!(extra_tauri_args(&c), "");
    let mut args = BuildArgs::default();
    args.tauri_args = strings(&["--verbose", "--features", "a b"]);
    let c = ctx(args, ReleaseConfig::default(), "linux");
    assert_eq!(extra_tauri_args(&c), " --verbose --features 'a b'");
}

#[test]
fn sources_are_added_once() {
    let mut v = strings(&["a"]);
    add_source(&mut v, "b".to_string());
    add_source(&mut v, "a".to_string());
    add_source(&mut v, "b".to_string());
    assert_eq!(v, strings(&["a", "b"]));
}

#[test]
fn host_sources_of_android() {
    let c = ctx(BuildArgs::default(), ReleaseConfig::default(), "linux");
    let got = host_artifact_sources(&c, "android", &strings(&["aarch64-linux-android"]), &strings(&[]));
    assert_eq!(
        got,
        strings(&[
            "/c/android/cargo-target/release/bundle",
            "/c/android/cargo-target/aarch64-linux-android/release/bundle",
            "/r/./src-tauri/target/release/bundle",
            "/r/./src-tauri/gen/android/app/build/outputs",
            "/r/./dist/android",
        ])
    );
}

#[test]
fn host_sources_of_ios_and_linux() {
    let c = ctx(BuildArgs::default(), ReleaseConfig::default(), "macos");
    let got = host_artifact_sources(&c, "ios", &strings(&[]), &strings(&["release"]));
    assert_eq!(
        got,
        strings(&[
            "/c/ios/cargo-target/release/bundle",
            "/r/./src-tauri/target/release/bundle",
            "/r/./src-tauri/target/release/release/bundle",
            "/r/./src-tauri/gen/apple/build",
        ])
    );
    let got = host_artifact_sources(&c, "linux", &strings(&[]), &strings(&[]));
    assert_eq!(got.len(), 2);
}

#[test]
fn empty_host_builds_fail_with_searched_dirs() {
    let sources = strings(&["/a", "/b"]);
    assert!(check_host_artifacts("linux", &sources, 1, 0, false).is_ok());
    assert!(check_host_artifacts("linux", &sources, 0, 3, false).is_ok());
    assert!(check_host_artifacts("linux", &sources, 0, 0, true).is_ok());
    let err = check_host_artifacts("linux", &sources, 0, 0, false).unwrap_err();
    assert_eq!(
        err.message(),
        "no release artifacts were collected for linux. Searched: /a, /b. Check the build output or set artifacts.allow_empty = true intentionally."
    );
}

#[test]
fn linux_builds_on_a_linux_host() {
    let c = ctx(BuildArgs::default(), ReleaseConfig::default(), "linux");
    assert_eq!(linux::command(&c), "pnpm tauri build --bundles appimage,deb,rpm");
    match linux::build(&c).unwrap() {
        BuildStep::Host { command } => {
            assert_eq!(command.platform, "linux");
            assert_eq!(command.command_line, "pnpm tauri build --bundles appimage,deb,rpm");
        }
        _ => panic!("expected a host build"),
    }
}

#[test]
fn linux_builds_in_a_container_elsewhere() {
    let c = ctx(BuildArgs::default(), ReleaseConfig::default(), "macos");
    match linux::build(&c).unwrap() {
        BuildStep::Container { run, image_hint } => {
            assert_eq!(run.name, "tauri-release-1-2-linux");
            assert_eq!(run.image, "ghcr.io/your-org/tauri-release-linux:latest");
            assert_eq!(
                run.script,
                format!("\npnpm tauri build --bundles appimage,deb,rpm\n{}\n", copy_artifact_script("linux", &ArtifactConfig::default(), HostStyle::Posix))
            );
            assert!(image_hint.unwrap().contains("templates/Containerfile.linux"));
        }
        _ => panic!("expected a container build"),
    }
}

#[test]
fn linux_command_with_targets_and_extra_args() {
    let mut args = BuildArgs::default();
    args.tauri_args = strings(&["--verbose"]);
    let mut config = ReleaseConfig::default();
    config.linux.targets = strings(&["x86_64-unknown-linux-gnu"]);
    config.linux.bundles = strings(&["deb"]);
    config.linux.image = Some("acme/linux:1".to_string());
    config.linux.strategy = BuildStrategy::Container;
    let c = ctx(args, config, "linux");
    assert_eq!(
        linux::command(&c),
        "pnpm tauri build --target x86_64-unknown-linux-gnu --bundles deb --verbose"
    );
    match linux::build(&c).unwrap() {
        BuildStep::Container { run, image_hint } => {
            assert_eq!(run.image, "acme/linux:1");
            assert!(image_hint.is_none());
        }
        _ => panic!("expected a container build"),
    }
    let mut config = ReleaseConfig::default();
    config.linux.command = Some("make release".to_string());
    config.linux.strategy = BuildStrategy::Disabled;
    let c = ctx(BuildArgs::default(), config, "linux");
    assert_eq!(linux::command(&c), "make release");
    assert!(matches!(linux::build(&c), Err(ReleaseError::LinuxDisabled)));
}

#[test]
fn android_builds_in_a_container_by_default() {
    let mut args = BuildArgs::default();
    args.tauri_args = strings(&["--verbose"]);
    let c = ctx(args, ReleaseConfig::default(), "linux");
    assert_eq!(android::command(&c), "pnpm tauri android build --ci --apk --aab --target aarch64 --verbose");
    match android::build(&c).unwrap() {
        BuildStep::Container { run, image_hint } => {
            assert_eq!(run.image, "ghcr.io/your-org/tauri-release-android:latest");
            assert!(run.script.starts_with(ANDROID_EXPORTS));
            assert!(run.script.starts_with("\nexport ANDROID_HOME=\"${ANDROID_HOME:-/opt/android-sdk}\"\n"));
            assert!(run.script.contains("export NDK_HOME=\"${NDK_HOME:-$ANDROID_HOME/ndk/${ANDROID_NDK_VERSION:-27.0.11718014}}\"\n"));
            assert!(run.script.ends_with(&format!("--verbose\n{}\n", copy_artifact_script("android", &ArtifactConfig::default(), HostStyle::Posix))));
            assert!(image_hint.is_some());
        }
        _ => panic!("expected a container build"),
    }
}

#[test]
fn android_command_variants() {
    let mut config = ReleaseConfig::default();
    config.android.apk = false;
    config.android.split_per_abi = true;
    config.android.targets = vec![];
    config.android.strategy = BuildStrategy::HostOnly;
    let c = ctx(BuildArgs::default(), config, "linux");
    assert_eq!(android::command(&c), "pnpm tauri android build --ci --aab --split-per-abi");
    assert!(matches!(android::build(&c).unwrap(), BuildStep::Host { .. }));
    let mut config = ReleaseConfig::default();
    config.android.strategy = BuildStrategy::Disabled;
    let c = ctx(BuildArgs::default(), config, "linux");
    assert!(matches!(android::build(&c), Err(ReleaseError::AndroidDisabled)));
}

#[test]
fn ios_builds_on_the_host() {
    let c = ctx(BuildArgs::default(), ReleaseConfig::default(), "macos");
    assert_eq!(ios::command(&c), "pnpm tauri ios build --ci");
    match ios::build(&c).unwrap() {
        BuildStep::Host { command } => assert_eq!(command.platform, "ios"),
        _ => panic!("expected a host build"),
    }
    let mut config = ReleaseConfig::default();
    config.ios.command = None;
    config.ios.targets = strings(&["aarch64", "x86_64"]);
    let mut args = BuildArgs::default();
    args.tauri_args = strings(&["--open"]);
    let c = ctx(args, config, "macos");
    assert_eq!(ios::command(&c), "pnpm tauri ios build --ci --target aarch64 x86_64 --open");
    let mut config = ReleaseConfig::default();
    config.ios.strategy = BuildStrategy::Disabled;
    let c = ctx(BuildArgs::default(), config, "macos");
    assert!(matches!(ios::build(&c), Err(ReleaseError::IosDisabled)));
}

#[test]
fn ios_builds_in_a_container_when_asked_or_elsewhere() {
    let mut config = ReleaseConfig::default();
    config.ios.strategy = BuildStrategy::Auto;
    let c = ctx(BuildArgs::default(), config.clone(), "macos");
    assert!(matches!(ios::build(&c).unwrap(), BuildStep::Host { .. }));
    let c = ctx(BuildArgs::default(), config, "linux");
    match ios::build(&c).unwrap() {
        BuildStep::Container { run, image_hint } => {
            assert_eq!(run.name, "tauri-release-1-2-ios");
            assert_eq!(run.image, "ghcr.io/your-org/tauri-release-ios:latest");
            assert_eq!(
                run.script,
                format!("\npnpm tauri ios build --ci\n{}\n", copy_artifact_script("ios", &ArtifactConfig::default(), HostStyle::Posix))
            );
            assert!(image_hint.unwrap().contains("templates/Containerfile.ios"));
        }
        _ => panic!("expected a container build"),
    }
    let mut config = ReleaseConfig::default();
    config.ios.strategy = BuildStrategy::Container;
    config.ios.image = Some("acme/ios:2".to_string());
    let c = ctx(BuildArgs::default(), config, "macos");
    match ios::build(&c).unwrap() {
        BuildStep::Container { run, image_hint } => {
            assert_eq!(run.image, "acme/ios:2");
            assert!(image_hint.is_none());
        }
        _ => panic!("expected a container build"),
    }
}

#[test]
fn macos_needs_a_macos_host() {
    let c = ctx(BuildArgs::default(), ReleaseConfig::default(), "linux");
    assert!(matches!(macos::build(&c), Err(ReleaseError::MacosHostRequired)));
    let c = ctx(BuildArgs::default(), ReleaseConfig::default(), "macos");
    match macos::build(&c).unwrap() {
        BuildStep::HostProjectTree { command, source } => {
            assert_eq!(command.command_line, "pnpm tauri build");
            assert_eq!(command.platform, "macos");
            assert_eq!(source, "/r/.");
        }
        _ => panic!("expected a host build"),
    }
    let mut config = ReleaseConfig::default();
    config.macos.strategy = BuildStrategy::Disabled;
    let c = ctx(BuildArgs::default(), config, "macos");
    assert!(matches!(macos::build(&c), Err(ReleaseError::MacosDisabled)));
}

#[test]
fn windows_needs_a_windows_host() {
    let c = ctx(BuildArgs::default(), ReleaseConfig::default(), "macos");
    assert!(matches!(windows::build(&c), Err(ReleaseError::WindowsHostRequired)));
    let mut config = ReleaseConfig::default();
    config.windows.command = Some("npm run tauri -- build".to_string());
    let c = ctx(BuildArgs::default(), config, "windows");
    match windows::build(&c).unwrap() {
        BuildStep::HostProjectTree { command, .. } => {
            assert_eq!(command.command_line, "npm run tauri -- build");
        }
        _ => panic!("expected a host build"),
    }
    let mut config = ReleaseConfig::default();
    config.windows.strategy = BuildStrategy::Disabled;
    let c = ctx(BuildArgs::default(), config, "windows");
    assert!(matches!(windows::build(&c), Err(ReleaseError::WindowsDisabled)));
}

#[test]
fn desktop_platforms_follow_the_auto_table() {
    let mut config = ReleaseConfig::default();
    config.windows.strategy = BuildStrategy::Auto;
    config.macos.strategy = BuildStrategy::Auto;
    let on_windows = ctx(BuildArgs::default(), config.clone(), "windows");
    assert!(matches!(windows::build(&on_windows).unwrap(), BuildStep::HostProjectTree { .. }));
    match macos::build(&on_windows).unwrap() {
        BuildStep::Container { run, image_hint } => {
            assert_eq!(run.name, "tauri-release-1-2-macos");
            assert_eq!(run.image, "ghcr.io/your-org/tauri-release-macos:latest");
            assert_eq!(
                run.script,
                format!("\npnpm tauri build\n{}\n", copy_artifact_script("macos", &ArtifactConfig::default(), HostStyle::Windows))
            );
            assert!(image_hint.unwrap().contains("templates/Containerfile.macos"));
        }
        _ => panic!("expected a container build"),
    }
    let on_macos = ctx(BuildArgs::default(), config.clone(), "macos");
    assert!(matches!(macos::build(&on_macos).unwrap(), BuildStep::HostProjectTree { .. }));
    let on_linux = ctx(BuildArgs::default(), config, "linux");
    match windows::build(&on_linux).unwrap() {
        BuildStep::Container { run, image_hint } => {
            assert_eq!(run.image, "ghcr.io/your-org/tauri-release-windows:latest");
            assert_eq!(run.platform, "windows");
            assert!(image_hint.unwrap().contains("templates/Containerfile.windows"));
        }
        _ => panic!("expected a container build"),
    }
    let mut config = ReleaseConfig::default();
    config.windows.strategy = BuildStrategy::Container;
    config.windows.image = Some("acme/win:3".to_string());
    let c = ctx(BuildArgs::default(), config, "windows");
    match windows::build(&c).unwrap() {
        BuildStep::Container { run, image_hint } => {
            assert_eq!(run.image, "acme/win:3");
            assert!(image_hint.is_none());
        }
        _ => panic!("expected a container build"),
    }
}

#[test]
fn windows_hosts_quote_with_double_quotes() {
    assert_eq!(target_arg(&strings(&["x", "y z"]), HostStyle::Windows), " --target x \"y z\"");
    assert_eq!(bundles_arg(&strings(&["a b"]), HostStyle::Windows), " --bundles \"a b\"");
    let mut args = BuildArgs::default();
    args.tauri_args = strings(&["a b"]);
    let c = ctx(args, ReleaseConfig::default(), "windows");
    assert_eq!(extra_tauri_args(&c), " \"a b\"");
    match linux::build(&c).unwrap() {
        BuildStep::Container { run, .. } => {
            assert!(run.script.contains("pnpm tauri build --bundles appimage,deb,rpm \"a b\"\n"));
        }
        _ => panic!("expected a container build"),
    }
}
