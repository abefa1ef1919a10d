use tauri_release::cli::{BuildArgs, ContainerEngine, PackageManager};
use tauri_release::config::{ArtifactConfig, BuildStrategy, ContainerEngineSerde, PackageManagerSerde, ReleaseConfig};
use tauri_release::container::{
    container_args, copy_artifact_script, ensure_image_hint, find_filter, wrap_script, ContainerRun,
};
use tauri_release::context::{apply_build_args, BuildContext, HostEnv, SelectedPlatforms};
use tauri_release::host::{host_command, resolve_strategy};
use tauri_release::project::{PackageJson, ProjectSources};
use tauri_release::release::{plan_release, ReleaseStage};
use tauri_release::util::HostStyle;

fn env(os: &str) -> HostEnv {
    HostEnv {
        cwd: "/work/app".to_string(),
        cache_dir_var: None,
        home: Some("/home/u".to_string()),
        user_profile: None,
        pid: 7,
        millis: 99,
        target_os: os.to_string(),
    }
}

fn no_sources() -> ProjectSources {
    ProjectSources { files: vec![], package_json: None, cargo_toml: None, tauri_config: None }
}

fn ctx(args: BuildArgs, config: ReleaseConfig, os: &str) -> BuildContext {
    BuildContext::from_sources(args, config, no_sources(), env(os))
}

#[test]
fn context_defaults() {
    let c = ctx(BuildArgs::default(), ReleaseConfig::default(), "linux");
    assert_eq!(c.root_dir, "/work/app");
    assert_eq!(c.project_dir, ".");
    assert_eq!(c.output_dir, "/work/app/dist/0.0.0");
    assert_eq!(c.cache_dir, "/home/u/.cache/tauri-release");
    assert_eq!(c.engine, ContainerEngine::Podman);
    assert_eq!(c.session_prefix, "tauri-release-7-99");
    assert_eq!(c.metadata.display_name, "tauri-app");
    assert_eq!(c.metadata.package_manager, PackageManager::Pnpm);
    assert_eq!(c.host_os, "linux");
}

#[test]
fn release_goes_to_dist_version() {
    let sources = ProjectSources {
        files: vec!["yarn.lock".to_string()],
        package_json: Some(PackageJson { name: Some("app".to_string()), version: Some("1.4.0".to_string()) }),
        cargo_toml: None,
        tauri_config: None,
    };
    let c = BuildContext::from_sources(BuildArgs::default(), ReleaseConfig::default(), sources, env("linux"));
    assert_eq!(c.output_dir, "/work/app/dist/1.4.0");
    assert_eq!(c.metadata.display_name, "app");
    assert_eq!(c.metadata.package_manager, PackageManager::Yarn);
}

#[test]
fn command_line_overrides_config() {
    let mut args = BuildArgs::default();
    args.project_dir = Some("apps/desktop".to_string());
    args.package_manager = Some(PackageManager::Npm);
    args.engine = Some(ContainerEngine::Docker);
    args.output = Some("out".to_string());
    args.keep_output = true;
    args.split_per_abi = true;
    args.android_targets = vec!["armv7".to_string(), "x86_64".to_string()];
    let mut config = ReleaseConfig::default();
    config.android.apk = false;
    config.container.cache_dir = Some("/var/cache/tr".to_string());
    let c = ctx(args, config, "linux");
    assert_eq!(c.project_dir, "apps/desktop");
    assert_eq!(c.config.project.package_manager, Some(PackageManagerSerde::Npm));
    assert_eq!(c.metadata.package_manager, PackageManager::Npm);
    assert_eq!(c.engine, ContainerEngine::Docker);
    assert_eq!(c.config.container.engine, ContainerEngineSerde::Docker);
    assert_eq!(c.output_dir, "/work/app/out");
    assert!(!c.config.output.clean);
    assert!(!c.config.android.apk);
    assert!(c.config.android.aab);
    assert!(c.config.android.split_per_abi);
    assert_eq!(c.config.android.targets, vec!["armv7", "x86_64"]);
    assert_eq!(c.cache_dir, "/var/cache/tr");
}

#[test]
fn package_flags_choose_the_package_types() {
    let mut args = BuildArgs::default();
    args.android = true;
    args.apk = true;
    let merged = apply_build_args(ReleaseConfig::default(), &args);
    assert!(merged.android.apk);
    assert!(!merged.android.aab);
    assert_eq!(merged.android.targets, vec!["aarch64"]);
    let mut args = BuildArgs::default();
    args.aab = true;
    let merged = apply_build_args(ReleaseConfig::default(), &args);
    assert!(!merged.android.apk);
    assert!(merged.android.aab);
    let mut args = BuildArgs::default();
    args.apk = true;
    args.aab = true;
    let mut config = ReleaseConfig::default();
    config.android.apk = false;
    config.android.aab = false;
    let merged = apply_build_args(config, &args);
    assert!(merged.android.apk && merged.android.aab);
    let mut config = ReleaseConfig::default();
    config.android.apk = false;
    let merged = apply_build_args(config, &BuildArgs::default());
    assert!(!merged.android.apk && merged.android.aab);
}

#[test]
fn selection_uses_config_without_flags() {
    let c = ctx(BuildArgs::default(), ReleaseConfig::default(), "linux");
    let s = c.selected_platforms();
    assert!(s.linux && s.android && !s.windows && !s.macos && !s.ios);
    assert_eq!(c.selected_platform_names(), vec!["linux", "android"]);
}

#[test]
fn selection_uses_flags_when_given() {
    let mut args = BuildArgs::default();
    args.ios = true;
    args.linux = true;
    let c = ctx(args, ReleaseConfig::default(), "linux");
    assert_eq!(c.selected_platform_names(), vec!["linux", "ios"]);
    let mut args = BuildArgs::default();
    args.ios = true;
    args.all = true;
    let c = ctx(args, ReleaseConfig::default(), "linux");
    assert_eq!(c.selected_platform_names(), vec!["linux", "android"]);
}

#[test]
fn empty_selection() {
    let none = SelectedPlatforms { linux: false, android: false, windows: false, macos: false, ios: false };
    assert!(none.is_empty());
    let one = SelectedPlatforms { linux: false, android: false, windows: false, macos: true, ios: false };
    assert!(!one.is_empty());
}

#[test]
fn platform_output_dirs() {
    let c = ctx(BuildArgs::default(), ReleaseConfig::default(), "linux");
    assert_eq!(c.platform_output_dir("android"), "/work/app/dist/0.0.0/android");
}

#[test]
fn strategy_table_of_the_readme() {
    for os in ["linux", "windows", "macos"] {
        for platform in ["linux", "windows", "macos", "ios", "android"] {
            let host = (platform == os) || (os == "macos" && platform == "ios");
            let expected = if host { BuildStrategy::HostOnly } else { BuildStrategy::Container };
            assert_eq!(resolve_strategy(BuildStrategy::Auto, platform, os), expected);
        }
    }
    assert_eq!(resolve_strategy(BuildStrategy::Container, "linux", "linux"), BuildStrategy::Container);
    assert_eq!(resolve_strategy(BuildStrategy::HostOnly, "android", "linux"), BuildStrategy::HostOnly);
    assert_eq!(resolve_strategy(BuildStrategy::Disabled, "linux", "linux"), BuildStrategy::Disabled);
}

#[test]
fn host_command_environment() {
    let mut config = ReleaseConfig::default();
    config.project.env.insert("Z_VAR".to_string(), "z".to_string());
    config.project.env.insert("A_VAR".to_string(), "a".to_string());
    let c = ctx(BuildArgs::default(), config, "linux");
    let h = host_command(&c, "linux", "pnpm tauri build");
    assert_eq!(h.platform, "linux");
    assert_eq!(h.output_dir, "/work/app/dist/0.0.0/linux");
    assert_eq!(h.working_dir, "/work/app/.");
    assert_eq!(h.command_line, "pnpm tauri build");
    assert!(!h.dry_run);
    let expected: Vec<(String, String)> = vec![
        ("TAURI_RELEASE_OUT", "/work/app/dist/0.0.0/linux"),
        ("CARGO_TARGET_DIR", "/home/u/.cache/tauri-release/linux/cargo-target"),
        ("GRADLE_USER_HOME", "/home/u/.cache/tauri-release/linux/gradle"),
        ("PNPM_STORE_DIR", "/home/u/.cache/tauri-release/linux/pnpm-store"),
        ("A_VAR", "a"),
        ("Z_VAR", "z"),
    ]
    .into_iter()
    .map(|(k, v)| (k.to_string(), v.to_string()))
    .collect();
    assert_eq!(h.env, expected);
}

const EXPECTED_WRAP_HEAD: &str = "
set -euo pipefail
mkdir -p /work/project
# Copy source into disposable container workspace. The host project stays read-only.
tar -C /src -cf - . | tar -C /work/project -xf -
cd /work/project/";

#[test]
fn wrapped_script() {
    let c = ctx(BuildArgs::default(), ReleaseConfig::default(), "linux");
    let s = wrap_script(&c, "echo body");
    let expected = format!(
        "{}{}{}",
        EXPECTED_WRAP_HEAD,
        ".",
        "\nexport PATH=\"$HOME/.cargo/bin:$PATH\"\nexport CARGO_HOME=\"${CARGO_HOME:-/cache/cargo-home}\"\nexport CARGO_TARGET_DIR=\"${CARGO_TARGET_DIR:-/cache/cargo-target}\"\nexport GRADLE_USER_HOME=\"${GRADLE_USER_HOME:-/cache/gradle}\"\nexport PNPM_STORE_DIR=\"${PNPM_STORE_DIR:-/cache/pnpm-store}\"\ncorepack enable && pnpm install --frozen-lockfile\necho body\n"
    );
    assert_eq!(s, expected);
}

#[test]
fn wrapped_script_quotes_project_dir_and_uses_configured_install() {
    let mut args = BuildArgs::default();
    args.project_dir = Some("apps\\my app".to_string());
    let mut config = ReleaseConfig::default();
    config.project.install_command = Some("make deps".to_string());
    let c = ctx(args, config, "linux");
    let s = wrap_script(&c, "true");
    assert!(s.contains("cd /work/project/'apps/my app'\n"));
    assert!(s.ends_with("\nmake deps\ntrue\n"));
}

#[test]
fn artifact_copy_script() {
    let config = ArtifactConfig::default();
    let s = copy_artifact_script("linux", &config, HostStyle::Posix);
    assert_eq!(
        s,
        [
            "\nmkdir -p /out\n",
            "find . -type f \\( -false -o -name latest.json -o -name release.json",
            " -o -iname '*.AppImage' -o -iname '*-AppImage'",
            " -o -iname '*.deb' -o -iname '*-deb'",
            " -o -iname '*.rpm' -o -iname '*-rpm'",
            " -o -iname '*.exe' -o -iname '*-exe'",
            " -o -iname '*.msi' -o -iname '*-msi'",
            " -o -iname '*.zip' -o -iname '*-zip'",
            " -o -iname '*.dmg' -o -iname '*-dmg'",
            " -o -iname '*.apk' -o -iname '*-apk'",
            " -o -iname '*.aab' -o -iname '*-aab'",
            " -o -iname '*.ipa' -o -iname '*-ipa'",
            " -o -iname '*.sig' -o -iname '*-sig'",
            " -o -iname '*.json' -o -iname '*-json'",
            " \\) -print0 | while IFS= read -r -d '' file; do\n",
            "  base=\"$(basename \"$file\")\"\n",
            "  cp -f \"$file\" \"/out/$base\"\n",
            "  echo \"artifact:linux:$base\"\n",
            "done\n",
        ]
        .concat()
    );
    let q = copy_artifact_script("a b", &config, HostStyle::Posix);
    assert!(q.ends_with("  echo \"artifact:'a b':$base\"\ndone\n"));
}

#[test]
fn artifact_filter_follows_the_config() {
    let mut config = ArtifactConfig::default();
    config.include_files = vec!["SHA[1]?.txt".to_string(), "it's".to_string()];
    config.include_extensions = vec!["..Tar.GZ".to_string(), "a*b".to_string()];
    assert_eq!(
        find_filter(&config),
        "\\( -false -o -name 'SHA\\[1\\]\\?.txt' -o -name 'it'\\''s' -o -iname '*.Tar.GZ' -o -iname '*-Tar.GZ' -o -iname '*.a\\*b' -o -iname '*-a\\*b' \\)"
    );
    config.include_files = vec![];
    config.include_extensions = vec![];
    assert_eq!(find_filter(&config), "\\( -false \\)");
}

#[test]
fn placeholder_images_get_a_hint() {
    assert_eq!(
        ensure_image_hint("ghcr.io/your-org/tauri-release-linux:latest", "templates/Containerfile.linux"),
        Some("hint: image 'ghcr.io/your-org/tauri-release-linux:latest' is a placeholder. Build it from templates/Containerfile.linux or override it in tauri-release.toml.".to_string())
    );
    assert_eq!(ensure_image_hint("ghcr.io/acme/linux:1", "templates/Containerfile.linux"), None);
}

#[test]
fn container_run_names_and_env() {
    let c = ctx(BuildArgs::default(), ReleaseConfig::default(), "linux");
    let run = ContainerRun::new(&c, "android", "img".to_string(), "script".to_string());
    assert_eq!(run.name, "tauri-release-7-99-android");
    assert_eq!(run.platform, "android");
    let run = run.env("K".to_string(), "v1".to_string()).env("K".to_string(), "v2".to_string());
    assert_eq!(run.env.entries().clone(), vec![("K".to_string(), "v2".to_string())]);
    assert!(run.name.starts_with(&c.session_prefix));
}

#[test]
fn container_arguments() {
    let mut config = ReleaseConfig::default();
    config.container.network = Some("host".to_string());
    config.project.env.insert("API".to_string(), "1".to_string());
    let c = ctx(BuildArgs::default(), config, "linux");
    let run = ContainerRun::new(&c, "linux", "img:1".to_string(), "echo hi".to_string())
        .env("EXTRA".to_string(), "x".to_string());
    let args = container_args(&c, &run);
    let expected_head: Vec<&str> = vec![
        "run",
        "--rm",
        "--name",
        "tauri-release-7-99-linux",
        "--userns=keep-id",
        "--network",
        "host",
        "-v",
        "/work/app:/src:ro,z",
        "-v",
        "/work/app/dist/0.0.0/linux:/out:z",
        "-v",
        "/home/u/.cache/tauri-release/linux:/cache:z",
        "-e",
        "CI=true",
        "-e",
        "CARGO_HOME=/cache/cargo-home",
        "-e",
        "CARGO_TARGET_DIR=/cache/cargo-target",
        "-e",
        "GRADLE_USER_HOME=/cache/gradle",
        "-e",
        "PNPM_STORE_DIR=/cache/pnpm-store",
        "-e",
        "API=1",
        "-e",
        "EXTRA=x",
        "-w",
        "/work",
        "img:1",
        "bash",
        "-lc",
    ];
    assert_eq!(args.len(), expected_head.len() + 1);
    assert_eq!(&args[..expected_head.len()], &expected_head.iter().map(|s| s.to_string()).collect::<Vec<_>>()[..]);
    assert_eq!(args[expected_head.len()], wrap_script(&c, "echo hi"));
}

#[test]
fn docker_gets_no_keep_id() {
    let mut args = BuildArgs::default();
    args.engine = Some(ContainerEngine::Docker);
    let c = ctx(args, ReleaseConfig::default(), "linux");
    let run = ContainerRun::new(&c, "linux", "img".to_string(), "s".to_string());
    let a = container_args(&c, &run);
    assert_eq!(a[4], "-v");
    assert!(!a.iter().any(|x| x == "--userns=keep-id"));
}

#[test]
fn release_stages() {
    let c = ctx(BuildArgs::default(), ReleaseConfig::default(), "linux");
    let stages = plan_release(&c).unwrap();
    assert_eq!(stages.len(), 6);
    assert!(matches!(stages[0], ReleaseStage::PrepareOutput));
    assert!(matches!(stages[1], ReleaseStage::Build { platform: "linux" }));
    assert!(matches!(stages[2], ReleaseStage::Build { platform: "android" }));
    assert!(matches!(stages[3], ReleaseStage::NormalizeArtifacts));
    assert!(matches!(stages[4], ReleaseStage::Checksums));
    assert!(matches!(stages[5], ReleaseStage::Manifest));

    let mut config = ReleaseConfig::default();
    config.output.sha256 = false;
    config.output.manifest = false;
    let mut args = BuildArgs::default();
    args.macos = true;
    let c = ctx(args, config, "linux");
    let stages = plan_release(&c).unwrap();
    assert_eq!(stages.len(), 3);
    assert!(matches!(stages[1], ReleaseStage::Build { platform: "macos" }));

    let mut config = ReleaseConfig::default();
    config.linux.enabled = false;
    config.android.enabled = false;
    let c = ctx(BuildArgs::default(), config, "linux");
    let err = plan_release(&c).unwrap_err();
    assert_eq!(err.message(), "no release target selected");
}
