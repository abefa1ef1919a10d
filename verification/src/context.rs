//! The resolved build context: the merged configuration, the directories of
//! the release session and the selected platforms.
use vstd::prelude::*;

use crate::cli::{BuildArgs, ContainerEngine, PackageManager};
use crate::config::{
    engine_from_serde, engine_of, package_manager_of, ContainerEngineSerde,
    PackageManagerSerde, ReleaseConfig,
};
use crate::project::{
    detect_metadata, detected_package_manager, first_present, name_candidates, version_candidates,
    ProjectMetadata, ProjectSources,
};
use crate::text::{clone_opt, clone_strings, views};
use crate::util::{
    absolutize, default_cache_dir, default_cache_dir_spec, join_path, joined, now_session_id,
    host_style, host_style_of, opt_view, path_is_absolute, HostStyle,
};

verus! {

/// Which platforms a release builds.
#[derive(Clone, Copy, Debug, PartialEq, Eq, Structural)]
pub struct SelectedPlatforms {
    pub linux: bool,
    pub android: bool,
    pub windows: bool,
    pub macos: bool,
    pub ios: bool,
}

impl SelectedPlatforms {
    /// No platform is selected.
    pub fn is_empty(self) -> (r: bool)
        ensures
            r == (!self.linux && !self.android && !self.windows && !self.macos && !self.ios),
    {
        !self.linux && !self.android && !self.windows && !self.macos && !self.ios
    }
}

/// What the process learns from its environment.
#[derive(Debug, Clone)]
pub struct HostEnv {
    /// The working directory.
    pub cwd: String,
    /// `TAURI_RELEASE_CACHE_DIR`, `HOME` and `USERPROFILE`, where set.
    pub cache_dir_var: Option<String>,
    pub home: Option<String>,
    pub user_profile: Option<String>,
    /// The process id and the milliseconds since the Unix epoch.
    pub pid: u32,
    pub millis: u128,
    /// The host's `target_os` (`linux`, `macos`, `windows`, ...).
    pub target_os: String,
}

/// Everything a release session needs to know.
#[derive(Debug, Clone)]
pub struct BuildContext {
    pub root_dir: String,
    pub project_dir: String,
    pub output_dir: String,
    pub cache_dir: String,
    pub engine: ContainerEngine,
    pub args: BuildArgs,
    pub config: ReleaseConfig,
    pub metadata: ProjectMetadata,
    pub session_prefix: String,
    /// The host's `target_os`.
    pub host_os: String,
}

/// An optional override, else the configured value.
pub open spec fn or_else<T>(o: Option<T>, v: T) -> T {
    match o {
        Some(x) => x,
        None => v,
    }
}

/// `out` is `cfg` with the command-line overrides of `args` applied: project
/// directory, package manager, engine, output directory, `--keep-output`,
/// `--apk` and `--aab` (which, when either is given, choose exactly the
/// package types built), `--split-per-abi` and `--android-target`.
pub open spec fn merged_config(cfg: ReleaseConfig, args: BuildArgs, out: ReleaseConfig) -> bool {
    &&& out == (ReleaseConfig {
        project: crate::config::ProjectConfig {
            project_dir: or_else(args.project_dir, cfg.project.project_dir),
            package_manager: match args.package_manager {
                Some(pm) => Some(crate::config::package_manager_serde_of(pm)),
                None => cfg.project.package_manager,
            },
            ..cfg.project
        },
        container: crate::config::ContainerConfig {
            engine: match args.engine {
                Some(e) => crate::config::engine_serde_of(e),
                None => cfg.container.engine,
            },
            ..cfg.container
        },
        output: crate::config::OutputConfig {
            dir: match args.output {
                Some(o) => Some(o),
                None => cfg.output.dir,
            },
            clean: cfg.output.clean && !args.keep_output,
            ..cfg.output
        },
        android: crate::config::AndroidConfig {
            apk: if args.apk || args.aab { args.apk } else { cfg.android.apk },
            aab: if args.apk || args.aab { args.aab } else { cfg.android.aab },
            split_per_abi: cfg.android.split_per_abi || args.split_per_abi,
            targets: out.android.targets,
            ..cfg.android
        },
        ..cfg
    })
    &&& out.android.targets@ == (if args.android_targets@.len() > 0 {
        args.android_targets@
    } else {
        cfg.android.targets@
    })
}

/// Applies the command-line overrides to a loaded configuration.
pub fn apply_build_args(config: ReleaseConfig, args: &BuildArgs) -> (r: ReleaseConfig)
    ensures
        merged_config(config, *args, r),
{
    let ReleaseConfig { project, container, output, artifacts, linux, android, windows, macos, ios } =
        config;
    let project_dir = match clone_opt(&args.project_dir) {
        Some(d) => d,
        None => project.project_dir,
    };
    let package_manager = match args.package_manager {
        Some(pm) => Some(PackageManagerSerde::from(pm)),
        None => project.package_manager,
    };
    let project = crate::config::ProjectConfig { project_dir, package_manager, ..project };
    let engine = match args.engine {
        Some(e) => ContainerEngineSerde::from(e),
        None => container.engine,
    };
    let container = crate::config::ContainerConfig { engine, ..container };
    let dir = match clone_opt(&args.output) {
        Some(o) => Some(o),
        None => output.dir,
    };
    let clean = output.clean && !args.keep_output;
    let output = crate::config::OutputConfig { dir, clean, ..output };
    let targets = if args.android_targets.len() > 0 {
        clone_strings(&args.android_targets)
    } else {
        android.targets
    };
    let android = crate::config::AndroidConfig {
        apk: if args.apk || args.aab { args.apk } else { android.apk },
        aab: if args.apk || args.aab { args.aab } else { android.aab },
        split_per_abi: android.split_per_abi || args.split_per_abi,
        targets,
        ..android
    };
    ReleaseConfig { project, container, output, artifacts, linux, android, windows, macos, ios }
}

/// The directory of a release: the configured one made absolute, else
/// `<root>/dist/<version>`.
pub open spec fn output_dir_spec(
    dir: Option<String>,
    root: Seq<char>,
    version: Seq<char>,
    style: HostStyle,
) -> Seq<char> {
    match dir {
        Some(d) => if path_is_absolute(d@, style) {
            d@
        } else {
            joined(root, d@, style)
        },
        None => joined(joined(root, "dist"@, style), version, style),
    }
}

/// The cache directory: the configured one made absolute, else the default.
pub open spec fn cache_dir_spec(dir: Option<String>, env: HostEnv) -> Seq<char> {
    match dir {
        Some(d) => if path_is_absolute(d@, host_style(env.target_os@)) {
            d@
        } else {
            joined(env.cwd@, d@, host_style(env.target_os@))
        },
        None => default_cache_dir_spec(
            opt_view(env.cache_dir_var),
            opt_view(env.home),
            opt_view(env.user_profile),
            host_style(env.target_os@),
        ),
    }
}

/// The platforms named on the command line, or those enabled in the config
/// when none is named or `--all` is given.
pub open spec fn selected_spec(args: BuildArgs, config: ReleaseConfig) -> SelectedPlatforms {
    let explicit = args.linux || args.android || args.windows || args.macos || args.ios;
    if args.all || !explicit {
        SelectedPlatforms {
            linux: config.linux.enabled,
            android: config.android.enabled,
            windows: config.windows.enabled,
            macos: config.macos.enabled,
            ios: config.ios.enabled,
        }
    } else {
        SelectedPlatforms {
            linux: args.linux,
            android: args.android,
            windows: args.windows,
            macos: args.macos,
            ios: args.ios,
        }
    }
}

/// The names of the selected platforms, in the order linux, android,
/// windows, macos, ios.
pub open spec fn platform_names(s: SelectedPlatforms) -> Seq<Seq<char>> {
    (if s.linux { seq!["linux"@] } else { Seq::empty() })
        + (if s.android { seq!["android"@] } else { Seq::empty() })
        + (if s.windows { seq!["windows"@] } else { Seq::empty() })
        + (if s.macos { seq!["macos"@] } else { Seq::empty() })
        + (if s.ios { seq!["ios"@] } else { Seq::empty() })
}

/// The platform names list exactly the selected platforms: a name is listed
/// if and only if its platform is selected, and the list is empty exactly
/// when the selection is.
pub proof fn law_names_follow_selection(s: SelectedPlatforms)
    ensures
        platform_names(s).contains("linux"@) == s.linux,
        platform_names(s).contains("android"@) == s.android,
        platform_names(s).contains("windows"@) == s.windows,
        platform_names(s).contains("macos"@) == s.macos,
        platform_names(s).contains("ios"@) == s.ios,
        (platform_names(s).len() == 0) == (!s.linux && !s.android && !s.windows && !s.macos && !s.ios),
{
    reveal_strlit("linux");
    reveal_strlit("android");
    reveal_strlit("windows");
    reveal_strlit("macos");
    reveal_strlit("ios");
    let names = platform_names(s);
    let lits = seq!["linux"@, "android"@, "windows"@, "macos"@, "ios"@];
    assert forall|x: int, y: int| 0 <= x < y < 5 implies lits[x] != lits[y] by {
        if lits[x] == lits[y] {
            if lits[x].len() == lits[y].len() {
                assert(lits[x][0] == lits[y][0]);
            }
        }
    }
    let l = if s.linux { seq!["linux"@] } else { Seq::<Seq<char>>::empty() };
    let a = if s.android { seq!["android"@] } else { Seq::<Seq<char>>::empty() };
    let w = if s.windows { seq!["windows"@] } else { Seq::<Seq<char>>::empty() };
    let m = if s.macos { seq!["macos"@] } else { Seq::<Seq<char>>::empty() };
    let i = if s.ios { seq!["ios"@] } else { Seq::<Seq<char>>::empty() };
    assert(names == l + a + w + m + i);
    assert forall|k: int| 0 <= k < names.len() implies (#[trigger] names[k] == "linux"@ || names[k]
        == "android"@ || names[k] == "windows"@ || names[k] == "macos"@ || names[k] == "ios"@) && (
    names[k] == "linux"@ ==> s.linux) && (names[k] == "android"@ ==> s.android) && (names[k]
        == "windows"@ ==> s.windows) && (names[k] == "macos"@ ==> s.macos) && (names[k] == "ios"@
        ==> s.ios) by {
        let k0 = k;
        if k0 < l.len() {
            assert(names[k] == l[k0]);
        } else if k0 < l.len() + a.len() {
            assert(names[k] == a[k0 - l.len()]);
        } else if k0 < l.len() + a.len() + w.len() {
            assert(names[k] == w[k0 - l.len() - a.len()]);
        } else if k0 < l.len() + a.len() + w.len() + m.len() {
            assert(names[k] == m[k0 - l.len() - a.len() - w.len()]);
        } else {
            assert(names[k] == i[k0 - l.len() - a.len() - w.len() - m.len()]);
        }
    }
    if s.linux {
        assert(names[0] == "linux"@);
    }
    if s.android {
        assert(names[l.len() as int] == "android"@);
    }
    if s.windows {
        assert(names[(l.len() + a.len()) as int] == "windows"@);
    }
    if s.macos {
        assert(names[(l.len() + a.len() + w.len()) as int] == "macos"@);
    }
    if s.ios {
        assert(names[(l.len() + a.len() + w.len() + m.len()) as int] == "ios"@);
    }
}

/// Platform flags select exactly the flagged platforms, unless `--all` is
/// given: a flagged platform is built and an unflagged one is not. With
/// `--all`, or with no platform flag, the platforms enabled in the config are
/// built.
pub proof fn law_flags_select_exactly_the_flagged_platforms(args: BuildArgs, config: ReleaseConfig)
    ensures
        !args.all && (args.linux || args.android || args.windows || args.macos || args.ios) ==> {
            let s = selected_spec(args, config);
            &&& s.linux == args.linux
            &&& s.android == args.android
            &&& s.windows == args.windows
            &&& s.macos == args.macos
            &&& s.ios == args.ios
        },
        args.all || !(args.linux || args.android || args.windows || args.macos || args.ios) ==> {
            let s = selected_spec(args, config);
            &&& s.linux == config.linux.enabled
            &&& s.android == config.android.enabled
            &&& s.windows == config.windows.enabled
            &&& s.macos == config.macos.enabled
            &&& s.ios == config.ios.enabled
        },
        !args.all && args.ios ==> platform_names(selected_spec(args, config)).contains("ios"@),
        !args.all && args.ios && !args.linux && !args.android && !args.windows && !args.macos
            ==> platform_names(selected_spec(args, config)) == seq!["ios"@],
{
    law_names_follow_selection(selected_spec(args, config));
    let s = selected_spec(args, config);
    if !args.all && args.ios && !args.linux && !args.android && !args.windows && !args.macos {
        assert(platform_names(s) =~= seq!["ios"@]);
    }
}

/// The views of a vector of string slices.
pub open spec fn str_views(v: Seq<&'static str>) -> Seq<Seq<char>> {
    v.map_values(|s: &'static str| s@)
}

impl BuildContext {
    /// The context of a release: the loaded configuration with the
    /// command-line overrides applied, the project metadata detected from
    /// `sources` under those settings, the output and cache directories, and
    /// a session prefix unique to this process and moment.
    pub fn from_sources(args: BuildArgs, loaded: ReleaseConfig, sources: ProjectSources, env: HostEnv) -> (r: Self)
        ensures
            merged_config(loaded, args, r.config),
            r.args == args,
            r.root_dir@ == env.cwd@,
            r.project_dir@ == r.config.project.project_dir@,
            r.engine == engine_of(r.config.container.engine),
            r.metadata.display_name@ == first_present(
                name_candidates(r.config.project.app_name, sources.tauri_config, sources.package_json, sources.cargo_toml),
                "tauri-app"@,
            ),
            r.metadata.version@ == first_present(
                version_candidates(r.config.project.version, sources.tauri_config, sources.package_json, sources.cargo_toml),
                "0.0.0"@,
            ),
            r.metadata.package_manager == match r.config.project.package_manager {
                Some(pm) => package_manager_of(pm),
                None => detected_package_manager(views(sources.files@)),
            },
            r.output_dir@ == output_dir_spec(r.config.output.dir, env.cwd@, r.metadata.version@, host_style(env.target_os@)),
            r.cache_dir@ == cache_dir_spec(r.config.container.cache_dir, env),
            r.session_prefix@ == "tauri-release"@ + seq!['-'] + crate::text::decimal(env.pid as nat)
                + seq!['-'] + crate::text::decimal(env.millis as nat),
            r.host_os@ == env.target_os@,
    {
        let config = apply_build_args(loaded, &args);
        let package_manager: Option<PackageManager> = match config.project.package_manager {
            Some(pm) => Some(PackageManager::from(pm)),
            None => None,
        };
        let metadata = detect_metadata(
            clone_opt(&config.project.app_name),
            clone_opt(&config.project.version),
            package_manager,
            &sources.files,
            sources.package_json,
            sources.cargo_toml,
            sources.tauri_config,
        );
        let style = host_style_of(env.target_os.as_str());
        let output_dir = match &config.output.dir {
            Some(dir) => absolutize(dir.as_str(), env.cwd.as_str(), style),
            None => {
                let dist = join_path(env.cwd.as_str(), "dist", style);
                join_path(dist.as_str(), metadata.version.as_str(), style)
            },
        };
        let cache_dir = match &config.container.cache_dir {
            Some(dir) => absolutize(dir.as_str(), env.cwd.as_str(), style),
            None => default_cache_dir(
                clone_opt(&env.cache_dir_var),
                clone_opt(&env.home),
                clone_opt(&env.user_profile),
                style,
            ),
        };
        let session_prefix = now_session_id("tauri-release", env.pid, env.millis);
        let project_dir = config.project.project_dir.clone();
        let engine = engine_from_serde(config.container.engine);
        BuildContext {
            root_dir: env.cwd,
            project_dir,
            output_dir,
            cache_dir,
            engine,
            args,
            config,
            metadata,
            session_prefix,
            host_os: env.target_os,
        }
    }

    /// The platforms this release builds.
    pub fn selected_platforms(&self) -> (r: SelectedPlatforms)
        ensures
            r == selected_spec(self.args, self.config),
    {
        let explicit = self.args.linux || self.args.android || self.args.windows || self.args.macos
            || self.args.ios;
        if self.args.all || !explicit {
            return SelectedPlatforms {
                linux: self.config.linux.enabled,
                android: self.config.android.enabled,
                windows: self.config.windows.enabled,
                macos: self.config.macos.enabled,
                ios: self.config.ios.enabled,
            };
        }
        SelectedPlatforms {
            linux: self.args.linux,
            android: self.args.android,
            windows: self.args.windows,
            macos: self.args.macos,
            ios: self.args.ios,
        }
    }

    /// The names of the platforms this release builds, in build order.
    pub fn selected_platform_names(&self) -> (r: Vec<&'static str>)
        ensures
            str_views(r@) == platform_names(selected_spec(self.args, self.config)),
    {
        let selected = self.selected_platforms();
        let mut platforms: Vec<&'static str> = Vec::new();
        if selected.linux {
            platforms.push("linux");
        }
        let ghost a = platforms@;
        if selected.android {
            platforms.push("android");
        }
        let ghost b = platforms@;
        if selected.windows {
            platforms.push("windows");
        }
        let ghost c = platforms@;
        if selected.macos {
            platforms.push("macos");
        }
        let ghost d = platforms@;
        if selected.ios {
            platforms.push("ios");
        }
        proof {
            let l = if selected.linux { seq!["linux"@] } else { Seq::<Seq<char>>::empty() };
            let an = if selected.android { seq!["android"@] } else { Seq::<Seq<char>>::empty() };
            let w = if selected.windows { seq!["windows"@] } else { Seq::<Seq<char>>::empty() };
            let m = if selected.macos { seq!["macos"@] } else { Seq::<Seq<char>>::empty() };
            let i = if selected.ios { seq!["ios"@] } else { Seq::<Seq<char>>::empty() };
            assert(str_views(a) =~= l);
            assert(str_views(b) =~= l + an);
            assert(str_views(c) =~= l + an + w);
            assert(str_views(d) =~= l + an + w + m);
            assert(str_views(platforms@) =~= l + an + w + m + i);
        }
        platforms
    }

    /// The output directory of one platform.
    pub fn platform_output_dir(&self, platform: &str) -> (r: String)
        ensures
            r@ == joined(self.output_dir@, platform@, host_style(self.host_os@)),
    {
        join_path(self.output_dir.as_str(), platform, host_style_of(self.host_os.as_str()))
    }
}

} // verus!
