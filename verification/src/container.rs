//! Container builds: the session container's name, environment, mounts and
//! the script it runs.
use vstd::prelude::*;

use crate::cli::ContainerEngine;
use crate::context::BuildContext;
use crate::env_map::{pair_views, EnvMap};
use crate::config::ArtifactConfig;
use crate::text::{
    has_prefix, has_suffix, owned, push_char, push_str, replace_char, starts_with, trim_start, trim_start_char,
    views,
};
use crate::util::{
    host_style, host_style_of, join_path, joined, path_for_container, shell_quote, shell_quoted,
    HostStyle,
};

verus! {

/// One container run of a release session.
#[derive(Debug, Clone)]
pub struct ContainerRun {
    pub name: String,
    pub image: String,
    pub platform: String,
    pub script: String,
    pub env: EnvMap,
}

/// The container name of a platform in a session.
pub open spec fn container_name(prefix: Seq<char>, platform: Seq<char>) -> Seq<char> {
    prefix + seq!['-'] + platform
}

/// Every container of a session is named after the session prefix, so the
/// interrupt handler, which filters running containers by that prefix, finds
/// them all.
pub proof fn law_container_names_carry_session(prefix: Seq<char>, platform: Seq<char>)
    ensures
        has_prefix(container_name(prefix, platform), prefix),
{
    assert(container_name(prefix, platform).subrange(0, prefix.len() as int) =~= prefix);
}

/// `r` is the fresh run of `platform` in `image` with `script`.
pub open spec fn is_container_run(
    r: ContainerRun,
    ctx: BuildContext,
    platform: Seq<char>,
    image: Seq<char>,
    script: Seq<char>,
) -> bool {
    &&& r.name@ == container_name(ctx.session_prefix@, platform)
    &&& r.image@ == image
    &&& r.platform@ == platform
    &&& r.script@ == script
    &&& r.env.wf()
    &&& r.env@.len() == 0
}

impl ContainerRun {
    /// A run named `<session prefix>-<platform>` with no extra environment.
    pub fn new(ctx: &BuildContext, platform: &str, image: String, script: String) -> (r: Self)
        ensures
            r.name@ == container_name(ctx.session_prefix@, platform@),
            r.image == image,
            r.platform@ == platform@,
            r.script == script,
            r.env@.len() == 0,
    {
        let mut name = owned(ctx.session_prefix.as_str());
        push_char(&mut name, '-');
        push_str(&mut name, platform);
        ContainerRun { name, image, platform: owned(platform), script, env: EnvMap::new() }
    }

    /// The run with the variable `key` set to `value` in its environment.
    pub fn env(self, key: String, value: String) -> (r: Self)
        ensures
            r.name == self.name && r.image == self.image && r.platform == self.platform
                && r.script == self.script,
            r.env.wf(),
            r.env.as_map() == self.env.as_map().insert(key@, value@),
    {
        let mut s = self;
        s.env.insert(key, value);
        s
    }
}

/// The script lines before the project directory.
pub const SCRIPT_HEAD: &'static str = "
set -euo pipefail
mkdir -p /work/project
# Copy source into disposable container workspace. The host project stays read-only.
tar -C /src -cf - . | tar -C /work/project -xf -
cd /work/project/";

/// The script lines between the project directory and the install command.
pub const SCRIPT_EXPORTS: &'static str = r#"
export PATH="$HOME/.cargo/bin:$PATH"
export CARGO_HOME="${CARGO_HOME:-/cache/cargo-home}"
export CARGO_TARGET_DIR="${CARGO_TARGET_DIR:-/cache/cargo-target}"
export GRADLE_USER_HOME="${GRADLE_USER_HOME:-/cache/gradle}"
export PNPM_STORE_DIR="${PNPM_STORE_DIR:-/cache/pnpm-store}"
"#;

/// The install command of a release: the configured one, else the package
/// manager's.
pub open spec fn install_spec(ctx: BuildContext) -> Seq<char> {
    match ctx.config.project.install_command {
        Some(c) => c@,
        None => crate::cli::install_command_of(ctx.metadata.package_manager),
    }
}

/// The full container script around a build body: copy the read-only source
/// into the container, enter the project directory, point the tool caches at
/// `/cache`, install, then run the body.
pub open spec fn wrap_script_spec(ctx: BuildContext, body: Seq<char>) -> Seq<char> {
    SCRIPT_HEAD@ + shell_quoted(replace_char(ctx.project_dir@, '\\', '/'), host_style(ctx.host_os@))
        + SCRIPT_EXPORTS@
        + install_spec(ctx) + seq!['\n'] + body + seq!['\n']
}

/// The container script installs the project's dependencies right before
/// the build body: with the configured install command when there is one,
/// else with the install command of the project's own package manager. The
/// script ends with that install line, then the body.
pub proof fn law_script_installs_with_the_package_manager(ctx: BuildContext, body: Seq<char>)
    ensures
        ctx.config.project.install_command is None ==> has_suffix(
            wrap_script_spec(ctx, body),
            crate::cli::install_command_of(ctx.metadata.package_manager) + seq!['\n'] + body
                + seq!['\n'],
        ),
        ctx.config.project.install_command matches Some(c) ==> has_suffix(
            wrap_script_spec(ctx, body),
            c@ + seq!['\n'] + body + seq!['\n'],
        ),
        has_prefix(wrap_script_spec(ctx, body), SCRIPT_HEAD@),
{
    let w = wrap_script_spec(ctx, body);
    let head = SCRIPT_HEAD@ + shell_quoted(replace_char(ctx.project_dir@, '\\', '/'), host_style(ctx.host_os@))
        + SCRIPT_EXPORTS@;
    let tail = install_spec(ctx) + seq!['\n'] + body + seq!['\n'];
    assert(w =~= head + tail);
    assert(w.subrange(w.len() - tail.len(), w.len() as int) =~= tail);
    assert(w.subrange(0, SCRIPT_HEAD@.len() as int) =~= SCRIPT_HEAD@);
}

/// Wraps a build body into the container script.
pub fn wrap_script(ctx: &BuildContext, body: &str) -> (r: String)
    ensures
        r@ == wrap_script_spec(*ctx, body@),
{
    let project_dir = path_for_container(ctx.project_dir.as_str());
    let install = match &ctx.config.project.install_command {
        Some(c) => c.clone(),
        None => owned(ctx.metadata.package_manager.install_command()),
    };
    let mut r = owned(SCRIPT_HEAD);
    let quoted = shell_quote(project_dir.as_str(), host_style_of(ctx.host_os.as_str()));
    push_str(&mut r, quoted.as_str());
    push_str(&mut r, SCRIPT_EXPORTS);
    push_str(&mut r, install.as_str());
    push_char(&mut r, '\n');
    push_str(&mut r, body);
    push_char(&mut r, '\n');
    r
}

/// A character that `find -name` patterns treat specially.
pub open spec fn glob_special(c: char) -> bool {
    c == '*' || c == '?' || c == '[' || c == ']' || c == '\\'
}

/// A `find -name` pattern that matches `s` literally: each special character
/// escaped with a backslash.
pub open spec fn glob_literal(s: Seq<char>) -> Seq<char>
    decreases s.len(),
{
    if s.len() == 0 {
        Seq::empty()
    } else {
        glob_literal(s.drop_last()) + if glob_special(s.last()) {
            seq!['\\', s.last()]
        } else {
            seq![s.last()]
        }
    }
}

/// The `find` alternative matching the included file name `f` exactly.
pub open spec fn name_term(f: Seq<char>) -> Seq<char> {
    " -o -name "@ + shell_quoted(glob_literal(f), HostStyle::Posix)
}

/// The `find` alternatives matching names that end in `.<ext>` or `-<ext>`
/// regardless of case (`-iname`), leading dots of `ext` dropped: the
/// artifact-name rule of `matches_extension`.
pub open spec fn extension_term(ext: Seq<char>) -> Seq<char> {
    let t = glob_literal(trim_start(ext, '.'));
    " -o -iname "@ + shell_quoted(seq!['*', '.'] + t, HostStyle::Posix) + " -o -iname "@
        + shell_quoted(seq!['*', '-'] + t, HostStyle::Posix)
}

/// The alternatives of a list of file names (`extensions` false) or of
/// extensions (`extensions` true), in order.
pub open spec fn find_terms(items: Seq<Seq<char>>, extensions: bool) -> Seq<char>
    decreases items.len(),
{
    if items.len() == 0 {
        Seq::empty()
    } else {
        find_terms(items.drop_last(), extensions) + if extensions {
            extension_term(items.last())
        } else {
            name_term(items.last())
        }
    }
}

/// The `find` expression selecting the release artifacts of `config`: an
/// included file name, or a name ending in an included extension.
pub open spec fn find_filter_spec(config: ArtifactConfig) -> Seq<char> {
    "\\( -false"@ + find_terms(views(config.include_files@), false) + find_terms(
        views(config.include_extensions@),
        true,
    ) + " \\)"@
}

/// The artifact-copying script up to the `find` expression.
pub const COPY_HEAD: &'static str = "
mkdir -p /out
find . -type f ";

/// The artifact-copying script from the `find` expression to the platform
/// name.
pub const COPY_MIDDLE: &'static str = r#" -print0 | while IFS= read -r -d '' file; do
  base="$(basename "$file")"
  cp -f "$file" "/out/$base"
  echo "artifact:"#;

/// The artifact-copying script after the platform name.
pub const COPY_TAIL: &'static str = r#":$base"
done
"#;

/// The script that copies every file of the build tree that is a release
/// artifact of `config` to `/out` and reports each as
/// `artifact:<platform>:<name>`.
pub open spec fn copy_artifact_script_spec(
    platform: Seq<char>,
    config: ArtifactConfig,
    style: HostStyle,
) -> Seq<char> {
    COPY_HEAD@ + find_filter_spec(config) + COPY_MIDDLE@ + shell_quoted(platform, style) + COPY_TAIL@
}

/// `s` with the special characters of `find` patterns escaped.
fn glob_literal_exec(s: &str) -> (r: String)
    ensures
        r@ == glob_literal(s@),
{
    let mut r = String::new();
    for c in it: s.chars()
        invariant
            it.seq() == s@,
            r@ == glob_literal(s@.take(it.index() as int)),
    {
        proof {
            assert(s@.take(it.index() + 1).drop_last() =~= s@.take(it.index() as int));
            assert(s@.take(it.index() + 1).last() == c);
        }
        let ghost before = r@;
        if c == '*' || c == '?' || c == '[' || c == ']' || c == '\\' {
            push_char(&mut r, '\\');
        }
        push_char(&mut r, c);
        proof {
            if glob_special(c) {
                assert(r@ =~= before + seq!['\\', c]);
            } else {
                assert(r@ =~= before + seq![c]);
            }
        }
    }
    proof {
        assert(s@.take(s@.len() as int) =~= s@);
    }
    r
}

/// The `find` alternative of one included file name.
fn name_term_exec(f: &str) -> (r: String)
    ensures
        r@ == name_term(f@),
{
    let g = glob_literal_exec(f);
    let q = shell_quote(g.as_str(), HostStyle::Posix);
    let mut r = owned(" -o -name ");
    push_str(&mut r, q.as_str());
    r
}

/// The `find` alternatives of one included extension.
fn extension_term_exec(ext: &str) -> (r: String)
    ensures
        r@ == extension_term(ext@),
{
    let trimmed = trim_start_char(ext, '.');
    let t = glob_literal_exec(trimmed.as_str());
    let mut dot = String::new();
    push_char(&mut dot, '*');
    push_char(&mut dot, '.');
    push_str(&mut dot, t.as_str());
    let mut dash = String::new();
    push_char(&mut dash, '*');
    push_char(&mut dash, '-');
    push_str(&mut dash, t.as_str());
    assert(dot@ =~= seq!['*', '.'] + t@);
    assert(dash@ =~= seq!['*', '-'] + t@);
    let qd = shell_quote(dot.as_str(), HostStyle::Posix);
    let qh = shell_quote(dash.as_str(), HostStyle::Posix);
    let mut r = owned(" -o -iname ");
    push_str(&mut r, qd.as_str());
    push_str(&mut r, " -o -iname ");
    push_str(&mut r, qh.as_str());
    r
}

/// The alternatives of `items`, appended to `r`.
fn push_find_terms(r: &mut String, items: &Vec<String>, extensions: bool)
    ensures
        final(r)@ == old(r)@ + find_terms(views(items@), extensions),
{
    let ghost start = r@;
    let n = items.len();
    let mut i: usize = 0;
    while i < n
        invariant
            n == items@.len(),
            i <= n,
            r@ == start + find_terms(views(items@).take(i as int), extensions),
        decreases n - i,
    {
        let t = if extensions {
            extension_term_exec(items[i].as_str())
        } else {
            name_term_exec(items[i].as_str())
        };
        let ghost before = r@;
        push_str(r, t.as_str());
        proof {
            let v = views(items@);
            assert(v.take(i + 1).drop_last() =~= v.take(i as int));
            assert(v.take(i + 1).last() == items@[i as int]@);
            assert(r@ =~= start + find_terms(v.take(i + 1), extensions));
        }
        i = i + 1;
    }
    proof {
        assert(views(items@).take(n as int) =~= views(items@));
    }
}

/// The `find` expression selecting the release artifacts of `config`.
pub fn find_filter(config: &ArtifactConfig) -> (r: String)
    ensures
        r@ == find_filter_spec(*config),
{
    let mut r = owned("\\( -false");
    push_find_terms(&mut r, &config.include_files, false);
    push_find_terms(&mut r, &config.include_extensions, true);
    push_str(&mut r, " \\)");
    r
}

/// The artifact-copying script of a platform: the `find` expression comes
/// from `config`, the platform name is quoted for the host's shell.
pub fn copy_artifact_script(platform: &str, config: &ArtifactConfig, style: HostStyle) -> (r: String)
    ensures
        r@ == copy_artifact_script_spec(platform@, *config, style),
{
    let filter = find_filter(config);
    let quoted = shell_quote(platform, style);
    let mut r = owned(COPY_HEAD);
    push_str(&mut r, filter.as_str());
    push_str(&mut r, COPY_MIDDLE);
    push_str(&mut r, quoted.as_str());
    push_str(&mut r, COPY_TAIL);
    r
}

/// Images under this prefix are placeholders of the default config.
pub open spec fn is_placeholder_image(image: Seq<char>) -> bool {
    has_prefix(image, "ghcr.io/your-org/"@)
}

/// The hint printed for a placeholder image: it must be built from
/// `template_path` or overridden in the config.
pub open spec fn image_hint_spec(image: Seq<char>, template_path: Seq<char>) -> Option<Seq<char>> {
    if is_placeholder_image(image) {
        Some("hint: image '"@ + image + "' is a placeholder. Build it from "@ + template_path
            + " or override it in tauri-release.toml."@)
    } else {
        None
    }
}

/// The hint to print for `image`, if it is a placeholder.
pub fn ensure_image_hint(image: &str, template_path: &str) -> (r: Option<String>)
    ensures
        crate::util::opt_view(r) == image_hint_spec(image@, template_path@),
{
    if starts_with(image, "ghcr.io/your-org/") {
        let mut m = owned("hint: image '");
        push_str(&mut m, image);
        push_str(&mut m, "' is a placeholder. Build it from ");
        push_str(&mut m, template_path);
        push_str(&mut m, " or override it in tauri-release.toml.");
        Some(m)
    } else {
        None
    }
}

/// `-e NAME=VALUE` for each entry, in order.
pub open spec fn env_flags(s: Seq<(Seq<char>, Seq<char>)>) -> Seq<Seq<char>>
    decreases s.len(),
{
    if s.len() == 0 {
        Seq::empty()
    } else {
        env_flags(s.drop_last()) + seq!["-e"@, s.last().0 + seq!['='] + s.last().1]
    }
}

/// The leading arguments: remove the container afterwards, name it, keep the
/// user id under Podman if so configured, and join the configured network.
pub open spec fn args_head(ctx: BuildContext, run: ContainerRun) -> Seq<Seq<char>> {
    seq!["run"@, "--rm"@, "--name"@, run.name@] + (if ctx.config.container.userns_keep_id
        && ctx.engine == ContainerEngine::Podman {
        seq!["--userns=keep-id"@]
    } else {
        Seq::empty()
    }) + (match ctx.config.container.network {
        Some(n) => seq!["--network"@, n@],
        None => Seq::empty(),
    })
}

/// The mounts (source read-only at `/src`, platform output at `/out`,
/// platform cache at `/cache`) and the CI and tool-cache variables.
pub open spec fn args_mounts(ctx: BuildContext, run: ContainerRun) -> Seq<Seq<char>> {
    let root = replace_char(ctx.root_dir@, '\\', '/');
    let out = replace_char(joined(ctx.output_dir@, run.platform@, host_style(ctx.host_os@)), '\\', '/');
    let cache = replace_char(joined(ctx.cache_dir@, run.platform@, host_style(ctx.host_os@)), '\\', '/');
    seq![
        "-v"@,
        root + ":/src:ro,z"@,
        "-v"@,
        out + ":/out:z"@,
        "-v"@,
        cache + ":/cache:z"@,
        "-e"@,
        "CI=true"@,
        "-e"@,
        "CARGO_HOME=/cache/cargo-home"@,
        "-e"@,
        "CARGO_TARGET_DIR=/cache/cargo-target"@,
        "-e"@,
        "GRADLE_USER_HOME=/cache/gradle"@,
        "-e"@,
        "PNPM_STORE_DIR=/cache/pnpm-store"@,
    ]
}

/// The trailing arguments: work in `/work` and run the wrapped script with
/// `bash -lc` in the run's image.
pub open spec fn args_tail(ctx: BuildContext, run: ContainerRun) -> Seq<Seq<char>> {
    seq!["-w"@, "/work"@, run.image@, "bash"@, "-lc"@, wrap_script_spec(ctx, run.script@)]
}

/// The arguments of `<engine> ...` that run a container build: the leading
/// arguments, the mounts, the project environment and the run environment
/// (each in order of name), and the trailing arguments.
pub open spec fn container_args_spec(ctx: BuildContext, run: ContainerRun) -> Seq<Seq<char>> {
    args_head(ctx, run) + args_mounts(ctx, run) + env_flags(ctx.config.project.env@) + env_flags(
        run.env@,
    ) + args_tail(ctx, run)
}

fn push_owned(args: &mut Vec<String>, s: &str)
    ensures
        views(final(args)@) == views(old(args)@).push(s@),
{
    let ghost before = args@;
    args.push(owned(s));
    assert(views(args@) =~= views(before).push(s@));
}

fn push_string(args: &mut Vec<String>, s: String)
    ensures
        views(final(args)@) == views(old(args)@).push(s@),
{
    let ghost before = args@;
    let ghost v = s@;
    args.push(s);
    assert(views(args@) =~= views(before).push(v));
}

fn push_env_flags(args: &mut Vec<String>, entries: &Vec<(String, String)>)
    ensures
        views(final(args)@) == views(old(args)@) + env_flags(pair_views(entries@)),
{
    let ghost start = views(args@);
    let n = entries.len();
    let mut i: usize = 0;
    while i < n
        invariant
            n == entries@.len(),
            i <= n,
            views(args@) == start + env_flags(pair_views(entries@).take(i as int)),
        decreases n - i,
    {
        let ghost before = views(args@);
        push_owned(args, "-e");
        let mut kv = entries[i].0.clone();
        push_char(&mut kv, '=');
        push_str(&mut kv, entries[i].1.as_str());
        let ghost kvv = kv@;
        push_string(args, kv);
        proof {
            assert(kvv == entries@[i as int].0@ + seq!['='] + entries@[i as int].1@);
            assert(views(args@) == before.push("-e"@).push(kvv));
            let t = pair_views(entries@).take(i + 1);
            assert(t.drop_last() =~= pair_views(entries@).take(i as int));
            assert(t.last() == (entries@[i as int].0@, entries@[i as int].1@));
            assert(views(args@) =~= start + env_flags(t));
        }
        i = i + 1;
    }
    assert(pair_views(entries@).take(n as int) =~= pair_views(entries@));
}

fn mount(path: &str, suffix: &str) -> (r: String)
    ensures
        r@ == replace_char(path@, '\\', '/') + suffix@,
{
    let mut r = path_for_container(path);
    push_str(&mut r, suffix);
    r
}

fn head_args(ctx: &BuildContext, run: &ContainerRun) -> (r: Vec<String>)
    ensures
        views(r@) == args_head(*ctx, *run),
{
    let mut args: Vec<String> = Vec::new();
    push_owned(&mut args, "run");
    push_owned(&mut args, "--rm");
    push_owned(&mut args, "--name");
    push_string(&mut args, run.name.clone());
    let ghost a0 = views(args@);
    let keep_id = ctx.config.container.userns_keep_id && match ctx.engine {
        ContainerEngine::Podman => true,
        ContainerEngine::Docker => false,
    };
    if keep_id {
        push_owned(&mut args, "--userns=keep-id");
    }
    let ghost a1 = views(args@);
    if let Some(network) = &ctx.config.container.network {
        push_owned(&mut args, "--network");
        push_string(&mut args, network.clone());
    }
    proof {
        assert(a0 =~= seq!["run"@, "--rm"@, "--name"@, run.name@]);
        assert(a1 =~= a0 + (if ctx.config.container.userns_keep_id && ctx.engine
            == ContainerEngine::Podman {
            seq!["--userns=keep-id"@]
        } else {
            Seq::empty()
        }));
        assert(views(args@) =~= a1 + (match ctx.config.container.network {
            Some(n) => seq!["--network"@, n@],
            None => Seq::empty(),
        }));
    }
    args
}

fn mount_args(ctx: &BuildContext, run: &ContainerRun) -> (r: Vec<String>)
    ensures
        views(r@) == args_mounts(*ctx, *run),
{
    let platform_out = ctx.platform_output_dir(run.platform.as_str());
    let platform_cache = join_path(ctx.cache_dir.as_str(), run.platform.as_str(), host_style_of(ctx.host_os.as_str()));
    let mut args: Vec<String> = Vec::new();
    push_owned(&mut args, "-v");
    push_string(&mut args, mount(ctx.root_dir.as_str(), ":/src:ro,z"));
    push_owned(&mut args, "-v");
    push_string(&mut args, mount(platform_out.as_str(), ":/out:z"));
    push_owned(&mut args, "-v");
    push_string(&mut args, mount(platform_cache.as_str(), ":/cache:z"));
    push_owned(&mut args, "-e");
    push_owned(&mut args, "CI=true");
    push_owned(&mut args, "-e");
    push_owned(&mut args, "CARGO_HOME=/cache/cargo-home");
    push_owned(&mut args, "-e");
    push_owned(&mut args, "CARGO_TARGET_DIR=/cache/cargo-target");
    push_owned(&mut args, "-e");
    push_owned(&mut args, "GRADLE_USER_HOME=/cache/gradle");
    push_owned(&mut args, "-e");
    push_owned(&mut args, "PNPM_STORE_DIR=/cache/pnpm-store");
    assert(views(args@) =~= args_mounts(*ctx, *run));
    args
}

fn tail_args(ctx: &BuildContext, run: &ContainerRun) -> (r: Vec<String>)
    ensures
        views(r@) == args_tail(*ctx, *run),
{
    let mut args: Vec<String> = Vec::new();
    push_owned(&mut args, "-w");
    push_owned(&mut args, "/work");
    push_string(&mut args, run.image.clone());
    push_owned(&mut args, "bash");
    push_owned(&mut args, "-lc");
    push_string(&mut args, wrap_script(ctx, run.script.as_str()));
    assert(views(args@) =~= args_tail(*ctx, *run));
    args
}

fn append_all(args: &mut Vec<String>, more: Vec<String>)
    ensures
        views(final(args)@) == views(old(args)@) + views(more@),
{
    let ghost a = args@;
    let ghost b = more@;
    let mut more = more;
    args.append(&mut more);
    assert(views(args@) =~= views(a) + views(b));
}

/// The engine arguments of a container build.
pub fn container_args(ctx: &BuildContext, run: &ContainerRun) -> (r: Vec<String>)
    ensures
        views(r@) == container_args_spec(*ctx, *run),
{
    let mut args = head_args(ctx, run);
    append_all(&mut args, mount_args(ctx, run));
    push_env_flags(&mut args, ctx.config.project.env.entries());
    push_env_flags(&mut args, run.env.entries());
    append_all(&mut args, tail_args(ctx, run));
    args
}

} // verus!
