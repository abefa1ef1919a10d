//! What the platform builds share: the build step they decide on, the Tauri
//! arguments they pass, and where host builds leave their artifacts.
use vstd::prelude::*;

use crate::container::{
    copy_artifact_script, copy_artifact_script_spec, ensure_image_hint, image_hint_spec,
    is_container_run, ContainerRun,
};
use crate::config::ArtifactConfig;
use crate::context::BuildContext;
use crate::error::ReleaseError;
use crate::host::HostCommand;
use crate::text::{join_strings, join_with, owned, push_char, push_str, str_eq, views};
use crate::util::{
    host_style, host_style_of, join_path, joined, opt_view, shell_quote, shell_quoted, HostStyle,
};

verus! {

/// What a platform build does.
#[derive(Debug, Clone)]
pub enum BuildStep {
    /// Run a command on the host, then collect the artifacts of the Tauri
    /// bundle directories and the platform's generated build trees.
    Host { command: HostCommand },
    /// Run a command on the host, then copy the artifacts found anywhere
    /// below `source`.
    HostProjectTree { command: HostCommand, source: String },
    /// Run a container; print the hint first, if any.
    Container { run: ContainerRun, image_hint: Option<String> },
}

/// The script of a container build: the build command, then the copy of the
/// whitelisted artifacts to `/out`.
pub open spec fn command_then_copy(
    command: Seq<char>,
    platform: Seq<char>,
    config: ArtifactConfig,
    style: HostStyle,
) -> Seq<char> {
    seq!['\n'] + command + seq!['\n'] + copy_artifact_script_spec(platform, config, style) + seq!['\n']
}

/// `step` runs `script` for `platform` in a fresh container of `image`, and
/// carries the placeholder hint of `image` naming `template`.
pub open spec fn is_container_step(
    step: BuildStep,
    ctx: BuildContext,
    platform: Seq<char>,
    image: Seq<char>,
    template: Seq<char>,
    script: Seq<char>,
) -> bool {
    step matches BuildStep::Container { run, image_hint } && is_container_run(
        run,
        ctx,
        platform,
        image,
        script,
    ) && opt_view(image_hint) == image_hint_spec(image, template)
}

/// The container build of `platform` in `image`: it runs `command`, then
/// copies the artifacts out.
pub fn container_step(
    ctx: &BuildContext,
    platform: &str,
    image: String,
    template: &str,
    command: &str,
) -> (r: BuildStep)
    ensures
        is_container_step(
            r,
            *ctx,
            platform@,
            image@,
            template@,
            command_then_copy(command@, platform@, ctx.config.artifacts, host_style(ctx.host_os@)),
        ),
{
    let image_hint = ensure_image_hint(image.as_str(), template);
    let mut script = String::new();
    push_char(&mut script, '\n');
    push_str(&mut script, command);
    push_char(&mut script, '\n');
    let copy = copy_artifact_script(platform, &ctx.config.artifacts, host_style_of(ctx.host_os.as_str()));
    push_str(&mut script, copy.as_str());
    push_char(&mut script, '\n');
    assert(script@ =~= command_then_copy(command@, platform@, ctx.config.artifacts, host_style(ctx.host_os@)));
    let run = ContainerRun::new(ctx, platform, image, script);
    BuildStep::Container { run, image_hint }
}

/// Each string shell-quoted.
pub open spec fn quoted_all(s: Seq<Seq<char>>, style: HostStyle) -> Seq<Seq<char>> {
    s.map_values(|x: Seq<char>| shell_quoted(x, style))
}

/// The words shell-quoted and joined by spaces.
pub open spec fn shell_args_spec(args: Seq<Seq<char>>, style: HostStyle) -> Seq<char> {
    join_with(quoted_all(args, style), seq![' '])
}

/// Quotes each argument for the host's shell and joins them with spaces.
pub fn shell_args(args: &Vec<String>, style: HostStyle) -> (r: String)
    ensures
        r@ == shell_args_spec(views(args@), style),
{
    let mut quoted: Vec<String> = Vec::new();
    let n = args.len();
    let mut i: usize = 0;
    while i < n
        invariant
            n == args@.len(),
            i <= n,
            views(quoted@) == quoted_all(views(args@).take(i as int), style),
        decreases n - i,
    {
        let ghost before = quoted@;
        let q = shell_quote(args[i].as_str(), style);
        let ghost qv = q@;
        quoted.push(q);
        assert(views(quoted@) =~= views(before).push(qv));
        assert(views(args@).take(i + 1) =~= views(args@).take(i as int).push(args@[i as int]@));
        assert(quoted_all(views(args@).take(i + 1), style) =~= quoted_all(views(args@).take(i as int), style).push(qv));
        i = i + 1;
    }
    assert(views(args@).take(n as int) =~= views(args@));
    let mut sep = String::new();
    push_char(&mut sep, ' ');
    assert(sep@ =~= seq![' ']);
    join_strings(&quoted, sep.as_str())
}

/// ` --bundles <b1,b2,...>` (quoted as one word), or nothing.
pub open spec fn bundles_arg_spec(bundles: Seq<Seq<char>>, style: HostStyle) -> Seq<char> {
    if bundles.len() == 0 {
        Seq::empty()
    } else {
        " --bundles "@ + shell_quoted(join_with(bundles, seq![',']), style)
    }
}

/// The `--bundles` argument of a Linux build.
pub fn bundles_arg(bundles: &Vec<String>, style: HostStyle) -> (r: String)
    ensures
        r@ == bundles_arg_spec(views(bundles@), style),
{
    if bundles.len() == 0 {
        String::new()
    } else {
        let mut comma = String::new();
        push_char(&mut comma, ',');
        assert(comma@ =~= seq![',']);
        let joined_bundles = join_strings(bundles, comma.as_str());
        let mut r = owned(" --bundles ");
        let q = shell_quote(joined_bundles.as_str(), style);
        push_str(&mut r, q.as_str());
        r
    }
}

/// ` --target <t1> <t2> ...` (each quoted), or nothing.
pub open spec fn target_arg_spec(targets: Seq<Seq<char>>, style: HostStyle) -> Seq<char> {
    if targets.len() == 0 {
        Seq::empty()
    } else {
        " --target "@ + shell_args_spec(targets, style)
    }
}

/// The `--target` argument of a build.
pub fn target_arg(targets: &Vec<String>, style: HostStyle) -> (r: String)
    ensures
        r@ == target_arg_spec(views(targets@), style),
{
    if targets.len() == 0 {
        String::new()
    } else {
        let mut r = owned(" --target ");
        let a = shell_args(targets, style);
        push_str(&mut r, a.as_str());
        r
    }
}

/// ` <arg1> <arg2> ...` (each quoted) for the extra Tauri arguments, or nothing.
pub open spec fn extra_tauri_args_spec(args: Seq<Seq<char>>, style: HostStyle) -> Seq<char> {
    if args.len() == 0 {
        Seq::empty()
    } else {
        seq![' '] + shell_args_spec(args, style)
    }
}

/// The extra Tauri arguments of a release, quoted for the host's shell.
pub fn extra_tauri_args(ctx: &BuildContext) -> (r: String)
    ensures
        r@ == extra_tauri_args_spec(views(ctx.args.tauri_args@), host_style(ctx.host_os@)),
{
    if ctx.args.tauri_args.len() == 0 {
        String::new()
    } else {
        let mut r = String::new();
        push_char(&mut r, ' ');
        let a = shell_args(&ctx.args.tauri_args, host_style_of(ctx.host_os.as_str()));
        push_str(&mut r, a.as_str());
        r
    }
}

/// The sequence with later repetitions of an element removed.
pub open spec fn dedup(s: Seq<Seq<char>>) -> Seq<Seq<char>>
    decreases s.len(),
{
    if s.len() == 0 {
        Seq::empty()
    } else {
        let d = dedup(s.drop_last());
        if d.contains(s.last()) {
            d
        } else {
            d.push(s.last())
        }
    }
}

/// Adds a source directory unless it is listed already.
pub fn add_source(sources: &mut Vec<String>, source: String)
    ensures
        views(final(sources)@) == (if views(old(sources)@).contains(source@) {
            views(old(sources)@)
        } else {
            views(old(sources)@).push(source@)
        }),
{
    if crate::text::contains_str(sources, source.as_str()) {
        return;
    }
    let ghost before = sources@;
    let ghost v = source@;
    sources.push(source);
    assert(views(sources@) =~= views(before).push(v));
}

/// A list without repetitions stays so under `add_source`.
pub proof fn law_sources_stay_distinct(sources: Seq<Seq<char>>, source: Seq<char>)
    requires
        sources.no_duplicates(),
    ensures
        (if sources.contains(source) {
            sources
        } else {
            sources.push(source)
        }).no_duplicates(),
{
    if !sources.contains(source) {
        let s2 = sources.push(source);
        assert forall|i: int, j: int| 0 <= i < s2.len() && 0 <= j < s2.len() && i != j implies s2[i]
            != s2[j] by {
            if i == sources.len() {
                assert(s2[j] == sources[j]);
            } else if j == sources.len() {
                assert(s2[i] == sources[i]);
            } else {
                assert(s2[i] == sources[i] && s2[j] == sources[j]);
            }
        }
    }
}

/// `dedup` leaves no repetition.
pub proof fn lemma_dedup_distinct(s: Seq<Seq<char>>)
    ensures
        dedup(s).no_duplicates(),
    decreases s.len(),
{
    if s.len() > 0 {
        lemma_dedup_distinct(s.drop_last());
        law_sources_stay_distinct(dedup(s.drop_last()), s.last());
    }
}

/// The bundle directories of a Cargo target directory: `release/bundle` of
/// the target directory itself, then of each of its subdirectories (one per
/// target triple), in listing order.
pub open spec fn bundle_dirs(target_dir: Seq<char>, subdirs: Seq<Seq<char>>, style: HostStyle) -> Seq<Seq<char>> {
    seq![joined(joined(target_dir, "release"@, style), "bundle"@, style)] + subdirs.map_values(
        |d: Seq<char>| joined(joined(joined(target_dir, d, style), "release"@, style), "bundle"@, style),
    )
}

/// The directory of the app's project.
pub open spec fn app_dir(ctx: BuildContext) -> Seq<char> {
    joined(ctx.root_dir@, ctx.project_dir@, host_style(ctx.host_os@))
}

/// The Cargo target directory of host builds of a platform.
pub open spec fn cache_target_dir(ctx: BuildContext, platform: Seq<char>) -> Seq<char> {
    joined(joined(ctx.cache_dir@, platform, host_style(ctx.host_os@)), "cargo-target"@, host_style(ctx.host_os@))
}

/// The project's own Cargo target directory.
pub open spec fn project_target_dir(ctx: BuildContext) -> Seq<char> {
    joined(joined(app_dir(ctx), "src-tauri"@, host_style(ctx.host_os@)), "target"@, host_style(ctx.host_os@))
}

/// The generated build trees of mobile platforms.
pub open spec fn platform_extra_sources(ctx: BuildContext, platform: Seq<char>) -> Seq<Seq<char>> {
    let app = app_dir(ctx);
    if platform == "android"@ {
        seq![
            joined(joined(joined(joined(joined(joined(app, "src-tauri"@, host_style(ctx.host_os@)), "gen"@, host_style(ctx.host_os@)), "android"@, host_style(ctx.host_os@)), "app"@, host_style(ctx.host_os@)), "build"@, host_style(ctx.host_os@)), "outputs"@, host_style(ctx.host_os@)),
            joined(joined(app, "dist"@, host_style(ctx.host_os@)), "android"@, host_style(ctx.host_os@)),
        ]
    } else if platform == "ios"@ {
        seq![joined(joined(joined(joined(app, "src-tauri"@, host_style(ctx.host_os@)), "gen"@, host_style(ctx.host_os@)), "apple"@, host_style(ctx.host_os@)), "build"@, host_style(ctx.host_os@))]
    } else {
        Seq::empty()
    }
}

/// Where a host build of a platform leaves artifacts, each directory once:
/// the bundle directories of the platform's cached target directory, then of
/// the project's target directory, then the platform's generated build trees.
pub open spec fn host_sources_spec(
    ctx: BuildContext,
    platform: Seq<char>,
    cache_subdirs: Seq<Seq<char>>,
    project_subdirs: Seq<Seq<char>>,
) -> Seq<Seq<char>> {
    dedup(
        bundle_dirs(cache_target_dir(ctx, platform), cache_subdirs, host_style(ctx.host_os@)) + bundle_dirs(
            project_target_dir(ctx),
            project_subdirs,
            host_style(ctx.host_os@),
        ) + platform_extra_sources(ctx, platform),
    )
}

/// The Cargo target directories whose subdirectories a host build lists:
/// the platform's cached one and the project's own.
pub fn host_target_dirs(ctx: &BuildContext, platform: &str) -> (r: (String, String))
    ensures
        r.0@ == cache_target_dir(*ctx, platform@),
        r.1@ == project_target_dir(*ctx),
{
    let style = host_style_of(ctx.host_os.as_str());
    let c = join_path(ctx.cache_dir.as_str(), platform, style);
    let cache_target = join_path(c.as_str(), "cargo-target", style);
    let app = join_path(ctx.root_dir.as_str(), ctx.project_dir.as_str(), style);
    let t = join_path(app.as_str(), "src-tauri", style);
    let project_target = join_path(t.as_str(), "target", style);
    (cache_target, project_target)
}

fn join_all(base: &str, parts: &Vec<&str>, style: HostStyle) -> (r: String)
    ensures
        r@ == joined_all(base@, parts@.map_values(|p: &str| p@), style),
{
    let mut r = owned(base);
    let n = parts.len();
    let mut i: usize = 0;
    while i < n
        invariant
            n == parts@.len(),
            i <= n,
            r@ == joined_all(base@, parts@.map_values(|p: &str| p@).take(i as int), style),
        decreases n - i,
    {
        let next = join_path(r.as_str(), parts[i], style);
        assert(parts@.map_values(|p: &str| p@).take(i + 1).drop_last() =~= parts@.map_values(
            |p: &str| p@,
        ).take(i as int));
        r = next;
        i = i + 1;
    }
    assert(parts@.map_values(|p: &str| p@).take(n as int) =~= parts@.map_values(|p: &str| p@));
    r
}

/// `base` joined with each part in turn.
pub open spec fn joined_all(base: Seq<char>, parts: Seq<Seq<char>>, style: HostStyle) -> Seq<char>
    decreases parts.len(),
{
    if parts.len() == 0 {
        base
    } else {
        joined(joined_all(base, parts.drop_last(), style), parts.last(), style)
    }
}

fn add_candidates(sources: &mut Vec<String>, candidates: Vec<String>)
    ensures
        views(final(sources)@) == dedup_onto(views(old(sources)@), views(candidates@)),
{
    let n = candidates.len();
    let mut i: usize = 0;
    let ghost start = views(sources@);
    while i < n
        invariant
            n == candidates@.len(),
            i <= n,
            views(sources@) == dedup_onto(start, views(candidates@).take(i as int)),
        decreases n - i,
    {
        add_source(sources, candidates[i].clone());
        assert(views(candidates@).take(i + 1).drop_last() =~= views(candidates@).take(i as int));
        i = i + 1;
    }
    assert(views(candidates@).take(n as int) =~= views(candidates@));
}

/// `dedup` continued from an already distinct prefix.
pub open spec fn dedup_onto(acc: Seq<Seq<char>>, s: Seq<Seq<char>>) -> Seq<Seq<char>>
    decreases s.len(),
{
    if s.len() == 0 {
        acc
    } else {
        let d = dedup_onto(acc, s.drop_last());
        if d.contains(s.last()) {
            d
        } else {
            d.push(s.last())
        }
    }
}

proof fn lemma_dedup_onto_empty(s: Seq<Seq<char>>)
    ensures
        dedup_onto(Seq::empty(), s) == dedup(s),
    decreases s.len(),
{
    if s.len() > 0 {
        lemma_dedup_onto_empty(s.drop_last());
    }
}

fn bundle_candidates(target_dir: &str, subdirs: &Vec<String>, style: HostStyle) -> (r: Vec<String>)
    ensures
        views(r@) == bundle_dirs(target_dir@, views(subdirs@), style),
{
    let mut r: Vec<String> = Vec::new();
    let rel = join_path(target_dir, "release", style);
    r.push(join_path(rel.as_str(), "bundle", style));
    let n = subdirs.len();
    let mut i: usize = 0;
    while i < n
        invariant
            n == subdirs@.len(),
            i <= n,
            views(r@) == bundle_dirs(target_dir@, views(subdirs@).take(i as int), style),
        decreases n - i,
    {
        let d = join_path(target_dir, subdirs[i].as_str(), style);
        let dr = join_path(d.as_str(), "release", style);
        let b = join_path(dr.as_str(), "bundle", style);
        let ghost before = r@;
        let ghost bv = b@;
        r.push(b);
        assert(views(r@) =~= views(before).push(bv));
        assert(bundle_dirs(target_dir@, views(subdirs@).take(i + 1), style) =~= bundle_dirs(
            target_dir@,
            views(subdirs@).take(i as int),
            style,
        ).push(bv));
        i = i + 1;
    }
    assert(views(subdirs@).take(n as int) =~= views(subdirs@));
    r
}

proof fn lemma_dedup_onto_append(acc: Seq<Seq<char>>, a: Seq<Seq<char>>, b: Seq<Seq<char>>)
    ensures
        dedup_onto(dedup_onto(acc, a), b) == dedup_onto(acc, a + b),
    decreases b.len(),
{
    if b.len() == 0 {
        assert(a + b =~= a);
    } else {
        lemma_dedup_onto_append(acc, a, b.drop_last());
        assert((a + b).drop_last() =~= a + b.drop_last());
        assert((a + b).last() == b.last());
    }
}

/// The directories where a host build of `platform` leaves artifacts, given
/// the names of the subdirectories of the cached and the project's Cargo
/// target directories.
pub fn host_artifact_sources(
    ctx: &BuildContext,
    platform: &str,
    cache_subdirs: &Vec<String>,
    project_subdirs: &Vec<String>,
) -> (r: Vec<String>)
    ensures
        views(r@) == host_sources_spec(*ctx, platform@, views(cache_subdirs@), views(project_subdirs@)),
        views(r@).no_duplicates(),
{
    let style = host_style_of(ctx.host_os.as_str());
    let (cache_target, project_target) = host_target_dirs(ctx, platform);
    let mut sources: Vec<String> = Vec::new();
    let c1 = bundle_candidates(cache_target.as_str(), cache_subdirs, style);
    let c2 = bundle_candidates(project_target.as_str(), project_subdirs, style);
    let ghost v1 = views(c1@);
    let ghost v2 = views(c2@);
    assert(views(sources@) =~= Seq::<Seq<char>>::empty());
    add_candidates(&mut sources, c1);
    add_candidates(&mut sources, c2);
    assert(views(sources@) == dedup_onto(dedup_onto(Seq::empty(), v1), v2));
    let app = join_path(ctx.root_dir.as_str(), ctx.project_dir.as_str(), style);
    let mut extra: Vec<String> = Vec::new();
    if str_eq(platform, "android") {
        let mut parts: Vec<&str> = Vec::new();
        parts.push("src-tauri");
        parts.push("gen");
        parts.push("android");
        parts.push("app");
        parts.push("build");
        parts.push("outputs");
        let outputs = join_all(app.as_str(), &parts, style);
        let dist = join_path(app.as_str(), "dist", style);
        let dist_android = join_path(dist.as_str(), "android", style);
        proof {
            reveal_with_fuel(joined_all, 7);
            assert(parts@.map_values(|p: &str| p@) =~= seq!["src-tauri"@, "gen"@, "android"@, "app"@, "build"@, "outputs"@]);
        }
        extra.push(outputs);
        extra.push(dist_android);
    } else if str_eq(platform, "ios") {
        let mut parts: Vec<&str> = Vec::new();
        parts.push("src-tauri");
        parts.push("gen");
        parts.push("apple");
        parts.push("build");
        let build = join_all(app.as_str(), &parts, style);
        proof {
            reveal_with_fuel(joined_all, 5);
            assert(parts@.map_values(|p: &str| p@) =~= seq!["src-tauri"@, "gen"@, "apple"@, "build"@]);
        }
        extra.push(build);
    }
    let ghost v3 = views(extra@);
    assert(v3 =~= platform_extra_sources(*ctx, platform@));
    add_candidates(&mut sources, extra);
    proof {
        assert(views(sources@) == dedup_onto(dedup_onto(dedup_onto(Seq::empty(), v1), v2), v3));
        lemma_dedup_onto_append(Seq::empty(), v1, v2);
        lemma_dedup_onto_append(Seq::empty(), v1 + v2, v3);
        lemma_dedup_onto_empty(v1 + v2 + v3);
        lemma_dedup_distinct(v1 + v2 + v3);
    }
    sources
}

/// A host build with no artifact in its output and none copied fails unless
/// empty platforms are allowed; the message lists the searched directories.
pub fn check_host_artifacts(
    platform: &str,
    sources: &Vec<String>,
    existing: usize,
    copied: usize,
    allow_empty: bool,
) -> (r: Result<(), ReleaseError>)
    ensures
        r.is_ok() == (existing > 0 || copied > 0 || allow_empty),
        r matches Err(e) ==> e matches ReleaseError::NoArtifactsSearched { platform: p, searched: s }
            && p@ == platform@ && s@ == join_with(views(sources@), ", "@),
{
    if existing == 0 && copied == 0 && !allow_empty {
        let searched = join_strings(sources, ", ");
        return Err(ReleaseError::NoArtifactsSearched { platform: owned(platform), searched });
    }
    Ok(())
}

} // verus!
