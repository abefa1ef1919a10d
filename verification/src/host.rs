//! Builds that run on the host: the strategy decision and the command that
//! the host runs.
use vstd::prelude::*;

use crate::config::BuildStrategy;
use crate::context::BuildContext;
use crate::env_map::pair_views;
use crate::text::owned;
use crate::util::{
    host_matches, host_matches_platform, host_style, host_style_of, join_path, joined, HostStyle,
};

verus! {

/// `auto` resolved for a platform on a host: the host when it matches the
/// platform, else a container; every other strategy stands.
pub open spec fn resolved(strategy: BuildStrategy, platform: Seq<char>, os: Seq<char>) -> BuildStrategy {
    match strategy {
        BuildStrategy::Auto => if host_matches(os, platform) {
            BuildStrategy::HostOnly
        } else {
            BuildStrategy::Container
        },
        other => other,
    }
}

/// Resolves `auto` for `platform` on a host whose `target_os` is `target_os`.
pub fn resolve_strategy(strategy: BuildStrategy, platform: &str, target_os: &str) -> (r: BuildStrategy)
    ensures
        r == resolved(strategy, platform@, target_os@),
        r != BuildStrategy::Auto,
{
    match strategy {
        BuildStrategy::Auto => {
            if host_matches_platform(target_os, platform) {
                BuildStrategy::HostOnly
            } else {
                BuildStrategy::Container
            }
        },
        other => other,
    }
}

/// A command to run on the host for one platform.
#[derive(Debug, Clone)]
pub struct HostCommand {
    pub platform: String,
    /// The platform's output directory, created before the command runs.
    pub output_dir: String,
    /// The project directory, where the command runs.
    pub working_dir: String,
    pub command_line: String,
    /// The environment given to the command, in order.
    pub env: Vec<(String, String)>,
    /// Print the command instead of running it.
    pub dry_run: bool,
}

/// The cache directory of one tool of one platform.
pub open spec fn tool_cache(cache: Seq<char>, platform: Seq<char>, tool: Seq<char>, style: HostStyle) -> Seq<char> {
    joined(joined(cache, platform, style), tool, style)
}

/// The environment of a host build: the output directory and the platform's
/// tool caches, then the project's own variables in order of name.
pub open spec fn host_env_spec(ctx: BuildContext, platform: Seq<char>) -> Seq<(Seq<char>, Seq<char>)> {
    seq![
        ("TAURI_RELEASE_OUT"@, joined(ctx.output_dir@, platform, host_style(ctx.host_os@))),
        ("CARGO_TARGET_DIR"@, tool_cache(ctx.cache_dir@, platform, "cargo-target"@, host_style(ctx.host_os@))),
        ("GRADLE_USER_HOME"@, tool_cache(ctx.cache_dir@, platform, "gradle"@, host_style(ctx.host_os@))),
        ("PNPM_STORE_DIR"@, tool_cache(ctx.cache_dir@, platform, "pnpm-store"@, host_style(ctx.host_os@))),
    ] + ctx.config.project.env@
}

fn tool_cache_dir(cache: &str, platform: &str, tool: &str, style: HostStyle) -> (r: String)
    ensures
        r@ == tool_cache(cache@, platform@, tool@, style),
{
    let p = join_path(cache, platform, style);
    join_path(p.as_str(), tool, style)
}

/// `r` runs `command_line` for `platform` in the project directory, with the
/// platform's output directory and the host build environment.
pub open spec fn is_host_command(r: HostCommand, ctx: BuildContext, platform: Seq<char>, command_line: Seq<char>) -> bool {
    &&& r.platform@ == platform
    &&& r.output_dir@ == joined(ctx.output_dir@, platform, host_style(ctx.host_os@))
    &&& r.working_dir@ == joined(ctx.root_dir@, ctx.project_dir@, host_style(ctx.host_os@))
    &&& r.command_line@ == command_line
    &&& pair_views(r.env@) == host_env_spec(ctx, platform)
    &&& r.dry_run == ctx.args.dry_run
}

/// The host command that builds `platform` with `command_line`.
pub fn host_command(ctx: &BuildContext, platform: &str, command_line: &str) -> (r: HostCommand)
    ensures
        is_host_command(r, *ctx, platform@, command_line@),
{
    let style = host_style_of(ctx.host_os.as_str());
    let out = ctx.platform_output_dir(platform);
    let mut env: Vec<(String, String)> = Vec::new();
    env.push((owned("TAURI_RELEASE_OUT"), out.clone()));
    env.push((owned("CARGO_TARGET_DIR"), tool_cache_dir(ctx.cache_dir.as_str(), platform, "cargo-target", style)));
    env.push((owned("GRADLE_USER_HOME"), tool_cache_dir(ctx.cache_dir.as_str(), platform, "gradle", style)));
    env.push((owned("PNPM_STORE_DIR"), tool_cache_dir(ctx.cache_dir.as_str(), platform, "pnpm-store", style)));
    let ghost head = pair_views(env@);
    let project_env = ctx.config.project.env.entries();
    let n = project_env.len();
    let mut i: usize = 0;
    while i < n
        invariant
            n == project_env@.len(),
            i <= n,
            pair_views(env@) == head + pair_views(project_env@).take(i as int),
        decreases n - i,
    {
        let k = project_env[i].0.clone();
        let v = project_env[i].1.clone();
        let ghost before = env@;
        let ghost kv = (k@, v@);
        env.push((k, v));
        assert(pair_views(env@) =~= pair_views(before).push(kv));
        assert(pair_views(project_env@)[i as int] == kv);
        assert(pair_views(project_env@).take(i + 1) =~= pair_views(project_env@).take(i as int).push(
            pair_views(project_env@)[i as int],
        ));
        assert(pair_views(env@) =~= head + pair_views(project_env@).take(i + 1));
        i = i + 1;
    }
    assert(pair_views(project_env@).take(n as int) =~= pair_views(project_env@));
    assert(head =~= seq![
        ("TAURI_RELEASE_OUT"@, joined(ctx.output_dir@, platform@, host_style(ctx.host_os@))),
        ("CARGO_TARGET_DIR"@, tool_cache(ctx.cache_dir@, platform@, "cargo-target"@, host_style(ctx.host_os@))),
        ("GRADLE_USER_HOME"@, tool_cache(ctx.cache_dir@, platform@, "gradle"@, host_style(ctx.host_os@))),
        ("PNPM_STORE_DIR"@, tool_cache(ctx.cache_dir@, platform@, "pnpm-store"@, host_style(ctx.host_os@))),
    ]);
    HostCommand {
        platform: owned(platform),
        output_dir: out,
        working_dir: join_path(ctx.root_dir.as_str(), ctx.project_dir.as_str(), style),
        command_line: owned(command_line),
        env,
        dry_run: ctx.args.dry_run,
    }
}

} // verus!
