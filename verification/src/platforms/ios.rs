//! iOS apps, built on a macOS host or in an image that provides Xcode.
use vstd::prelude::*;

use crate::cli::tauri_command_of;
use crate::config::BuildStrategy;
use crate::context::BuildContext;
use crate::error::ReleaseError;
use crate::host::{host_command, is_host_command, resolve_strategy, resolved};
use crate::platforms::common::{
    command_then_copy, container_step, extra_tauri_args, extra_tauri_args_spec, is_container_step,
    BuildStep,
};
use crate::text::{has_prefix, join_strings, join_with, owned, push_char, push_str, views};
use crate::util::host_style;

verus! {

/// ` --target <t1> <t2> ...` (unquoted), or nothing.
pub open spec fn targets_spec(targets: Seq<Seq<char>>) -> Seq<char> {
    if targets.len() == 0 {
        Seq::empty()
    } else {
        " --target "@ + join_with(targets, seq![' '])
    }
}

/// The iOS build command: the configured one, else `<tauri> ios build --ci`
/// with the targets and the extra Tauri arguments.
pub open spec fn command_spec(ctx: BuildContext) -> Seq<char> {
    match ctx.config.ios.command {
        Some(c) => c@,
        None => tauri_command_of(ctx.metadata.package_manager) + " ios build --ci"@ + targets_spec(
            views(ctx.config.ios.targets@),
        ) + extra_tauri_args_spec(views(ctx.args.tauri_args@), host_style(ctx.host_os@)),
    }
}

/// The iOS build command.
pub fn command(ctx: &BuildContext) -> (r: String)
    ensures
        r@ == command_spec(*ctx),
{
    match &ctx.config.ios.command {
        Some(c) => c.clone(),
        None => {
            let mut r = owned(ctx.metadata.package_manager.tauri_command());
            push_str(&mut r, " ios build --ci");
            if ctx.config.ios.targets.len() > 0 {
                push_str(&mut r, " --target ");
                let mut sep = String::new();
                push_char(&mut sep, ' ');
                assert(sep@ =~= seq![' ']);
                let t = join_strings(&ctx.config.ios.targets, sep.as_str());
                push_str(&mut r, t.as_str());
            }
            let e = extra_tauri_args(ctx);
            push_str(&mut r, e.as_str());
            r
        },
    }
}

/// The iOS command is the configured one when there is one; otherwise it
/// runs the Tauri CLI through the project's own package manager: it starts
/// with that package manager's Tauri command followed by ` ios build --ci`.
pub proof fn law_ios_command_uses_the_package_manager(ctx: BuildContext)
    ensures
        ctx.config.ios.command matches Some(c) ==> command_spec(ctx) == c@,
        ctx.config.ios.command is None ==> has_prefix(
            command_spec(ctx),
            tauri_command_of(ctx.metadata.package_manager) + " ios build --ci"@,
        ),
{
    if ctx.config.ios.command is None {
        let p = tauri_command_of(ctx.metadata.package_manager) + " ios build --ci"@;
        assert(command_spec(ctx).subrange(0, p.len() as int) =~= p);
    }
}

/// The image of an iOS container build.
pub open spec fn image_spec(ctx: BuildContext) -> Seq<char> {
    match ctx.config.ios.image {
        Some(i) => i@,
        None => ctx.config.container.ios_image@,
    }
}

/// What an iOS build does: refuse when disabled; run the command on the
/// host; or run it in the iOS image and copy the artifacts out.
pub fn build(ctx: &BuildContext) -> (r: Result<BuildStep, ReleaseError>)
    ensures
        match resolved(ctx.config.ios.strategy, "ios"@, ctx.host_os@) {
            BuildStrategy::Disabled => r matches Err(ReleaseError::IosDisabled),
            BuildStrategy::HostOnly => r matches Ok(BuildStep::Host { command }) && is_host_command(
                command,
                *ctx,
                "ios"@,
                command_spec(*ctx),
            ),
            _ => r matches Ok(step) && is_container_step(
                step,
                *ctx,
                "ios"@,
                image_spec(*ctx),
                "templates/Containerfile.ios"@,
                command_then_copy(
                    command_spec(*ctx),
                    "ios"@,
                    ctx.config.artifacts,
                    host_style(ctx.host_os@),
                ),
            ),
        },
{
    match resolve_strategy(ctx.config.ios.strategy, "ios", ctx.host_os.as_str()) {
        BuildStrategy::Disabled => Err(ReleaseError::IosDisabled),
        BuildStrategy::HostOnly => {
            let c = command(ctx);
            Ok(BuildStep::Host { command: host_command(ctx, "ios", c.as_str()) })
        },
        _ => {
            let image = match &ctx.config.ios.image {
                Some(i) => i.clone(),
                None => ctx.config.container.ios_image.clone(),
            };
            let c = command(ctx);
            Ok(container_step(ctx, "ios", image, "templates/Containerfile.ios", c.as_str()))
        },
    }
}

} // verus!
