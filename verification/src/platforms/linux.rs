//! Linux desktop bundles.
use vstd::prelude::*;

use crate::cli::tauri_command_of;
use crate::config::BuildStrategy;
use crate::context::BuildContext;
use crate::error::ReleaseError;
use crate::host::{host_command, is_host_command, resolve_strategy, resolved};
use crate::platforms::common::{
    bundles_arg, bundles_arg_spec, command_then_copy, container_step, extra_tauri_args,
    extra_tauri_args_spec, is_container_step, target_arg, target_arg_spec, BuildStep,
};
use crate::text::{has_prefix, owned, push_str, views};
use crate::util::{host_style, host_style_of};

verus! {

/// The Linux build command: the configured one, else `<tauri> build` with the
/// targets, the bundles and the extra Tauri arguments.
pub open spec fn command_spec(ctx: BuildContext) -> Seq<char> {
    match ctx.config.linux.command {
        Some(c) => c@,
        None => tauri_command_of(ctx.metadata.package_manager) + " build"@ + target_arg_spec(
            views(ctx.config.linux.targets@),
            host_style(ctx.host_os@),
        ) + bundles_arg_spec(views(ctx.config.linux.bundles@), host_style(ctx.host_os@))
            + extra_tauri_args_spec(views(ctx.args.tauri_args@), host_style(ctx.host_os@)),
    }
}

/// The Linux build command.
pub fn command(ctx: &BuildContext) -> (r: String)
    ensures
        r@ == command_spec(*ctx),
{
    match &ctx.config.linux.command {
        Some(c) => c.clone(),
        None => {
            let mut r = owned(ctx.metadata.package_manager.tauri_command());
            push_str(&mut r, " build");
            let style = host_style_of(ctx.host_os.as_str());
            let t = target_arg(&ctx.config.linux.targets, style);
            push_str(&mut r, t.as_str());
            let b = bundles_arg(&ctx.config.linux.bundles, style);
            push_str(&mut r, b.as_str());
            let e = extra_tauri_args(ctx);
            push_str(&mut r, e.as_str());
            r
        },
    }
}

/// The Linux command is the configured one when there is one; otherwise it
/// runs the Tauri CLI through the project's own package manager: it starts
/// with that package manager's Tauri command followed by ` build`.
pub proof fn law_linux_command_uses_the_package_manager(ctx: BuildContext)
    ensures
        ctx.config.linux.command matches Some(c) ==> command_spec(ctx) == c@,
        ctx.config.linux.command is None ==> has_prefix(
            command_spec(ctx),
            tauri_command_of(ctx.metadata.package_manager) + " build"@,
        ),
{
    if ctx.config.linux.command is None {
        let p = tauri_command_of(ctx.metadata.package_manager) + " build"@;
        assert(command_spec(ctx).subrange(0, p.len() as int) =~= p);
    }
}

/// The image of a Linux container build.
pub open spec fn image_spec(ctx: BuildContext) -> Seq<char> {
    match ctx.config.linux.image {
        Some(i) => i@,
        None => ctx.config.container.linux_image@,
    }
}

/// What a Linux build does: refuse when disabled; run the command on the
/// host; or run it in the Linux image and copy the artifacts out.
pub fn build(ctx: &BuildContext) -> (r: Result<BuildStep, ReleaseError>)
    ensures
        match resolved(ctx.config.linux.strategy, "linux"@, ctx.host_os@) {
            BuildStrategy::Disabled => r matches Err(ReleaseError::LinuxDisabled),
            BuildStrategy::HostOnly => r matches Ok(BuildStep::Host { command }) && is_host_command(
                command,
                *ctx,
                "linux"@,
                command_spec(*ctx),
            ),
            _ => r matches Ok(step) && is_container_step(
                step,
                *ctx,
                "linux"@,
                image_spec(*ctx),
                "templates/Containerfile.linux"@,
                command_then_copy(
                    command_spec(*ctx),
                    "linux"@,
                    ctx.config.artifacts,
                    host_style(ctx.host_os@),
                ),
            ),
        },
{
    match resolve_strategy(ctx.config.linux.strategy, "linux", ctx.host_os.as_str()) {
        BuildStrategy::Disabled => Err(ReleaseError::LinuxDisabled),
        BuildStrategy::HostOnly => {
            let c = command(ctx);
            Ok(BuildStep::Host { command: host_command(ctx, "linux", c.as_str()) })
        },
        _ => {
            let image = match &ctx.config.linux.image {
                Some(i) => i.clone(),
                None => ctx.config.container.linux_image.clone(),
            };
            let c = command(ctx);
            Ok(container_step(ctx, "linux", image, "templates/Containerfile.linux", c.as_str()))
        },
    }
}

} // verus!
