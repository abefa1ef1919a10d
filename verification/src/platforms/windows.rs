//! Windows installers, built on a Windows host or in an image that provides
//! the Windows toolchain.
use vstd::prelude::*;

use crate::config::BuildStrategy;
use crate::context::BuildContext;
use crate::error::ReleaseError;
use crate::host::{host_command, is_host_command, resolve_strategy, resolved};
use crate::platforms::common::{command_then_copy, container_step, is_container_step, BuildStep};
use crate::text::{owned, str_eq};
use crate::util::{host_style, host_style_of, join_path, joined};

verus! {

/// The build command: the configured one, else `pnpm tauri build`.
pub open spec fn command_spec(ctx: BuildContext) -> Seq<char> {
    match ctx.config.windows.command {
        Some(c) => c@,
        None => "pnpm tauri build"@,
    }
}

/// The build command.
pub fn command(ctx: &BuildContext) -> (r: String)
    ensures
        r@ == command_spec(*ctx),
{
    match &ctx.config.windows.command {
        Some(c) => c.clone(),
        None => owned("pnpm tauri build"),
    }
}

/// The image of a Windows container build.
pub open spec fn image_spec(ctx: BuildContext) -> Seq<char> {
    match ctx.config.windows.image {
        Some(i) => i@,
        None => ctx.config.container.windows_image@,
    }
}

/// What a Windows build does: refuse when disabled; on the host, refuse
/// unless the host is `windows`, else run the command there and copy the
/// artifacts found below the project directory; or run the command in the
/// Windows image and copy the artifacts out.
pub fn build(ctx: &BuildContext) -> (r: Result<BuildStep, ReleaseError>)
    ensures
        match resolved(ctx.config.windows.strategy, "windows"@, ctx.host_os@) {
            BuildStrategy::Disabled => r matches Err(ReleaseError::WindowsDisabled),
            BuildStrategy::HostOnly => if ctx.host_os@ == "windows"@ {
                r matches Ok(BuildStep::HostProjectTree { command, source }) && is_host_command(
                    command,
                    *ctx,
                    "windows"@,
                    command_spec(*ctx),
                ) && source@ == joined(ctx.root_dir@, ctx.project_dir@, host_style(ctx.host_os@))
            } else {
                r matches Err(ReleaseError::WindowsHostRequired)
            },
            _ => r matches Ok(step) && is_container_step(
                step,
                *ctx,
                "windows"@,
                image_spec(*ctx),
                "templates/Containerfile.windows"@,
                command_then_copy(
                    command_spec(*ctx),
                    "windows"@,
                    ctx.config.artifacts,
                    host_style(ctx.host_os@),
                ),
            ),
        },
{
    match resolve_strategy(ctx.config.windows.strategy, "windows", ctx.host_os.as_str()) {
        BuildStrategy::Disabled => Err(ReleaseError::WindowsDisabled),
        BuildStrategy::HostOnly => {
            if !str_eq(ctx.host_os.as_str(), "windows") {
                return Err(ReleaseError::WindowsHostRequired);
            }
            let c = command(ctx);
            let command = host_command(ctx, "windows", c.as_str());
            let source = join_path(ctx.root_dir.as_str(), ctx.project_dir.as_str(), host_style_of(ctx.host_os.as_str()));
            Ok(BuildStep::HostProjectTree { command, source })
        },
        _ => {
            let image = match &ctx.config.windows.image {
                Some(i) => i.clone(),
                None => ctx.config.container.windows_image.clone(),
            };
            let c = command(ctx);
            Ok(container_step(ctx, "windows", image, "templates/Containerfile.windows", c.as_str()))
        },
    }
}

} // verus!
