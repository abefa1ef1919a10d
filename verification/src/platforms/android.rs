//! Android APK and AAB artifacts.
use vstd::prelude::*;

use crate::cli::tauri_command_of;
use crate::config::BuildStrategy;
use crate::container::{
    copy_artifact_script, copy_artifact_script_spec, ensure_image_hint, image_hint_spec,
    is_container_run, ContainerRun,
};
use crate::context::BuildContext;
use crate::error::ReleaseError;
use crate::host::{host_command, is_host_command, resolve_strategy, resolved};
use crate::platforms::common::BuildStep;
use crate::text::{clone_strings, join_strings, join_with, owned, push_char, push_str, views};
use crate::util::{host_style, host_style_of, opt_view};

verus! {

/// The words of the default Android build command: `<tauri> android build
/// --ci`, the package flags that are on, `--target` and the targets if any,
/// then the extra Tauri arguments.
pub open spec fn command_words(ctx: BuildContext) -> Seq<Seq<char>> {
    seq![tauri_command_of(ctx.metadata.package_manager), "android"@, "build"@, "--ci"@] + (if ctx.config.android.apk {
        seq!["--apk"@]
    } else {
        Seq::empty()
    }) + (if ctx.config.android.aab {
        seq!["--aab"@]
    } else {
        Seq::empty()
    }) + (if ctx.config.android.split_per_abi {
        seq!["--split-per-abi"@]
    } else {
        Seq::empty()
    }) + (if ctx.config.android.targets@.len() > 0 {
        seq!["--target"@] + views(ctx.config.android.targets@)
    } else {
        Seq::empty()
    }) + views(ctx.args.tauri_args@)
}

/// The Android build command: the configured one, else the default words
/// joined by spaces.
pub open spec fn command_spec(ctx: BuildContext) -> Seq<char> {
    match ctx.config.android.command {
        Some(c) => c@,
        None => join_with(command_words(ctx), seq![' ']),
    }
}

fn push_word(parts: &mut Vec<String>, w: &str)
    ensures
        views(final(parts)@) == views(old(parts)@).push(w@),
{
    let ghost before = parts@;
    parts.push(owned(w));
    assert(views(parts@) =~= views(before).push(w@));
}

fn push_words(parts: &mut Vec<String>, words: &Vec<String>)
    ensures
        views(final(parts)@) == views(old(parts)@) + views(words@),
{
    let ghost before = parts@;
    let mut more = clone_strings(words);
    parts.append(&mut more);
    assert(views(parts@) =~= views(before) + views(words@));
}

/// The Android build command.
pub fn command(ctx: &BuildContext) -> (r: String)
    ensures
        r@ == command_spec(*ctx),
{
    match &ctx.config.android.command {
        Some(c) => c.clone(),
        None => {
            let mut parts: Vec<String> = Vec::new();
            push_word(&mut parts, ctx.metadata.package_manager.tauri_command());
            push_word(&mut parts, "android");
            push_word(&mut parts, "build");
            push_word(&mut parts, "--ci");
            let ghost p0 = views(parts@);
            if ctx.config.android.apk {
                push_word(&mut parts, "--apk");
            }
            let ghost p1 = views(parts@);
            if ctx.config.android.aab {
                push_word(&mut parts, "--aab");
            }
            let ghost p2 = views(parts@);
            if ctx.config.android.split_per_abi {
                push_word(&mut parts, "--split-per-abi");
            }
            let ghost p3 = views(parts@);
            if ctx.config.android.targets.len() > 0 {
                push_word(&mut parts, "--target");
                push_words(&mut parts, &ctx.config.android.targets);
            }
            let ghost p4 = views(parts@);
            push_words(&mut parts, &ctx.args.tauri_args);
            proof {
                let c = ctx.config.android;
                assert(p0 =~= seq![tauri_command_of(ctx.metadata.package_manager), "android"@, "build"@, "--ci"@]);
                assert(p1 =~= p0 + (if c.apk { seq!["--apk"@] } else { Seq::empty() }));
                assert(p2 =~= p1 + (if c.aab { seq!["--aab"@] } else { Seq::empty() }));
                assert(p3 =~= p2 + (if c.split_per_abi { seq!["--split-per-abi"@] } else { Seq::empty() }));
                assert(p4 =~= p3 + (if c.targets@.len() > 0 {
                    seq!["--target"@] + views(c.targets@)
                } else {
                    Seq::empty()
                }));
                assert(views(parts@) =~= command_words(*ctx));
            }
            let mut sep = String::new();
            push_char(&mut sep, ' ');
            assert(sep@ =~= seq![' ']);
            join_strings(&parts, sep.as_str())
        },
    }
}

/// With no configured command, the Android command is its words joined by
/// single spaces; the words start with the project's Tauri command and
/// `android build --ci`; they end with the extra Tauri arguments; and when
/// targets are configured, one `--target` word stands right before every
/// configured target, in order, which fill the rest up to the extra
/// arguments. Between `--ci` and the targets stand exactly the package flags
/// that are on: `--apk`, `--aab`, `--split-per-abi`, in that order.
pub proof fn law_android_command_lists_every_target(ctx: BuildContext)
    requires
        ctx.config.android.command is None,
    ensures
        command_spec(ctx) == join_with(command_words(ctx), seq![' ']),
        command_words(ctx).len() >= 4 + views(ctx.args.tauri_args@).len(),
        command_words(ctx).take(4) == seq![
            tauri_command_of(ctx.metadata.package_manager),
            "android"@,
            "build"@,
            "--ci"@,
        ],
        command_words(ctx).skip(command_words(ctx).len() - views(ctx.args.tauri_args@).len())
            == views(ctx.args.tauri_args@),
        ctx.config.android.targets@.len() > 0 ==> {
            let w = command_words(ctx);
            let t = views(ctx.config.android.targets@);
            let x = views(ctx.args.tauri_args@);
            &&& w.len() >= 5 + t.len() + x.len()
            &&& w[w.len() - x.len() - t.len() - 1] == "--target"@
            &&& w.subrange(w.len() - x.len() - t.len(), w.len() - x.len()) == t
            &&& forall|i: int| 0 <= i < t.len() ==> w.contains(#[trigger] t[i])
        },
        ({
            let w = command_words(ctx);
            let c = ctx.config.android;
            let t = views(c.targets@);
            let x = views(ctx.args.tauri_args@);
            let rest = if t.len() > 0 { t.len() + 1 } else { 0 };
            w.subrange(4, w.len() - x.len() - rest) == (if c.apk {
                seq!["--apk"@]
            } else {
                Seq::empty()
            }) + (if c.aab {
                seq!["--aab"@]
            } else {
                Seq::empty()
            }) + (if c.split_per_abi {
                seq!["--split-per-abi"@]
            } else {
                Seq::empty()
            })
        }),
{
    let c = ctx.config.android;
    let w = command_words(ctx);
    let t = views(c.targets@);
    let x = views(ctx.args.tauri_args@);
    let head = seq![tauri_command_of(ctx.metadata.package_manager), "android"@, "build"@, "--ci"@];
    let flags = (if c.apk { seq!["--apk"@] } else { Seq::empty() }) + (if c.aab {
        seq!["--aab"@]
    } else {
        Seq::empty()
    }) + (if c.split_per_abi { seq!["--split-per-abi"@] } else { Seq::empty() });
    let tail = if t.len() > 0 { seq!["--target"@] + t } else { Seq::empty() };
    assert(c.targets@.len() == t.len());
    assert(w =~= head + flags + tail + x);
    assert(w.take(4) =~= head);
    assert(w.skip(w.len() - x.len()) =~= x);
    let rest = if t.len() > 0 { t.len() + 1 } else { 0 };
    assert(w.subrange(4, w.len() - x.len() - rest) =~= flags);
    if t.len() > 0 {
        let before = head + flags;
        assert(w =~= before + seq!["--target"@] + t + x);
        assert(w[before.len() as int] == "--target"@);
        assert(w.subrange(before.len() + 1int, before.len() + 1int + t.len()) =~= t);
        assert forall|i: int| 0 <= i < t.len() implies w.contains(#[trigger] t[i]) by {
            assert(w[before.len() + 1 + i] == t[i]);
        }
    }
}

/// The Android SDK and NDK environment of the container script.
pub const ANDROID_EXPORTS: &'static str = r#"
export ANDROID_HOME="${ANDROID_HOME:-/opt/android-sdk}"
export ANDROID_SDK_ROOT="$ANDROID_HOME"
export NDK_HOME="${NDK_HOME:-$ANDROID_HOME/ndk/${ANDROID_NDK_VERSION:-27.0.11718014}}"
export PATH="$ANDROID_HOME/platform-tools:$ANDROID_HOME/cmdline-tools/latest/bin:$PATH"
"#;

/// The image of an Android container build.
pub open spec fn image_spec(ctx: BuildContext) -> Seq<char> {
    match ctx.config.android.image {
        Some(i) => i@,
        None => ctx.config.container.android_image@,
    }
}

/// The script of an Android container build: the SDK environment, the
/// command, then the artifact copy.
pub open spec fn script_spec(ctx: BuildContext) -> Seq<char> {
    ANDROID_EXPORTS@ + command_spec(ctx) + seq!['\n'] + copy_artifact_script_spec("android"@, ctx.config.artifacts, host_style(ctx.host_os@)) + seq!['\n']
}

/// What an Android build does: refuse when disabled; run the command on the
/// host; or run it in the Android image and copy the artifacts out.
pub fn build(ctx: &BuildContext) -> (r: Result<BuildStep, ReleaseError>)
    ensures
        match resolved(ctx.config.android.strategy, "android"@, ctx.host_os@) {
            BuildStrategy::Disabled => r matches Err(ReleaseError::AndroidDisabled),
            BuildStrategy::HostOnly => r matches Ok(BuildStep::Host { command }) && is_host_command(
                command,
                *ctx,
                "android"@,
                command_spec(*ctx),
            ),
            _ => r matches Ok(BuildStep::Container { run, image_hint }) && is_container_run(
                run,
                *ctx,
                "android"@,
                image_spec(*ctx),
                script_spec(*ctx),
            ) && opt_view(image_hint) == image_hint_spec(
                image_spec(*ctx),
                "templates/Containerfile.android"@,
            ),
        },
{
    match resolve_strategy(ctx.config.android.strategy, "android", ctx.host_os.as_str()) {
        BuildStrategy::Disabled => Err(ReleaseError::AndroidDisabled),
        BuildStrategy::HostOnly => {
            let c = command(ctx);
            Ok(BuildStep::Host { command: host_command(ctx, "android", c.as_str()) })
        },
        _ => {
            let image = match &ctx.config.android.image {
                Some(i) => i.clone(),
                None => ctx.config.container.android_image.clone(),
            };
            let image_hint = ensure_image_hint(image.as_str(), "templates/Containerfile.android");
            let mut script = owned(ANDROID_EXPORTS);
            let c = command(ctx);
            push_str(&mut script, c.as_str());
            push_char(&mut script, '\n');
            let copy = copy_artifact_script("android", &ctx.config.artifacts, host_style_of(ctx.host_os.as_str()));
            push_str(&mut script, copy.as_str());
            push_char(&mut script, '\n');
            assert(script@ =~= script_spec(*ctx));
            let run = ContainerRun::new(ctx, "android", image, script);
            Ok(BuildStep::Container { run, image_hint })
        },
    }
}

} // verus!
