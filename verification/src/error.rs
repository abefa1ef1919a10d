//! The errors by which a release is refused, each with its message.
use vstd::prelude::*;

use crate::text::{owned, push_str};

verus! {

/// Why a release step refuses to go on.
#[derive(Debug, Clone)]
pub enum ReleaseError {
    /// No platform is selected.
    NoTargetSelected,
    /// `init` would overwrite an existing file without `--force`.
    ConfigExists { path: String },
    /// The Linux strategy is `disabled`.
    LinuxDisabled,
    /// The Android strategy is `disabled`.
    AndroidDisabled,
    /// The iOS strategy is `disabled`.
    IosDisabled,
    /// The macOS strategy is `disabled`.
    MacosDisabled,
    /// The Windows strategy is `disabled`.
    WindowsDisabled,
    /// macOS bundles need a macOS host.
    MacosHostRequired,
    /// Windows installers need a Windows host.
    WindowsHostRequired,
    /// A platform produced no release artifact.
    NoArtifacts { platform: String },
    /// A host build produced no release artifact in the searched directories.
    NoArtifactsSearched { platform: String, searched: String },
    /// Two artifacts would be copied to the same place, or onto an existing file.
    ArtifactCollision { source: String, destination: String },
    /// An artifact path has no file name.
    MissingFileName { path: String },
}

/// The message of an error.
pub open spec fn error_message(e: ReleaseError) -> Seq<char> {
    match e {
        ReleaseError::NoTargetSelected => "no release target selected"@,
        ReleaseError::ConfigExists { path } => path@
            + " already exists. Use --force to overwrite it."@,
        ReleaseError::LinuxDisabled => "Linux build is disabled."@,
        ReleaseError::AndroidDisabled => "Android build is disabled."@,
        ReleaseError::IosDisabled => "iOS build is disabled."@,
        ReleaseError::MacosDisabled =>
            "macOS build is disabled. Enable [macos] strategy = 'host-only' in tauri-release.toml."@,
        ReleaseError::WindowsDisabled =>
            "windows build is disabled. Enable [windows] strategy = 'host-only' in tauri-release.toml."@,
        ReleaseError::MacosHostRequired =>
            "macOS Tauri bundles require a macOS host/runner for signing, DMG and notarization."@,
        ReleaseError::WindowsHostRequired =>
            "windows Tauri installer build requires a Windows host/runner. This project intentionally does not pretend Linux Podman can reliably build MSI/NSIS artifacts."@,
        ReleaseError::NoArtifacts { platform } => "no release artifacts were collected for "@
            + platform@
            + ". Check the build output or set artifacts.allow_empty = true intentionally."@,
        ReleaseError::NoArtifactsSearched { platform, searched } =>
            "no release artifacts were collected for "@ + platform@ + ". Searched: "@ + searched@
            + ". Check the build output or set artifacts.allow_empty = true intentionally."@,
        ReleaseError::ArtifactCollision { source, destination } => "artifact collision: "@
            + source@ + " would overwrite "@ + destination@
            + ". Enable artifacts.keep_relative_paths or make artifact names unique."@,
        ReleaseError::MissingFileName { path } => "release artifact has no file name: "@
            + path@,
    }
}

impl ReleaseError {
    /// The message shown to the user.
    pub fn message(&self) -> (r: String)
        ensures
            r@ == error_message(*self),
    {
        match self {
            ReleaseError::NoTargetSelected => owned("no release target selected"),
            ReleaseError::ConfigExists { path } => {
                let mut r = owned(path.as_str());
                push_str(&mut r, " already exists. Use --force to overwrite it.");
                r
            },
            ReleaseError::LinuxDisabled => owned("Linux build is disabled."),
            ReleaseError::AndroidDisabled => owned("Android build is disabled."),
            ReleaseError::IosDisabled => owned("iOS build is disabled."),
            ReleaseError::MacosDisabled => owned(
                "macOS build is disabled. Enable [macos] strategy = 'host-only' in tauri-release.toml.",
            ),
            ReleaseError::WindowsDisabled => owned(
                "windows build is disabled. Enable [windows] strategy = 'host-only' in tauri-release.toml.",
            ),
            ReleaseError::MacosHostRequired => owned(
                "macOS Tauri bundles require a macOS host/runner for signing, DMG and notarization.",
            ),
            ReleaseError::WindowsHostRequired => owned(
                "windows Tauri installer build requires a Windows host/runner. This project intentionally does not pretend Linux Podman can reliably build MSI/NSIS artifacts.",
            ),
            ReleaseError::NoArtifacts { platform } => {
                let mut r = owned("no release artifacts were collected for ");
                push_str(&mut r, platform.as_str());
                push_str(
                    &mut r,
                    ". Check the build output or set artifacts.allow_empty = true intentionally.",
                );
                r
            },
            ReleaseError::NoArtifactsSearched { platform, searched } => {
                let mut r = owned("no release artifacts were collected for ");
                push_str(&mut r, platform.as_str());
                push_str(&mut r, ". Searched: ");
                push_str(&mut r, searched.as_str());
                push_str(
                    &mut r,
                    ". Check the build output or set artifacts.allow_empty = true intentionally.",
                );
                r
            },
            ReleaseError::ArtifactCollision { source, destination } => {
                let mut r = owned("artifact collision: ");
                push_str(&mut r, source.as_str());
                push_str(&mut r, " would overwrite ");
                push_str(&mut r, destination.as_str());
                push_str(
                    &mut r,
                    ". Enable artifacts.keep_relative_paths or make artifact names unique.",
                );
                r
            },
            ReleaseError::MissingFileName { path } => {
                let mut r = owned("release artifact has no file name: ");
                push_str(&mut r, path.as_str());
                r
            },
        }
    }
}

} // verus!
