//! A release orchestrator for Tauri applications: it decides how each
//! platform is built (on a matching host or in a disposable Podman/Docker
//! container), what the build commands and container invocations are, which
//! files count as release artifacts and where they go, and writes checksums
//! and a manifest for the collected release.
//!
//! Every function here is verified; the program around it (argument
//! parsing, file system, processes) lives in `app/`.
use vstd::prelude::*;

pub mod text;
pub mod util;
pub mod cli;
pub mod env_map;
pub mod error;
pub mod config;
pub mod project;
pub mod context;
pub mod host;
pub mod container;
pub mod artifacts;
pub mod checksums;
pub mod platforms;
pub mod release;

verus! {
} // verus!
