//! The per-platform build decisions.
pub mod android;
pub mod common;
pub mod ios;
pub mod linux;
pub mod macos;
pub mod windows;
