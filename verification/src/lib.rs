//! Build-and-package pipeline rules for WebAssembly crates: which project a
//! command-line argument denotes, where the compiled binary lies, what goes
//! into the crate archive and where the archive is installed.
//!
//! Paths are plain strings whose components are separated by `/`.

pub mod error;
pub mod path;
pub mod json;
pub mod metadata;
pub mod resolve;
pub mod artifact;
pub mod toolchain;
pub mod install;
pub mod pack;
pub mod cli;
