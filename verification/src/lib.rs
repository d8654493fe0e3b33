//! Core logic of a per-project JavaScript toolchain manager: resolving a
//! version requirement against a registry index, caching remote index data
//! with HTTP expiry semantics, tracking the locally installed versions of
//! each tool, and deciding how an invoked command should run.

pub mod cache;
pub mod collection;
pub mod command;
pub mod error;
pub mod hooks;
pub mod index;
pub mod ranges;
pub mod requirement;
pub mod resolve;
pub mod run;
pub mod text;
pub mod version;

pub use version::Version;
