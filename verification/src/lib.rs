//! Build-time configuration and toolchain-orchestration engine for the
//! DA14531 SDK.
//!
//! The engine turns a fixed set of build-time feature selections (plus
//! optional environment overrides) into a fully resolved build plan:
//! generated C preprocessor configuration headers, include directories,
//! macro defines, source file lists, binding-generator arguments and
//! linker search paths. Everything here is pure computation over plain
//! values; reading the environment, touching the file system and invoking
//! the cross toolchain are left to the embedding program.

pub mod allocator;
pub mod assemble;
pub mod catalog;
pub mod common;
pub mod config;
pub mod custs;
pub mod features;
pub mod numbers;
pub mod pipeline;
pub mod template;
pub mod text;
pub mod toolchain;
pub mod version;
