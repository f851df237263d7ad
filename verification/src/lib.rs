//! Build-orchestration core of a package manager: given a root package
//! manifest it decides what to build (target/profile selection), against
//! what (an override-aware resolved dependency graph), and how (a merged
//! build configuration), and hands a fully-specified plan to a compilation
//! engine.

pub mod build_config;
pub mod cli;
pub mod config;
pub mod manifest;
pub mod pipeline;
pub mod registry;
pub mod selection;
pub mod text;
