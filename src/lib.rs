//! Generation of a build-tool configuration (compiler wrapper, per-target
//! linker settings, optimisation profiles) and the decisions behind
//! installing a faster linker on the host.

pub mod config;
pub mod linker;
pub mod text;
