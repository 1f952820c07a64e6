//! A small project manager for C programs: project layout checks, manifest
//! records, source discovery and compiler invocation planning.
pub mod cli;
pub mod compile;
pub mod discovery;
pub mod error;
pub mod manifest;
pub mod paths;
pub mod scaffold;
pub mod session;
