//! A per-toolchain cache of compiled driver binaries.
//!
//! The library holds the rules of the cache: what the generated build
//! workspace contains, when a cached driver counts as out of date, and in
//! which order the file system and the build tool are consulted. The caller
//! performs the actual file and process operations and reports their outcome
//! back to the step functions declared here.

pub mod orchestrator;
pub mod cache;
pub mod descriptor;
pub mod error;
pub mod git;
pub mod text;
pub mod version;
