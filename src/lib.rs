//! Local package and version manager that runs packaged tools inside
//! container-engine invocations.
//!
//! The library holds the logic: version-state transitions, descriptor
//! resolution, container command-line construction, shim layout and the
//! typed settings document. Reading and writing files, spawning processes
//! and talking to the terminal are left to the caller.
pub mod commands;
pub mod configs;
pub mod packages;
pub mod runner;
pub mod shims;
pub mod text;
