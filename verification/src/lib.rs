//! Dependency-gated diagnostics for AMD Secure Encrypted Virtualization (SEV).
//!
//! The library decides whether a host supports SEV, and optionally its
//! Encrypted State extension (SEV-ES), by walking an ordered catalog of
//! diagnostic probes. Probes are arranged in dependency tiers: once any
//! CPU-capability probe fails, every later probe is reported as skipped
//! instead of executed, and a flat phase of operating-system probes runs
//! only if the whole CPU phase passed. The engine, the catalog builder and
//! the interpretation of raw processor register values are verified here;
//! the hardware query instruction, the device-file and kernel probes, and
//! the terminal rendering are collaborators supplied by the caller.

pub mod catalog;
pub mod cpuid;
pub mod engine;
pub mod params;
pub mod probe;
pub mod report;
