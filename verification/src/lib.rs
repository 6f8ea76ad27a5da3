//! Core of a validation harness that drives an alternative code-generation
//! backend through graduated test suites.
//!
//! The library holds the declarative test-case model, the gating logic that
//! decides whether a case runs, the deterministic compiler-invocation builder,
//! and the sequential fail-fast execution engine.  Everything that touches the
//! outside world (spawning processes, reading the environment, preparing
//! external projects) is expressed as a plan of `Action` values that a thin
//! driver interprets.

pub mod engine;
pub mod laws;
pub mod plan;
pub mod runner;
pub mod strings;
pub mod suites;
pub mod testcase;
