//! Verified core of a terminal-multiplexer orchestrator.
//!
//! The library models namespaces (multiplexer sessions) holding agents
//! (windows). It builds the exact argument lists of every control-plane
//! call, decides how multi-step protocols advance and abort, and proves
//! the ordering and filtering rules the tool depends on. Running the
//! external control-plane binary itself is left to the surrounding
//! application.

use vstd::prelude::*;

pub mod calls;
pub mod discovery;
pub mod dispatch;
pub mod marker;
pub mod runner;
pub mod shell;
pub mod spawn;
pub mod tell;
pub mod text;

verus! {

/// The std error type carried by transport failures; opaque to the proofs.
#[verifier::external_type_specification]
#[verifier::external_body]
pub struct ExIoError(std::io::Error);

/// Errors reported by the orchestration protocols.
#[derive(Debug)]
pub enum JarvisError {
    /// The control-plane binary could not be launched or its I/O failed.
    Io(std::io::Error),
    /// The control-plane command ran but exited with a non-zero status.
    NonZero(i32),
    /// No process matched the requested name or identifier.
    ProcessNotFound(u32),
    /// A spawn request carried no command to run.
    EmptyCommand,
}

} // verus!
