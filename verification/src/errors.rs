//! Error taxonomy of the workflow.
//!
//! Configuration problems are fatal at startup; transport problems are
//! recoverable during best-effort data gathering but fatal elsewhere; a
//! mismatch between the engine's output and the reference computation, a
//! failed proof generation and a failed verification are always fatal.

use vstd::prelude::*;

verus! {

/// A startup problem: the run cannot begin.
#[derive(Clone, Copy, Debug, PartialEq, Eq, Structural)]
pub enum ConfigError {
    /// Neither or both of the two execution modes were requested;
    /// exactly one must be.
    ModeNotExclusive,
    /// The data endpoint is not a well-formed URL.
    MalformedEndpoint,
}

/// A network or serialization failure on a single data call.
#[derive(Clone, Copy, Debug, PartialEq, Eq, Structural)]
pub struct TransportError;

/// A fatal failure in the final, mode-dependent phase of a run.
#[derive(Clone, Copy, Debug, PartialEq, Eq, Structural)]
pub enum RunError {
    /// The executed program's output disagrees with the independently
    /// computed reference value.
    Mismatch { got: u32, expected: u32 },
    /// The proving engine could not produce a proof.
    ProvingFailed,
    /// The proving engine could not validate the generated proof.
    VerificationFailed,
}

} // verus!
