//! Execution-mode selection.
//!
//! A run either executes the program and checks its output, or generates and
//! verifies a proof of its execution. Exactly one of the two must be
//! requested; a violation is detected before any network or proving call.

use vstd::prelude::*;
use crate::errors::ConfigError;

verus! {

/// The two mutually exclusive ways a run may consume the program artifact.
#[derive(Clone, Copy, Debug, PartialEq, Eq, Structural)]
pub enum ExecutionMode {
    /// Run the program and compare its output to the reference computation.
    Execute,
    /// Generate a proof of the program's execution and verify it.
    Prove,
}

/// Turns the two mode flags into a mode, rejecting the runs where both or
/// neither flag is set.
pub fn select_mode(execute: bool, prove: bool) -> (r: Result<ExecutionMode, ConfigError>)
    ensures
        r is Ok <==> execute != prove,
        execute && !prove ==> r == Ok::<ExecutionMode, ConfigError>(ExecutionMode::Execute),
        prove && !execute ==> r == Ok::<ExecutionMode, ConfigError>(ExecutionMode::Prove),
        execute == prove ==> r == Err::<ExecutionMode, ConfigError>(ConfigError::ModeNotExclusive),
{
    if execute && !prove {
        Ok(ExecutionMode::Execute)
    } else if prove && !execute {
        Ok(ExecutionMode::Prove)
    } else {
        Err(ConfigError::ModeNotExclusive)
    }
}

} // verus!
