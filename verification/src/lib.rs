//! Verified orchestration core for a consensus-data proving workflow.
//!
//! The library drives an end-to-end run that gathers beacon-chain block
//! records for a closed slot range (best effort, per-slot failures tolerated)
//! and feeds a numeric input into a zero-knowledge proving pipeline, either
//! executing the program and checking its output against a pure reference
//! function, or generating and then verifying a proof. Network transport and
//! the proving engine itself are external collaborators: the library holds
//! the decisions, the data model and the contracts between the phases.

pub mod endpoint;
pub mod errors;
pub mod input;
pub mod mode;
pub mod oracle;
pub mod orchestrator;
pub mod range;
