//! The top-level state machine of a run.
//!
//! A run selects its mode — and refuses to go further unless exactly one
//! mode was requested — then gathers chain data for observation (best
//! effort, failures tolerated), builds the engine's input, and finally
//! either checks the executed program's output against the reference
//! computation or records the outcome of proof generation and verification.
//! The two modes share every phase up to the last one. The engine's calls
//! themselves happen outside the library; each step here takes their
//! results and decides what the run does with them.

use vstd::prelude::*;
use crate::errors::{ConfigError, RunError};
use crate::input::ProofInput;
use crate::mode::{select_mode, ExecutionMode};
use crate::oracle::{reference_output, reference_spec};
use crate::range::BlockRecord;

verus! {

/// How many slots past the requested one the observational gather covers.
pub const GATHER_SPAN: u64 = 10;

/// How far a run has come.
#[derive(Clone, Copy, Debug, PartialEq, Eq, Structural)]
pub enum Phase {
    /// The mode is chosen; nothing else has happened.
    ModeSelected,
    /// The observational data gathering is over, however it went.
    DataGathered,
    /// The engine's input is built.
    InputBuilt,
    /// A proof was generated and awaits verification (prove mode only).
    ProofGenerated,
    /// The run ended well.
    Succeeded,
    /// The run ended in a fatal failure.
    Failed(RunError),
}

/// One run of the workflow, from mode selection to completion.
#[derive(Clone, Copy, Debug)]
pub struct Orchestrator {
    pub mode: ExecutionMode,
    pub phase: Phase,
    pub input: Option<ProofInput>,
    /// The slot the gathered snapshot reported, when one was gathered.
    pub observed_snapshot_slot: Option<u64>,
    /// How many block records the best-effort range fetch retrieved.
    pub observed_block_count: usize,
}

impl Orchestrator {
    /// The orchestrator's invariant: an input exists from the moment it is
    /// built, and only a proving run can be awaiting verification.
    pub open spec fn wf(self) -> bool {
        &&& (self.input is Some <==> !(self.phase is ModeSelected || self.phase is DataGathered))
        &&& (self.phase is ProofGenerated ==> self.mode is Prove)
    }

    /// Starts a run: exactly one of the two modes must be requested, and a
    /// violation fails here, before any network or proving call.
    pub fn start(execute: bool, prove: bool) -> (r: Result<Orchestrator, ConfigError>)
        ensures
            r is Ok <==> execute != prove,
            r matches Ok(o) ==> {
                &&& o.wf()
                &&& o.phase is ModeSelected
                &&& o.input is None
                &&& (execute ==> o.mode is Execute)
                &&& (prove ==> o.mode is Prove)
            },
            execute == prove ==> r == Err::<Orchestrator, ConfigError>(
                ConfigError::ModeNotExclusive,
            ),
    {
        let mode = match select_mode(execute, prove) {
            Ok(m) => m,
            Err(e) => {
                return Err(e);
            },
        };
        Ok(
            Orchestrator {
                mode,
                phase: Phase::ModeSelected,
                input: None,
                observed_snapshot_slot: None,
                observed_block_count: 0,
            },
        )
    }

    /// The closed slot range the run gathers for observation: the requested
    /// slot and the `GATHER_SPAN` slots after it.
    pub fn gather_bounds(slot_number: u64) -> (r: (u64, u64))
        requires
            slot_number + GATHER_SPAN <= u64::MAX,
        ensures
            r.0 == slot_number,
            r.1 == slot_number + GATHER_SPAN,
            r.0 <= r.1,
    {
        (slot_number, slot_number + GATHER_SPAN)
    }

    /// Records what the observational data gathering produced. The phase
    /// moves on whatever came back: a missing snapshot or an empty set of
    /// records is tolerated here, never escalated.
    pub fn record_data_gathered(&mut self, snapshot_slot: Option<u64>, blocks: &Vec<BlockRecord>)
        requires
            old(self).wf(),
            old(self).phase is ModeSelected,
        ensures
            final(self).wf(),
            final(self).phase is DataGathered,
            final(self).mode == old(self).mode,
            final(self).input == old(self).input,
            final(self).observed_snapshot_slot == snapshot_slot,
            final(self).observed_block_count == blocks@.len(),
    {
        self.observed_snapshot_slot = snapshot_slot;
        self.observed_block_count = blocks.len();
        self.phase = Phase::DataGathered;
    }

    /// Builds the engine's input from the caller's choice of `n`, or from
    /// the documented default when there is none.
    pub fn build_input(&mut self, requested: Option<u32>) -> (r: ProofInput)
        requires
            old(self).wf(),
            old(self).phase is DataGathered,
        ensures
            final(self).wf(),
            final(self).phase is InputBuilt,
            final(self).mode == old(self).mode,
            final(self).input == Some(r),
            requested matches Some(v) ==> r.n == v,
            requested is None ==> r.n == crate::input::DEFAULT_N,
    {
        let input = ProofInput::build(requested);
        self.input = Some(input);
        self.phase = Phase::InputBuilt;
        input
    }

    /// Takes the output the engine reported for an executed run and holds
    /// it against the independently recomputed reference value: a match
    /// completes the run, a mismatch is a fatal correctness failure.
    pub fn check_execution(&mut self, engine_output: u32) -> (r: Result<(), RunError>)
        requires
            old(self).wf(),
            old(self).phase is InputBuilt,
            old(self).mode is Execute,
        ensures
            final(self).wf(),
            final(self).mode == old(self).mode,
            final(self).input == old(self).input,
            r is Ok <==> engine_output == reference_spec(old(self).input->Some_0.n as nat),
            r is Ok ==> final(self).phase is Succeeded,
            r matches Err(e) ==> {
                &&& e matches RunError::Mismatch { got, expected }
                &&& got == engine_output
                &&& expected == reference_spec(old(self).input->Some_0.n as nat)
                &&& final(self).phase == Phase::Failed(e)
            },
    {
        let input = self.input.unwrap();
        let expected = reference_output(input.n);
        if engine_output == expected {
            self.phase = Phase::Succeeded;
            Ok(())
        } else {
            let e = RunError::Mismatch { got: engine_output, expected };
            self.phase = Phase::Failed(e);
            Err(e)
        }
    }

    /// Records whether the engine produced a proof for the built input: a
    /// failure to produce one is fatal, with no retry.
    pub fn record_proof_generated(&mut self, generated: bool) -> (r: Result<(), RunError>)
        requires
            old(self).wf(),
            old(self).phase is InputBuilt,
            old(self).mode is Prove,
        ensures
            final(self).wf(),
            final(self).mode == old(self).mode,
            final(self).input == old(self).input,
            r is Ok <==> generated,
            generated ==> final(self).phase is ProofGenerated,
            !generated ==> r == Err::<(), RunError>(RunError::ProvingFailed) && final(self).phase
                == Phase::Failed(RunError::ProvingFailed),
    {
        if generated {
            self.phase = Phase::ProofGenerated;
            Ok(())
        } else {
            self.phase = Phase::Failed(RunError::ProvingFailed);
            Err(RunError::ProvingFailed)
        }
    }

    /// Records whether the generated proof verified against the verifying
    /// key: success completes the run, a verification failure is fatal.
    pub fn record_verification(&mut self, verified: bool) -> (r: Result<(), RunError>)
        requires
            old(self).wf(),
            old(self).phase is ProofGenerated,
        ensures
            final(self).wf(),
            final(self).mode == old(self).mode,
            final(self).input == old(self).input,
            r is Ok <==> verified,
            verified ==> final(self).phase is Succeeded,
            !verified ==> r == Err::<(), RunError>(RunError::VerificationFailed),
            !verified ==> final(self).phase == Phase::Failed(RunError::VerificationFailed),
    {
        if verified {
            self.phase = Phase::Succeeded;
            Ok(())
        } else {
            self.phase = Phase::Failed(RunError::VerificationFailed);
            Err(RunError::VerificationFailed)
        }
    }
}

} // verus!
