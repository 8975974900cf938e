use eth_consensus::errors::{ConfigError, RunError};
use eth_consensus::mode::ExecutionMode;
use eth_consensus::oracle::reference_output;
use eth_consensus::orchestrator::{Orchestrator, Phase, GATHER_SPAN};
use eth_consensus::range::{BlockRecord, RangeFetcher, SlotOutcome};

#[test]
fn gather_covers_the_slot_and_the_ten_after_it() {
    assert_eq!(GATHER_SPAN, 10);
    assert_eq!(Orchestrator::gather_bounds(100), (100, 110));
    assert_eq!(Orchestrator::gather_bounds(0), (0, 10));
}

#[test]
fn both_modes_fail_fast_before_any_work() {
    // `--execute --prove`: rejected with a diagnostic before any network or
    // proving call can happen.
    assert_eq!(
        Orchestrator::start(true, true).unwrap_err(),
        ConfigError::ModeNotExclusive
    );
    assert_eq!(
        Orchestrator::start(false, false).unwrap_err(),
        ConfigError::ModeNotExclusive
    );
}

#[test]
fn execute_scenario_end_to_end() {
    // `--execute --n 20 --slot-number 100`: gather slots 100..=110 best
    // effort, build input 20, execute, compare against reference(20).
    let mut orchestrator = Orchestrator::start(true, false).unwrap();
    assert_eq!(orchestrator.mode, ExecutionMode::Execute);

    let (start, end) = Orchestrator::gather_bounds(100);
    let mut fetcher = RangeFetcher::new(start, end);
    while let Some(slot) = fetcher.next_slot() {
        let outcome = if slot == 105 {
            SlotOutcome::Failed
        } else if slot == 106 {
            SlotOutcome::Absent
        } else {
            SlotOutcome::Retrieved(BlockRecord { slot, state_root: [7; 32] })
        };
        fetcher.record_outcome(outcome);
    }
    let blocks = fetcher.collect();
    assert_eq!(blocks.len(), 9);

    orchestrator.record_data_gathered(Some(100), &blocks);
    assert_eq!(orchestrator.observed_snapshot_slot, Some(100));
    assert_eq!(orchestrator.observed_block_count, 9);

    let input = orchestrator.build_input(Some(20));
    assert_eq!(input.n, 20);

    let engine_output = reference_output(input.n);
    assert_eq!(engine_output, 6765);
    assert_eq!(orchestrator.check_execution(engine_output), Ok(()));
    assert_eq!(orchestrator.phase, Phase::Succeeded);
}

#[test]
fn corrupted_execution_output_is_a_mismatch() {
    let mut orchestrator = Orchestrator::start(true, false).unwrap();
    let blocks: Vec<BlockRecord> = Vec::new();
    orchestrator.record_data_gathered(None, &blocks);
    let input = orchestrator.build_input(None);
    assert_eq!(input.n, 20);

    let corrupted = reference_output(input.n) ^ 1;
    assert_eq!(
        orchestrator.check_execution(corrupted),
        Err(RunError::Mismatch { got: corrupted, expected: 6765 })
    );
    assert_eq!(
        orchestrator.phase,
        Phase::Failed(RunError::Mismatch { got: corrupted, expected: 6765 })
    );
}

#[test]
fn prove_scenario_generates_then_verifies() {
    let mut orchestrator = Orchestrator::start(false, true).unwrap();
    assert_eq!(orchestrator.mode, ExecutionMode::Prove);
    let blocks: Vec<BlockRecord> = Vec::new();
    orchestrator.record_data_gathered(None, &blocks);
    orchestrator.build_input(Some(20));
    assert_eq!(orchestrator.record_proof_generated(true), Ok(()));
    assert_eq!(orchestrator.phase, Phase::ProofGenerated);
    assert_eq!(orchestrator.record_verification(true), Ok(()));
    assert_eq!(orchestrator.phase, Phase::Succeeded);
}

#[test]
fn failed_proof_generation_is_fatal() {
    let mut orchestrator = Orchestrator::start(false, true).unwrap();
    let blocks: Vec<BlockRecord> = Vec::new();
    orchestrator.record_data_gathered(None, &blocks);
    orchestrator.build_input(None);
    assert_eq!(
        orchestrator.record_proof_generated(false),
        Err(RunError::ProvingFailed)
    );
    assert_eq!(orchestrator.phase, Phase::Failed(RunError::ProvingFailed));
}

#[test]
fn failed_verification_is_fatal() {
    // A proof held against the wrong verifying key does not verify; the
    // orchestrator turns that engine outcome into a fatal failure.
    let mut orchestrator = Orchestrator::start(false, true).unwrap();
    let blocks: Vec<BlockRecord> = Vec::new();
    orchestrator.record_data_gathered(None, &blocks);
    orchestrator.build_input(None);
    orchestrator.record_proof_generated(true).unwrap();
    assert_eq!(
        orchestrator.record_verification(false),
        Err(RunError::VerificationFailed)
    );
    assert_eq!(orchestrator.phase, Phase::Failed(RunError::VerificationFailed));
}
