use eth_consensus::range::{collect_range, BlockRecord, RangeFetcher, SlotOutcome};

fn record(slot: u64, fill: u8) -> BlockRecord {
    BlockRecord { slot, state_root: [fill; 32] }
}

#[test]
fn keeps_retrieved_records_in_slot_order() {
    let outcomes = vec![
        SlotOutcome::Retrieved(record(100, 1)),
        SlotOutcome::Absent,
        SlotOutcome::Retrieved(record(102, 2)),
        SlotOutcome::Failed,
        SlotOutcome::Retrieved(record(104, 3)),
    ];
    let records = collect_range(&outcomes);
    assert_eq!(records.len(), 3);
    assert_eq!(records[0], record(100, 1));
    assert_eq!(records[1], record(102, 2));
    assert_eq!(records[2], record(104, 3));
    for pair in records.windows(2) {
        assert!(pair[0].slot < pair[1].slot);
    }
}

#[test]
fn absent_slot_excluded_without_aborting_the_rest() {
    let outcomes = vec![
        SlotOutcome::Absent,
        SlotOutcome::Retrieved(record(8, 9)),
    ];
    let records = collect_range(&outcomes);
    assert_eq!(records.len(), 1);
    assert_eq!(records[0].slot, 8);
    assert!(records.iter().all(|r| r.slot != 7));
}

#[test]
fn failed_slot_excluded_without_aborting_the_rest() {
    let outcomes = vec![
        SlotOutcome::Failed,
        SlotOutcome::Retrieved(record(51, 4)),
        SlotOutcome::Retrieved(record(52, 5)),
    ];
    let records = collect_range(&outcomes);
    assert_eq!(records.len(), 2);
    assert_eq!(records[0].slot, 51);
    assert_eq!(records[1].slot, 52);
}

#[test]
fn all_skipped_collects_empty_not_error() {
    let outcomes = vec![
        SlotOutcome::Failed,
        SlotOutcome::Absent,
        SlotOutcome::Failed,
    ];
    let records = collect_range(&outcomes);
    assert!(records.is_empty());
}

#[test]
fn empty_outcome_list_collects_empty() {
    let outcomes: Vec<SlotOutcome> = Vec::new();
    assert!(collect_range(&outcomes).is_empty());
}

#[test]
fn fetcher_hands_out_slots_in_increasing_order() {
    let mut fetcher = RangeFetcher::new(100, 103);
    let mut seen: Vec<u64> = Vec::new();
    while let Some(slot) = fetcher.next_slot() {
        seen.push(slot);
        fetcher.record_outcome(SlotOutcome::Absent);
    }
    assert_eq!(seen, vec![100, 101, 102, 103]);
    assert_eq!(fetcher.next_slot(), None);
}

#[test]
fn fetcher_single_slot_range() {
    let mut fetcher = RangeFetcher::new(7, 7);
    assert_eq!(fetcher.next_slot(), Some(7));
    fetcher.record_outcome(SlotOutcome::Retrieved(record(7, 1)));
    assert_eq!(fetcher.next_slot(), None);
    let records = fetcher.collect();
    assert_eq!(records.len(), 1);
    assert_eq!(records[0].slot, 7);
}

#[test]
fn fetcher_collects_best_effort_subset() {
    let mut fetcher = RangeFetcher::new(100, 110);
    while let Some(slot) = fetcher.next_slot() {
        let outcome = if slot % 3 == 0 {
            SlotOutcome::Failed
        } else if slot % 3 == 1 {
            SlotOutcome::Absent
        } else {
            SlotOutcome::Retrieved(record(slot, slot as u8))
        };
        fetcher.record_outcome(outcome);
    }
    let records = fetcher.collect();
    let slots: Vec<u64> = records.iter().map(|r| r.slot).collect();
    assert_eq!(slots, vec![101, 104, 107, 110]);
}
