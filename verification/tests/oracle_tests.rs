use eth_consensus::oracle::reference_output;

#[test]
fn small_reference_values() {
    assert_eq!(reference_output(0), 0);
    assert_eq!(reference_output(1), 1);
    assert_eq!(reference_output(2), 1);
    assert_eq!(reference_output(3), 2);
    assert_eq!(reference_output(10), 55);
}

#[test]
fn reference_value_for_the_default_input() {
    assert_eq!(reference_output(20), 6765);
}

#[test]
fn reference_wraps_at_the_word() {
    // The 48th element is the first one that exceeds 2^32: the oracle keeps
    // the remainder, never more than 32 bits.
    assert_eq!(reference_output(47), 2_971_215_073);
    assert_eq!(reference_output(48), (2_971_215_073u64 + 1_836_311_903u64 - (1u64 << 32)) as u32);
}
