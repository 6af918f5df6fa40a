use plonky2_evm::consistency::{scan_is_consistent, sort_ops};
use plonky2_evm::memory::{MemoryAddress, MemoryChannel, MemoryOp, MemoryOpKind, MemoryState};
use plonky2_evm::public_values::{
    BlockHashes, BlockMetadata, ContinuityError, MemCap, PublicValues, TrieRoots,
};
use plonky2_evm::segments::Segment;
use plonky2_evm::state::{KernelLabels, RegistersState};
use plonky2_evm::word::Word;

fn w(x: u64) -> Word {
    Word::from_u64(x)
}

fn roots(x: u64) -> TrieRoots {
    TrieRoots { state_root: w(x), transactions_root: w(x + 1), receipts_root: w(x + 2) }
}

fn metadata() -> BlockMetadata {
    BlockMetadata {
        block_beneficiary: w(0),
        block_timestamp: w(0),
        block_number: w(1),
        block_difficulty: w(0),
        block_random: w(0),
        block_gaslimit: w(0),
        block_chain_id: w(1),
        block_base_fee: w(0),
        block_gas_used: w(0),
    }
}

fn hashes() -> BlockHashes {
    let mut prev_hashes = vec![w(0); 256];
    prev_hashes[255] = w(0x200);
    BlockHashes { prev_hashes, cur_hash: w(0) }
}

fn values(before: RegistersState, after: RegistersState, cap_before: u64, cap_after: u64) -> PublicValues {
    PublicValues {
        trie_roots_before: roots(10),
        trie_roots_after: roots(10),
        block_metadata: metadata(),
        block_hashes: hashes(),
        registers_before: before,
        registers_after: after,
        mem_before: MemCap { mem_cap: vec![cap_before, 1, 2, 3] },
        mem_after: MemCap { mem_cap: vec![cap_after, 1, 2, 3] },
        txn_number_before: w(0),
        txn_number_after: w(0),
        gas_used_before: w(0),
        gas_used_after: w(0),
    }
}

fn labels() -> KernelLabels {
    KernelLabels { main: 1, main_contd: 2, halt: 40129 }
}

#[test]
fn aggregate_two_segments() {
    let start = RegistersState::new_with_main_label(&labels());
    let mut halted = RegistersState::new_last_registers_with_gas(&labels(), 2783);
    halted.stack_top = w(146028888070);
    let first = values(start, halted, 5, 6);
    let second = values(halted, halted, 6, 6);
    let joined = PublicValues::aggregate_segments(&first, &second).unwrap();
    assert_eq!(joined.registers_before, start);
    assert_eq!(joined.registers_after.gas_used, 2783);
    assert_eq!(joined.registers_after.stack_top, w(146028888070));
    assert_eq!(joined.mem_before.mem_cap[0], 5);
    assert_eq!(joined.mem_after.mem_cap[0], 6);
}

#[test]
fn trivial_continuation_joins_itself() {
    let halted = RegistersState::new_last_registers_with_gas(&labels(), 2783);
    let pv = values(halted, halted, 6, 6);
    let joined = PublicValues::aggregate_segments(&pv, &pv).unwrap();
    assert_eq!(joined.registers_before, halted);
    assert_eq!(joined.registers_after, halted);
    assert_eq!(joined.mem_after.mem_cap, pv.mem_after.mem_cap);
}

#[test]
fn tampered_mem_cap_is_rejected() {
    let start = RegistersState::new_with_main_label(&labels());
    let halted = RegistersState::new_last_registers_with_gas(&labels(), 2783);
    let mut first = values(start, halted, 5, 6);
    let second = values(halted, halted, 6, 6);
    first.mem_after.mem_cap[2] ^= 1 << 17;
    assert_eq!(
        PublicValues::aggregate_segments(&first, &second).unwrap_err(),
        ContinuityError::MemCapMismatch
    );
}

#[test]
fn register_mismatch_is_rejected_first() {
    let start = RegistersState::new_with_main_label(&labels());
    let halted = RegistersState::new_last_registers_with_gas(&labels(), 2783);
    let first = values(start, start, 5, 6);
    let second = values(halted, halted, 7, 7);
    assert_eq!(
        PublicValues::aggregate_segments(&first, &second).unwrap_err(),
        ContinuityError::RegistersMismatch
    );
}

#[test]
fn transaction_aggregation_checks_gas_and_roots() {
    let halted = RegistersState::new_last_registers_with_gas(&labels(), 2783);
    let mut t1 = values(halted, halted, 1, 2);
    t1.gas_used_after = w(21000);
    t1.txn_number_after = w(1);
    t1.trie_roots_after = roots(20);
    let mut t2 = values(halted, halted, 3, 4);
    t2.gas_used_before = w(21000);
    t2.gas_used_after = w(42000);
    t2.txn_number_before = w(1);
    t2.txn_number_after = w(2);
    t2.trie_roots_before = roots(20);
    t2.trie_roots_after = roots(30);
    let alone = PublicValues::aggregate_txns(None, &t1).unwrap();
    assert_eq!(alone.gas_used_after, w(21000));
    let both = PublicValues::aggregate_txns(Some(&t1), &t2).unwrap();
    assert_eq!(both.gas_used_before, w(0));
    assert_eq!(both.gas_used_after, w(42000));
    assert_eq!(both.trie_roots_before, roots(10));
    assert_eq!(both.trie_roots_after, roots(30));
    t2.gas_used_before = w(1);
    assert_eq!(
        PublicValues::aggregate_txns(Some(&t1), &t2).unwrap_err(),
        ContinuityError::GasUsedMismatch
    );
    t2.gas_used_before = w(21000);
    t2.trie_roots_before = roots(21);
    assert_eq!(
        PublicValues::aggregate_txns(Some(&t1), &t2).unwrap_err(),
        ContinuityError::TrieRootsMismatch
    );
}

fn op(kind: MemoryOpKind, clock: usize, addr: MemoryAddress, v: u64) -> MemoryOp {
    MemoryOp::new(MemoryChannel::GeneralPurpose(0), clock, addr, kind, w(v))
}

#[test]
fn sorted_log_scan_accepts_consistent_reads() {
    let a = MemoryAddress::new(0, Segment::MainMemory, 1);
    let b = MemoryAddress::new(0, Segment::Stack, 0);
    let log = vec![
        op(MemoryOpKind::Write, 1, a, 5),
        op(MemoryOpKind::Read, 2, b, 0),
        op(MemoryOpKind::Read, 3, a, 5),
        op(MemoryOpKind::Write, 4, b, 9),
        op(MemoryOpKind::Read, 5, b, 9),
        MemoryOp::new_dummy_read(b, 6, w(77)),
    ];
    let sorted = sort_ops(&log);
    for i in 1..sorted.len() {
        assert!(sorted[i - 1].sorting_key() <= sorted[i].sorting_key());
    }
    assert!(scan_is_consistent(&sorted, &MemoryState::default()));
    let mut reversed = log.clone();
    reversed.reverse();
    let sorted_again = sort_ops(&reversed);
    assert_eq!(sorted, sorted_again);
}

#[test]
fn sorted_log_scan_rejects_stale_read() {
    let a = MemoryAddress::new(0, Segment::MainMemory, 1);
    let log = vec![
        op(MemoryOpKind::Write, 1, a, 5),
        op(MemoryOpKind::Write, 2, a, 6),
        op(MemoryOpKind::Read, 3, a, 5),
    ];
    assert!(!scan_is_consistent(&sort_ops(&log), &MemoryState::default()));
}

#[test]
fn scan_uses_preloaded_code() {
    let code = MemoryState::new(&[0x60, 0x01]);
    let a = MemoryAddress::new(0, Segment::Code, 1);
    let ok = vec![MemoryOp::new(MemoryChannel::Code, 1, a, MemoryOpKind::Read, w(1))];
    assert!(scan_is_consistent(&ok, &code));
    let bad = vec![MemoryOp::new(MemoryChannel::Code, 1, a, MemoryOpKind::Read, w(0))];
    assert!(!scan_is_consistent(&bad, &code));
}

#[test]
fn sort_is_stable_for_equal_keys() {
    let a = MemoryAddress::new(0, Segment::MainMemory, 1);
    let first = MemoryOp::new_dummy_read(a, 3, w(1));
    let second = MemoryOp::new_dummy_read(a, 3, w(2));
    let sorted = sort_ops(&vec![second, first]);
    assert_eq!(sorted[0].value, w(2));
    assert_eq!(sorted[1].value, w(1));
}

#[test]
fn public_values_round_trip_through_inputs() {
    let start = RegistersState::new_with_main_label(&labels());
    let mut halted = RegistersState::new_last_registers_with_gas(&labels(), 2783);
    halted.stack_top = w(146028888070);
    let mut pv = values(start, halted, 5, 6);
    pv.mem_after.mem_cap.push(99);
    pv.gas_used_after = Word { l0: 1, l1: 2, l2: 3, l3: 4 };
    let inputs = pv.to_public_inputs();
    assert_eq!(inputs.len(), 1126 + 4 + 5);
    assert_eq!(inputs[0], 10);
    let back = PublicValues::from_public_inputs(&inputs, 4, 5).unwrap();
    assert_eq!(back.registers_before, start);
    assert_eq!(back.registers_after, halted);
    assert_eq!(back.mem_before.mem_cap, pv.mem_before.mem_cap);
    assert_eq!(back.mem_after.mem_cap, pv.mem_after.mem_cap);
    assert_eq!(back.block_hashes.prev_hashes, pv.block_hashes.prev_hashes);
    assert_eq!(back.gas_used_after, pv.gas_used_after);
    assert_eq!(back.block_metadata, pv.block_metadata);
    assert_eq!(back.to_public_inputs(), inputs);
}

#[test]
fn public_inputs_of_wrong_length_or_bad_flag_are_refused() {
    let halted = RegistersState::new_last_registers_with_gas(&labels(), 2783);
    let pv = values(halted, halted, 1, 1);
    let mut inputs = pv.to_public_inputs();
    assert!(PublicValues::from_public_inputs(&inputs, 4, 5).is_none());
    assert!(PublicValues::from_public_inputs(&inputs, 3, 5).is_some());
    inputs[1089] = 2;
    assert!(PublicValues::from_public_inputs(&inputs, 4, 4).is_none());
}

#[test]
fn empty_block_scenario_aggregates_through_every_level() {
    let start = RegistersState::new_with_main_label(&labels());
    let mut halted = RegistersState::new_last_registers_with_gas(&labels(), 2783);
    halted.stack_top = w(146028888070);
    let first = values(start, halted, 5, 6);
    let second = values(halted, halted, 6, 6);
    let segments = PublicValues::aggregate_segments(&first, &second).unwrap();
    let txn = PublicValues::aggregate_txns(None, &segments).unwrap();
    let block = PublicValues::aggregate_block(None, &txn).unwrap();
    for pv in [&segments, &txn, &block] {
        let inputs = pv.to_public_inputs();
        let back = PublicValues::from_public_inputs(
            &inputs,
            pv.mem_before.mem_cap.len(),
            pv.mem_after.mem_cap.len(),
        )
        .unwrap();
        assert_eq!(back.to_public_inputs(), inputs);
        assert_eq!(back.registers_after, halted);
    }
    assert_eq!(block.registers_before, start);
    assert_eq!(block.registers_after.program_counter, 40129);
    assert_eq!(block.registers_after.gas_used, 2783);
}

#[test]
fn chained_blocks_need_matching_state_root() {
    let halted = RegistersState::new_last_registers_with_gas(&labels(), 0);
    let mut first = values(halted, halted, 1, 1);
    first.trie_roots_after = roots(50);
    let mut second = values(halted, halted, 1, 1);
    second.trie_roots_before = roots(50);
    second.trie_roots_after = roots(60);
    let chained = PublicValues::aggregate_block(Some(&first), &second).unwrap();
    assert_eq!(chained.trie_roots_before, roots(10));
    assert_eq!(chained.trie_roots_after, roots(60));
    second.trie_roots_before = roots(51);
    assert_eq!(
        PublicValues::aggregate_block(Some(&first), &second).unwrap_err(),
        ContinuityError::TrieRootsMismatch
    );
}
