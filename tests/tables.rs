use plonky2_evm::global_metadata::{GlobalMetadata, GLOBAL_METADATA_COUNT};
use plonky2_evm::mem_after::{padded_height, value_limb, MemAfterStark, NUM_COLUMNS};
use plonky2_evm::segments::{Segment, SEGMENT_COUNT};
use plonky2_evm::state::{KernelLabels, RegistersState};
use plonky2_evm::word::Word;

#[test]
fn global_metadata_all_matches_count() {
    let all = GlobalMetadata::all();
    assert_eq!(all.len(), GLOBAL_METADATA_COUNT);
    let mut seen = vec![false; GLOBAL_METADATA_COUNT];
    for m in all.iter() {
        assert!(!seen[m.index()]);
        seen[m.index()] = true;
    }
    assert_eq!(all[40], GlobalMetadata::BlockCurrentHash);
    assert_eq!(GlobalMetadata::BlockCurrentHash.index(), 22);
}

#[test]
fn global_metadata_names() {
    assert_eq!(GlobalMetadata::LargestContext.var_name(), "GLOBAL_METADATA_LARGEST_CONTEXT");
    assert_eq!(GlobalMetadata::SelfDestructListLen.var_name(), "GLOBAL_METADATA_SELFDESTRUCT_LIST_LEN");
    assert_eq!(GlobalMetadata::KernelLen.var_name(), "GLOBAL_METADATA_KERNEL_LEN");
}

#[test]
fn segments_enumerated_in_order() {
    let all = Segment::all();
    assert_eq!(all.len(), SEGMENT_COUNT);
    for (i, s) in all.iter().enumerate() {
        assert_eq!(s.index(), i);
    }
    assert_eq!(Segment::Code.bit_range(), 8);
    assert_eq!(Segment::Stack.bit_range(), 256);
    assert_eq!(Segment::JumpdestBits.bit_range(), 1);
}

#[test]
fn code_context_follows_kernel_flag() {
    let labels = KernelLabels { main: 1, main_contd: 2, halt: 40129 };
    let mut r = RegistersState::new_with_main_label(&labels);
    r.context = 5;
    assert_eq!(r.code_context(), 0);
    r.is_kernel = false;
    assert_eq!(r.code_context(), 5);
}

#[test]
fn canonical_register_snapshots() {
    let labels = KernelLabels { main: 1, main_contd: 2, halt: 40129 };
    let start = RegistersState::new_with_main_label(&labels);
    assert_eq!(start.program_counter, 2);
    assert!(start.is_kernel);
    assert_eq!(start.stack_len, 0);
    assert_eq!(start.gas_used, 0);
    let halted = RegistersState::new_last_registers_with_gas(&labels, 2783);
    assert_eq!(halted.program_counter, 40129);
    assert_eq!(halted.gas_used, 2783);
    assert_eq!(halted.stack_top, Word::zero());
    let default = RegistersState::default_with_labels(&labels);
    assert_eq!(default.program_counter, 1);
    assert!(!default.check_overflow);
}

#[test]
fn padded_heights() {
    assert_eq!(padded_height(0), 16);
    assert_eq!(padded_height(16), 16);
    assert_eq!(padded_height(17), 32);
    assert_eq!(padded_height(100), 128);
}

fn row(i: u64) -> Vec<u64> {
    (0..NUM_COLUMNS as u64).map(|c| 1 + i * 100 + c).collect()
}

#[test]
fn trace_pads_to_sixteen_rows() {
    let stark = MemAfterStark::new();
    let rows: Vec<Vec<u64>> = (0..3).map(row).collect();
    let cols = stark.generate_trace(&rows);
    assert_eq!(cols.len(), NUM_COLUMNS);
    for c in 0..NUM_COLUMNS {
        assert_eq!(cols[c].len(), 16);
        for r in 0..16 {
            let expected = if r < 3 { rows[r][c] } else { 0 };
            assert_eq!(cols[c][r], expected);
        }
    }
}

#[test]
fn trace_pads_to_next_power_of_two() {
    let stark = MemAfterStark::new();
    let rows: Vec<Vec<u64>> = (0..17).map(row).collect();
    let cols = stark.generate_trace(&rows);
    assert_eq!(cols[0].len(), 32);
    assert_eq!(cols[5][16], row(16)[5]);
    assert_eq!(cols[5][17], 0);
}

#[test]
fn lookup_columns() {
    assert_eq!(MemAfterStark::ctl_data(), vec![1, 2, 3, 4, 5, 6, 7, 8, 9, 10, 11]);
    assert_eq!(MemAfterStark::ctl_filter(), 0);
    assert_eq!(value_limb(7), 11);
    assert_eq!(MemAfterStark::new().constraint_degree(), 3);
}
