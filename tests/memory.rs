use ethereum_types::U256;
use plonky2_evm::global_metadata::GlobalMetadata;
use plonky2_evm::memory::{
    MemoryAddress, MemoryChannel, MemoryError, MemoryOp, MemoryOpKind, MemoryState, ProgramError,
};
use plonky2_evm::segments::{Segment, SEGMENT_COUNT};
use plonky2_evm::word::Word;

fn word(u: U256) -> Word {
    Word { l0: u.0[0], l1: u.0[1], l2: u.0[2], l3: u.0[3] }
}

fn small(x: u64) -> Word {
    Word::from_u64(x)
}

fn write(clock: usize, addr: MemoryAddress, v: u64) -> MemoryOp {
    MemoryOp::new(MemoryChannel::GeneralPurpose(0), clock, addr, MemoryOpKind::Write, small(v))
}

fn read(clock: usize, addr: MemoryAddress, v: u64) -> MemoryOp {
    MemoryOp::new(MemoryChannel::GeneralPurpose(1), clock, addr, MemoryOpKind::Read, small(v))
}

#[test]
fn word_bits_counts_significant_bits() {
    assert_eq!(small(0).bits(), 0);
    assert_eq!(small(1).bits(), 1);
    assert_eq!(word(U256::from(1u64) << 40).bits(), 41);
    assert_eq!(word(U256::MAX).bits(), 256);
}

#[test]
fn address_from_words_accepts_small_values() {
    let a = MemoryAddress::new_u256s(small(7), small(2), small(0xffff_ffff)).unwrap();
    assert_eq!(a, MemoryAddress { context: 7, segment: 2, virt: 0xffff_ffff });
}

#[test]
fn address_from_words_rejects_large_context() {
    let big = word(U256::from(1u64) << 32);
    assert_eq!(
        MemoryAddress::new_u256s(big, small(0), small(0)),
        Err(ProgramError::MemoryError(MemoryError::ContextTooLarge { context: big }))
    );
}

#[test]
fn address_from_words_rejects_unknown_segment() {
    let seg = small(SEGMENT_COUNT as u64);
    assert_eq!(
        MemoryAddress::new_u256s(small(0), seg, small(0)),
        Err(ProgramError::MemoryError(MemoryError::SegmentTooLarge { segment: seg }))
    );
    let huge = word(U256::from(1u64) << 200);
    assert_eq!(
        MemoryAddress::new_u256s(small(0), huge, small(0)),
        Err(ProgramError::MemoryError(MemoryError::SegmentTooLarge { segment: huge }))
    );
}

#[test]
fn address_from_words_rejects_large_virt() {
    let big = word(U256::from(1u64) << 33);
    assert_eq!(
        MemoryAddress::new_u256s(small(0), small(1), big),
        Err(ProgramError::MemoryError(MemoryError::VirtTooLarge { virt: big }))
    );
}

#[test]
fn address_errors_are_checked_in_order() {
    let big = word(U256::from(1u64) << 40);
    assert_eq!(
        MemoryAddress::new_u256s(big, big, big),
        Err(ProgramError::MemoryError(MemoryError::ContextTooLarge { context: big }))
    );
}

#[test]
fn increment_saturates() {
    let mut a = MemoryAddress::new(1, Segment::MainMemory, 5);
    a.increment();
    assert_eq!(a.virt, 6);
    let mut b = MemoryAddress { context: 0, segment: 0, virt: usize::MAX };
    b.increment();
    assert_eq!(b.virt, usize::MAX);
}

#[test]
fn channel_index_and_timestamp() {
    assert_eq!(MemoryChannel::Code.index(), 0);
    assert_eq!(MemoryChannel::GeneralPurpose(2).index(), 3);
    let a = MemoryAddress::new(0, Segment::Stack, 0);
    let op = MemoryOp::new(MemoryChannel::GeneralPurpose(1), 10, a, MemoryOpKind::Read, small(0));
    assert_eq!(op.timestamp, 42);
    assert!(op.filter);
    let d = MemoryOp::new_dummy_read(a, 9, small(3));
    assert!(!d.filter);
    assert_eq!(d.sorting_key(), (0, 1, 0, 9));
}

#[test]
fn new_state_holds_code() {
    let m = MemoryState::new(&[1, 2, 255]);
    assert_eq!(m.get(MemoryAddress::new(0, Segment::Code, 2)), small(255));
    assert_eq!(m.get(MemoryAddress::new(0, Segment::Code, 3)), small(0));
    assert_eq!(m.get(MemoryAddress::new(0, Segment::Stack, 0)), small(0));
}

#[test]
fn untouched_context_reads_zero() {
    let m = MemoryState::default();
    assert_eq!(m.get(MemoryAddress::new(1000, Segment::MainMemory, 12)), small(0));
    assert_eq!(m.contexts.len(), 1);
}

#[test]
fn set_then_get() {
    let mut m = MemoryState::default();
    let a = MemoryAddress::new(3, Segment::Stack, 10);
    m.set(a, word(U256::MAX));
    assert_eq!(m.get(a), word(U256::MAX));
    assert_eq!(m.contexts.len(), 4);
    assert_eq!(m.get(MemoryAddress::new(3, Segment::Stack, 9)), small(0));
    assert_eq!(m.get(MemoryAddress::new(2, Segment::Stack, 10)), small(0));
}

#[test]
fn apply_ops_replays_writes_only() {
    let mut m = MemoryState::default();
    let a = MemoryAddress::new(1, Segment::MainMemory, 4);
    let b = MemoryAddress::new(0, Segment::Stack, 0);
    let ops = vec![write(1, a, 7), read(2, a, 99), write(3, b, 300), write(4, a, 8)];
    m.apply_ops(&ops);
    assert_eq!(m.get(a), small(8));
    assert_eq!(m.get(b), small(300));
}

#[test]
fn apply_reads_only_leaves_state_unchanged() {
    let mut m = MemoryState::new(&[9, 8]);
    let a = MemoryAddress::new(0, Segment::Code, 0);
    let ops = vec![read(1, a, 5), read(2, MemoryAddress::new(5, Segment::Stack, 1), 6)];
    m.apply_ops(&ops);
    assert_eq!(m.get(a), small(9));
    assert_eq!(m.contexts.len(), 1);
}

#[test]
fn apply_same_writes_twice_is_idempotent() {
    let a = MemoryAddress::new(2, Segment::MainMemory, 1);
    let b = MemoryAddress::new(0, Segment::GlobalMetadata, 3);
    let ops = vec![write(1, a, 1), write(2, b, 2), write(3, a, 3)];
    let mut once = MemoryState::default();
    once.apply_ops(&ops);
    let mut twice = MemoryState::default();
    twice.apply_ops(&ops);
    twice.apply_ops(&ops);
    assert_eq!(once.get(a), twice.get(a));
    assert_eq!(once.get(b), twice.get(b));
    assert_eq!(twice.get(a), small(3));
}

#[test]
fn read_global_metadata_reads_kernel_context() {
    let mut m = MemoryState::default();
    let field = GlobalMetadata::BlockGasUsed;
    m.set(MemoryAddress::new(0, Segment::GlobalMetadata, field.index()), small(21000));
    assert_eq!(m.read_global_metadata(field), small(21000));
    assert_eq!(m.read_global_metadata(GlobalMetadata::KernelLen), small(0));
}
