//! Memory channels, addresses, access records, and the sparse memory image
//! that the write records materialise.

use vstd::prelude::*;

use crate::global_metadata::GlobalMetadata;
use crate::segments::{segment_width, Segment, SEGMENT_COUNT};
use crate::word::{bit_len, lemma_bit_len_bound, lemma_pow2_values, Word};

verus! {

/// The number of general-purpose memory channels of the CPU table.
pub const NUM_GP_CHANNELS: usize = 3;

/// The number of memory channels: the code channel and the general-purpose ones.
pub const NUM_CHANNELS: usize = 4;

/// The memory channels.
#[derive(Clone, Copy, Debug, PartialEq, Eq, Structural)]
pub enum MemoryChannel {
    /// The channel that reads code.
    Code,
    /// One of the `NUM_GP_CHANNELS` general-purpose channels.
    GeneralPurpose(usize),
}

impl MemoryChannel {
    /// A channel is valid when a general-purpose one is below the channel count.
    pub open spec fn is_valid(self) -> bool {
        match self {
            MemoryChannel::Code => true,
            MemoryChannel::GeneralPurpose(n) => n < NUM_GP_CHANNELS,
        }
    }

    /// The position of the channel: zero for code, `n + 1` for general-purpose channel `n`.
    pub open spec fn spec_index(self) -> nat {
        match self {
            MemoryChannel::Code => 0,
            MemoryChannel::GeneralPurpose(n) => n as nat + 1,
        }
    }

    /// Returns the index of the channel.
    pub fn index(&self) -> (r: usize)
        requires
            self.is_valid(),
        ensures
            r as nat == self.spec_index(),
            r < NUM_CHANNELS,
    {
        match *self {
            MemoryChannel::Code => 0,
            MemoryChannel::GeneralPurpose(n) => n + 1,
        }
    }
}

/// Why an address given as three words was refused.
#[derive(Clone, Copy, Debug, PartialEq, Eq, Structural)]
pub enum MemoryError {
    /// The context has more than 32 bits.
    ContextTooLarge { context: Word },
    /// The segment is not the index of a segment.
    SegmentTooLarge { segment: Word },
    /// The virtual address has more than 32 bits.
    VirtTooLarge { virt: Word },
}

/// An error raised while running the VM.
#[derive(Clone, Copy, Debug, PartialEq, Eq, Structural)]
pub enum ProgramError {
    /// A memory address could not be formed.
    MemoryError(MemoryError),
}

/// The address of a memory cell.
#[derive(Clone, Copy, Debug, PartialEq, Eq, Hash, Structural)]
pub struct MemoryAddress {
    /// The context (call frame) of the cell.
    pub context: usize,
    /// The index of the segment of the cell.
    pub segment: usize,
    /// The offset of the cell in its segment.
    pub virt: usize,
}

impl MemoryAddress {
    /// The segment is one of the enumeration.
    pub open spec fn is_valid(self) -> bool {
        self.segment < SEGMENT_COUNT
    }

    /// Returns the address of the given context, segment and offset.
    pub fn new(context: usize, segment: Segment, virt: usize) -> (r: MemoryAddress)
        ensures
            r.context == context,
            r.segment as nat == segment.spec_index(),
            r.virt == virt,
            r.is_valid(),
    {
        MemoryAddress { context, segment: segment.index(), virt }
    }

    /// Returns the address given by three words, refusing a context or an
    /// offset of more than 32 bits and a segment past the enumeration, checked
    /// in that order.
    pub fn new_u256s(context: Word, segment: Word, virt: Word) -> (r: Result<
        MemoryAddress,
        ProgramError,
    >)
        ensures
            bit_len(context.val()) > 32 ==> r == Err::<MemoryAddress, ProgramError>(
                ProgramError::MemoryError(MemoryError::ContextTooLarge { context }),
            ),
            bit_len(context.val()) <= 32 && segment.val() >= SEGMENT_COUNT ==> r == Err::<
                MemoryAddress,
                ProgramError,
            >(ProgramError::MemoryError(MemoryError::SegmentTooLarge { segment })),
            bit_len(context.val()) <= 32 && segment.val() < SEGMENT_COUNT && bit_len(virt.val())
                > 32 ==> r == Err::<MemoryAddress, ProgramError>(
                ProgramError::MemoryError(MemoryError::VirtTooLarge { virt }),
            ),
            r.is_ok() <==> (bit_len(context.val()) <= 32 && segment.val() < SEGMENT_COUNT
                && bit_len(virt.val()) <= 32),
            r.is_ok() ==> r.unwrap().context as nat == context.val() && r.unwrap().segment as nat
                == segment.val() && r.unwrap().virt as nat == virt.val() && r.unwrap().is_valid(),
    {
        proof {
            lemma_pow2_values();
            lemma_bit_len_bound(context.val(), 32);
            lemma_bit_len_bound(virt.val(), 32);
        }
        if context.bits() > 32 {
            return Err(ProgramError::MemoryError(MemoryError::ContextTooLarge { context }));
        }
        let small_segment = match segment.low_u64() {
            Some(s) => s < SEGMENT_COUNT as u64,
            None => false,
        };
        if !small_segment {
            proof {
                crate::word::lemma_word_small(segment);
            }
            return Err(ProgramError::MemoryError(MemoryError::SegmentTooLarge { segment }));
        }
        if virt.bits() > 32 {
            return Err(ProgramError::MemoryError(MemoryError::VirtTooLarge { virt }));
        }
        proof {
            crate::word::lemma_word_small(context);
            crate::word::lemma_word_small(segment);
            crate::word::lemma_word_small(virt);
        }
        Ok(
            MemoryAddress {
                context: context.l0 as usize,
                segment: segment.l0 as usize,
                virt: virt.l0 as usize,
            },
        )
    }

    /// Moves to the next offset, staying at `usize::MAX` once there.
    pub fn increment(&mut self)
        ensures
            final(self).context == old(self).context,
            final(self).segment == old(self).segment,
            final(self).virt == if old(self).virt == usize::MAX {
                usize::MAX
            } else {
                (old(self).virt + 1) as usize
            },
    {
        if self.virt < usize::MAX {
            self.virt = self.virt + 1;
        }
    }
}

/// The kinds of memory operation.
#[derive(Clone, Copy, Debug, PartialEq, Eq, Structural)]
pub enum MemoryOpKind {
    Read,
    Write,
}

/// One memory operation of the access log.
#[derive(Clone, Copy, Debug, PartialEq, Eq, Structural)]
pub struct MemoryOp {
    /// Whether this is a real operation; `false` marks a padding row.
    pub filter: bool,
    /// When the operation occurs: `clock * NUM_CHANNELS + channel index`.
    pub timestamp: usize,
    /// Where the operation occurs.
    pub address: MemoryAddress,
    /// Whether the operation reads or writes.
    pub kind: MemoryOpKind,
    /// The value read or written.
    pub value: Word,
}

/// The sort key of an operation: context, segment, offset, then timestamp.
pub open spec fn sort_key(op: MemoryOp) -> (usize, usize, usize, usize) {
    (op.address.context, op.address.segment, op.address.virt, op.timestamp)
}

impl MemoryOp {
    /// Returns the real operation of the given channel at the given clock.
    pub fn new(
        channel: MemoryChannel,
        clock: usize,
        address: MemoryAddress,
        kind: MemoryOpKind,
        value: Word,
    ) -> (r: MemoryOp)
        requires
            channel.is_valid(),
            clock * NUM_CHANNELS + channel.spec_index() <= usize::MAX,
        ensures
            r == (MemoryOp {
                filter: true,
                timestamp: (clock * NUM_CHANNELS + channel.spec_index()) as usize,
                address,
                kind,
                value,
            }),
    {
        let timestamp = clock * NUM_CHANNELS + channel.index();
        MemoryOp { filter: true, timestamp, address, kind, value }
    }

    /// Returns a padding read at the given address and timestamp.
    pub fn new_dummy_read(address: MemoryAddress, timestamp: usize, value: Word) -> (r: MemoryOp)
        ensures
            r == (MemoryOp { filter: false, timestamp, address, kind: MemoryOpKind::Read, value }),
    {
        MemoryOp { filter: false, timestamp, address, kind: MemoryOpKind::Read, value }
    }

    /// Returns the key by which operations are sorted.
    pub fn sorting_key(&self) -> (r: (usize, usize, usize, usize))
        ensures
            r == sort_key(*self),
    {
        (self.address.context, self.address.segment, self.address.virt, self.timestamp)
    }
}

/// The value that the operations leave at cell `(c, s, v)` when it held `init`
/// before them: that of the last write there, or `init` if none writes there.
pub open spec fn replay_cell(ops: Seq<MemoryOp>, c: nat, s: nat, v: nat, init: Word) -> Word
    decreases ops.len(),
{
    if ops.len() == 0 {
        init
    } else {
        let op = ops.last();
        if op.kind == MemoryOpKind::Write && op.address.context == c && op.address.segment == s
            && op.address.virt == v {
            op.value
        } else {
            replay_cell(ops.drop_last(), c, s, v, init)
        }
    }
}

/// Whether `op` writes to cell `(c, s, v)`.
pub open spec fn writes_to(op: MemoryOp, c: nat, s: nat, v: nat) -> bool {
    op.kind == MemoryOpKind::Write && op.address.context == c && op.address.segment == s
        && op.address.virt == v
}

/// A cell that no operation writes keeps its value through a replay.
pub proof fn lemma_replay_unwritten(ops: Seq<MemoryOp>, c: nat, s: nat, v: nat, init: Word)
    requires
        forall|i: int| 0 <= i < ops.len() ==> !writes_to(#[trigger] ops[i], c, s, v),
    ensures
        replay_cell(ops, c, s, v, init) == init,
    decreases ops.len(),
{
    if ops.len() > 0 {
        assert(!writes_to(ops[ops.len() - 1], c, s, v));
        assert forall|i: int| 0 <= i < ops.drop_last().len() implies !writes_to(
            #[trigger] ops.drop_last()[i],
            c,
            s,
            v,
        ) by {
            assert(ops.drop_last()[i] == ops[i]);
        }
        lemma_replay_unwritten(ops.drop_last(), c, s, v, init);
    }
}

/// Replaying a log of reads only changes no cell.
pub proof fn lemma_replay_reads_only(ops: Seq<MemoryOp>, c: nat, s: nat, v: nat, init: Word)
    requires
        forall|i: int| 0 <= i < ops.len() ==> (#[trigger] ops[i]).kind == MemoryOpKind::Read,
    ensures
        replay_cell(ops, c, s, v, init) == init,
{
    assert forall|i: int| 0 <= i < ops.len() implies !writes_to(#[trigger] ops[i], c, s, v) by {
        assert(ops[i].kind == MemoryOpKind::Read);
    }
    lemma_replay_unwritten(ops, c, s, v, init);
}

/// A replay either leaves a cell as it was, whatever it held, or gives it a
/// value that does not depend on what it held.
proof fn lemma_replay_shape(ops: Seq<MemoryOp>, c: nat, s: nat, v: nat, x: Word, y: Word)
    ensures
        (replay_cell(ops, c, s, v, x) == x && replay_cell(ops, c, s, v, y) == y) || replay_cell(
            ops,
            c,
            s,
            v,
            x,
        ) == replay_cell(ops, c, s, v, y),
    decreases ops.len(),
{
    if ops.len() > 0 {
        lemma_replay_shape(ops.drop_last(), c, s, v, x, y);
    }
}

/// Written values are absolute: replaying the same log a second time, on the
/// image the first replay left, changes no cell.
pub proof fn lemma_replay_twice(ops: Seq<MemoryOp>, c: nat, s: nat, v: nat, init: Word)
    ensures
        replay_cell(ops, c, s, v, replay_cell(ops, c, s, v, init)) == replay_cell(
            ops,
            c,
            s,
            v,
            init,
        ),
{
    lemma_replay_shape(ops, c, s, v, init, replay_cell(ops, c, s, v, init));
}

/// An address in a context that the image does not hold yet reads as zero,
/// and stays zero through a log that never writes it.
pub proof fn lemma_untouched_reads_zero(m: MemoryState, ops: Seq<MemoryOp>, a: MemoryAddress)
    requires
        a.context >= m.contexts@.len(),
        forall|i: int|
            0 <= i < ops.len() ==> !writes_to(
                #[trigger] ops[i],
                a.context as nat,
                a.segment as nat,
                a.virt as nat,
            ),
    ensures
        m.spec_get(a) == Word::spec_zero(),
        replay_cell(ops, a.context as nat, a.segment as nat, a.virt as nat, m.spec_get(a))
            == Word::spec_zero(),
{
    lemma_replay_unwritten(ops, a.context as nat, a.segment as nat, a.virt as nat, m.spec_get(a));
}

/// A write that `MemoryState::set` accepts.
pub open spec fn write_is_storable(op: MemoryOp) -> bool {
    op.kind == MemoryOpKind::Write ==> {
        &&& op.address.is_valid()
        &&& op.address.context < usize::MAX
        &&& op.address.virt < usize::MAX
        &&& bit_len(op.value.val()) <= segment_width(op.address.segment as nat)
    }
}

/// The values of one segment of one context.
#[derive(Clone, Debug)]
pub struct MemorySegmentState {
    /// The values from offset zero on; offsets past the end hold zero.
    pub content: Vec<Word>,
}

impl MemorySegmentState {
    /// The value at offset `v`.
    pub open spec fn spec_get(self, v: nat) -> Word {
        if v < self.content@.len() {
            self.content@[v as int]
        } else {
            Word::spec_zero()
        }
    }

    /// An empty segment.
    pub fn empty() -> (r: MemorySegmentState)
        ensures
            r.content@.len() == 0,
    {
        MemorySegmentState { content: Vec::new() }
    }

    /// Returns the value at offset `virtual_addr`.
    pub fn get(&self, virtual_addr: usize) -> (r: Word)
        ensures
            r == self.spec_get(virtual_addr as nat),
    {
        if virtual_addr < self.content.len() {
            self.content[virtual_addr]
        } else {
            Word::zero()
        }
    }

    /// Sets the value at offset `virtual_addr` to `value`, growing the
    /// segment with zeros as needed.
    pub fn set(&mut self, virtual_addr: usize, value: Word)
        requires
            virtual_addr < usize::MAX,
        ensures
            forall|v: nat|
                #[trigger] final(self).spec_get(v) == if v == virtual_addr as nat {
                    value
                } else {
                    old(self).spec_get(v)
                },
    {
        if virtual_addr >= self.content.len() {
            self.content.resize(virtual_addr + 1, Word::zero());
        }
        self.content.set(virtual_addr, value);
    }
}

/// The segments of one context.
#[derive(Clone, Debug)]
pub struct MemoryContextState {
    /// One entry per segment, in the order of the enumeration.
    pub segments: Vec<MemorySegmentState>,
}

impl MemoryContextState {
    /// A context whose segments are all empty.
    pub fn empty() -> (r: MemoryContextState)
        ensures
            r.segments@.len() == SEGMENT_COUNT,
            forall|s: int| 0 <= s < SEGMENT_COUNT ==> (#[trigger] r.segments@[s]).content@.len() == 0,
    {
        let mut segments: Vec<MemorySegmentState> = Vec::new();
        let mut i: usize = 0;
        while i < SEGMENT_COUNT
            invariant
                i <= SEGMENT_COUNT,
                segments@.len() == i,
                forall|s: int| 0 <= s < i ==> (#[trigger] segments@[s]).content@.len() == 0,
            decreases SEGMENT_COUNT - i,
        {
            segments.push(MemorySegmentState::empty());
            i = i + 1;
        }
        MemoryContextState { segments }
    }
}

/// The memory image: for each context that exists, the values of each segment.
#[derive(Clone, Debug)]
pub struct MemoryState {
    /// The contexts, from context zero on.
    pub contexts: Vec<MemoryContextState>,
}

impl MemoryState {
    /// The value at context `c`, segment `s`, offset `v`: zero in a context
    /// that does not exist yet.
    pub open spec fn value_at(self, c: nat, s: nat, v: nat) -> Word {
        if c < self.contexts@.len() && s < self.contexts@[c as int].segments@.len() {
            self.contexts@[c as int].segments@[s as int].spec_get(v)
        } else {
            Word::spec_zero()
        }
    }

    /// The value at an address.
    pub open spec fn spec_get(self, a: MemoryAddress) -> Word {
        self.value_at(a.context as nat, a.segment as nat, a.virt as nat)
    }

    /// Every context holds all segments, and every value fits its segment's width.
    pub open spec fn wf(self) -> bool {
        &&& forall|c: int|
            0 <= c < self.contexts@.len() ==> (#[trigger] self.contexts@[c]).segments@.len()
                == SEGMENT_COUNT
        &&& forall|c: nat, s: nat, v: nat|
            s < SEGMENT_COUNT ==> bit_len(#[trigger] self.value_at(c, s, v).val())
                <= segment_width(s)
    }

    /// A memory image with one empty context, the kernel's.
    pub fn empty() -> (r: MemoryState)
        ensures
            r.wf(),
            r.contexts@.len() == 1,
            forall|c: nat, s: nat, v: nat| #[trigger] r.value_at(c, s, v) == Word::spec_zero(),
    {
        let mut contexts: Vec<MemoryContextState> = Vec::new();
        contexts.push(MemoryContextState::empty());
        let r = MemoryState { contexts };
        assert forall|c: nat, s: nat, v: nat| #[trigger] r.value_at(c, s, v) == Word::spec_zero() by {
        }
        r
    }

    /// The memory image whose kernel context holds `kernel_code` in its code
    /// segment, one byte per cell, and zero everywhere else.
    pub fn new(kernel_code: &[u8]) -> (r: MemoryState)
        ensures
            r.wf(),
            r.contexts@.len() == 1,
            forall|c: nat, s: nat, v: nat|
                #[trigger] r.value_at(c, s, v) == if c == 0 && s == 0 && v < kernel_code@.len() {
                    Word::spec_from_u64(kernel_code@[v as int] as u64)
                } else {
                    Word::spec_zero()
                },
    {
        let mut code: Vec<Word> = Vec::new();
        let mut i: usize = 0;
        while i < kernel_code.len()
            invariant
                i <= kernel_code@.len(),
                code@.len() == i,
                forall|j: int| 0 <= j < i ==> #[trigger] code@[j] == Word::spec_from_u64(kernel_code@[j] as u64),
            decreases kernel_code@.len() - i,
        {
            code.push(Word::from_u64(kernel_code[i] as u64));
            i = i + 1;
        }
        let mut result = MemoryState::empty();
        let ghost empty = result;
        let code_index = Segment::Code.index();
        result.contexts[0].segments[code_index].content = code;
        proof {
            assert forall|c: nat, s: nat, v: nat|
                #[trigger] result.value_at(c, s, v) == if c == 0 && s == 0 && v < kernel_code@.len() {
                    Word::spec_from_u64(kernel_code@[v as int] as u64)
                } else {
                    Word::spec_zero()
                } by {
                assert(empty.value_at(c, s, v) == Word::spec_zero());
                if c == 0 && s < SEGMENT_COUNT && s != 0 {
                    assert(result.contexts@[0].segments@[s as int] == empty.contexts@[0].segments@[s as int]);
                }
            }
            lemma_pow2_values();
            assert forall|c: nat, s: nat, v: nat| s < SEGMENT_COUNT implies bit_len(
                #[trigger] result.value_at(c, s, v).val(),
            ) <= segment_width(s) by {
                if c == 0 && s == 0 && v < kernel_code@.len() {
                    lemma_bit_len_bound(result.value_at(c, s, v).val(), 8);
                }
            }
        }
        result
    }

    /// Returns the value at `address`: zero where the context does not exist yet.
    pub fn get(&self, address: MemoryAddress) -> (r: Word)
        requires
            self.wf(),
            address.is_valid(),
        ensures
            r == self.spec_get(address),
            bit_len(r.val()) <= segment_width(address.segment as nat),
    {
        proof {
            assert(bit_len(
                self.value_at(address.context as nat, address.segment as nat, address.virt as nat).val(),
            ) <= segment_width(address.segment as nat));
        }
        if address.context >= self.contexts.len() {
            return Word::zero();
        }
        self.contexts[address.context].segments[address.segment].get(address.virt)
    }

    /// Sets the value at `address` to `val`, creating the contexts up to its own.
    pub fn set(&mut self, address: MemoryAddress, val: Word)
        requires
            old(self).wf(),
            address.is_valid(),
            address.context < usize::MAX,
            address.virt < usize::MAX,
            bit_len(val.val()) <= segment_width(address.segment as nat),
        ensures
            final(self).wf(),
            final(self).contexts@.len() >= old(self).contexts@.len(),
            final(self).contexts@.len() > address.context,
            forall|c: nat, s: nat, v: nat|
                #[trigger] final(self).value_at(c, s, v) == if c == address.context && s
                    == address.segment && v == address.virt {
                    val
                } else {
                    old(self).value_at(c, s, v)
                },
    {
        let ghost pre = *self;
        while address.context >= self.contexts.len()
            invariant
                self.wf(),
                self.contexts@.len() >= pre.contexts@.len(),
                forall|c: nat, s: nat, v: nat| #[trigger] self.value_at(c, s, v) == pre.value_at(c, s, v),
            decreases address.context + 1 - self.contexts@.len(),
        {
            let ghost before = *self;
            self.contexts.push(MemoryContextState::empty());
            assert forall|c: nat, s: nat, v: nat| #[trigger] self.value_at(c, s, v) == before.value_at(c, s, v) by {
                if c < before.contexts@.len() {
                    assert(self.contexts@[c as int] == before.contexts@[c as int]);
                }
            }
        }
        let ghost mid = *self;
        self.contexts[address.context].segments[address.segment].set(address.virt, val);
        proof {
            assert forall|c: nat, s: nat, v: nat| #[trigger] self.value_at(c, s, v) == if c == address.context && s
                    == address.segment && v == address.virt {
                    val
                } else {
                    mid.value_at(c, s, v)
                } by {
                if c < self.contexts@.len() && !(c == address.context && s == address.segment) {
                    if c != address.context {
                        assert(self.contexts@[c as int] == mid.contexts@[c as int]);
                    } else if s < mid.contexts@[c as int].segments@.len() {
                        assert(self.contexts@[c as int].segments@[s as int] == mid.contexts@[c as int].segments@[s as int]);
                    }
                }
            }
            assert forall|c: int| 0 <= c < self.contexts@.len() implies (#[trigger] self.contexts@[c]).segments@.len()
                == SEGMENT_COUNT by {
                if c != address.context {
                    assert(self.contexts@[c] == mid.contexts@[c]);
                }
            }
            assert forall|c: nat, s: nat, v: nat| s < SEGMENT_COUNT implies bit_len(#[trigger] self.value_at(c, s, v).val())
                <= segment_width(s) by {
                if !(c == address.context && s == address.segment && v == address.virt) {
                    assert(self.value_at(c, s, v) == mid.value_at(c, s, v));
                }
            }
        }
    }

    /// Replays the write operations of `ops` in order; reads leave the image alone.
    pub fn apply_ops(&mut self, ops: &[MemoryOp])
        requires
            old(self).wf(),
            forall|i: int| 0 <= i < ops@.len() ==> write_is_storable(#[trigger] ops@[i]),
        ensures
            final(self).wf(),
            forall|c: nat, s: nat, v: nat|
                #[trigger] final(self).value_at(c, s, v) == replay_cell(
                    ops@,
                    c,
                    s,
                    v,
                    old(self).value_at(c, s, v),
                ),
            (forall|i: int| 0 <= i < ops@.len() ==> (#[trigger] ops@[i]).kind == MemoryOpKind::Read)
                ==> *final(self) == *old(self),
    {
        let ghost pre = *self;
        let mut i: usize = 0;
        while i < ops.len()
            invariant
                i <= ops@.len(),
                self.wf(),
                forall|j: int| 0 <= j < ops@.len() ==> write_is_storable(#[trigger] ops@[j]),
                forall|c: nat, s: nat, v: nat|
                    #[trigger] self.value_at(c, s, v) == replay_cell(
                        ops@.subrange(0, i as int),
                        c,
                        s,
                        v,
                        pre.value_at(c, s, v),
                    ),
                (forall|j: int| 0 <= j < ops@.len() ==> (#[trigger] ops@[j]).kind == MemoryOpKind::Read)
                    ==> *self == pre,
            decreases ops@.len() - i,
        {
            let op = ops[i];
            proof {
                assert(ops@.subrange(0, i + 1).drop_last() == ops@.subrange(0, i as int));
                assert(ops@.subrange(0, i + 1).last() == op);
            }
            if op.kind == MemoryOpKind::Write {
                assert(write_is_storable(ops@[i as int]));
                self.set(op.address, op.value);
            }
            i = i + 1;
        }
        proof {
            assert(ops@.subrange(0, ops@.len() as int) == ops@);
        }
    }

    /// Returns the global metadata field `field`, kept in the kernel context.
    pub fn read_global_metadata(&self, field: GlobalMetadata) -> (r: Word)
        requires
            self.wf(),
        ensures
            r == self.value_at(0, Segment::GlobalMetadata.spec_index(), field.spec_index()),
    {
        self.get(MemoryAddress::new(0, Segment::GlobalMetadata, field.index()))
    }
}

impl Default for MemoryState {
    /// A memory image with one empty context.
    fn default() -> (r: MemoryState)
        ensures
            r.wf(),
            r.contexts@.len() == 1,
            forall|c: nat, s: nat, v: nat| #[trigger] r.value_at(c, s, v) == Word::spec_zero(),
    {
        MemoryState::empty()
    }
}

} // verus!
