//! The flat list of public inputs that carries a proof's public values, and
//! its reconstruction from that list and the two memory-cap lengths.
//!
//! Layout, in 64-bit elements: trie roots before and after (12 each), block
//! metadata (36), the previous block hashes (4 each), the current block hash
//! (4), registers before and after (11 each), the memory cap before, the
//! memory cap after, then transaction numbers and gas used, before and after
//! (4 each). A word takes four elements, least significant limb first.

use vstd::prelude::*;

use crate::public_values::{BlockHashes, BlockMetadata, MemCap, PublicValues, TrieRoots};
use crate::state::RegistersState;
use crate::word::Word;

verus! {

/// The number of previous block hashes that public values carry.
pub const NUM_PREV_HASHES: usize = 256;

/// Where the block metadata starts.
pub const OFFSET_METADATA: usize = 24;

/// Where the previous block hashes start.
pub const OFFSET_PREV_HASHES: usize = 60;

/// Where the current block hash starts.
pub const OFFSET_CUR_HASH: usize = 1084;

/// Where the registers before start.
pub const OFFSET_REGISTERS: usize = 1088;

/// Where the memory cap before starts.
pub const OFFSET_MEM_CAPS: usize = 1110;

/// The elements that do not belong to a memory cap.
pub const FIXED_INPUTS: usize = 1126;

/// The four elements of a word.
pub open spec fn word_seq(w: Word) -> Seq<u64> {
    seq![w.l0, w.l1, w.l2, w.l3]
}

/// The elements of a sequence of words, one after the other.
pub open spec fn words_seq(ws: Seq<Word>) -> Seq<u64>
    decreases ws.len(),
{
    if ws.len() == 0 {
        Seq::empty()
    } else {
        words_seq(ws.drop_last()) + word_seq(ws.last())
    }
}

/// The element of a flag.
pub open spec fn flag(b: bool) -> u64 {
    if b {
        1
    } else {
        0
    }
}

pub open spec fn roots_seq(t: TrieRoots) -> Seq<u64> {
    word_seq(t.state_root) + word_seq(t.transactions_root) + word_seq(t.receipts_root)
}

pub open spec fn metadata_seq(m: BlockMetadata) -> Seq<u64> {
    word_seq(m.block_beneficiary) + word_seq(m.block_timestamp) + word_seq(m.block_number)
        + word_seq(m.block_difficulty) + word_seq(m.block_random) + word_seq(m.block_gaslimit)
        + word_seq(m.block_chain_id) + word_seq(m.block_base_fee) + word_seq(m.block_gas_used)
}

pub open spec fn registers_seq(r: RegistersState) -> Seq<u64> {
    seq![r.program_counter as u64, flag(r.is_kernel), r.stack_len as u64] + word_seq(r.stack_top)
        + seq![flag(r.is_stack_top_read), flag(r.check_overflow), r.context as u64, r.gas_used]
}

/// The elements before the memory caps: trie roots, block metadata, block
/// hashes and registers.
pub open spec fn head_seq(pv: PublicValues) -> Seq<u64> {
    roots_seq(pv.trie_roots_before) + roots_seq(pv.trie_roots_after) + metadata_seq(
        pv.block_metadata,
    ) + words_seq(pv.block_hashes.prev_hashes@) + word_seq(pv.block_hashes.cur_hash)
        + registers_seq(pv.registers_before) + registers_seq(pv.registers_after)
}

/// The elements after the memory caps: transaction numbers and gas used.
pub open spec fn tail_seq(pv: PublicValues) -> Seq<u64> {
    word_seq(pv.txn_number_before) + word_seq(pv.txn_number_after) + word_seq(pv.gas_used_before)
        + word_seq(pv.gas_used_after)
}

/// The public inputs that carry `pv`.
pub open spec fn encode(pv: PublicValues) -> Seq<u64> {
    head_seq(pv) + pv.mem_before.mem_cap@ + pv.mem_after.mem_cap@ + tail_seq(pv)
}

/// The word at position `i`.
pub open spec fn word_at(s: Seq<u64>, i: int) -> Word {
    Word { l0: s[i], l1: s[i + 1], l2: s[i + 2], l3: s[i + 3] }
}

/// `r` is what the eleven elements at position `i` carry.
pub open spec fn registers_at(r: RegistersState, s: Seq<u64>, i: int) -> bool {
    &&& s[i] == r.program_counter as u64
    &&& s[i + 1] == flag(r.is_kernel)
    &&& s[i + 2] == r.stack_len as u64
    &&& r.stack_top == word_at(s, i + 3)
    &&& s[i + 7] == flag(r.is_stack_top_read)
    &&& s[i + 8] == flag(r.check_overflow)
    &&& s[i + 9] == r.context as u64
    &&& s[i + 10] == r.gas_used
}

/// The eleven elements at position `i` carry some registers: the flags are
/// zero or one and the sizes fit in `usize`.
pub open spec fn registers_well_formed(s: Seq<u64>, i: int) -> bool {
    &&& s[i] <= usize::MAX
    &&& s[i + 1] <= 1
    &&& s[i + 2] <= usize::MAX
    &&& s[i + 7] <= 1
    &&& s[i + 8] <= 1
    &&& s[i + 9] <= usize::MAX
}

/// `s` carries `pv`, with memory caps of `pv`'s lengths, field by field.
pub open spec fn carries(pv: PublicValues, s: Seq<u64>) -> bool {
    let lb = pv.mem_before.mem_cap@.len();
    let la = pv.mem_after.mem_cap@.len();
    let tail = OFFSET_MEM_CAPS + lb + la;
    &&& s.len() == FIXED_INPUTS + lb + la
    &&& pv.trie_roots_before == (TrieRoots {
        state_root: word_at(s, 0),
        transactions_root: word_at(s, 4),
        receipts_root: word_at(s, 8),
    })
    &&& pv.trie_roots_after == (TrieRoots {
        state_root: word_at(s, 12),
        transactions_root: word_at(s, 16),
        receipts_root: word_at(s, 20),
    })
    &&& pv.block_metadata == (BlockMetadata {
        block_beneficiary: word_at(s, 24),
        block_timestamp: word_at(s, 28),
        block_number: word_at(s, 32),
        block_difficulty: word_at(s, 36),
        block_random: word_at(s, 40),
        block_gaslimit: word_at(s, 44),
        block_chain_id: word_at(s, 48),
        block_base_fee: word_at(s, 52),
        block_gas_used: word_at(s, 56),
    })
    &&& pv.block_hashes.prev_hashes@.len() == NUM_PREV_HASHES
    &&& forall|k: int|
        0 <= k < NUM_PREV_HASHES ==> #[trigger] pv.block_hashes.prev_hashes@[k] == word_at(
            s,
            OFFSET_PREV_HASHES + 4 * k,
        )
    &&& pv.block_hashes.cur_hash == word_at(s, OFFSET_CUR_HASH as int)
    &&& registers_at(pv.registers_before, s, OFFSET_REGISTERS as int)
    &&& registers_at(pv.registers_after, s, OFFSET_REGISTERS + 11)
    &&& pv.mem_before.mem_cap@ == s.subrange(OFFSET_MEM_CAPS as int, OFFSET_MEM_CAPS + lb)
    &&& pv.mem_after.mem_cap@ == s.subrange(OFFSET_MEM_CAPS + lb, tail)
    &&& pv.txn_number_before == word_at(s, tail)
    &&& pv.txn_number_after == word_at(s, tail + 4)
    &&& pv.gas_used_before == word_at(s, tail + 8)
    &&& pv.gas_used_after == word_at(s, tail + 12)
}

/// `s` carries some public values with memory caps of lengths `lb` and `la`.
pub open spec fn inputs_well_formed(s: Seq<u64>, lb: nat, la: nat) -> bool {
    &&& s.len() == FIXED_INPUTS + lb + la
    &&& registers_well_formed(s, OFFSET_REGISTERS as int)
    &&& registers_well_formed(s, OFFSET_REGISTERS + 11)
}

/// The elements of a sequence of words sit four by four, in order.
proof fn lemma_words_seq(ws: Seq<Word>)
    ensures
        words_seq(ws).len() == 4 * ws.len(),
        forall|k: int| 0 <= k < ws.len() ==> word_at(words_seq(ws), 4 * k) == #[trigger] ws[k],
    decreases ws.len(),
{
    if ws.len() > 0 {
        let init = ws.drop_last();
        lemma_words_seq(init);
        assert forall|k: int| 0 <= k < ws.len() implies word_at(words_seq(ws), 4 * k)
            == #[trigger] ws[k] by {
            if k < init.len() {
                assert(init[k] == ws[k]);
            }
        }
    }
}

/// The head of the encoding carries the fields before the memory caps.
proof fn lemma_head_carries(pv: PublicValues)
    requires
        pv.block_hashes.prev_hashes@.len() == NUM_PREV_HASHES,
    ensures
        head_seq(pv).len() == OFFSET_MEM_CAPS,
        ({
            let h = head_seq(pv);
            &&& pv.trie_roots_before == (TrieRoots {
                state_root: word_at(h, 0),
                transactions_root: word_at(h, 4),
                receipts_root: word_at(h, 8),
            })
            &&& pv.trie_roots_after == (TrieRoots {
                state_root: word_at(h, 12),
                transactions_root: word_at(h, 16),
                receipts_root: word_at(h, 20),
            })
            &&& pv.block_metadata == (BlockMetadata {
                block_beneficiary: word_at(h, 24),
                block_timestamp: word_at(h, 28),
                block_number: word_at(h, 32),
                block_difficulty: word_at(h, 36),
                block_random: word_at(h, 40),
                block_gaslimit: word_at(h, 44),
                block_chain_id: word_at(h, 48),
                block_base_fee: word_at(h, 52),
                block_gas_used: word_at(h, 56),
            })
            &&& forall|k: int|
                0 <= k < NUM_PREV_HASHES ==> #[trigger] pv.block_hashes.prev_hashes@[k] == word_at(
                    h,
                    OFFSET_PREV_HASHES + 4 * k,
                )
            &&& pv.block_hashes.cur_hash == word_at(h, OFFSET_CUR_HASH as int)
            &&& registers_at(pv.registers_before, h, OFFSET_REGISTERS as int)
            &&& registers_at(pv.registers_after, h, OFFSET_REGISTERS + 11)
            &&& registers_well_formed(h, OFFSET_REGISTERS as int)
            &&& registers_well_formed(h, OFFSET_REGISTERS + 11)
        }),
{
    let prev = pv.block_hashes.prev_hashes@;
    lemma_words_seq(prev);
    let front = roots_seq(pv.trie_roots_before) + roots_seq(pv.trie_roots_after) + metadata_seq(
        pv.block_metadata,
    );
    let hashes = words_seq(prev);
    let with_hashes = front + hashes;
    let h = head_seq(pv);
    assert(front.len() == OFFSET_PREV_HASHES);
    assert forall|k: int| 0 <= k < NUM_PREV_HASHES implies #[trigger] prev[k] == word_at(
        h,
        OFFSET_PREV_HASHES + 4 * k,
    ) by {
        assert(word_at(hashes, 4 * k) == prev[k]);
        assert(word_at(with_hashes, OFFSET_PREV_HASHES + 4 * k) == word_at(hashes, 4 * k));
        assert(word_at(h, OFFSET_PREV_HASHES + 4 * k) == word_at(
            with_hashes,
            OFFSET_PREV_HASHES + 4 * k,
        ));
    }
}

/// The encoding of public values carries them.
#[verifier::rlimit(50)]
pub proof fn lemma_encode_carries(pv: PublicValues)
    requires
        pv.block_hashes.prev_hashes@.len() == NUM_PREV_HASHES,
    ensures
        carries(pv, encode(pv)),
        inputs_well_formed(
            encode(pv),
            pv.mem_before.mem_cap@.len(),
            pv.mem_after.mem_cap@.len(),
        ),
{
    lemma_head_carries(pv);
    let s = encode(pv);
    let h = head_seq(pv);
    let lb = pv.mem_before.mem_cap@.len();
    let la = pv.mem_after.mem_cap@.len();
    let caps = h + pv.mem_before.mem_cap@ + pv.mem_after.mem_cap@;
    assert forall|i: int| 0 <= i < OFFSET_MEM_CAPS implies s[i] == #[trigger] h[i] by {
        assert(s[i] == caps[i]);
    }
    assert forall|k: int| 0 <= k < NUM_PREV_HASHES implies word_at(s, OFFSET_PREV_HASHES + 4 * k)
        == #[trigger] word_at(h, OFFSET_PREV_HASHES + 4 * k) by {
        assert(s[OFFSET_PREV_HASHES + 4 * k] == h[OFFSET_PREV_HASHES + 4 * k]);
        assert(s[OFFSET_PREV_HASHES + 4 * k + 1] == h[OFFSET_PREV_HASHES + 4 * k + 1]);
        assert(s[OFFSET_PREV_HASHES + 4 * k + 2] == h[OFFSET_PREV_HASHES + 4 * k + 2]);
        assert(s[OFFSET_PREV_HASHES + 4 * k + 3] == h[OFFSET_PREV_HASHES + 4 * k + 3]);
    }
    assert(pv.mem_before.mem_cap@ =~= s.subrange(OFFSET_MEM_CAPS as int, OFFSET_MEM_CAPS + lb));
    assert(pv.mem_after.mem_cap@ =~= s.subrange(
        OFFSET_MEM_CAPS + lb,
        OFFSET_MEM_CAPS + lb + la,
    ));
}

/// Public values are determined by the inputs that carry them and the
/// length of their memory cap before.
pub proof fn lemma_carried_values_unique(p: PublicValues, q: PublicValues, s: Seq<u64>)
    requires
        carries(p, s),
        carries(q, s),
        p.mem_before.mem_cap@.len() == q.mem_before.mem_cap@.len(),
    ensures
        p.registers_before == q.registers_before,
        p.registers_after == q.registers_after,
        crate::public_values::same_values(p, q),
{
    assert(p.block_hashes.prev_hashes@ =~= q.block_hashes.prev_hashes@);
}

/// Public values with the full block-hash history round-trip through their
/// public inputs: the encoding is well formed for the two cap lengths, and
/// any values that it carries with those lengths equal `p`.
pub proof fn lemma_public_values_round_trip(p: PublicValues, q: PublicValues)
    requires
        p.block_hashes.prev_hashes@.len() == NUM_PREV_HASHES,
        carries(q, encode(p)),
        q.mem_before.mem_cap@.len() == p.mem_before.mem_cap@.len(),
    ensures
        inputs_well_formed(encode(p), p.mem_before.mem_cap@.len(), p.mem_after.mem_cap@.len()),
        crate::public_values::same_values(q, p),
{
    lemma_encode_carries(p);
    lemma_carried_values_unique(q, p, encode(p));
}

/// Appends the four elements of a word.
fn push_word(v: &mut Vec<u64>, w: Word)
    ensures
        final(v)@ == old(v)@ + word_seq(w),
{
    v.push(w.l0);
    v.push(w.l1);
    v.push(w.l2);
    v.push(w.l3);
    assert(final(v)@ =~= old(v)@ + word_seq(w));
}

fn push_roots(v: &mut Vec<u64>, t: &TrieRoots)
    ensures
        final(v)@ == old(v)@ + roots_seq(*t),
{
    let ghost start = v@;
    push_word(v, t.state_root);
    push_word(v, t.transactions_root);
    push_word(v, t.receipts_root);
    assert(v@ =~= start + roots_seq(*t));
}

fn push_metadata(v: &mut Vec<u64>, m: &BlockMetadata)
    ensures
        final(v)@ == old(v)@ + metadata_seq(*m),
{
    let ghost start = v@;
    push_word(v, m.block_beneficiary);
    push_word(v, m.block_timestamp);
    push_word(v, m.block_number);
    push_word(v, m.block_difficulty);
    push_word(v, m.block_random);
    push_word(v, m.block_gaslimit);
    push_word(v, m.block_chain_id);
    push_word(v, m.block_base_fee);
    push_word(v, m.block_gas_used);
    assert(v@ =~= start + metadata_seq(*m));
}

fn push_registers(v: &mut Vec<u64>, r: &RegistersState)
    ensures
        final(v)@ == old(v)@ + registers_seq(*r),
{
    let ghost start = v@;
    v.push(r.program_counter as u64);
    v.push(if r.is_kernel { 1 } else { 0 });
    v.push(r.stack_len as u64);
    push_word(v, r.stack_top);
    v.push(if r.is_stack_top_read { 1 } else { 0 });
    v.push(if r.check_overflow { 1 } else { 0 });
    v.push(r.context as u64);
    v.push(r.gas_used);
    assert(v@ =~= start + registers_seq(*r));
}

fn push_words(v: &mut Vec<u64>, ws: &Vec<Word>)
    ensures
        final(v)@ == old(v)@ + words_seq(ws@),
{
    let ghost start = v@;
    let mut i: usize = 0;
    while i < ws.len()
        invariant
            i <= ws@.len(),
            v@ == start + words_seq(ws@.subrange(0, i as int)),
        decreases ws@.len() - i,
    {
        assert(ws@.subrange(0, i + 1).drop_last() =~= ws@.subrange(0, i as int));
        push_word(v, ws[i]);
        assert(v@ =~= start + words_seq(ws@.subrange(0, i + 1)));
        i = i + 1;
    }
    assert(ws@.subrange(0, ws@.len() as int) =~= ws@);
}

fn push_all(v: &mut Vec<u64>, xs: &Vec<u64>)
    ensures
        final(v)@ == old(v)@ + xs@,
{
    let ghost start = v@;
    let mut i: usize = 0;
    while i < xs.len()
        invariant
            i <= xs@.len(),
            v@ == start + xs@.subrange(0, i as int),
        decreases xs@.len() - i,
    {
        v.push(xs[i]);
        assert(v@ =~= start + xs@.subrange(0, i + 1));
        i = i + 1;
    }
    assert(xs@.subrange(0, xs@.len() as int) =~= xs@);
}

fn read_word(s: &Vec<u64>, i: usize) -> (r: Word)
    requires
        i + 4 <= s@.len(),
    ensures
        r == word_at(s@, i as int),
{
    let n = s.len();
    assert(i + 4 <= n);
    Word { l0: s[i], l1: s[i + 1], l2: s[i + 2], l3: s[i + 3] }
}

fn read_registers(s: &Vec<u64>, i: usize) -> (r: Option<RegistersState>)
    requires
        i + 11 <= s@.len(),
    ensures
        r.is_some() <==> registers_well_formed(s@, i as int),
        r.is_some() ==> registers_at(r.unwrap(), s@, i as int),
{
    let n = s.len();
    assert(i + 11 <= n);
    let flags_ok = s[i + 1] <= 1 && s[i + 7] <= 1 && s[i + 8] <= 1;
    let max = usize::MAX as u64;
    if !flags_ok || s[i] > max || s[i + 2] > max || s[i + 9] > max {
        return None;
    }
    Some(
        RegistersState {
            program_counter: s[i] as usize,
            is_kernel: s[i + 1] == 1,
            stack_len: s[i + 2] as usize,
            stack_top: read_word(s, i + 3),
            is_stack_top_read: s[i + 7] == 1,
            check_overflow: s[i + 8] == 1,
            context: s[i + 9] as usize,
            gas_used: s[i + 10],
        },
    )
}

impl PublicValues {
    /// Returns the public inputs that carry these values.
    pub fn to_public_inputs(&self) -> (r: Vec<u64>)
        ensures
            r@ == encode(*self),
    {
        let mut v: Vec<u64> = Vec::new();
        push_roots(&mut v, &self.trie_roots_before);
        push_roots(&mut v, &self.trie_roots_after);
        push_metadata(&mut v, &self.block_metadata);
        push_words(&mut v, &self.block_hashes.prev_hashes);
        push_word(&mut v, self.block_hashes.cur_hash);
        push_registers(&mut v, &self.registers_before);
        push_registers(&mut v, &self.registers_after);
        push_all(&mut v, &self.mem_before.mem_cap);
        push_all(&mut v, &self.mem_after.mem_cap);
        push_word(&mut v, self.txn_number_before);
        push_word(&mut v, self.txn_number_after);
        push_word(&mut v, self.gas_used_before);
        push_word(&mut v, self.gas_used_after);
        v
    }

    /// Reconstructs public values from their public inputs and the lengths
    /// of the memory caps before and after; `None` when the inputs do not
    /// have the matching length or do not carry valid registers.
    pub fn from_public_inputs(inputs: &Vec<u64>, len_mem_before: usize, len_mem_after: usize) -> (r:
        Option<PublicValues>)
        ensures
            r.is_some() <==> inputs_well_formed(inputs@, len_mem_before as nat, len_mem_after as nat),
            r.is_some() ==> carries(r.unwrap(), inputs@) && r.unwrap().mem_before.mem_cap@.len()
                == len_mem_before && r.unwrap().mem_after.mem_cap@.len() == len_mem_after,
    {
        if len_mem_before > inputs.len() || len_mem_after > inputs.len() - len_mem_before
            || inputs.len() - len_mem_before - len_mem_after != FIXED_INPUTS {
            return None;
        }
        let s = inputs;
        let total = s.len();
        let registers_before = match read_registers(s, OFFSET_REGISTERS) {
            Some(r) => r,
            None => return None,
        };
        let registers_after = match read_registers(s, OFFSET_REGISTERS + 11) {
            Some(r) => r,
            None => return None,
        };
        let mut prev_hashes: Vec<Word> = Vec::new();
        let mut k: usize = 0;
        while k < NUM_PREV_HASHES
            invariant
                s@.len() == FIXED_INPUTS + len_mem_before + len_mem_after,
                k <= NUM_PREV_HASHES,
                prev_hashes@.len() == k,
                forall|j: int| 0 <= j < k ==> #[trigger] prev_hashes@[j] == word_at(
                    s@,
                    OFFSET_PREV_HASHES + 4 * j,
                ),
            decreases NUM_PREV_HASHES - k,
        {
            prev_hashes.push(read_word(s, OFFSET_PREV_HASHES + 4 * k));
            k = k + 1;
        }
        let tail = OFFSET_MEM_CAPS + len_mem_before + len_mem_after;
        let mut mem_before: Vec<u64> = Vec::new();
        let mut mem_after: Vec<u64> = Vec::new();
        let mut i: usize = 0;
        while i < len_mem_before
            invariant
                s@.len() == FIXED_INPUTS + len_mem_before + len_mem_after,
                s@.len() == total,
                i <= len_mem_before,
                mem_before@ == s@.subrange(OFFSET_MEM_CAPS as int, OFFSET_MEM_CAPS + i),
            decreases len_mem_before - i,
        {
            mem_before.push(s[OFFSET_MEM_CAPS + i]);
            assert(mem_before@ =~= s@.subrange(OFFSET_MEM_CAPS as int, OFFSET_MEM_CAPS + i + 1));
            i = i + 1;
        }
        let mut j: usize = 0;
        while j < len_mem_after
            invariant
                s@.len() == FIXED_INPUTS + len_mem_before + len_mem_after,
                s@.len() == total,
                j <= len_mem_after,
                mem_after@ == s@.subrange(
                    OFFSET_MEM_CAPS + len_mem_before,
                    OFFSET_MEM_CAPS + len_mem_before + j,
                ),
            decreases len_mem_after - j,
        {
            mem_after.push(s[OFFSET_MEM_CAPS + len_mem_before + j]);
            assert(mem_after@ =~= s@.subrange(
                OFFSET_MEM_CAPS + len_mem_before,
                OFFSET_MEM_CAPS + len_mem_before + j + 1,
            ));
            j = j + 1;
        }
        Some(
            PublicValues {
                trie_roots_before: TrieRoots {
                    state_root: read_word(s, 0),
                    transactions_root: read_word(s, 4),
                    receipts_root: read_word(s, 8),
                },
                trie_roots_after: TrieRoots {
                    state_root: read_word(s, 12),
                    transactions_root: read_word(s, 16),
                    receipts_root: read_word(s, 20),
                },
                block_metadata: BlockMetadata {
                    block_beneficiary: read_word(s, 24),
                    block_timestamp: read_word(s, 28),
                    block_number: read_word(s, 32),
                    block_difficulty: read_word(s, 36),
                    block_random: read_word(s, 40),
                    block_gaslimit: read_word(s, 44),
                    block_chain_id: read_word(s, 48),
                    block_base_fee: read_word(s, 52),
                    block_gas_used: read_word(s, 56),
                },
                block_hashes: BlockHashes { prev_hashes, cur_hash: read_word(s, OFFSET_CUR_HASH) },
                registers_before,
                registers_after,
                mem_before: MemCap { mem_cap: mem_before },
                mem_after: MemCap { mem_cap: mem_after },
                txn_number_before: read_word(s, tail),
                txn_number_after: read_word(s, tail + 4),
                gas_used_before: read_word(s, tail + 8),
                gas_used_after: read_word(s, tail + 12),
            },
        )
    }
}

} // verus!
