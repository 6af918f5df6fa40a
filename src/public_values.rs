//! The public values that each proof exposes, and the continuity rules by
//! which the aggregation of two proofs joins them.

use vstd::prelude::*;

use crate::state::RegistersState;
use crate::word::Word;

verus! {

/// The roots of the state, transactions and receipts tries.
#[derive(Clone, Copy, Debug, PartialEq, Eq, Structural)]
pub struct TrieRoots {
    pub state_root: Word,
    pub transactions_root: Word,
    pub receipts_root: Word,
}

/// The header fields of the block being proved.
#[derive(Clone, Copy, Debug, PartialEq, Eq, Structural)]
pub struct BlockMetadata {
    pub block_beneficiary: Word,
    pub block_timestamp: Word,
    pub block_number: Word,
    pub block_difficulty: Word,
    pub block_random: Word,
    pub block_gaslimit: Word,
    pub block_chain_id: Word,
    pub block_base_fee: Word,
    pub block_gas_used: Word,
}

/// The hashes of the previous blocks and of the current one.
#[derive(Clone, Debug)]
pub struct BlockHashes {
    pub prev_hashes: Vec<Word>,
    pub cur_hash: Word,
}

/// A digest of a memory image: the hashes of a Merkle cap, in order.
#[derive(Clone, Debug)]
pub struct MemCap {
    pub mem_cap: Vec<u64>,
}

/// The values that a proof exposes and that aggregation splices.
#[derive(Clone, Debug)]
pub struct PublicValues {
    pub trie_roots_before: TrieRoots,
    pub trie_roots_after: TrieRoots,
    pub block_metadata: BlockMetadata,
    pub block_hashes: BlockHashes,
    pub registers_before: RegistersState,
    pub registers_after: RegistersState,
    pub mem_before: MemCap,
    pub mem_after: MemCap,
    pub txn_number_before: Word,
    pub txn_number_after: Word,
    pub gas_used_before: Word,
    pub gas_used_after: Word,
}

/// Why two proofs cannot be joined: the first inner boundary value that differs.
#[derive(Clone, Copy, Debug, PartialEq, Eq, Structural)]
pub enum ContinuityError {
    RegistersMismatch,
    MemCapMismatch,
    TrieRootsMismatch,
    GasUsedMismatch,
    TxnNumberMismatch,
    BlockMetadataMismatch,
    BlockHashesMismatch,
}

/// Two hash histories are the same.
pub open spec fn same_hashes(a: BlockHashes, b: BlockHashes) -> bool {
    a.prev_hashes@ == b.prev_hashes@ && a.cur_hash == b.cur_hash
}

/// The first value that differs between what `lhs` leaves and `rhs` starts
/// from, with registers and memory checked only between segments.
pub open spec fn first_mismatch(lhs: PublicValues, rhs: PublicValues, segments: bool) -> Option<
    ContinuityError,
> {
    if segments && lhs.registers_after != rhs.registers_before {
        Some(ContinuityError::RegistersMismatch)
    } else if segments && lhs.mem_after.mem_cap@ != rhs.mem_before.mem_cap@ {
        Some(ContinuityError::MemCapMismatch)
    } else if lhs.trie_roots_after != rhs.trie_roots_before {
        Some(ContinuityError::TrieRootsMismatch)
    } else if lhs.gas_used_after != rhs.gas_used_before {
        Some(ContinuityError::GasUsedMismatch)
    } else if lhs.txn_number_after != rhs.txn_number_before {
        Some(ContinuityError::TxnNumberMismatch)
    } else if lhs.block_metadata != rhs.block_metadata {
        Some(ContinuityError::BlockMetadataMismatch)
    } else if !same_hashes(lhs.block_hashes, rhs.block_hashes) {
        Some(ContinuityError::BlockHashesMismatch)
    } else {
        None
    }
}

/// `pv` spans `lhs` then `rhs`: the outer boundary values of `lhs` before and
/// of `rhs` after, and the block of `lhs`.
pub open spec fn is_join(pv: PublicValues, lhs: PublicValues, rhs: PublicValues) -> bool {
    &&& pv.trie_roots_before == lhs.trie_roots_before
    &&& pv.trie_roots_after == rhs.trie_roots_after
    &&& pv.block_metadata == lhs.block_metadata
    &&& same_hashes(pv.block_hashes, lhs.block_hashes)
    &&& pv.registers_before == lhs.registers_before
    &&& pv.registers_after == rhs.registers_after
    &&& pv.mem_before.mem_cap@ == lhs.mem_before.mem_cap@
    &&& pv.mem_after.mem_cap@ == rhs.mem_after.mem_cap@
    &&& pv.txn_number_before == lhs.txn_number_before
    &&& pv.txn_number_after == rhs.txn_number_after
    &&& pv.gas_used_before == lhs.gas_used_before
    &&& pv.gas_used_after == rhs.gas_used_after
}

/// Two public values agree in every field.
pub open spec fn same_values(a: PublicValues, b: PublicValues) -> bool {
    is_join(a, b, b)
}

/// Whether two sequences of integers are equal.
fn same_u64s(a: &Vec<u64>, b: &Vec<u64>) -> (r: bool)
    ensures
        r == (a@ == b@),
{
    if a.len() != b.len() {
        return false;
    }
    let mut i: usize = 0;
    while i < a.len()
        invariant
            a@.len() == b@.len(),
            i <= a@.len(),
            forall|k: int| 0 <= k < i ==> a@[k] == b@[k],
        decreases a@.len() - i,
    {
        if a[i] != b[i] {
            return false;
        }
        i = i + 1;
    }
    assert(a@ =~= b@);
    true
}

/// Whether two sequences of words are equal.
fn same_words(a: &Vec<Word>, b: &Vec<Word>) -> (r: bool)
    ensures
        r == (a@ == b@),
{
    if a.len() != b.len() {
        return false;
    }
    let mut i: usize = 0;
    while i < a.len()
        invariant
            a@.len() == b@.len(),
            i <= a@.len(),
            forall|k: int| 0 <= k < i ==> a@[k] == b@[k],
        decreases a@.len() - i,
    {
        if a[i] != b[i] {
            return false;
        }
        i = i + 1;
    }
    assert(a@ =~= b@);
    true
}

/// A copy of a sequence of integers.
fn copy_u64s(a: &Vec<u64>) -> (r: Vec<u64>)
    ensures
        r@ == a@,
{
    let mut r: Vec<u64> = Vec::new();
    let mut i: usize = 0;
    while i < a.len()
        invariant
            i <= a@.len(),
            r@ == a@.subrange(0, i as int),
        decreases a@.len() - i,
    {
        r.push(a[i]);
        i = i + 1;
    }
    assert(a@.subrange(0, a@.len() as int) =~= a@);
    r
}

/// A copy of a sequence of words.
fn copy_words(a: &Vec<Word>) -> (r: Vec<Word>)
    ensures
        r@ == a@,
{
    let mut r: Vec<Word> = Vec::new();
    let mut i: usize = 0;
    while i < a.len()
        invariant
            i <= a@.len(),
            r@ == a@.subrange(0, i as int),
        decreases a@.len() - i,
    {
        r.push(a[i]);
        i = i + 1;
    }
    assert(a@.subrange(0, a@.len() as int) =~= a@);
    r
}

impl MemCap {
    /// Whether two caps hold the same hashes in the same order.
    pub fn same_as(&self, other: &MemCap) -> (r: bool)
        ensures
            r == (self.mem_cap@ == other.mem_cap@),
    {
        same_u64s(&self.mem_cap, &other.mem_cap)
    }

    /// A copy of the cap.
    pub fn copy(&self) -> (r: MemCap)
        ensures
            r.mem_cap@ == self.mem_cap@,
    {
        MemCap { mem_cap: copy_u64s(&self.mem_cap) }
    }
}

impl BlockHashes {
    /// Whether two hash histories are the same.
    pub fn same_as(&self, other: &BlockHashes) -> (r: bool)
        ensures
            r == same_hashes(*self, *other),
    {
        self.cur_hash == other.cur_hash && same_words(&self.prev_hashes, &other.prev_hashes)
    }

    /// A copy of the history.
    pub fn copy(&self) -> (r: BlockHashes)
        ensures
            same_hashes(r, *self),
    {
        BlockHashes { prev_hashes: copy_words(&self.prev_hashes), cur_hash: self.cur_hash }
    }
}

impl PublicValues {
    /// The first value that differs between what `lhs` leaves and `rhs`
    /// starts from; registers and memory caps only when `segments` is set.
    pub fn find_mismatch(lhs: &PublicValues, rhs: &PublicValues, segments: bool) -> (r: Option<
        ContinuityError,
    >)
        ensures
            r == first_mismatch(*lhs, *rhs, segments),
    {
        if segments && lhs.registers_after != rhs.registers_before {
            Some(ContinuityError::RegistersMismatch)
        } else if segments && !lhs.mem_after.same_as(&rhs.mem_before) {
            Some(ContinuityError::MemCapMismatch)
        } else if lhs.trie_roots_after != rhs.trie_roots_before {
            Some(ContinuityError::TrieRootsMismatch)
        } else if lhs.gas_used_after != rhs.gas_used_before {
            Some(ContinuityError::GasUsedMismatch)
        } else if lhs.txn_number_after != rhs.txn_number_before {
            Some(ContinuityError::TxnNumberMismatch)
        } else if lhs.block_metadata != rhs.block_metadata {
            Some(ContinuityError::BlockMetadataMismatch)
        } else if !lhs.block_hashes.same_as(&rhs.block_hashes) {
            Some(ContinuityError::BlockHashesMismatch)
        } else {
            None
        }
    }

    /// The values spanning `lhs` then `rhs`, without any check.
    pub fn join(lhs: &PublicValues, rhs: &PublicValues) -> (r: PublicValues)
        ensures
            is_join(r, *lhs, *rhs),
    {
        PublicValues {
            trie_roots_before: lhs.trie_roots_before,
            trie_roots_after: rhs.trie_roots_after,
            block_metadata: lhs.block_metadata,
            block_hashes: lhs.block_hashes.copy(),
            registers_before: lhs.registers_before,
            registers_after: rhs.registers_after,
            mem_before: lhs.mem_before.copy(),
            mem_after: rhs.mem_after.copy(),
            txn_number_before: lhs.txn_number_before,
            txn_number_after: rhs.txn_number_after,
            gas_used_before: lhs.gas_used_before,
            gas_used_after: rhs.gas_used_after,
        }
    }

    /// Joins two adjacent segment proofs, left first in execution order: the
    /// left one's registers, memory cap, trie roots, gas used and transaction
    /// number after must equal the right one's before, and both must be of
    /// the same block.
    pub fn aggregate_segments(lhs: &PublicValues, rhs: &PublicValues) -> (r: Result<
        PublicValues,
        ContinuityError,
    >)
        ensures
            r.is_ok() <==> first_mismatch(*lhs, *rhs, true).is_none(),
            r.is_err() ==> Some(r.unwrap_err()) == first_mismatch(*lhs, *rhs, true),
            r.is_ok() ==> is_join(r.unwrap(), *lhs, *rhs),
    {
        match PublicValues::find_mismatch(lhs, rhs, true) {
            Some(e) => Err(e),
            None => Ok(PublicValues::join(lhs, rhs)),
        }
    }

    /// Joins the aggregate of a transaction to that of the transactions
    /// before it in the block, if any: their trie roots, gas used and
    /// transaction number must splice, and both must be of the same block.
    pub fn aggregate_txns(prior: Option<&PublicValues>, current: &PublicValues) -> (r: Result<
        PublicValues,
        ContinuityError,
    >)
        ensures
            prior.is_none() ==> r.is_ok() && same_values(r.unwrap(), *current),
            prior.is_some() ==> (r.is_ok() <==> first_mismatch(
                *prior.unwrap(),
                *current,
                false,
            ).is_none()),
            prior.is_some() && r.is_err() ==> Some(r.unwrap_err()) == first_mismatch(
                *prior.unwrap(),
                *current,
                false,
            ),
            prior.is_some() && r.is_ok() ==> is_join(r.unwrap(), *prior.unwrap(), *current),
    {
        match prior {
            None => Ok(PublicValues::join(current, current)),
            Some(p) => match PublicValues::find_mismatch(p, current, false) {
                Some(e) => Err(e),
                None => Ok(PublicValues::join(p, current)),
            },
        }
    }

    /// Joins the aggregate of a block's transactions to the proof of the
    /// blocks before it, if any: the state trie root after the earlier
    /// blocks must be the one this block starts from. The result spans the
    /// earlier blocks and this one.
    pub fn aggregate_block(prior: Option<&PublicValues>, block: &PublicValues) -> (r: Result<
        PublicValues,
        ContinuityError,
    >)
        ensures
            prior.is_none() ==> r.is_ok() && same_values(r.unwrap(), *block),
            prior.is_some() ==> (r.is_ok() <==> prior.unwrap().trie_roots_after.state_root
                == block.trie_roots_before.state_root),
            prior.is_some() && r.is_err() ==> r.unwrap_err() == ContinuityError::TrieRootsMismatch,
            prior.is_some() && r.is_ok() ==> is_join(r.unwrap(), *prior.unwrap(), *block),
    {
        match prior {
            None => Ok(PublicValues::join(block, block)),
            Some(p) => {
                if p.trie_roots_after.state_root != block.trie_roots_before.state_root {
                    Err(ContinuityError::TrieRootsMismatch)
                } else {
                    Ok(PublicValues::join(p, block))
                }
            },
        }
    }
}

/// A proof whose values after equal its values before continues itself: it
/// may stand as both children of a segment aggregation, and the result
/// carries its own values.
pub proof fn lemma_trivial_continuation(pv: PublicValues)
    requires
        pv.registers_after == pv.registers_before,
        pv.mem_after.mem_cap@ == pv.mem_before.mem_cap@,
        pv.trie_roots_after == pv.trie_roots_before,
        pv.gas_used_after == pv.gas_used_before,
        pv.txn_number_after == pv.txn_number_before,
    ensures
        first_mismatch(pv, pv, true).is_none(),
        forall|r: PublicValues| is_join(r, pv, pv) ==> same_values(r, pv),
{
}

/// Flipping one bit of one hash of the left child's final memory cap, while
/// the right child's initial cap stays as it was, makes the segment
/// aggregation fail.
pub proof fn lemma_tampered_mem_after_rejected(
    lhs: PublicValues,
    tampered: PublicValues,
    rhs: PublicValues,
    i: int,
    bit: u64,
)
    requires
        lhs.mem_after.mem_cap@ == rhs.mem_before.mem_cap@,
        0 <= i < lhs.mem_after.mem_cap@.len(),
        bit < 64,
        tampered.registers_after == lhs.registers_after,
        tampered.mem_after.mem_cap@ == lhs.mem_after.mem_cap@.update(
            i,
            lhs.mem_after.mem_cap@[i] ^ (1u64 << bit),
        ),
    ensures
        first_mismatch(tampered, rhs, true) == (if lhs.registers_after != rhs.registers_before {
            Some(ContinuityError::RegistersMismatch)
        } else {
            Some(ContinuityError::MemCapMismatch)
        }),
{
    let x = lhs.mem_after.mem_cap@[i];
    assert(x ^ (1u64 << bit) != x) by (bit_vector)
        requires
            bit < 64,
    ;
    assert(tampered.mem_after.mem_cap@[i] != rhs.mem_before.mem_cap@[i]);
}

} // verus!
