//! The fixed enumeration of memory segments and their value widths.

use vstd::prelude::*;

verus! {

/// The number of memory segments.
pub const SEGMENT_COUNT: usize = 36;

/// The memory segments of a context.
#[derive(Clone, Copy, Debug, PartialEq, Eq, Hash, Structural)]
pub enum Segment {
    /// Contains EVM bytecode.
    Code,
    /// The program stack.
    Stack,
    /// Main memory, owned by the contract code.
    MainMemory,
    /// Data passed to the current context by its caller.
    Calldata,
    /// Data returned to the current context by its latest callee.
    Returndata,
    /// Context metadata such as the caller and the value of the call.
    Metadata,
    /// General-purpose kernel memory.
    KernelGeneral,
    /// Another segment for general-purpose kernel use.
    KernelGeneral2,
    /// Global metadata of the execution, in the kernel's context.
    GlobalMetadata,
    /// Per-context metadata.
    ContextMetadata,
    /// Code of the account being run, as kernel data.
    KernelAccountCode,
    /// Fields of the transaction being processed.
    TxnFields,
    /// The data field of the transaction.
    TxnData,
    /// Raw RLP data.
    RlpRaw,
    /// Data of the Merkle-Patricia tries.
    TrieData,
    /// A table of powers of two used for shifts.
    ShiftTable,
    /// One bit per byte of code: whether it is a valid jump destination.
    JumpdestBits,
    /// Precomputed points for ECDSA.
    EcdsaTable,
    /// wNAF expansion of the first BN254 scalar.
    BnWnafA,
    /// wNAF expansion of the second BN254 scalar.
    BnWnafB,
    /// Precomputed multiples of a BN254 point.
    BnTableQ,
    /// Scratch space for BN254 pairings.
    BnPairing,
    /// Addresses accessed in the current transaction.
    AccessedAddresses,
    /// Storage keys accessed in the current transaction.
    AccessedStorageKeys,
    /// Contracts that self-destructed in the current transaction.
    SelfDestructList,
    /// Bloom filter of the current transaction.
    TxnBloom,
    /// Bloom filter of the block so far.
    BlockBloom,
    /// Scratch space for a bloom filter entry.
    BloomEntry,
    /// Logs emitted by the current transaction.
    Logs,
    /// Payloads of the logs.
    LogsData,
    /// Journal of state changes, for reverts.
    Journal,
    /// Data of the journal entries.
    JournalData,
    /// Journal positions of the checkpoints.
    JournalCheckpoints,
    /// Addresses touched in the current transaction.
    TouchedAddresses,
    /// Checkpoints of the current context.
    ContextCheckpoints,
    /// Hashes of the previous blocks.
    BlockHashes,
}

impl Segment {
    /// The position of the segment in the enumeration.
    pub open spec fn spec_index(self) -> nat {
        match self {
            Segment::Code => 0,
            Segment::Stack => 1,
            Segment::MainMemory => 2,
            Segment::Calldata => 3,
            Segment::Returndata => 4,
            Segment::Metadata => 5,
            Segment::KernelGeneral => 6,
            Segment::KernelGeneral2 => 7,
            Segment::GlobalMetadata => 8,
            Segment::ContextMetadata => 9,
            Segment::KernelAccountCode => 10,
            Segment::TxnFields => 11,
            Segment::TxnData => 12,
            Segment::RlpRaw => 13,
            Segment::TrieData => 14,
            Segment::ShiftTable => 15,
            Segment::JumpdestBits => 16,
            Segment::EcdsaTable => 17,
            Segment::BnWnafA => 18,
            Segment::BnWnafB => 19,
            Segment::BnTableQ => 20,
            Segment::BnPairing => 21,
            Segment::AccessedAddresses => 22,
            Segment::AccessedStorageKeys => 23,
            Segment::SelfDestructList => 24,
            Segment::TxnBloom => 25,
            Segment::BlockBloom => 26,
            Segment::BloomEntry => 27,
            Segment::Logs => 28,
            Segment::LogsData => 29,
            Segment::Journal => 30,
            Segment::JournalData => 31,
            Segment::JournalCheckpoints => 32,
            Segment::TouchedAddresses => 33,
            Segment::ContextCheckpoints => 34,
            Segment::BlockHashes => 35,
        }
    }

    /// The number of bits a value of the segment may have.
    pub open spec fn spec_bit_range(self) -> nat {
        match self {
            Segment::Code => 8,
            Segment::Stack => 256,
            Segment::MainMemory => 8,
            Segment::Calldata => 8,
            Segment::Returndata => 8,
            Segment::Metadata => 256,
            Segment::KernelGeneral => 256,
            Segment::KernelGeneral2 => 256,
            Segment::GlobalMetadata => 256,
            Segment::ContextMetadata => 256,
            Segment::KernelAccountCode => 8,
            Segment::TxnFields => 256,
            Segment::TxnData => 8,
            Segment::RlpRaw => 8,
            Segment::TrieData => 256,
            Segment::ShiftTable => 256,
            Segment::JumpdestBits => 1,
            Segment::EcdsaTable => 256,
            Segment::BnWnafA => 8,
            Segment::BnWnafB => 8,
            Segment::BnTableQ => 256,
            Segment::BnPairing => 256,
            Segment::AccessedAddresses => 256,
            Segment::AccessedStorageKeys => 256,
            Segment::SelfDestructList => 256,
            Segment::TxnBloom => 8,
            Segment::BlockBloom => 256,
            Segment::BloomEntry => 8,
            Segment::Logs => 256,
            Segment::LogsData => 256,
            Segment::Journal => 256,
            Segment::JournalData => 256,
            Segment::JournalCheckpoints => 256,
            Segment::TouchedAddresses => 256,
            Segment::ContextCheckpoints => 256,
            Segment::BlockHashes => 256,
        }
    }

    /// The segment at position `i` of the enumeration (`Code` past its end).
    pub open spec fn spec_from_index(i: nat) -> Segment {
        if i == 1 {
            Segment::Stack
        } else if i == 2 {
            Segment::MainMemory
        } else if i == 3 {
            Segment::Calldata
        } else if i == 4 {
            Segment::Returndata
        } else if i == 5 {
            Segment::Metadata
        } else if i == 6 {
            Segment::KernelGeneral
        } else if i == 7 {
            Segment::KernelGeneral2
        } else if i == 8 {
            Segment::GlobalMetadata
        } else if i == 9 {
            Segment::ContextMetadata
        } else if i == 10 {
            Segment::KernelAccountCode
        } else if i == 11 {
            Segment::TxnFields
        } else if i == 12 {
            Segment::TxnData
        } else if i == 13 {
            Segment::RlpRaw
        } else if i == 14 {
            Segment::TrieData
        } else if i == 15 {
            Segment::ShiftTable
        } else if i == 16 {
            Segment::JumpdestBits
        } else if i == 17 {
            Segment::EcdsaTable
        } else if i == 18 {
            Segment::BnWnafA
        } else if i == 19 {
            Segment::BnWnafB
        } else if i == 20 {
            Segment::BnTableQ
        } else if i == 21 {
            Segment::BnPairing
        } else if i == 22 {
            Segment::AccessedAddresses
        } else if i == 23 {
            Segment::AccessedStorageKeys
        } else if i == 24 {
            Segment::SelfDestructList
        } else if i == 25 {
            Segment::TxnBloom
        } else if i == 26 {
            Segment::BlockBloom
        } else if i == 27 {
            Segment::BloomEntry
        } else if i == 28 {
            Segment::Logs
        } else if i == 29 {
            Segment::LogsData
        } else if i == 30 {
            Segment::Journal
        } else if i == 31 {
            Segment::JournalData
        } else if i == 32 {
            Segment::JournalCheckpoints
        } else if i == 33 {
            Segment::TouchedAddresses
        } else if i == 34 {
            Segment::ContextCheckpoints
        } else if i == 35 {
            Segment::BlockHashes
        } else {
            Segment::Code
        }
    }

    /// The position of the segment in the enumeration.
    pub fn index(&self) -> (r: usize)
        ensures
            r as nat == self.spec_index(),
            r < SEGMENT_COUNT,
    {
        match self {
            Segment::Code => 0,
            Segment::Stack => 1,
            Segment::MainMemory => 2,
            Segment::Calldata => 3,
            Segment::Returndata => 4,
            Segment::Metadata => 5,
            Segment::KernelGeneral => 6,
            Segment::KernelGeneral2 => 7,
            Segment::GlobalMetadata => 8,
            Segment::ContextMetadata => 9,
            Segment::KernelAccountCode => 10,
            Segment::TxnFields => 11,
            Segment::TxnData => 12,
            Segment::RlpRaw => 13,
            Segment::TrieData => 14,
            Segment::ShiftTable => 15,
            Segment::JumpdestBits => 16,
            Segment::EcdsaTable => 17,
            Segment::BnWnafA => 18,
            Segment::BnWnafB => 19,
            Segment::BnTableQ => 20,
            Segment::BnPairing => 21,
            Segment::AccessedAddresses => 22,
            Segment::AccessedStorageKeys => 23,
            Segment::SelfDestructList => 24,
            Segment::TxnBloom => 25,
            Segment::BlockBloom => 26,
            Segment::BloomEntry => 27,
            Segment::Logs => 28,
            Segment::LogsData => 29,
            Segment::Journal => 30,
            Segment::JournalData => 31,
            Segment::JournalCheckpoints => 32,
            Segment::TouchedAddresses => 33,
            Segment::ContextCheckpoints => 34,
            Segment::BlockHashes => 35,
        }
    }

    /// The number of bits a value of the segment may have.
    pub fn bit_range(&self) -> (r: usize)
        ensures
            r as nat == self.spec_bit_range(),
    {
        match self {
            Segment::Code => 8,
            Segment::Stack => 256,
            Segment::MainMemory => 8,
            Segment::Calldata => 8,
            Segment::Returndata => 8,
            Segment::Metadata => 256,
            Segment::KernelGeneral => 256,
            Segment::KernelGeneral2 => 256,
            Segment::GlobalMetadata => 256,
            Segment::ContextMetadata => 256,
            Segment::KernelAccountCode => 8,
            Segment::TxnFields => 256,
            Segment::TxnData => 8,
            Segment::RlpRaw => 8,
            Segment::TrieData => 256,
            Segment::ShiftTable => 256,
            Segment::JumpdestBits => 1,
            Segment::EcdsaTable => 256,
            Segment::BnWnafA => 8,
            Segment::BnWnafB => 8,
            Segment::BnTableQ => 256,
            Segment::BnPairing => 256,
            Segment::AccessedAddresses => 256,
            Segment::AccessedStorageKeys => 256,
            Segment::SelfDestructList => 256,
            Segment::TxnBloom => 8,
            Segment::BlockBloom => 256,
            Segment::BloomEntry => 8,
            Segment::Logs => 256,
            Segment::LogsData => 256,
            Segment::Journal => 256,
            Segment::JournalData => 256,
            Segment::JournalCheckpoints => 256,
            Segment::TouchedAddresses => 256,
            Segment::ContextCheckpoints => 256,
            Segment::BlockHashes => 256,
        }
    }

    /// All segments, in the order of their indices.
    pub fn all() -> (r: [Segment; 36])
        ensures
            forall|i: int| 0 <= i < SEGMENT_COUNT ==> (#[trigger] r[i]).spec_index() == i,
            forall|i: int| 0 <= i < SEGMENT_COUNT ==> #[trigger] r[i] == Segment::spec_from_index(i as nat),
    {
        [
            Segment::Code,
            Segment::Stack,
            Segment::MainMemory,
            Segment::Calldata,
            Segment::Returndata,
            Segment::Metadata,
            Segment::KernelGeneral,
            Segment::KernelGeneral2,
            Segment::GlobalMetadata,
            Segment::ContextMetadata,
            Segment::KernelAccountCode,
            Segment::TxnFields,
            Segment::TxnData,
            Segment::RlpRaw,
            Segment::TrieData,
            Segment::ShiftTable,
            Segment::JumpdestBits,
            Segment::EcdsaTable,
            Segment::BnWnafA,
            Segment::BnWnafB,
            Segment::BnTableQ,
            Segment::BnPairing,
            Segment::AccessedAddresses,
            Segment::AccessedStorageKeys,
            Segment::SelfDestructList,
            Segment::TxnBloom,
            Segment::BlockBloom,
            Segment::BloomEntry,
            Segment::Logs,
            Segment::LogsData,
            Segment::Journal,
            Segment::JournalData,
            Segment::JournalCheckpoints,
            Segment::TouchedAddresses,
            Segment::ContextCheckpoints,
            Segment::BlockHashes,
        ]
    }
}

/// The width in bits of the values of the segment with index `i`.
pub open spec fn segment_width(i: nat) -> nat {
    Segment::spec_from_index(i).spec_bit_range()
}

} // verus!
