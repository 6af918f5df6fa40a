//! Identifiers of the global metadata fields, kept in the kernel context's
//! `GlobalMetadata` segment.

use vstd::prelude::*;

verus! {

/// The number of global metadata fields.
pub const GLOBAL_METADATA_COUNT: usize = 45;

/// The global metadata fields: global VM state stored in the
/// `GlobalMetadata` segment of the kernel context (context zero).
#[derive(Clone, Copy, Debug, PartialEq, Eq, Hash, Structural)]
pub enum GlobalMetadata {
    /// The largest context ID that has been used so far in this execution. Tracking this allows us
    /// give each new context a unique ID, so that its memory will be zero-initialized.
    LargestContext,
    /// The size of active memory, in bytes.
    MemorySize,
    /// The size of the `TrieData` segment, in bytes. In other words, the next address available for
    /// appending additional trie data.
    TrieDataSize,
    /// The size of the `TrieData` segment, in bytes. In other words, the next address available for
    /// appending additional trie data.
    RlpDataSize,
    /// A pointer to the root of the state trie within the `TrieData` buffer.
    StateTrieRoot,
    /// A pointer to the root of the receipt trie within the `TrieData` buffer.
    ReceiptTrieRoot,
    /// The root digests of each Merkle trie before these transactions.
    StateTrieRootDigestBefore,
    ReceiptTrieRootDigestBefore,
    /// The root digests of each Merkle trie after these transactions.
    StateTrieRootDigestAfter,
    ReceiptTrieRootDigestAfter,
    /// The sizes of the `TrieEncodedChild` and `TrieEncodedChildLen` buffers. In other words, the
    /// next available offset in these buffers.
    TrieEncodedChildSize,
    /// Block metadata.
    BlockBeneficiary,
    BlockTimestamp,
    BlockNumber,
    BlockDifficulty,
    BlockRandom,
    BlockGasLimit,
    BlockChainId,
    BlockBaseFee,
    BlockGasUsed,
    /// Before current transactions block values.
    BlockGasUsedBefore,
    /// After current transactions block values.
    BlockGasUsedAfter,
    /// Current block header hash
    BlockCurrentHash,
    /// Gas to refund at the end of the transaction.
    RefundCounter,
    /// Length of the addresses access list.
    AccessedAddressesLen,
    /// Length of the storage keys access list.
    AccessedStorageKeysLen,
    /// Length of the self-destruct list.
    SelfDestructListLen,
    /// Length of the bloom entry buffer.
    BloomEntryLen,
    /// Length of the journal.
    JournalLen,
    /// Length of the `JournalData` segment.
    JournalDataLen,
    /// Current checkpoint.
    CurrentCheckpoint,
    TouchedAddressesLen,
    /// Gas cost for the access list in type-1 txns. See EIP-2930.
    AccessListDataCost,
    /// Start of the access list in the RLP for type-1 txns.
    AccessListRlpStart,
    /// Length of the access list in the RLP for type-1 txns.
    AccessListRlpLen,
    /// Boolean flag indicating if the txn is a contract creation txn.
    ContractCreation,
    IsPrecompileFromEoa,
    CallStackDepth,
    /// Transaction logs list length
    LogsLen,
    LogsDataLen,
    LogsPayloadLen,
    TxnNumberBefore,
    TxnNumberAfter,
    KernelHash,
    KernelLen,
}

impl GlobalMetadata {
    /// The offset of the field in the `GlobalMetadata` segment.
    pub open spec fn spec_index(self) -> nat {
        match self {
            GlobalMetadata::LargestContext => 0,
            GlobalMetadata::MemorySize => 1,
            GlobalMetadata::TrieDataSize => 2,
            GlobalMetadata::RlpDataSize => 3,
            GlobalMetadata::StateTrieRoot => 4,
            GlobalMetadata::ReceiptTrieRoot => 5,
            GlobalMetadata::StateTrieRootDigestBefore => 6,
            GlobalMetadata::ReceiptTrieRootDigestBefore => 7,
            GlobalMetadata::StateTrieRootDigestAfter => 8,
            GlobalMetadata::ReceiptTrieRootDigestAfter => 9,
            GlobalMetadata::TrieEncodedChildSize => 10,
            GlobalMetadata::BlockBeneficiary => 11,
            GlobalMetadata::BlockTimestamp => 12,
            GlobalMetadata::BlockNumber => 13,
            GlobalMetadata::BlockDifficulty => 14,
            GlobalMetadata::BlockRandom => 15,
            GlobalMetadata::BlockGasLimit => 16,
            GlobalMetadata::BlockChainId => 17,
            GlobalMetadata::BlockBaseFee => 18,
            GlobalMetadata::BlockGasUsed => 19,
            GlobalMetadata::BlockGasUsedBefore => 20,
            GlobalMetadata::BlockGasUsedAfter => 21,
            GlobalMetadata::BlockCurrentHash => 22,
            GlobalMetadata::RefundCounter => 23,
            GlobalMetadata::AccessedAddressesLen => 24,
            GlobalMetadata::AccessedStorageKeysLen => 25,
            GlobalMetadata::SelfDestructListLen => 26,
            GlobalMetadata::BloomEntryLen => 27,
            GlobalMetadata::JournalLen => 28,
            GlobalMetadata::JournalDataLen => 29,
            GlobalMetadata::CurrentCheckpoint => 30,
            GlobalMetadata::TouchedAddressesLen => 31,
            GlobalMetadata::AccessListDataCost => 32,
            GlobalMetadata::AccessListRlpStart => 33,
            GlobalMetadata::AccessListRlpLen => 34,
            GlobalMetadata::ContractCreation => 35,
            GlobalMetadata::IsPrecompileFromEoa => 36,
            GlobalMetadata::CallStackDepth => 37,
            GlobalMetadata::LogsLen => 38,
            GlobalMetadata::LogsDataLen => 39,
            GlobalMetadata::LogsPayloadLen => 40,
            GlobalMetadata::TxnNumberBefore => 41,
            GlobalMetadata::TxnNumberAfter => 42,
            GlobalMetadata::KernelHash => 43,
            GlobalMetadata::KernelLen => 44,
        }
    }

    /// The position of the field in the list returned by `all`.
    pub open spec fn spec_position(self) -> int {
        match self {
            GlobalMetadata::LargestContext => 0,
            GlobalMetadata::MemorySize => 1,
            GlobalMetadata::TrieDataSize => 2,
            GlobalMetadata::RlpDataSize => 3,
            GlobalMetadata::StateTrieRoot => 4,
            GlobalMetadata::ReceiptTrieRoot => 5,
            GlobalMetadata::StateTrieRootDigestBefore => 6,
            GlobalMetadata::ReceiptTrieRootDigestBefore => 7,
            GlobalMetadata::StateTrieRootDigestAfter => 8,
            GlobalMetadata::ReceiptTrieRootDigestAfter => 9,
            GlobalMetadata::TrieEncodedChildSize => 10,
            GlobalMetadata::BlockBeneficiary => 11,
            GlobalMetadata::BlockTimestamp => 12,
            GlobalMetadata::BlockNumber => 13,
            GlobalMetadata::BlockDifficulty => 14,
            GlobalMetadata::BlockRandom => 15,
            GlobalMetadata::BlockGasLimit => 16,
            GlobalMetadata::BlockChainId => 17,
            GlobalMetadata::BlockBaseFee => 18,
            GlobalMetadata::BlockGasUsed => 19,
            GlobalMetadata::BlockGasUsedBefore => 20,
            GlobalMetadata::BlockGasUsedAfter => 21,
            GlobalMetadata::RefundCounter => 22,
            GlobalMetadata::AccessedAddressesLen => 23,
            GlobalMetadata::AccessedStorageKeysLen => 24,
            GlobalMetadata::SelfDestructListLen => 25,
            GlobalMetadata::BloomEntryLen => 26,
            GlobalMetadata::JournalLen => 27,
            GlobalMetadata::JournalDataLen => 28,
            GlobalMetadata::CurrentCheckpoint => 29,
            GlobalMetadata::TouchedAddressesLen => 30,
            GlobalMetadata::AccessListDataCost => 31,
            GlobalMetadata::AccessListRlpStart => 32,
            GlobalMetadata::AccessListRlpLen => 33,
            GlobalMetadata::ContractCreation => 34,
            GlobalMetadata::IsPrecompileFromEoa => 35,
            GlobalMetadata::CallStackDepth => 36,
            GlobalMetadata::LogsLen => 37,
            GlobalMetadata::LogsDataLen => 38,
            GlobalMetadata::LogsPayloadLen => 39,
            GlobalMetadata::BlockCurrentHash => 40,
            GlobalMetadata::TxnNumberBefore => 41,
            GlobalMetadata::TxnNumberAfter => 42,
            GlobalMetadata::KernelHash => 43,
            GlobalMetadata::KernelLen => 44,
        }
    }

    /// The name under which the field is handed to the kernel assembly code.
    pub open spec fn spec_var_name(self) -> &'static str {
        match self {
            GlobalMetadata::LargestContext => "GLOBAL_METADATA_LARGEST_CONTEXT",
            GlobalMetadata::MemorySize => "GLOBAL_METADATA_MEMORY_SIZE",
            GlobalMetadata::TrieDataSize => "GLOBAL_METADATA_TRIE_DATA_SIZE",
            GlobalMetadata::RlpDataSize => "GLOBAL_METADATA_RLP_DATA_SIZE",
            GlobalMetadata::StateTrieRoot => "GLOBAL_METADATA_STATE_TRIE_ROOT",
            GlobalMetadata::ReceiptTrieRoot => "GLOBAL_METADATA_RECEIPT_TRIE_ROOT",
            GlobalMetadata::StateTrieRootDigestBefore => "GLOBAL_METADATA_STATE_TRIE_DIGEST_BEFORE",
            GlobalMetadata::ReceiptTrieRootDigestBefore => "GLOBAL_METADATA_RECEIPT_TRIE_DIGEST_BEFORE",
            GlobalMetadata::StateTrieRootDigestAfter => "GLOBAL_METADATA_STATE_TRIE_DIGEST_AFTER",
            GlobalMetadata::ReceiptTrieRootDigestAfter => "GLOBAL_METADATA_RECEIPT_TRIE_DIGEST_AFTER",
            GlobalMetadata::TrieEncodedChildSize => "GLOBAL_METADATA_TRIE_ENCODED_CHILD_SIZE",
            GlobalMetadata::BlockBeneficiary => "GLOBAL_METADATA_BLOCK_BENEFICIARY",
            GlobalMetadata::BlockTimestamp => "GLOBAL_METADATA_BLOCK_TIMESTAMP",
            GlobalMetadata::BlockNumber => "GLOBAL_METADATA_BLOCK_NUMBER",
            GlobalMetadata::BlockDifficulty => "GLOBAL_METADATA_BLOCK_DIFFICULTY",
            GlobalMetadata::BlockRandom => "GLOBAL_METADATA_BLOCK_RANDOM",
            GlobalMetadata::BlockGasLimit => "GLOBAL_METADATA_BLOCK_GAS_LIMIT",
            GlobalMetadata::BlockChainId => "GLOBAL_METADATA_BLOCK_CHAIN_ID",
            GlobalMetadata::BlockBaseFee => "GLOBAL_METADATA_BLOCK_BASE_FEE",
            GlobalMetadata::BlockGasUsed => "GLOBAL_METADATA_BLOCK_GAS_USED",
            GlobalMetadata::BlockGasUsedBefore => "GLOBAL_METADATA_BLOCK_GAS_USED_BEFORE",
            GlobalMetadata::BlockGasUsedAfter => "GLOBAL_METADATA_BLOCK_GAS_USED_AFTER",
            GlobalMetadata::BlockCurrentHash => "GLOBAL_METADATA_BLOCK_CURRENT_HASH",
            GlobalMetadata::RefundCounter => "GLOBAL_METADATA_REFUND_COUNTER",
            GlobalMetadata::AccessedAddressesLen => "GLOBAL_METADATA_ACCESSED_ADDRESSES_LEN",
            GlobalMetadata::AccessedStorageKeysLen => "GLOBAL_METADATA_ACCESSED_STORAGE_KEYS_LEN",
            GlobalMetadata::SelfDestructListLen => "GLOBAL_METADATA_SELFDESTRUCT_LIST_LEN",
            GlobalMetadata::BloomEntryLen => "GLOBAL_METADATA_BLOOM_ENTRY_LEN",
            GlobalMetadata::JournalLen => "GLOBAL_METADATA_JOURNAL_LEN",
            GlobalMetadata::JournalDataLen => "GLOBAL_METADATA_JOURNAL_DATA_LEN",
            GlobalMetadata::CurrentCheckpoint => "GLOBAL_METADATA_CURRENT_CHECKPOINT",
            GlobalMetadata::TouchedAddressesLen => "GLOBAL_METADATA_TOUCHED_ADDRESSES_LEN",
            GlobalMetadata::AccessListDataCost => "GLOBAL_METADATA_ACCESS_LIST_DATA_COST",
            GlobalMetadata::AccessListRlpStart => "GLOBAL_METADATA_ACCESS_LIST_RLP_START",
            GlobalMetadata::AccessListRlpLen => "GLOBAL_METADATA_ACCESS_LIST_RLP_LEN",
            GlobalMetadata::ContractCreation => "GLOBAL_METADATA_CONTRACT_CREATION",
            GlobalMetadata::IsPrecompileFromEoa => "GLOBAL_METADATA_IS_PRECOMPILE_FROM_EOA",
            GlobalMetadata::CallStackDepth => "GLOBAL_METADATA_CALL_STACK_DEPTH",
            GlobalMetadata::LogsLen => "GLOBAL_METADATA_LOGS_LEN",
            GlobalMetadata::LogsDataLen => "GLOBAL_METADATA_LOGS_DATA_LEN",
            GlobalMetadata::LogsPayloadLen => "GLOBAL_METADATA_LOGS_PAYLOAD_LEN",
            GlobalMetadata::TxnNumberBefore => "GLOBAL_METADATA_TXN_NUMBER_BEFORE",
            GlobalMetadata::TxnNumberAfter => "GLOBAL_METADATA_TXN_NUMBER_AFTER",
            GlobalMetadata::KernelHash => "GLOBAL_METADATA_KERNEL_HASH",
            GlobalMetadata::KernelLen => "GLOBAL_METADATA_KERNEL_LEN",
        }
    }

    /// The offset of the field in the `GlobalMetadata` segment.
    pub fn index(&self) -> (r: usize)
        ensures
            r as nat == self.spec_index(),
            r < GLOBAL_METADATA_COUNT,
    {
        match self {
            GlobalMetadata::LargestContext => 0,
            GlobalMetadata::MemorySize => 1,
            GlobalMetadata::TrieDataSize => 2,
            GlobalMetadata::RlpDataSize => 3,
            GlobalMetadata::StateTrieRoot => 4,
            GlobalMetadata::ReceiptTrieRoot => 5,
            GlobalMetadata::StateTrieRootDigestBefore => 6,
            GlobalMetadata::ReceiptTrieRootDigestBefore => 7,
            GlobalMetadata::StateTrieRootDigestAfter => 8,
            GlobalMetadata::ReceiptTrieRootDigestAfter => 9,
            GlobalMetadata::TrieEncodedChildSize => 10,
            GlobalMetadata::BlockBeneficiary => 11,
            GlobalMetadata::BlockTimestamp => 12,
            GlobalMetadata::BlockNumber => 13,
            GlobalMetadata::BlockDifficulty => 14,
            GlobalMetadata::BlockRandom => 15,
            GlobalMetadata::BlockGasLimit => 16,
            GlobalMetadata::BlockChainId => 17,
            GlobalMetadata::BlockBaseFee => 18,
            GlobalMetadata::BlockGasUsed => 19,
            GlobalMetadata::BlockGasUsedBefore => 20,
            GlobalMetadata::BlockGasUsedAfter => 21,
            GlobalMetadata::BlockCurrentHash => 22,
            GlobalMetadata::RefundCounter => 23,
            GlobalMetadata::AccessedAddressesLen => 24,
            GlobalMetadata::AccessedStorageKeysLen => 25,
            GlobalMetadata::SelfDestructListLen => 26,
            GlobalMetadata::BloomEntryLen => 27,
            GlobalMetadata::JournalLen => 28,
            GlobalMetadata::JournalDataLen => 29,
            GlobalMetadata::CurrentCheckpoint => 30,
            GlobalMetadata::TouchedAddressesLen => 31,
            GlobalMetadata::AccessListDataCost => 32,
            GlobalMetadata::AccessListRlpStart => 33,
            GlobalMetadata::AccessListRlpLen => 34,
            GlobalMetadata::ContractCreation => 35,
            GlobalMetadata::IsPrecompileFromEoa => 36,
            GlobalMetadata::CallStackDepth => 37,
            GlobalMetadata::LogsLen => 38,
            GlobalMetadata::LogsDataLen => 39,
            GlobalMetadata::LogsPayloadLen => 40,
            GlobalMetadata::TxnNumberBefore => 41,
            GlobalMetadata::TxnNumberAfter => 42,
            GlobalMetadata::KernelHash => 43,
            GlobalMetadata::KernelLen => 44,
        }
    }

    /// Every field exactly once.
    pub fn all() -> (r: [GlobalMetadata; 45])
        ensures
            forall|m: GlobalMetadata| #[trigger] r[m.spec_position()] == m,
            forall|i: int| 0 <= i < GLOBAL_METADATA_COUNT ==> (#[trigger] r[i]).spec_position() == i,
    {
        [
            GlobalMetadata::LargestContext,
            GlobalMetadata::MemorySize,
            GlobalMetadata::TrieDataSize,
            GlobalMetadata::RlpDataSize,
            GlobalMetadata::StateTrieRoot,
            GlobalMetadata::ReceiptTrieRoot,
            GlobalMetadata::StateTrieRootDigestBefore,
            GlobalMetadata::ReceiptTrieRootDigestBefore,
            GlobalMetadata::StateTrieRootDigestAfter,
            GlobalMetadata::ReceiptTrieRootDigestAfter,
            GlobalMetadata::TrieEncodedChildSize,
            GlobalMetadata::BlockBeneficiary,
            GlobalMetadata::BlockTimestamp,
            GlobalMetadata::BlockNumber,
            GlobalMetadata::BlockDifficulty,
            GlobalMetadata::BlockRandom,
            GlobalMetadata::BlockGasLimit,
            GlobalMetadata::BlockChainId,
            GlobalMetadata::BlockBaseFee,
            GlobalMetadata::BlockGasUsed,
            GlobalMetadata::BlockGasUsedBefore,
            GlobalMetadata::BlockGasUsedAfter,
            GlobalMetadata::RefundCounter,
            GlobalMetadata::AccessedAddressesLen,
            GlobalMetadata::AccessedStorageKeysLen,
            GlobalMetadata::SelfDestructListLen,
            GlobalMetadata::BloomEntryLen,
            GlobalMetadata::JournalLen,
            GlobalMetadata::JournalDataLen,
            GlobalMetadata::CurrentCheckpoint,
            GlobalMetadata::TouchedAddressesLen,
            GlobalMetadata::AccessListDataCost,
            GlobalMetadata::AccessListRlpStart,
            GlobalMetadata::AccessListRlpLen,
            GlobalMetadata::ContractCreation,
            GlobalMetadata::IsPrecompileFromEoa,
            GlobalMetadata::CallStackDepth,
            GlobalMetadata::LogsLen,
            GlobalMetadata::LogsDataLen,
            GlobalMetadata::LogsPayloadLen,
            GlobalMetadata::BlockCurrentHash,
            GlobalMetadata::TxnNumberBefore,
            GlobalMetadata::TxnNumberAfter,
            GlobalMetadata::KernelHash,
            GlobalMetadata::KernelLen,
        ]
    }

    /// The variable name that is passed into the kernel assembly code.
    pub fn var_name(&self) -> (r: &'static str)
        ensures
            r@ == self.spec_var_name()@,
    {
        match self {
            GlobalMetadata::LargestContext => "GLOBAL_METADATA_LARGEST_CONTEXT",
            GlobalMetadata::MemorySize => "GLOBAL_METADATA_MEMORY_SIZE",
            GlobalMetadata::TrieDataSize => "GLOBAL_METADATA_TRIE_DATA_SIZE",
            GlobalMetadata::RlpDataSize => "GLOBAL_METADATA_RLP_DATA_SIZE",
            GlobalMetadata::StateTrieRoot => "GLOBAL_METADATA_STATE_TRIE_ROOT",
            GlobalMetadata::ReceiptTrieRoot => "GLOBAL_METADATA_RECEIPT_TRIE_ROOT",
            GlobalMetadata::StateTrieRootDigestBefore => "GLOBAL_METADATA_STATE_TRIE_DIGEST_BEFORE",
            GlobalMetadata::ReceiptTrieRootDigestBefore => "GLOBAL_METADATA_RECEIPT_TRIE_DIGEST_BEFORE",
            GlobalMetadata::StateTrieRootDigestAfter => "GLOBAL_METADATA_STATE_TRIE_DIGEST_AFTER",
            GlobalMetadata::ReceiptTrieRootDigestAfter => "GLOBAL_METADATA_RECEIPT_TRIE_DIGEST_AFTER",
            GlobalMetadata::TrieEncodedChildSize => "GLOBAL_METADATA_TRIE_ENCODED_CHILD_SIZE",
            GlobalMetadata::BlockBeneficiary => "GLOBAL_METADATA_BLOCK_BENEFICIARY",
            GlobalMetadata::BlockTimestamp => "GLOBAL_METADATA_BLOCK_TIMESTAMP",
            GlobalMetadata::BlockNumber => "GLOBAL_METADATA_BLOCK_NUMBER",
            GlobalMetadata::BlockDifficulty => "GLOBAL_METADATA_BLOCK_DIFFICULTY",
            GlobalMetadata::BlockRandom => "GLOBAL_METADATA_BLOCK_RANDOM",
            GlobalMetadata::BlockGasLimit => "GLOBAL_METADATA_BLOCK_GAS_LIMIT",
            GlobalMetadata::BlockChainId => "GLOBAL_METADATA_BLOCK_CHAIN_ID",
            GlobalMetadata::BlockBaseFee => "GLOBAL_METADATA_BLOCK_BASE_FEE",
            GlobalMetadata::BlockGasUsed => "GLOBAL_METADATA_BLOCK_GAS_USED",
            GlobalMetadata::BlockGasUsedBefore => "GLOBAL_METADATA_BLOCK_GAS_USED_BEFORE",
            GlobalMetadata::BlockGasUsedAfter => "GLOBAL_METADATA_BLOCK_GAS_USED_AFTER",
            GlobalMetadata::BlockCurrentHash => "GLOBAL_METADATA_BLOCK_CURRENT_HASH",
            GlobalMetadata::RefundCounter => "GLOBAL_METADATA_REFUND_COUNTER",
            GlobalMetadata::AccessedAddressesLen => "GLOBAL_METADATA_ACCESSED_ADDRESSES_LEN",
            GlobalMetadata::AccessedStorageKeysLen => "GLOBAL_METADATA_ACCESSED_STORAGE_KEYS_LEN",
            GlobalMetadata::SelfDestructListLen => "GLOBAL_METADATA_SELFDESTRUCT_LIST_LEN",
            GlobalMetadata::BloomEntryLen => "GLOBAL_METADATA_BLOOM_ENTRY_LEN",
            GlobalMetadata::JournalLen => "GLOBAL_METADATA_JOURNAL_LEN",
            GlobalMetadata::JournalDataLen => "GLOBAL_METADATA_JOURNAL_DATA_LEN",
            GlobalMetadata::CurrentCheckpoint => "GLOBAL_METADATA_CURRENT_CHECKPOINT",
            GlobalMetadata::TouchedAddressesLen => "GLOBAL_METADATA_TOUCHED_ADDRESSES_LEN",
            GlobalMetadata::AccessListDataCost => "GLOBAL_METADATA_ACCESS_LIST_DATA_COST",
            GlobalMetadata::AccessListRlpStart => "GLOBAL_METADATA_ACCESS_LIST_RLP_START",
            GlobalMetadata::AccessListRlpLen => "GLOBAL_METADATA_ACCESS_LIST_RLP_LEN",
            GlobalMetadata::ContractCreation => "GLOBAL_METADATA_CONTRACT_CREATION",
            GlobalMetadata::IsPrecompileFromEoa => "GLOBAL_METADATA_IS_PRECOMPILE_FROM_EOA",
            GlobalMetadata::CallStackDepth => "GLOBAL_METADATA_CALL_STACK_DEPTH",
            GlobalMetadata::LogsLen => "GLOBAL_METADATA_LOGS_LEN",
            GlobalMetadata::LogsDataLen => "GLOBAL_METADATA_LOGS_DATA_LEN",
            GlobalMetadata::LogsPayloadLen => "GLOBAL_METADATA_LOGS_PAYLOAD_LEN",
            GlobalMetadata::TxnNumberBefore => "GLOBAL_METADATA_TXN_NUMBER_BEFORE",
            GlobalMetadata::TxnNumberAfter => "GLOBAL_METADATA_TXN_NUMBER_AFTER",
            GlobalMetadata::KernelHash => "GLOBAL_METADATA_KERNEL_HASH",
            GlobalMetadata::KernelLen => "GLOBAL_METADATA_KERNEL_LEN",
        }
    }
}

} // verus!
