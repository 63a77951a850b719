//! Payloads of the query operations.

use crate::block_id::BlockId;
use crate::error::BackendError;
use crate::felt::Felt;
use vstd::prelude::*;

verus! {

/// A contract class in one of its two representations, each held as the
/// bytes of its definition.
#[derive(Clone, Debug, PartialEq, Eq)]
pub enum ContractClass {
    /// The legacy representation.
    Cairo0(Vec<u8>),
    /// The Sierra representation.
    Sierra(Vec<u8>),
}

/// A block with the hashes of its transactions.
#[derive(Clone, Debug, PartialEq, Eq)]
pub struct Block {
    pub block_hash: Felt,
    pub parent_hash: Felt,
    pub block_number: u64,
    pub new_root: Felt,
    pub timestamp: u64,
    pub transactions: Vec<Felt>,
}

/// A transaction as the ledger lists it.
#[derive(Clone, Debug, PartialEq, Eq)]
pub struct Transaction {
    pub transaction_hash: Felt,
}

/// A transaction together with its kind.
#[derive(Clone, Debug, PartialEq, Eq)]
pub struct TransactionWithType {
    pub transaction: Transaction,
}

/// A transaction as a client hands it in.
#[derive(Clone, Debug, PartialEq, Eq)]
pub struct BroadcastedTransactionWithType {
    pub sender_address: Felt,
    pub calldata: Vec<Felt>,
}

/// The receipt of an accepted transaction.
#[derive(Clone, Debug, PartialEq, Eq)]
pub struct TransactionReceipt {
    pub transaction_hash: Felt,
    pub block_hash: Felt,
    pub block_number: u64,
}

/// The estimated cost of a transaction.
#[derive(Clone, Copy, Debug, PartialEq, Eq)]
pub struct EstimateFeeOutput {
    pub gas_consumed: u64,
    pub gas_price: u64,
    pub overall_fee: u64,
}

/// The head of the chain.
#[derive(Clone, Copy, Debug, PartialEq, Eq)]
pub struct BlockHashAndNumberOutput {
    pub block_hash: Felt,
    pub block_number: u64,
}

/// Whether the node is catching up with a network. A node without peers
/// never is, so the only answer is `False(false)`.
#[derive(Clone, Copy, Debug, PartialEq, Eq)]
pub enum SyncingOutput {
    False(bool),
}

/// Which events a client asks for.
#[derive(Clone, Debug, PartialEq, Eq)]
pub struct EventFilter {
    pub from_block: Option<BlockId>,
    pub to_block: Option<BlockId>,
    pub address: Option<Felt>,
    pub chunk_size: u64,
}

/// One page of events.
#[derive(Clone, Debug, PartialEq, Eq)]
pub struct EventsChunk {
    pub events: Vec<Felt>,
}

/// What the ledger answered to the lookup of a class.
#[derive(Clone, Debug, PartialEq, Eq)]
pub enum ClassLookup {
    /// The class, in its wire form.
    Found(ContractClass),
    /// The class is stored but has no wire form; the reason is attached.
    Unconvertible(String),
    /// The ledger failed.
    Failed(BackendError),
}

} // verus!
