//! The catalogue of read-only query operations.
//!
//! The ledger and the execution engine live outside this library. A backed
//! operation takes what they answered and shapes the reply; an operation
//! that is not backed answers with its fixed value or its fixed error,
//! whatever it is asked.

use crate::block_id::BlockId;
use crate::error::public_error;
use crate::error::translate;
use crate::error::ApiError;
use crate::error::BackendError;
use crate::error::QueryPath;
use crate::felt::prefixed_hex;
use crate::felt::Felt;
use crate::models::Block;
use crate::models::BlockHashAndNumberOutput;
use crate::models::BroadcastedTransactionWithType;
use crate::models::ClassLookup;
use crate::models::ContractClass;
use crate::models::EstimateFeeOutput;
use crate::models::EventFilter;
use crate::models::EventsChunk;
use crate::models::SyncingOutput;
use crate::models::Transaction;
use crate::models::TransactionReceipt;
use crate::models::TransactionWithType;
use crate::state::build_state_update;
use crate::state::felt_hex_values;
use crate::state::felt_values;
use crate::state::state_update_of;
use crate::state::ContractAddressHex;
use crate::state::FeltHex;
use crate::state::PatriciaKeyHex;
use crate::state::RawStateUpdate;
use crate::state::StateUpdate;
use vstd::prelude::*;

verus! {

/// How an operation holds the ledger while it runs.
#[derive(Clone, Copy, Debug, PartialEq, Eq)]
pub enum Access {
    /// Together with other readers.
    Shared,
    /// Alone: the operation may fill the cache of compiled classes.
    Exclusive,
}

/// The query operations, one per method of the wire protocol.
#[derive(Clone, Copy, Debug, PartialEq, Eq)]
pub enum Method {
    GetBlockWithTxHashes,
    GetBlockWithTxs,
    GetStateUpdate,
    GetStorageAt,
    GetTransactionByHash,
    GetTransactionByBlockIdAndIndex,
    GetTransactionReceipt,
    GetClass,
    GetClassAt,
    GetClassHashAt,
    GetBlockTransactionCount,
    Call,
    EstimateFee,
    BlockNumber,
    BlockHashAndNumber,
    ChainId,
    PendingTransactions,
    Syncing,
    GetEvents,
    GetNonce,
}

/// What an operation can do.
#[derive(Clone, Debug, PartialEq, Eq)]
pub enum Capability {
    /// It answers from the ledger, which it holds in the given way.
    Backed(Access),
    /// It always succeeds with one fixed value that is known to be right.
    ConfirmedEmpty,
    /// It is not supported and always fails with this error.
    Unsupported(ApiError),
}

/// The capability of every operation.
pub open spec fn capability_of(method: Method) -> Capability {
    match method {
        Method::GetBlockWithTxHashes => Capability::Unsupported(ApiError::BlockNotFound),
        Method::GetBlockWithTxs => Capability::Unsupported(ApiError::BlockNotFound),
        Method::GetStateUpdate => Capability::Backed(Access::Shared),
        Method::GetStorageAt => Capability::Unsupported(ApiError::ContractNotFound),
        Method::GetTransactionByHash => Capability::Unsupported(ApiError::TransactionNotFound),
        Method::GetTransactionByBlockIdAndIndex => Capability::Unsupported(
            ApiError::InvalidTransactionIndexInBlock,
        ),
        Method::GetTransactionReceipt => Capability::Unsupported(ApiError::TransactionNotFound),
        Method::GetClass => Capability::Backed(Access::Exclusive),
        Method::GetClassAt => Capability::Backed(Access::Exclusive),
        Method::GetClassHashAt => Capability::Backed(Access::Exclusive),
        Method::GetBlockTransactionCount => Capability::Backed(Access::Shared),
        Method::Call => Capability::Backed(Access::Shared),
        Method::EstimateFee => Capability::Unsupported(ApiError::ContractError),
        Method::BlockNumber => Capability::Backed(Access::Shared),
        Method::BlockHashAndNumber => Capability::Unsupported(ApiError::NoBlocks),
        Method::ChainId => Capability::Backed(Access::Shared),
        Method::PendingTransactions => Capability::ConfirmedEmpty,
        Method::Syncing => Capability::ConfirmedEmpty,
        Method::GetEvents => Capability::Unsupported(ApiError::InvalidContinuationToken),
        Method::GetNonce => Capability::Unsupported(ApiError::BlockNotFound),
    }
}

/// The fixed error of an operation that is not supported.
pub open spec fn fixed_error(method: Method) -> ApiError
    recommends
        capability_of(method) is Unsupported,
{
    capability_of(method)->Unsupported_0
}

/// The name of every operation on the wire.
pub open spec fn wire_name(method: Method) -> Seq<char> {
    match method {
        Method::GetBlockWithTxHashes => "starknet_getBlockWithTxHashes"@,
        Method::GetBlockWithTxs => "starknet_getBlockWithTxs"@,
        Method::GetStateUpdate => "starknet_getStateUpdate"@,
        Method::GetStorageAt => "starknet_getStorageAt"@,
        Method::GetTransactionByHash => "starknet_getTransactionByHash"@,
        Method::GetTransactionByBlockIdAndIndex => "starknet_getTransactionByBlockIdAndIndex"@,
        Method::GetTransactionReceipt => "starknet_getTransactionReceipt"@,
        Method::GetClass => "starknet_getClass"@,
        Method::GetClassAt => "starknet_getClassAt"@,
        Method::GetClassHashAt => "starknet_getClassHashAt"@,
        Method::GetBlockTransactionCount => "starknet_getBlockTransactionCount"@,
        Method::Call => "starknet_call"@,
        Method::EstimateFee => "starknet_estimateFee"@,
        Method::BlockNumber => "starknet_blockNumber"@,
        Method::BlockHashAndNumber => "starknet_blockHashAndNumber"@,
        Method::ChainId => "starknet_chainId"@,
        Method::PendingTransactions => "starknet_pendingTransactions"@,
        Method::Syncing => "starknet_syncing"@,
        Method::GetEvents => "starknet_getEvents"@,
        Method::GetNonce => "starknet_getNonce"@,
    }
}

impl Method {
    /// What the operation can do: whether it is backed by the ledger, and
    /// then how it holds it, or which fixed answer it gives.
    pub fn capability(&self) -> (r: Capability)
        ensures
            r == capability_of(*self),
    {
        match self {
            Method::GetStateUpdate
            | Method::GetBlockTransactionCount
            | Method::Call
            | Method::BlockNumber
            | Method::ChainId => Capability::Backed(Access::Shared),
            Method::GetClass | Method::GetClassAt | Method::GetClassHashAt => Capability::Backed(
                Access::Exclusive,
            ),
            Method::PendingTransactions | Method::Syncing => Capability::ConfirmedEmpty,
            Method::GetBlockWithTxHashes | Method::GetBlockWithTxs | Method::GetNonce => {
                Capability::Unsupported(ApiError::BlockNotFound)
            },
            Method::GetStorageAt => Capability::Unsupported(ApiError::ContractNotFound),
            Method::GetTransactionByHash | Method::GetTransactionReceipt => {
                Capability::Unsupported(ApiError::TransactionNotFound)
            },
            Method::GetTransactionByBlockIdAndIndex => Capability::Unsupported(
                ApiError::InvalidTransactionIndexInBlock,
            ),
            Method::EstimateFee => Capability::Unsupported(ApiError::ContractError),
            Method::BlockHashAndNumber => Capability::Unsupported(ApiError::NoBlocks),
            Method::GetEvents => Capability::Unsupported(ApiError::InvalidContinuationToken),
        }
    }

    /// The name of the operation on the wire.
    pub fn name(&self) -> (r: &'static str)
        ensures
            r@ == wire_name(*self),
    {
        match self {
            Method::GetBlockWithTxHashes => "starknet_getBlockWithTxHashes",
            Method::GetBlockWithTxs => "starknet_getBlockWithTxs",
            Method::GetStateUpdate => "starknet_getStateUpdate",
            Method::GetStorageAt => "starknet_getStorageAt",
            Method::GetTransactionByHash => "starknet_getTransactionByHash",
            Method::GetTransactionByBlockIdAndIndex => "starknet_getTransactionByBlockIdAndIndex",
            Method::GetTransactionReceipt => "starknet_getTransactionReceipt",
            Method::GetClass => "starknet_getClass",
            Method::GetClassAt => "starknet_getClassAt",
            Method::GetClassHashAt => "starknet_getClassHashAt",
            Method::GetBlockTransactionCount => "starknet_getBlockTransactionCount",
            Method::Call => "starknet_call",
            Method::EstimateFee => "starknet_estimateFee",
            Method::BlockNumber => "starknet_blockNumber",
            Method::BlockHashAndNumber => "starknet_blockHashAndNumber",
            Method::ChainId => "starknet_chainId",
            Method::PendingTransactions => "starknet_pendingTransactions",
            Method::Syncing => "starknet_syncing",
            Method::GetEvents => "starknet_getEvents",
            Method::GetNonce => "starknet_getNonce",
        }
    }
}

/// `starknet_getBlockWithTxHashes`: not supported.
pub fn get_block_with_tx_hashes(_block_id: BlockId) -> (r: Result<Block, ApiError>)
    ensures
        r == Err::<Block, ApiError>(fixed_error(Method::GetBlockWithTxHashes)),
        r == Err::<Block, ApiError>(ApiError::BlockNotFound),
{
    Err(ApiError::BlockNotFound)
}

/// `starknet_getBlockWithTxs`: not supported.
pub fn get_block_with_full_txs(_block_id: BlockId) -> (r: Result<Block, ApiError>)
    ensures
        r == Err::<Block, ApiError>(fixed_error(Method::GetBlockWithTxs)),
        r == Err::<Block, ApiError>(ApiError::BlockNotFound),
{
    Err(ApiError::BlockNotFound)
}

/// `starknet_getStateUpdate`: the state update of the block that the ledger
/// reported on, or `BlockNotFound` where it found no such block.
pub fn get_state_update(lookup: Result<RawStateUpdate, BackendError>) -> (r: Result<
    StateUpdate,
    ApiError,
>)
    ensures
        match lookup {
            Ok(raw) => r is Ok && r->Ok_0@ == state_update_of(raw@) && (raw@.wf()
                ==> r->Ok_0@.state_diff.wf()),
            Err(err) => r == Err::<StateUpdate, ApiError>(
                public_error(QueryPath::StateUpdate, err),
            ),
        },
        lookup == Err::<RawStateUpdate, BackendError>(BackendError::NoBlock) ==> r == Err::<
            StateUpdate,
            ApiError,
        >(ApiError::BlockNotFound),
{
    match lookup {
        Ok(raw) => Ok(build_state_update(&raw)),
        Err(err) => Err(translate(QueryPath::StateUpdate, err)),
    }
}

/// `starknet_getStorageAt`: not supported.
pub fn get_storage_at(
    _contract_address: ContractAddressHex,
    _key: PatriciaKeyHex,
    _block_id: BlockId,
) -> (r: Result<PatriciaKeyHex, ApiError>)
    ensures
        r == Err::<PatriciaKeyHex, ApiError>(fixed_error(Method::GetStorageAt)),
        r == Err::<PatriciaKeyHex, ApiError>(ApiError::ContractNotFound),
{
    Err(ApiError::ContractNotFound)
}

/// `starknet_getTransactionByHash`: not supported.
pub fn get_transaction_by_hash(_transaction_hash: Felt) -> (r: Result<
    TransactionWithType,
    ApiError,
>)
    ensures
        r == Err::<TransactionWithType, ApiError>(fixed_error(Method::GetTransactionByHash)),
        r == Err::<TransactionWithType, ApiError>(ApiError::TransactionNotFound),
{
    Err(ApiError::TransactionNotFound)
}

/// `starknet_getTransactionByBlockIdAndIndex`: not supported.
pub fn get_transaction_by_block_id_and_index(_block_id: BlockId, _index: u64) -> (r: Result<
    TransactionWithType,
    ApiError,
>)
    ensures
        r == Err::<TransactionWithType, ApiError>(
            fixed_error(Method::GetTransactionByBlockIdAndIndex),
        ),
        r == Err::<TransactionWithType, ApiError>(ApiError::InvalidTransactionIndexInBlock),
{
    Err(ApiError::InvalidTransactionIndexInBlock)
}

/// `starknet_getTransactionReceipt`: not supported.
pub fn get_transaction_receipt_by_hash(_transaction_hash: Felt) -> (r: Result<
    TransactionReceipt,
    ApiError,
>)
    ensures
        r == Err::<TransactionReceipt, ApiError>(fixed_error(Method::GetTransactionReceipt)),
        r == Err::<TransactionReceipt, ApiError>(ApiError::TransactionNotFound),
{
    Err(ApiError::TransactionNotFound)
}

/// The reply to the lookup of a class on the given path.
pub open spec fn class_reply(path: QueryPath, lookup: ClassLookup) -> Result<
    ContractClass,
    ApiError,
> {
    match lookup {
        ClassLookup::Found(class) => Ok(class),
        ClassLookup::Unconvertible(reason) => Err(ApiError::TypesError(reason)),
        ClassLookup::Failed(err) => Err(public_error(path, err)),
    }
}

/// `starknet_getClass`: the class that the ledger found under a class hash.
pub fn get_class(lookup: ClassLookup) -> (r: Result<ContractClass, ApiError>)
    ensures
        r == class_reply(QueryPath::ClassByHash, lookup),
{
    match lookup {
        ClassLookup::Found(class) => Ok(class),
        ClassLookup::Unconvertible(reason) => Err(ApiError::TypesError(reason)),
        ClassLookup::Failed(err) => Err(translate(QueryPath::ClassByHash, err)),
    }
}

/// `starknet_getClassAt`: the class that the ledger found at a contract
/// address.
pub fn get_class_at(lookup: ClassLookup) -> (r: Result<ContractClass, ApiError>)
    ensures
        r == class_reply(QueryPath::ClassByAddress, lookup),
{
    match lookup {
        ClassLookup::Found(class) => Ok(class),
        ClassLookup::Unconvertible(reason) => Err(ApiError::TypesError(reason)),
        ClassLookup::Failed(err) => Err(translate(QueryPath::ClassByAddress, err)),
    }
}

/// `starknet_getClassHashAt`: the hash of the class that the ledger found at
/// a contract address.
pub fn get_class_hash_at(lookup: Result<Felt, BackendError>) -> (r: Result<Felt, ApiError>)
    ensures
        match lookup {
            Ok(class_hash) => r == Ok::<Felt, ApiError>(class_hash),
            Err(err) => r == Err::<Felt, ApiError>(public_error(QueryPath::ClassByAddress, err)),
        },
{
    match lookup {
        Ok(class_hash) => Ok(class_hash),
        Err(err) => Err(translate(QueryPath::ClassByAddress, err)),
    }
}

/// `starknet_getBlockTransactionCount`: the count that the ledger gave, or
/// `NoBlocks` whatever went wrong.
pub fn get_block_txs_count(lookup: Result<u64, BackendError>) -> (r: Result<u64, ApiError>)
    ensures
        match lookup {
            Ok(count) => r == Ok::<u64, ApiError>(count),
            Err(_) => r == Err::<u64, ApiError>(ApiError::NoBlocks),
        },
{
    match lookup {
        Ok(count) => Ok(count),
        Err(err) => Err(translate(QueryPath::BlockTransactionCount, err)),
    }
}

/// The field elements of a call's result in their wire position, in order.
pub fn wrap_call_result(result: &Vec<Felt>) -> (out: Vec<FeltHex>)
    ensures
        felt_hex_values(out@) == felt_values(result@),
{
    let mut out: Vec<FeltHex> = Vec::new();
    let mut i: usize = 0;
    while i < result.len()
        invariant
            0 <= i <= result.len(),
            out@.len() == i,
            forall|j: int| 0 <= j < i ==> out@[j]@ == result@[j]@,
        decreases result.len() - i,
    {
        out.push(FeltHex(result[i]));
        i = i + 1;
    }
    assert(felt_hex_values(out@) =~= felt_values(result@));
    out
}

/// The reply to a call at a block, given what the execution answered.
pub open spec fn call_reply(block_id: BlockId, outcome: Result<Vec<Felt>, BackendError>) -> Result<
    Seq<nat>,
    ApiError,
> {
    if block_id.is_historical() {
        Err(ApiError::OnlyLatestBlock)
    } else {
        match outcome {
            Ok(result) => Ok(felt_values(result@)),
            Err(err) => Err(public_error(QueryPath::Call, err)),
        }
    }
}

/// `starknet_call`: the result of a contract call. Calls run against the
/// head of the chain only: a block named by hash or by number is refused
/// with `OnlyLatestBlock`, whether or not such a block exists and whatever
/// the execution answered.
pub fn call(block_id: BlockId, outcome: Result<Vec<Felt>, BackendError>) -> (r: Result<
    Vec<FeltHex>,
    ApiError,
>)
    ensures
        match call_reply(block_id, outcome) {
            Ok(values) => r is Ok && felt_hex_values(r->Ok_0@) == values,
            Err(err) => r == Err::<Vec<FeltHex>, ApiError>(err),
        },
        block_id.is_historical() ==> r == Err::<Vec<FeltHex>, ApiError>(ApiError::OnlyLatestBlock),
{
    if block_id.names_historical_block() {
        return Err(ApiError::OnlyLatestBlock);
    }
    match outcome {
        Ok(result) => Ok(wrap_call_result(&result)),
        Err(err) => Err(translate(QueryPath::Call, err)),
    }
}

/// `starknet_estimateFee`: not supported.
pub fn estimate_fee(_block_id: BlockId, _request: Vec<BroadcastedTransactionWithType>) -> (r:
    Result<Vec<EstimateFeeOutput>, ApiError>)
    ensures
        r == Err::<Vec<EstimateFeeOutput>, ApiError>(fixed_error(Method::EstimateFee)),
        r == Err::<Vec<EstimateFeeOutput>, ApiError>(ApiError::ContractError),
{
    Err(ApiError::ContractError)
}

/// `starknet_blockNumber`: the height that the ledger gave.
pub fn block_number(height: u64) -> (r: Result<u64, ApiError>)
    ensures
        r == Ok::<u64, ApiError>(height),
{
    Ok(height)
}

/// `starknet_blockHashAndNumber`: not supported.
pub fn block_hash_and_number() -> (r: Result<BlockHashAndNumberOutput, ApiError>)
    ensures
        r == Err::<BlockHashAndNumberOutput, ApiError>(fixed_error(Method::BlockHashAndNumber)),
        r == Err::<BlockHashAndNumberOutput, ApiError>(ApiError::NoBlocks),
{
    Err(ApiError::NoBlocks)
}

/// `starknet_chainId`: the configured chain identifier in canonical wire form.
pub fn chain_id(configured: Felt) -> (r: Result<String, ApiError>)
    ensures
        r is Ok,
        r->Ok_0@ == prefixed_hex(configured@),
{
    Ok(configured.to_prefixed_hex_str())
}

/// `starknet_pendingTransactions`: there are none.
pub fn pending_transactions() -> (r: Result<Vec<Transaction>, ApiError>)
    ensures
        r is Ok,
        r->Ok_0@.len() == 0,
{
    Ok(Vec::new())
}

/// `starknet_syncing`: a node without peers is never syncing.
pub fn syncing() -> (r: Result<SyncingOutput, ApiError>)
    ensures
        r == Ok::<SyncingOutput, ApiError>(SyncingOutput::False(false)),
{
    Ok(SyncingOutput::False(false))
}

/// `starknet_getEvents`: not supported.
pub fn get_events(_filter: EventFilter) -> (r: Result<EventsChunk, ApiError>)
    ensures
        r == Err::<EventsChunk, ApiError>(fixed_error(Method::GetEvents)),
        r == Err::<EventsChunk, ApiError>(ApiError::InvalidContinuationToken),
{
    Err(ApiError::InvalidContinuationToken)
}

/// `starknet_getNonce`: not supported.
pub fn get_nonce(_block_id: BlockId, _contract_address: ContractAddressHex) -> (r: Result<
    FeltHex,
    ApiError,
>)
    ensures
        r == Err::<FeltHex, ApiError>(fixed_error(Method::GetNonce)),
        r == Err::<FeltHex, ApiError>(ApiError::BlockNotFound),
{
    Err(ApiError::BlockNotFound)
}

} // verus!
