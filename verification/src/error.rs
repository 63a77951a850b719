//! Internal failures of the ledger and the execution engine, the public
//! error vocabulary, and the table that maps the one onto the other.

use crate::felt::Felt;
use vstd::prelude::*;

verus! {

/// A failure of the state that a call ran against.
#[derive(Clone, Debug, PartialEq, Eq)]
pub enum StateError {
    /// The contract at this address has no state.
    NoneContractState(Felt),
    /// Any other failure, with its description.
    Other(String),
}

/// A failure of the execution engine.
#[derive(Clone, Debug, PartialEq, Eq)]
pub enum TransactionError {
    /// The state failed underneath the execution.
    State(StateError),
    /// Any other failure, with its description.
    Other(String),
}

/// Everything that the ledger or the execution engine can report on a query
/// path.
#[derive(Clone, Debug, PartialEq, Eq)]
pub enum BackendError {
    /// The block identifier resolves to no block.
    NoBlock,
    /// No contract is deployed at the address.
    ContractNotFound,
    /// No class is declared under the hash.
    ClassNotFound,
    /// Blocks cannot be looked up by hash on this path.
    BlockIdHashUnimplementedError,
    /// Blocks cannot be looked up by number on this path.
    BlockIdNumberUnimplementedError,
    /// The execution engine failed.
    TransactionError(TransactionError),
    /// The state failed outside an execution.
    StateError(StateError),
    /// Any other failure, with its description.
    Other(String),
}

/// The closed set of errors that a query can answer with.
#[derive(Clone, Debug, PartialEq, Eq)]
pub enum ApiError {
    BlockNotFound,
    ContractNotFound,
    TransactionNotFound,
    InvalidTransactionIndexInBlock,
    ClassHashNotFound,
    ContractError,
    NoBlocks,
    InvalidContinuationToken,
    /// A stored class could not be brought into its wire form.
    TypesError(String),
    OnlyLatestBlock,
    /// An unclassified internal failure, kept for diagnostics.
    StarknetDevnetError(BackendError),
}

/// The query on whose path a failure occurred.
#[derive(Clone, Copy, Debug, PartialEq, Eq)]
pub enum QueryPath {
    /// The state update of a block.
    StateUpdate,
    /// A class looked up by its hash.
    ClassByHash,
    /// A class, or its hash, looked up by a contract address.
    ClassByAddress,
    /// The number of transactions of a block.
    BlockTransactionCount,
    /// A contract call.
    Call,
}

impl BackendError {
    /// The execution found no state for the contract it was to call.
    pub open spec fn is_missing_contract_state(self) -> bool {
        self matches BackendError::TransactionError(TransactionError::State(s))
            && s is NoneContractState
    }

    /// The block identifier has a form that the queried path does not support.
    pub open spec fn is_unsupported_block_id(self) -> bool {
        self is BlockIdHashUnimplementedError || self is BlockIdNumberUnimplementedError
    }
}

/// The public error for an internal failure on a query path.
///
/// * A missing block is `BlockNotFound`, and `NoBlocks` where a count was asked.
/// * On a class lookup, a missing contract is `ContractNotFound` and a missing
///   class `ClassHashNotFound`.
/// * On a call, a contract without state is `ContractNotFound`, an unsupported
///   form of block identifier `OnlyLatestBlock`, anything else `ContractError`.
/// * Every other failure is wrapped unchanged in `StarknetDevnetError`.
pub open spec fn public_error(path: QueryPath, err: BackendError) -> ApiError {
    match path {
        QueryPath::BlockTransactionCount => ApiError::NoBlocks,
        QueryPath::Call => {
            if err.is_missing_contract_state() {
                ApiError::ContractNotFound
            } else if err.is_unsupported_block_id() {
                ApiError::OnlyLatestBlock
            } else {
                ApiError::ContractError
            }
        },
        QueryPath::StateUpdate => {
            if err is NoBlock {
                ApiError::BlockNotFound
            } else {
                ApiError::StarknetDevnetError(err)
            }
        },
        QueryPath::ClassByHash | QueryPath::ClassByAddress => {
            if err is NoBlock {
                ApiError::BlockNotFound
            } else if err is ContractNotFound {
                ApiError::ContractNotFound
            } else if err is ClassNotFound {
                ApiError::ClassHashNotFound
            } else {
                ApiError::StarknetDevnetError(err)
            }
        },
    }
}

/// Wraps a failure that no row of the table classifies, unchanged.
fn unclassified(err: BackendError) -> (r: ApiError)
    ensures
        r == ApiError::StarknetDevnetError(err),
{
    ApiError::StarknetDevnetError(err)
}

/// The public error for an internal failure on a query path. Every kind of
/// failure is named on every path, so that a new kind cannot pass unnoticed.
pub fn translate(path: QueryPath, err: BackendError) -> (r: ApiError)
    ensures
        r == public_error(path, err),
{
    match path {
        QueryPath::BlockTransactionCount => match err {
            BackendError::NoBlock
            | BackendError::ContractNotFound
            | BackendError::ClassNotFound
            | BackendError::BlockIdHashUnimplementedError
            | BackendError::BlockIdNumberUnimplementedError
            | BackendError::TransactionError(_)
            | BackendError::StateError(_)
            | BackendError::Other(_) => ApiError::NoBlocks,
        },
        QueryPath::Call => match err {
            BackendError::TransactionError(
                TransactionError::State(StateError::NoneContractState(_)),
            ) => ApiError::ContractNotFound,
            BackendError::BlockIdHashUnimplementedError
            | BackendError::BlockIdNumberUnimplementedError => ApiError::OnlyLatestBlock,
            BackendError::TransactionError(TransactionError::State(StateError::Other(_)))
            | BackendError::TransactionError(TransactionError::Other(_))
            | BackendError::NoBlock
            | BackendError::ContractNotFound
            | BackendError::ClassNotFound
            | BackendError::StateError(_)
            | BackendError::Other(_) => ApiError::ContractError,
        },
        QueryPath::StateUpdate => match err {
            BackendError::NoBlock => ApiError::BlockNotFound,
            BackendError::ContractNotFound => unclassified(BackendError::ContractNotFound),
            BackendError::ClassNotFound => unclassified(BackendError::ClassNotFound),
            BackendError::BlockIdHashUnimplementedError => unclassified(
                BackendError::BlockIdHashUnimplementedError,
            ),
            BackendError::BlockIdNumberUnimplementedError => unclassified(
                BackendError::BlockIdNumberUnimplementedError,
            ),
            BackendError::TransactionError(cause) => unclassified(
                BackendError::TransactionError(cause),
            ),
            BackendError::StateError(cause) => unclassified(BackendError::StateError(cause)),
            BackendError::Other(cause) => unclassified(BackendError::Other(cause)),
        },
        QueryPath::ClassByHash | QueryPath::ClassByAddress => match err {
            BackendError::NoBlock => ApiError::BlockNotFound,
            BackendError::ContractNotFound => ApiError::ContractNotFound,
            BackendError::ClassNotFound => ApiError::ClassHashNotFound,
            BackendError::BlockIdHashUnimplementedError => unclassified(
                BackendError::BlockIdHashUnimplementedError,
            ),
            BackendError::BlockIdNumberUnimplementedError => unclassified(
                BackendError::BlockIdNumberUnimplementedError,
            ),
            BackendError::TransactionError(cause) => unclassified(
                BackendError::TransactionError(cause),
            ),
            BackendError::StateError(cause) => unclassified(BackendError::StateError(cause)),
            BackendError::Other(cause) => unclassified(BackendError::Other(cause)),
        },
    }
}

/// Translation never drops a cause: an internal failure is either classified
/// as one of the fixed public errors or carried unchanged inside
/// `StarknetDevnetError`, and a wire-form failure is never made up.
pub proof fn lemma_translation_total(path: QueryPath, err: BackendError)
    ensures
        public_error(path, err) matches ApiError::StarknetDevnetError(cause) ==> cause == err,
        !(public_error(path, err) is TypesError),
        path is Call ==> !(public_error(path, err) is StarknetDevnetError),
        path is BlockTransactionCount ==> public_error(path, err) == ApiError::NoBlocks,
{
}

/// A missing block is reported as `BlockNotFound` on every path that reads a
/// block's state or classes.
pub proof fn lemma_missing_block(path: QueryPath)
    ensures
        (path is StateUpdate || path is ClassByHash || path is ClassByAddress) ==> public_error(
            path,
            BackendError::NoBlock,
        ) == ApiError::BlockNotFound,
{
}

/// On a call, a contract without state is told apart from every other
/// failure of the execution: the first is `ContractNotFound`, and nothing
/// else is.
pub proof fn lemma_call_missing_contract_distinct(err: BackendError)
    ensures
        public_error(QueryPath::Call, err) == ApiError::ContractNotFound
            <==> err.is_missing_contract_state(),
        public_error(QueryPath::Call, err) == ApiError::OnlyLatestBlock
            <==> err.is_unsupported_block_id(),
        public_error(QueryPath::Call, err) == ApiError::ContractError <==> !(
        err.is_missing_contract_state() || err.is_unsupported_block_id()),
{
}

} // verus!
