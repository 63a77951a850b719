use starknet_server::block_id::BlockId;
use starknet_server::dispatcher::block_hash_and_number;
use starknet_server::dispatcher::block_number;
use starknet_server::dispatcher::call;
use starknet_server::dispatcher::chain_id;
use starknet_server::dispatcher::estimate_fee;
use starknet_server::dispatcher::get_block_txs_count;
use starknet_server::dispatcher::get_block_with_full_txs;
use starknet_server::dispatcher::get_block_with_tx_hashes;
use starknet_server::dispatcher::get_class;
use starknet_server::dispatcher::get_class_at;
use starknet_server::dispatcher::get_class_hash_at;
use starknet_server::dispatcher::get_events;
use starknet_server::dispatcher::get_nonce;
use starknet_server::dispatcher::get_storage_at;
use starknet_server::dispatcher::get_transaction_by_block_id_and_index;
use starknet_server::dispatcher::get_transaction_by_hash;
use starknet_server::dispatcher::get_transaction_receipt_by_hash;
use starknet_server::dispatcher::pending_transactions;
use starknet_server::dispatcher::syncing;
use starknet_server::dispatcher::wrap_call_result;
use starknet_server::dispatcher::Access;
use starknet_server::dispatcher::Capability;
use starknet_server::dispatcher::Method;
use starknet_server::error::translate;
use starknet_server::error::ApiError;
use starknet_server::error::BackendError;
use starknet_server::error::QueryPath;
use starknet_server::error::StateError;
use starknet_server::error::TransactionError;
use starknet_server::felt::Felt;
use starknet_server::models::BroadcastedTransactionWithType;
use starknet_server::models::ClassLookup;
use starknet_server::models::ContractClass;
use starknet_server::models::EventFilter;
use starknet_server::models::SyncingOutput;
use starknet_server::state::ContractAddressHex;
use starknet_server::state::FeltHex;
use starknet_server::state::PatriciaKeyHex;

fn g(n: u64) -> Felt {
    let mut bytes = [0u8; 32];
    bytes[24..].copy_from_slice(&n.to_be_bytes());
    Felt::new(bytes)
}

fn no_state(address: u64) -> BackendError {
    BackendError::TransactionError(TransactionError::State(StateError::NoneContractState(g(
        address,
    ))))
}

const ALL_METHODS: [Method; 20] = [
    Method::GetBlockWithTxHashes,
    Method::GetBlockWithTxs,
    Method::GetStateUpdate,
    Method::GetStorageAt,
    Method::GetTransactionByHash,
    Method::GetTransactionByBlockIdAndIndex,
    Method::GetTransactionReceipt,
    Method::GetClass,
    Method::GetClassAt,
    Method::GetClassHashAt,
    Method::GetBlockTransactionCount,
    Method::Call,
    Method::EstimateFee,
    Method::BlockNumber,
    Method::BlockHashAndNumber,
    Method::ChainId,
    Method::PendingTransactions,
    Method::Syncing,
    Method::GetEvents,
    Method::GetNonce,
];

#[test]
fn call_by_hash_or_number_is_refused() {
    let ok = || Ok(vec![g(1), g(2)]);
    assert_eq!(call(BlockId::ByHash(g(0)), ok()), Err(ApiError::OnlyLatestBlock));
    assert_eq!(call(BlockId::ByHash(g(77)), ok()), Err(ApiError::OnlyLatestBlock));
    assert_eq!(call(BlockId::ByNumber(0), ok()), Err(ApiError::OnlyLatestBlock));
    assert_eq!(call(BlockId::ByNumber(u64::MAX), ok()), Err(ApiError::OnlyLatestBlock));
    assert_eq!(call(BlockId::ByNumber(3), Err(no_state(1))), Err(ApiError::OnlyLatestBlock));
    assert_eq!(
        call(BlockId::ByHash(g(3)), Err(BackendError::NoBlock)),
        Err(ApiError::OnlyLatestBlock)
    );
}

#[test]
fn call_reports_unsupported_block_ids_of_the_ledger() {
    assert_eq!(
        call(BlockId::Latest, Err(BackendError::BlockIdHashUnimplementedError)),
        Err(ApiError::OnlyLatestBlock)
    );
    assert_eq!(
        call(BlockId::Pending, Err(BackendError::BlockIdNumberUnimplementedError)),
        Err(ApiError::OnlyLatestBlock)
    );
}

#[test]
fn call_of_missing_contract() {
    assert_eq!(call(BlockId::Latest, Err(no_state(5))), Err(ApiError::ContractNotFound));
    assert_eq!(call(BlockId::Pending, Err(no_state(0))), Err(ApiError::ContractNotFound));
}

#[test]
fn call_that_fails_otherwise_is_a_contract_error() {
    let failures = vec![
        BackendError::NoBlock,
        BackendError::ContractNotFound,
        BackendError::ClassNotFound,
        BackendError::Other(String::from("x")),
        BackendError::StateError(StateError::NoneContractState(g(1))),
        BackendError::StateError(StateError::Other(String::from("x"))),
        BackendError::TransactionError(TransactionError::Other(String::from("x"))),
        BackendError::TransactionError(TransactionError::State(StateError::Other(String::from(
            "x",
        )))),
    ];
    for failure in failures {
        assert_eq!(call(BlockId::Latest, Err(failure)), Err(ApiError::ContractError));
    }
}

#[test]
fn call_wraps_the_result_in_order() {
    assert_eq!(
        call(BlockId::Latest, Ok(vec![g(3), g(1), g(2)])),
        Ok(vec![FeltHex(g(3)), FeltHex(g(1)), FeltHex(g(2))])
    );
    assert_eq!(call(BlockId::Pending, Ok(vec![])), Ok(vec![]));
    assert_eq!(wrap_call_result(&vec![g(9)]), vec![FeltHex(g(9))]);
}

#[test]
fn stubs_fail_with_their_fixed_error() {
    assert_eq!(get_block_with_tx_hashes(BlockId::Latest), Err(ApiError::BlockNotFound));
    assert_eq!(get_block_with_full_txs(BlockId::ByNumber(0)), Err(ApiError::BlockNotFound));
    assert_eq!(
        get_storage_at(ContractAddressHex(g(1)), PatriciaKeyHex(g(2)), BlockId::Latest),
        Err(ApiError::ContractNotFound)
    );
    assert_eq!(get_transaction_by_hash(g(1)), Err(ApiError::TransactionNotFound));
    assert_eq!(
        get_transaction_by_block_id_and_index(BlockId::Latest, 0),
        Err(ApiError::InvalidTransactionIndexInBlock)
    );
    assert_eq!(get_transaction_receipt_by_hash(g(1)), Err(ApiError::TransactionNotFound));
    assert_eq!(
        estimate_fee(
            BlockId::Latest,
            vec![BroadcastedTransactionWithType { sender_address: g(1), calldata: vec![g(2)] }]
        ),
        Err(ApiError::ContractError)
    );
    assert_eq!(block_hash_and_number(), Err(ApiError::NoBlocks));
    assert_eq!(
        get_events(EventFilter {
            from_block: Some(BlockId::ByNumber(0)),
            to_block: Some(BlockId::Latest),
            address: None,
            chunk_size: 10,
        }),
        Err(ApiError::InvalidContinuationToken)
    );
    assert_eq!(get_nonce(BlockId::Latest, ContractAddressHex(g(1))), Err(ApiError::BlockNotFound));
}

#[test]
fn syncing_and_pending_transactions_succeed() {
    assert_eq!(syncing(), Ok(SyncingOutput::False(false)));
    assert_eq!(pending_transactions(), Ok(vec![]));
}

#[test]
fn chain_id_is_rendered_and_stable() {
    let mut bytes = [0u8; 32];
    bytes[23..].copy_from_slice(b"SN_GOERLI");
    let id = Felt::new(bytes);
    assert_eq!(chain_id(id), Ok(String::from("0x534e5f474f45524c49")));
    assert_eq!(chain_id(id), chain_id(id));
}

#[test]
fn block_number_is_passed_on() {
    assert_eq!(block_number(0), Ok(0));
    assert_eq!(block_number(41), Ok(41));
}

#[test]
fn block_txs_count() {
    assert_eq!(get_block_txs_count(Ok(3)), Ok(3));
    assert_eq!(get_block_txs_count(Err(BackendError::NoBlock)), Err(ApiError::NoBlocks));
    assert_eq!(
        get_block_txs_count(Err(BackendError::Other(String::from("x")))),
        Err(ApiError::NoBlocks)
    );
}

#[test]
fn class_lookups() {
    let class = ContractClass::Sierra(vec![1, 2, 3]);
    assert_eq!(get_class(ClassLookup::Found(class.clone())), Ok(class.clone()));
    assert_eq!(get_class_at(ClassLookup::Found(class.clone())), Ok(class));
    let legacy = ContractClass::Cairo0(vec![4]);
    assert_eq!(get_class(ClassLookup::Found(legacy.clone())), Ok(legacy));
    assert_eq!(
        get_class(ClassLookup::Unconvertible(String::from("abi"))),
        Err(ApiError::TypesError(String::from("abi")))
    );
    assert_eq!(
        get_class_at(ClassLookup::Unconvertible(String::from("abi"))),
        Err(ApiError::TypesError(String::from("abi")))
    );
    assert_eq!(
        get_class(ClassLookup::Failed(BackendError::ClassNotFound)),
        Err(ApiError::ClassHashNotFound)
    );
    assert_eq!(
        get_class_at(ClassLookup::Failed(BackendError::ContractNotFound)),
        Err(ApiError::ContractNotFound)
    );
    assert_eq!(get_class(ClassLookup::Failed(BackendError::NoBlock)), Err(ApiError::BlockNotFound));
    assert_eq!(
        get_class_at(ClassLookup::Failed(BackendError::BlockIdHashUnimplementedError)),
        Err(ApiError::StarknetDevnetError(BackendError::BlockIdHashUnimplementedError))
    );
}

#[test]
fn class_hash_lookups() {
    assert_eq!(get_class_hash_at(Ok(g(12))), Ok(g(12)));
    assert_eq!(get_class_hash_at(Err(BackendError::ContractNotFound)), Err(ApiError::ContractNotFound));
    assert_eq!(get_class_hash_at(Err(BackendError::NoBlock)), Err(ApiError::BlockNotFound));
    let cause = BackendError::StateError(StateError::Other(String::from("trie")));
    assert_eq!(get_class_hash_at(Err(cause.clone())), Err(ApiError::StarknetDevnetError(cause)));
}

#[test]
fn translation_table() {
    assert_eq!(translate(QueryPath::StateUpdate, BackendError::NoBlock), ApiError::BlockNotFound);
    assert_eq!(
        translate(QueryPath::BlockTransactionCount, BackendError::NoBlock),
        ApiError::NoBlocks
    );
    assert_eq!(translate(QueryPath::Call, no_state(1)), ApiError::ContractNotFound);
    assert_eq!(translate(QueryPath::Call, BackendError::NoBlock), ApiError::ContractError);
    assert_eq!(
        translate(QueryPath::ClassByHash, no_state(1)),
        ApiError::StarknetDevnetError(no_state(1))
    );
    assert_eq!(
        translate(QueryPath::ClassByAddress, BackendError::ClassNotFound),
        ApiError::ClassHashNotFound
    );
}

#[test]
fn block_id_forms() {
    assert!(!BlockId::Latest.names_historical_block());
    assert!(!BlockId::Pending.names_historical_block());
    assert!(BlockId::ByHash(g(1)).names_historical_block());
    assert!(BlockId::ByNumber(1).names_historical_block());
}

#[test]
fn capabilities() {
    let mut backed = 0;
    let mut empty = 0;
    let mut unsupported = 0;
    for method in ALL_METHODS {
        match method.capability() {
            Capability::Backed(_) => backed += 1,
            Capability::ConfirmedEmpty => empty += 1,
            Capability::Unsupported(_) => unsupported += 1,
        }
    }
    assert_eq!((backed, empty, unsupported), (8, 2, 10));
    assert_eq!(Method::GetClass.capability(), Capability::Backed(Access::Exclusive));
    assert_eq!(Method::GetClassAt.capability(), Capability::Backed(Access::Exclusive));
    assert_eq!(Method::GetClassHashAt.capability(), Capability::Backed(Access::Exclusive));
    assert_eq!(Method::Call.capability(), Capability::Backed(Access::Shared));
    assert_eq!(Method::GetStateUpdate.capability(), Capability::Backed(Access::Shared));
    assert_eq!(
        Method::GetEvents.capability(),
        Capability::Unsupported(ApiError::InvalidContinuationToken)
    );
    assert_eq!(Method::GetNonce.capability(), Capability::Unsupported(ApiError::BlockNotFound));
    assert_eq!(Method::Syncing.capability(), Capability::ConfirmedEmpty);
}

#[test]
fn wire_names() {
    assert_eq!(Method::GetBlockTransactionCount.name(), "starknet_getBlockTransactionCount");
    assert_eq!(Method::GetTransactionReceipt.name(), "starknet_getTransactionReceipt");
    assert_eq!(Method::Call.name(), "starknet_call");
    let mut names: Vec<&str> = ALL_METHODS.iter().map(|m| m.name()).collect();
    assert!(names.iter().all(|n| n.starts_with("starknet_")));
    names.sort();
    names.dedup();
    assert_eq!(names.len(), 20);
}
