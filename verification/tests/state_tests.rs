use starknet_server::dispatcher::get_state_update;
use starknet_server::error::ApiError;
use starknet_server::error::BackendError;
use starknet_server::felt::Felt;
use starknet_server::state::build_state_diff;
use starknet_server::state::build_state_update;
use starknet_server::state::ClassHashes;
use starknet_server::state::ContractAddressHex;
use starknet_server::state::ContractNonce;
use starknet_server::state::DeployedContract;
use starknet_server::state::FeltHex;
use starknet_server::state::PatriciaKeyHex;
use starknet_server::state::RawStateUpdate;
use starknet_server::state::StorageDiff;
use starknet_server::state::StorageEntry;

fn f(n: u64) -> Felt {
    let mut bytes = [0u8; 32];
    bytes[24..].copy_from_slice(&n.to_be_bytes());
    Felt::new(bytes)
}

fn empty_report() -> RawStateUpdate {
    RawStateUpdate {
        block_hash: f(0xb10c),
        new_root: f(0x2),
        old_root: f(0x1),
        declared_classes: vec![],
        cairo_0_declared_classes: vec![],
        storage_updates: vec![],
        nonces: vec![],
        deployed_contracts: vec![],
    }
}

#[test]
fn state_update_of_one_deployed_contract() {
    let a = f(0xa);
    let c = f(0xc);
    let k = f(0x4b);
    let v = f(0x56);
    let mut raw = empty_report();
    raw.deployed_contracts = vec![(a, c)];
    raw.storage_updates = vec![(a, vec![(k, v)])];
    raw.nonces = vec![(a, f(1))];

    let update = get_state_update(Ok(raw)).unwrap();
    let diff = update.state_diff;
    assert_eq!(
        diff.deployed_contracts,
        vec![DeployedContract { address: ContractAddressHex(a), class_hash: c }]
    );
    assert_eq!(
        diff.storage_diffs,
        vec![StorageDiff {
            address: ContractAddressHex(a),
            storage_entries: vec![StorageEntry { key: PatriciaKeyHex(k), value: FeltHex(v) }],
        }]
    );
    assert_eq!(
        diff.nonces,
        vec![ContractNonce { contract_address: ContractAddressHex(a), nonce: f(1) }]
    );
    assert!(diff.declared_classes.is_empty());
    assert!(diff.deprecated_declared_classes.is_empty());
    assert!(diff.replaced_classes.is_empty());
    assert_eq!(update.block_hash, FeltHex(f(0xb10c)));
    assert_eq!(update.new_root, FeltHex(f(0x2)));
    assert_eq!(update.old_root, FeltHex(f(0x1)));
}

#[test]
fn state_update_of_missing_block() {
    assert_eq!(get_state_update(Err(BackendError::NoBlock)), Err(ApiError::BlockNotFound));
}

#[test]
fn state_update_wraps_other_failures() {
    let cause = BackendError::Other(String::from("disk"));
    assert_eq!(
        get_state_update(Err(cause.clone())),
        Err(ApiError::StarknetDevnetError(cause))
    );
    assert_eq!(
        get_state_update(Err(BackendError::ContractNotFound)),
        Err(ApiError::StarknetDevnetError(BackendError::ContractNotFound))
    );
}

#[test]
fn diff_keeps_the_order_of_every_category() {
    let mut raw = empty_report();
    raw.deployed_contracts = vec![(f(3), f(30)), (f(1), f(10)), (f(2), f(20))];
    raw.declared_classes = vec![(f(9), f(90)), (f(8), f(80))];
    raw.cairo_0_declared_classes = vec![f(7), f(5), f(6)];
    raw.nonces = vec![(f(2), f(4)), (f(1), f(1))];
    raw.storage_updates = vec![
        (f(2), vec![(f(22), f(220)), (f(21), f(210))]),
        (f(1), vec![(f(11), f(110))]),
    ];
    let diff = build_state_diff(&raw);
    let deployed: Vec<(Felt, Felt)> =
        diff.deployed_contracts.iter().map(|d| (d.address.0, d.class_hash)).collect();
    assert_eq!(deployed, raw.deployed_contracts);
    assert_eq!(
        diff.declared_classes,
        vec![
            ClassHashes { class_hash: f(9), compiled_class_hash: FeltHex(f(90)) },
            ClassHashes { class_hash: f(8), compiled_class_hash: FeltHex(f(80)) },
        ]
    );
    assert_eq!(diff.deprecated_declared_classes, vec![f(7), f(5), f(6)]);
    let nonces: Vec<(Felt, Felt)> =
        diff.nonces.iter().map(|n| (n.contract_address.0, n.nonce)).collect();
    assert_eq!(nonces, raw.nonces);
    assert_eq!(diff.storage_diffs.len(), 2);
    assert_eq!(diff.storage_diffs[0].address, ContractAddressHex(f(2)));
    assert_eq!(
        diff.storage_diffs[0].storage_entries,
        vec![
            StorageEntry { key: PatriciaKeyHex(f(22)), value: FeltHex(f(220)) },
            StorageEntry { key: PatriciaKeyHex(f(21)), value: FeltHex(f(210)) },
        ]
    );
    assert_eq!(diff.storage_diffs[1].address, ContractAddressHex(f(1)));
    assert_eq!(diff.storage_diffs[1].storage_entries.len(), 1);
    assert!(diff.replaced_classes.is_empty());
}

#[test]
fn one_storage_diff_per_changed_contract() {
    let mut raw = empty_report();
    raw.storage_updates = vec![
        (f(1), vec![(f(1), f(1)), (f(2), f(2)), (f(3), f(3))]),
        (f(2), vec![(f(1), f(1))]),
        (f(3), vec![(f(5), f(0))]),
    ];
    let diff = build_state_diff(&raw);
    let mut addresses: Vec<Felt> = diff.storage_diffs.iter().map(|d| d.address.0).collect();
    assert_eq!(addresses, vec![f(1), f(2), f(3)]);
    addresses.dedup();
    assert_eq!(addresses.len(), 3);
    assert_eq!(diff.storage_diffs[0].storage_entries.len(), 3);
}

#[test]
fn empty_report_gives_empty_diff() {
    let update = build_state_update(&empty_report());
    assert!(update.state_diff.deployed_contracts.is_empty());
    assert!(update.state_diff.declared_classes.is_empty());
    assert!(update.state_diff.deprecated_declared_classes.is_empty());
    assert!(update.state_diff.nonces.is_empty());
    assert!(update.state_diff.storage_diffs.is_empty());
    assert!(update.state_diff.replaced_classes.is_empty());
}

#[test]
fn building_twice_gives_the_same_update() {
    let mut raw = empty_report();
    raw.deployed_contracts = vec![(f(3), f(30)), (f(1), f(10))];
    raw.storage_updates = vec![(f(3), vec![(f(1), f(2))])];
    assert_eq!(build_state_update(&raw), build_state_update(&raw));
}
