use starknet_server::felt::Felt;
use starknet_server::state::build_state_update;
use starknet_server::state::ContractNonce;
use starknet_server::state::ContractAddressHex;
use starknet_server::state::RawStateUpdate;
use starknet_server::state::ReplacedClasses;
use starknet_server::wire::render_entries;
use starknet_server::wire::render_felts;
use starknet_server::wire::render_state_diff;
use starknet_server::wire::render_state_update;
use starknet_server::wire::KeyedEntry;
use starknet_server::wire::WireStorageDiff;

fn h(n: u64) -> Felt {
    let mut bytes = [0u8; 32];
    bytes[24..].copy_from_slice(&n.to_be_bytes());
    Felt::new(bytes)
}

fn pair(a: &str, b: &str) -> (String, String) {
    (String::from(a), String::from(b))
}

fn report() -> RawStateUpdate {
    RawStateUpdate {
        block_hash: h(0xb10c),
        new_root: h(0x20),
        old_root: h(0),
        declared_classes: vec![(h(0xd1), h(0xd2))],
        cairo_0_declared_classes: vec![h(0xe), h(0x0f)],
        storage_updates: vec![
            (h(0xa), vec![(h(0x4b), h(0x56)), (h(1), h(0))]),
            (h(0xb), vec![(h(2), h(0x100))]),
        ],
        nonces: vec![(h(0xa), h(1))],
        deployed_contracts: vec![(h(0xa), h(0xc))],
    }
}

#[test]
fn state_update_on_the_wire() {
    let wire = render_state_update(&build_state_update(&report()));
    assert_eq!(wire.block_hash, "0xb10c");
    assert_eq!(wire.new_root, "0x20");
    assert_eq!(wire.old_root, "0x0");
    assert_eq!(wire.state_diff.deployed_contracts, vec![pair("0xa", "0xc")]);
    assert_eq!(wire.state_diff.declared_classes, vec![pair("0xd1", "0xd2")]);
    assert_eq!(wire.state_diff.deprecated_declared_classes, vec!["0xe", "0xf"]);
    assert_eq!(wire.state_diff.nonces, vec![pair("0xa", "0x1")]);
    assert_eq!(
        wire.state_diff.storage_diffs,
        vec![
            WireStorageDiff {
                address: String::from("0xa"),
                storage_entries: vec![pair("0x4b", "0x56"), pair("0x1", "0x0")],
            },
            WireStorageDiff {
                address: String::from("0xb"),
                storage_entries: vec![pair("0x2", "0x100")],
            },
        ]
    );
    assert!(wire.state_diff.replaced_classes.is_empty());
}

#[test]
fn rendering_twice_is_identical() {
    let update = build_state_update(&report());
    assert_eq!(render_state_update(&update), render_state_update(&update));
    assert_eq!(render_state_diff(&update.state_diff), render_state_diff(&update.state_diff));
}

#[test]
fn entries_render_key_then_change() {
    let nonce = ContractNonce { contract_address: ContractAddressHex(h(0x10)), nonce: h(7) };
    assert_eq!(nonce.key_felt(), h(0x10));
    assert_eq!(nonce.change_felt(), h(7));
    assert_eq!(render_entries(&vec![nonce]), vec![pair("0x10", "0x7")]);
    let replaced =
        ReplacedClasses { contract_address: ContractAddressHex(h(0x11)), class_hash: h(0xabc) };
    assert_eq!(render_entries(&vec![replaced]), vec![pair("0x11", "0xabc")]);
    assert_eq!(render_entries::<ContractNonce>(&vec![]), vec![]);
}

#[test]
fn felts_render_in_order() {
    assert_eq!(render_felts(&vec![h(3), h(0), h(0x30)]), vec!["0x3", "0x0", "0x30"]);
    assert!(render_felts(&vec![]).is_empty());
}

#[test]
fn distinct_addresses_render_distinctly() {
    let wire = render_state_diff(&build_state_update(&report()).state_diff);
    let mut addresses: Vec<String> =
        wire.storage_diffs.iter().map(|d| d.address.clone()).collect();
    addresses.sort();
    addresses.dedup();
    assert_eq!(addresses.len(), wire.storage_diffs.len());
}
