use starknet_server::felt::hex_char;
use starknet_server::felt::Felt;
use starknet_server::state::ContractAddressHex;
use starknet_server::state::FeltHex;
use starknet_server::state::PatriciaKeyHex;

fn felt(n: u64) -> Felt {
    let mut bytes = [0u8; 32];
    bytes[24..].copy_from_slice(&n.to_be_bytes());
    Felt::new(bytes)
}

#[test]
fn zero_is_a_single_digit() {
    assert_eq!(felt(0).to_prefixed_hex_str(), "0x0");
}

#[test]
fn small_values_have_no_leading_zeros() {
    assert_eq!(felt(1).to_prefixed_hex_str(), "0x1");
    assert_eq!(felt(15).to_prefixed_hex_str(), "0xf");
    assert_eq!(felt(16).to_prefixed_hex_str(), "0x10");
    assert_eq!(felt(255).to_prefixed_hex_str(), "0xff");
    assert_eq!(felt(256).to_prefixed_hex_str(), "0x100");
    assert_eq!(felt(0xabc).to_prefixed_hex_str(), "0xabc");
}

#[test]
fn inner_zeros_are_kept() {
    assert_eq!(felt(0x1000_0000_0000_0001).to_prefixed_hex_str(), "0x1000000000000001");
    assert_eq!(felt(0x0a00_b000).to_prefixed_hex_str(), "0xa00b000");
}

#[test]
fn digits_are_lowercase() {
    assert_eq!(felt(0xdead_beef_cafe).to_prefixed_hex_str(), "0xdeadbeefcafe");
    let all: String = (0u8..16).map(hex_char).collect();
    assert_eq!(all, "0123456789abcdef");
}

#[test]
fn full_width_value_has_sixty_four_digits() {
    let s = Felt::new([0xff; 32]).to_prefixed_hex_str();
    assert_eq!(s.len(), 66);
    assert_eq!(s, format!("0x{}", "f".repeat(64)));
    let mut bytes = [0u8; 32];
    bytes[0] = 0x08;
    let s = Felt::new(bytes).to_prefixed_hex_str();
    assert_eq!(s, format!("0x8{}", "0".repeat(62)));
}

#[test]
fn new_keeps_the_bytes() {
    let mut bytes = [0u8; 32];
    bytes[3] = 7;
    bytes[31] = 9;
    assert_eq!(Felt::new(bytes).bytes, bytes);
}

#[test]
fn equals_compares_values() {
    assert!(felt(5).equals(&felt(5)));
    assert!(!felt(5).equals(&felt(6)));
    let mut high = [0u8; 32];
    high[0] = 5;
    assert!(!Felt::new(high).equals(&felt(5)));
    assert!(Felt::new([0u8; 32]).equals(&felt(0)));
}

#[test]
fn wrappers_render_like_the_element() {
    let f = felt(0x1f2e);
    assert_eq!(ContractAddressHex(f).to_prefixed_hex_str(), "0x1f2e");
    assert_eq!(FeltHex(f).to_prefixed_hex_str(), "0x1f2e");
    assert_eq!(PatriciaKeyHex(f).to_prefixed_hex_str(), "0x1f2e");
}
