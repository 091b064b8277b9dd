//! Tests for the command-mode resolver: flag exclusivity, the per-mode
//! required and refused inputs, the contract-source rules, and the nonce
//! policy.

use pacthash::contract::{Base58Error, Error, Network, Nonce};
use pacthash::hexcode::HexError;
use pacthash::resolver::{resolve, resolve_auto, Mode, ResolveError, ResolveInput};

const NONCE_HEX: &str = "00112233445566778899aabbccddeeff";
const ASCII20: &str = "01234567890123456789";

fn fresh() -> Nonce {
    Nonce::from_hex("a0a1a2a3a4a5a6a7a8a9aaabacadaeaf").unwrap()
}

fn empty_input() -> ResolveInput {
    ResolveInput {
        testnet: false,
        gen_address: false,
        gen_privkey: false,
        redeem_script: None,
        private_key: None,
        nonce: None,
        hex_contract: None,
        p2sh_address: None,
        ascii_contract: None,
    }
}

fn gen_address_input() -> ResolveInput {
    ResolveInput {
        gen_address: true,
        redeem_script: Some("51".to_string()),
        ascii_contract: Some(ASCII20.to_string()),
        ..empty_input()
    }
}

fn wif(version: u8) -> String {
    let mut payload = vec![version];
    payload.extend_from_slice(&[7u8; 32]);
    payload.push(1);
    bitcoin::base58::encode_check(&payload)
}

fn gen_privkey_input() -> ResolveInput {
    ResolveInput {
        gen_privkey: true,
        private_key: Some(wif(128)),
        nonce: Some(NONCE_HEX.to_string()),
        ascii_contract: Some(ASCII20.to_string()),
        ..empty_input()
    }
}

#[test]
fn both_mode_flags_fail_first() {
    let input = ResolveInput { gen_address: true, gen_privkey: true, ..gen_privkey_input() };
    assert!(matches!(resolve(&input, fresh()), Err(ResolveError::BothModes)));
}

#[test]
fn no_mode_flag_fails() {
    let input = ResolveInput { gen_address: false, gen_privkey: false, ..gen_privkey_input() };
    assert!(matches!(resolve(&input, fresh()), Err(ResolveError::NoMode)));
}

#[test]
fn gen_address_needs_redeem_script() {
    let input = ResolveInput { redeem_script: None, ..gen_address_input() };
    assert!(matches!(
        resolve(&input, fresh()),
        Err(ResolveError::MissingRedeemScript)
    ));
}

#[test]
fn gen_privkey_refuses_redeem_script() {
    let input = ResolveInput { redeem_script: Some("51".to_string()), ..gen_privkey_input() };
    assert!(matches!(
        resolve(&input, fresh()),
        Err(ResolveError::UnexpectedRedeemScript)
    ));
}

#[test]
fn bad_redeem_script_hex() {
    let input = ResolveInput { redeem_script: Some("5g".to_string()), ..gen_address_input() };
    assert!(matches!(
        resolve(&input, fresh()),
        Err(ResolveError::BadRedeemScript(HexError::InvalidChar('g', 1)))
    ));
}

#[test]
fn gen_privkey_needs_private_key() {
    let input = ResolveInput { private_key: None, ..gen_privkey_input() };
    assert!(matches!(
        resolve(&input, fresh()),
        Err(ResolveError::MissingPrivateKey)
    ));
}

#[test]
fn gen_address_refuses_private_key() {
    let input = ResolveInput { private_key: Some(wif(128)), ..gen_address_input() };
    assert!(matches!(
        resolve(&input, fresh()),
        Err(ResolveError::UnexpectedPrivateKey)
    ));
}

#[test]
fn private_key_decodes() {
    let res = resolve(&gen_privkey_input(), fresh()).unwrap();
    assert_eq!(res.mode, Mode::GenPrivkey);
    assert_eq!(res.network, Network::Bitcoin);
    assert!(res.redeem_script.is_none());
    let key = res.private_key.unwrap();
    assert_eq!(key.network, Network::Bitcoin);
    assert!(key.compressed);
    assert_eq!(key.key, vec![7u8; 32]);
}

#[test]
fn private_key_network_mismatch() {
    let input = ResolveInput { testnet: true, ..gen_privkey_input() };
    assert!(matches!(
        resolve(&input, fresh()),
        Err(ResolveError::PrivateKeyWrongNetwork(Network::Bitcoin, Network::Testnet))
    ));
    let input = ResolveInput { private_key: Some(wif(239)), ..gen_privkey_input() };
    assert!(matches!(
        resolve(&input, fresh()),
        Err(ResolveError::PrivateKeyWrongNetwork(Network::Testnet, Network::Bitcoin))
    ));
}

#[test]
fn private_key_bad_version() {
    let input = ResolveInput { private_key: Some(wif(42)), ..gen_privkey_input() };
    assert!(matches!(
        resolve(&input, fresh()),
        Err(ResolveError::BadPrivateKey(Base58Error::InvalidVersion(42)))
    ));
}

#[test]
fn private_key_bad_base58() {
    let input = ResolveInput {
        private_key: Some("not a key".to_string()),
        ..gen_privkey_input()
    };
    assert!(matches!(
        resolve(&input, fresh()),
        Err(ResolveError::BadPrivateKey(Base58Error::Decode))
    ));
}

#[test]
fn no_contract_source_conflicts() {
    let input = ResolveInput { ascii_contract: None, ..gen_address_input() };
    assert!(matches!(
        resolve(&input, fresh()),
        Err(ResolveError::ContractSourceConflict)
    ));
}

#[test]
fn two_contract_sources_conflict() {
    let input = ResolveInput {
        p2sh_address: Some("x".to_string()),
        ..gen_address_input()
    };
    assert!(matches!(
        resolve(&input, fresh()),
        Err(ResolveError::ContractSourceConflict)
    ));
    let input = ResolveInput {
        hex_contract: Some("00".repeat(40)),
        ..gen_address_input()
    };
    assert!(matches!(
        resolve(&input, fresh()),
        Err(ResolveError::ContractSourceConflict)
    ));
}

#[test]
fn gen_privkey_needs_nonce_with_ascii_source() {
    let input = ResolveInput { nonce: None, ..gen_privkey_input() };
    assert!(matches!(resolve(&input, fresh()), Err(ResolveError::MissingNonce)));
}

#[test]
fn bad_nonce_is_reported() {
    let input = ResolveInput { nonce: Some("00".repeat(17)), ..gen_privkey_input() };
    assert!(matches!(
        resolve(&input, fresh()),
        Err(ResolveError::BadNonce(Error::BadLength(17)))
    ));
}

#[test]
fn nonce_autogeneration_reproduces_contract() {
    let res = resolve(&gen_address_input(), fresh()).unwrap();
    assert_eq!(res.mode, Mode::GenAddress);
    assert_eq!(res.redeem_script, Some(vec![0x51]));
    assert!(res.private_key.is_none());
    let generated = Nonce::from_contract(&res.contract);
    assert_eq!(generated.serialize(), fresh().serialize());
    let ser = res.contract.serialize();
    assert_eq!(&ser[20..40], ASCII20.as_bytes());

    let explicit = ResolveInput {
        nonce: Some(generated.to_hex()),
        ..gen_address_input()
    };
    let other_fresh = Nonce::from_hex("ffffffffffffffffffffffffffffffff").unwrap();
    let res2 = resolve(&explicit, other_fresh).unwrap();
    assert_eq!(res2.contract.serialize(), ser);
}

#[test]
fn resolve_auto_draws_a_usable_nonce() {
    let res = resolve_auto(&gen_address_input()).unwrap();
    let generated = Nonce::from_contract(&res.contract);
    assert_eq!(generated.serialize().len(), 16);
    let explicit = ResolveInput {
        nonce: Some(generated.to_hex()),
        ..gen_address_input()
    };
    let res2 = resolve(&explicit, fresh()).unwrap();
    assert_eq!(res2.contract.serialize(), res.contract.serialize());
}

#[test]
fn hex_contract_ignores_supplied_nonce() {
    let hex = format!("54455854{}{}", NONCE_HEX, "2a".repeat(20));
    let input = ResolveInput {
        gen_address: true,
        redeem_script: Some("51".to_string()),
        hex_contract: Some(hex),
        nonce: Some("ffffffffffffffffffffffffffffffff".to_string()),
        ..empty_input()
    };
    let res = resolve(&input, fresh()).unwrap();
    assert_eq!(Nonce::from_contract(&res.contract).to_hex(), NONCE_HEX);
}

#[test]
fn bad_hex_contract_is_reported() {
    let input = ResolveInput {
        gen_address: true,
        redeem_script: Some("51".to_string()),
        hex_contract: Some("00".repeat(39)),
        ..empty_input()
    };
    assert!(matches!(
        resolve(&input, fresh()),
        Err(ResolveError::BadContract(Error::BadLength(39)))
    ));
}

#[test]
fn private_key_bad_layout() {
    let mut payload = vec![128u8];
    payload.extend_from_slice(&[7u8; 32]);
    payload.push(7);
    let input = ResolveInput {
        private_key: Some(bitcoin::base58::encode_check(&payload)),
        ..gen_privkey_input()
    };
    assert!(matches!(
        resolve(&input, fresh()),
        Err(ResolveError::BadPrivateKey(Base58Error::InvalidFormat))
    ));
    let mut short = vec![128u8];
    short.extend_from_slice(&[7u8; 16]);
    let input = ResolveInput {
        private_key: Some(bitcoin::base58::encode_check(&short)),
        ..gen_privkey_input()
    };
    assert!(matches!(
        resolve(&input, fresh()),
        Err(ResolveError::BadPrivateKey(Base58Error::InvalidLength(17)))
    ));
}

#[test]
fn testnet_flag_sets_network() {
    let input = ResolveInput { testnet: true, ..gen_address_input() };
    let res = resolve(&input, fresh()).unwrap();
    assert_eq!(res.network, Network::Testnet);
}
