//! Tests for the contract data model: type tags, nonces, and the hex and
//! ASCII construction paths.

use pacthash::contract::{Contract, Error, Nonce, Type, CONTRACT_LEN};
use pacthash::hexcode::HexError;

const NONCE_HEX: &str = "00112233445566778899aabbccddeeff";

fn nonce() -> Nonce {
    Nonce::from_hex(NONCE_HEX).unwrap()
}

#[test]
fn type_tag_round_trips() {
    for (ty, tag) in [
        (Type::Text, b"TEXT"),
        (Type::PubkeyHash, b"P2PH"),
        (Type::ScriptHash, b"P2SH"),
    ] {
        assert_eq!(ty.serialize(), tag.to_vec());
        assert_eq!(Type::deserialize(&tag[..]).unwrap(), ty);
    }
}

#[test]
fn type_deserialize_unknown() {
    let r = Type::deserialize(b"ABCD");
    assert!(matches!(r, Err(Error::BadType(ref b)) if b == b"ABCD"));
    let r = Type::deserialize(b"TEX");
    assert!(matches!(r, Err(Error::BadType(ref b)) if b == b"TEX"));
    let r = Type::deserialize(b"text");
    assert!(matches!(r, Err(Error::BadType(_))));
}

#[test]
fn nonce_from_hex_ok() {
    let n = nonce();
    assert_eq!(
        n.serialize(),
        vec![0x00, 0x11, 0x22, 0x33, 0x44, 0x55, 0x66, 0x77, 0x88, 0x99, 0xaa, 0xbb, 0xcc, 0xdd, 0xee, 0xff]
    );
    assert_eq!(n.to_hex(), NONCE_HEX);
}

#[test]
fn nonce_from_hex_uppercase_and_whitespace() {
    let n = Nonce::from_hex("00112233445566778899AABBCCDDEEFF").unwrap();
    assert_eq!(n.to_hex(), NONCE_HEX);
    let n = Nonce::from_hex("0011 2233 4455 6677\n8899 aabb ccdd eeff").unwrap();
    assert_eq!(n.to_hex(), NONCE_HEX);
    let n = Nonce::from_hex("0 0112233445566778899aabbccddeef\tf").unwrap();
    assert_eq!(n.to_hex(), NONCE_HEX);
}

#[test]
fn nonce_from_hex_bad_lengths() {
    assert!(matches!(Nonce::from_hex(""), Err(Error::BadLength(0))));
    let seventeen = "00".repeat(17);
    assert!(matches!(Nonce::from_hex(&seventeen), Err(Error::BadLength(17))));
    let fifteen = "00".repeat(15);
    assert!(matches!(Nonce::from_hex(&fifteen), Err(Error::BadLength(15))));
}

#[test]
fn nonce_from_hex_hex_errors() {
    let r = Nonce::from_hex("zz112233445566778899aabbccddeeff");
    assert!(matches!(r, Err(Error::Hex(HexError::InvalidChar('z', 0)))));
    let r = Nonce::from_hex("00112233445566778899aabbccddeef");
    assert!(matches!(r, Err(Error::Hex(HexError::OddLength))));
    let r = Nonce::from_hex("00112233445566778899aabbccddee!f");
    assert!(matches!(r, Err(Error::Hex(HexError::InvalidChar('!', 30)))));
}

#[test]
fn nonce_from_hex_non_ascii() {
    let r = Nonce::from_hex("€0112233445566778899aabbccddeeff");
    assert!(matches!(r, Err(Error::Hex(HexError::InvalidChar('€', 0)))));
    let r = Nonce::from_hex("ab€");
    assert!(matches!(r, Err(Error::Hex(HexError::InvalidChar('€', 2)))));
}

#[test]
fn contract_from_hex_round_trip() {
    let data_hex = "0102030405060708090a0b0c0d0e0f1011121314";
    let hex = format!("54455854{}{}", NONCE_HEX, data_hex);
    let c = Contract::from_hex(&hex).unwrap();
    let ser = c.serialize();
    assert_eq!(ser.len(), CONTRACT_LEN);
    assert_eq!(&ser[0..4], b"TEXT");
    assert_eq!(rustc_serialize::hex::ToHex::to_hex(&ser[..]), hex);
    let again = Contract::from_hex(&rustc_serialize::hex::ToHex::to_hex(&ser[..])).unwrap();
    assert_eq!(again.serialize(), ser);
    assert_eq!(Nonce::from_contract(&c).to_hex(), NONCE_HEX);
}

#[test]
fn contract_from_hex_uppercase() {
    let hex_lower = format!("5032534800112233445566778899aabbccddeeff{}", "aa".repeat(20));
    let hex_upper = hex_lower.to_uppercase();
    let a = Contract::from_hex(&hex_lower).unwrap();
    let b = Contract::from_hex(&hex_upper).unwrap();
    assert_eq!(a.serialize(), b.serialize());
}

#[test]
fn contract_from_hex_bad_length() {
    let short = "00".repeat(39);
    assert!(matches!(Contract::from_hex(&short), Err(Error::BadLength(39))));
    let long = "00".repeat(41);
    assert!(matches!(Contract::from_hex(&long), Err(Error::BadLength(41))));
}

#[test]
fn contract_from_hex_bad_type() {
    let hex = format!("58585858{}{}", NONCE_HEX, "00".repeat(20));
    let r = Contract::from_hex(&hex);
    assert!(matches!(r, Err(Error::BadType(ref b)) if b == b"XXXX"));
}

#[test]
fn contract_from_hex_bad_hex() {
    let r = Contract::from_hex("not hex at all");
    assert!(matches!(r, Err(Error::Hex(HexError::InvalidChar('n', 0)))));
}

#[test]
fn contract_from_ascii_exact_twenty() {
    let c = Contract::from_ascii_str("01234567890123456789", nonce()).unwrap();
    let ser = c.serialize();
    assert_eq!(ser.len(), CONTRACT_LEN);
    assert_eq!(&ser[0..4], b"TEXT");
    assert_eq!(&ser[4..20], &nonce().serialize()[..]);
    assert_eq!(&ser[20..40], b"01234567890123456789");
}

#[test]
fn contract_from_ascii_length_boundary() {
    let r = Contract::from_ascii_str("0123456789012345678", nonce());
    assert!(matches!(r, Err(Error::BadLength(19))));
    let r = Contract::from_ascii_str("012345678901234567890", nonce());
    assert!(matches!(r, Err(Error::BadLength(21))));
}

#[test]
fn serialize_is_forty_bytes_on_every_path() {
    let by_ascii = Contract::from_ascii_str("aaaaaaaaaabbbbbbbbbb", nonce()).unwrap();
    assert_eq!(by_ascii.serialize().len(), 40);
    let by_hex = Contract::from_hex(&format!("50325048{}{}", NONCE_HEX, "11".repeat(20))).unwrap();
    assert_eq!(by_hex.serialize().len(), 40);
}
