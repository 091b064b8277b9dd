//! Contracts: a typed payload bound to a nonce, with a canonical 40-byte
//! serialization that is used as tweak material for key derivation.

use vstd::prelude::*;

use crate::hexcode::{
    hex_decode, hex_encode, hex_encode_chars, spec_hex_decode, HexError,
};
use vstd::string::StringSliceAdditionalSpecFns;

verus! {

/// Total length of a serialized contract in bytes.
pub const CONTRACT_LEN: usize = 40;

/// Length of the data portion of the contract in bytes.
pub const DATA_LEN: usize = 20;

/// Nonce length in bytes.
pub const NONCE_LEN: usize = 16;

/// The network a key or address belongs to.
#[derive(Clone, Copy, Debug, PartialEq, Eq, Structural)]
pub enum Network {
    /// The main network.
    Bitcoin,
    /// The test network.
    Testnet,
}

/// Type of contract encoding.
#[derive(Clone, Copy, Debug, PartialEq, Eq, Structural)]
pub enum Type {
    /// Plain text.
    Text,
    /// Pay-to-pubkeyhash script.
    PubkeyHash,
    /// Pay-to-scripthash script.
    ScriptHash,
}

/// A base58check decoding failure.
#[derive(Clone, Copy, Debug, PartialEq, Eq, Structural)]
pub enum Base58Error {
    /// The string did not decode: a bad character, too short, or a bad checksum.
    Decode,
    /// The decoded payload had the wrong length, which is carried.
    InvalidLength(usize),
    /// The decoded payload began with an unknown version byte, which is carried.
    InvalidVersion(u8),
    /// The decoded payload was laid out wrongly for its kind.
    InvalidFormat,
}

/// A contract-related error.
#[derive(Clone, Debug)]
pub enum Error {
    /// Base58 decoding error.
    Base58(Base58Error),
    /// Hex decoding error.
    Hex(HexError),
    /// Network did not match our expectation (got, expected).
    WrongNetwork(Network, Network),
    /// Contract was invalid length, which is carried.
    BadLength(usize),
    /// Unknown contract type, carrying the offending bytes.
    BadType(Vec<u8>),
}

/// The view of an [`Error`]: the same taxonomy over mathematical values.
#[verifier::ext_equal]
pub enum ErrorV {
    /// Base58 decoding error.
    Base58(Base58Error),
    /// Hex decoding error.
    Hex(HexError),
    /// Network did not match our expectation (got, expected).
    WrongNetwork(Network, Network),
    /// Contract was invalid length, which is carried.
    BadLength(usize),
    /// Unknown contract type, carrying the offending bytes.
    BadType(Seq<u8>),
}

impl View for Error {
    type V = ErrorV;

    open spec fn view(&self) -> ErrorV {
        match *self {
            Error::Base58(e) => ErrorV::Base58(e),
            Error::Hex(e) => ErrorV::Hex(e),
            Error::WrongNetwork(got, expected) => ErrorV::WrongNetwork(got, expected),
            Error::BadLength(n) => ErrorV::BadLength(n),
            Error::BadType(b) => ErrorV::BadType(b@),
        }
    }
}

/// The 4-byte tag that a contract type serializes to.
pub open spec fn spec_type_tag(t: Type) -> Seq<u8> {
    match t {
        Type::Text => seq![84u8, 69u8, 88u8, 84u8],  // "TEXT"
        Type::PubkeyHash => seq![80u8, 50u8, 80u8, 72u8],  // "P2PH"
        Type::ScriptHash => seq![80u8, 50u8, 83u8, 72u8],  // "P2SH"
    }
}

/// The contract type a 4-byte sequence deserializes to, or the error carrying
/// the offending bytes.
pub open spec fn spec_type_deserialize(d: Seq<u8>) -> Result<Type, ErrorV> {
    if d == spec_type_tag(Type::Text) {
        Ok(Type::Text)
    } else if d == spec_type_tag(Type::PubkeyHash) {
        Ok(Type::PubkeyHash)
    } else if d == spec_type_tag(Type::ScriptHash) {
        Ok(Type::ScriptHash)
    } else {
        Err(ErrorV::BadType(d))
    }
}

/// The view of a type deserialization result.
pub open spec fn type_result_view(r: Result<Type, Error>) -> Result<Type, ErrorV> {
    match r {
        Ok(t) => Ok(t),
        Err(e) => Err(e@),
    }
}

impl Type {
    /// Serialize the type as its canonical 4-byte tag.
    pub fn serialize(&self) -> (r: Vec<u8>)
        ensures
            r@ == spec_type_tag(*self),
    {
        let mut r: Vec<u8> = Vec::new();
        match *self {
            Type::Text => {
                r.push(84);
                r.push(69);
                r.push(88);
                r.push(84);
            },
            Type::PubkeyHash => {
                r.push(80);
                r.push(50);
                r.push(80);
                r.push(72);
            },
            Type::ScriptHash => {
                r.push(80);
                r.push(50);
                r.push(83);
                r.push(72);
            },
        }
        proof {
            assert(r@ =~= spec_type_tag(*self));
        }
        r
    }

    /// Interpret a 4-byte sequence as a type; any other input is rejected
    /// with an error carrying those exact bytes.
    pub fn deserialize(data: &[u8]) -> (r: Result<Type, Error>)
        ensures
            type_result_view(r) == spec_type_deserialize(data@),
    {
        if data.len() == 4 {
            let b0 = data[0];
            let b1 = data[1];
            let b2 = data[2];
            let b3 = data[3];
            if b0 == 84 && b1 == 69 && b2 == 88 && b3 == 84 {
                proof {
                    assert(data@ =~= spec_type_tag(Type::Text));
                }
                return Ok(Type::Text);
            }
            if b0 == 80 && b1 == 50 && b2 == 80 && b3 == 72 {
                proof {
                    assert(data@ =~= spec_type_tag(Type::PubkeyHash));
                }
                return Ok(Type::PubkeyHash);
            }
            if b0 == 80 && b1 == 50 && b2 == 83 && b3 == 72 {
                proof {
                    assert(data@ =~= spec_type_tag(Type::ScriptHash));
                }
                return Ok(Type::ScriptHash);
            }
        }
        proof {
            assert(data@ != spec_type_tag(Type::Text));
            assert(data@ != spec_type_tag(Type::PubkeyHash));
            assert(data@ != spec_type_tag(Type::ScriptHash));
        }
        Err(Error::BadType(vstd::slice::slice_to_vec(data)))
    }
}

/// A copy of the bytes of `v` from `start` (inclusive) to `end` (exclusive).
pub(crate) fn subvec(v: &Vec<u8>, start: usize, end: usize) -> (r: Vec<u8>)
    requires
        start <= end <= v@.len(),
    ensures
        r@ == v@.subrange(start as int, end as int),
{
    let mut r: Vec<u8> = Vec::new();
    let mut i: usize = start;
    while i < end
        invariant
            start <= i <= end <= v@.len(),
            r@ == v@.subrange(start as int, i as int),
        decreases end - i,
    {
        r.push(v[i]);
        proof {
            assert(v@.subrange(start as int, i + 1) =~= v@.subrange(start as int, i as int).push(
                v@[i as int],
            ));
        }
        i += 1;
    }
    r
}

/// A 16-byte value that salts a contract, so that two contracts with the same
/// type and data do not produce the same commitment bytes.
#[derive(Debug)]
pub struct Nonce {
    bytes: Vec<u8>,
}

impl View for Nonce {
    type V = Seq<u8>;

    closed spec fn view(&self) -> Seq<u8> {
        self.bytes@
    }
}

impl Nonce {
    #[verifier::type_invariant]
    spec fn inv(self) -> bool {
        self.bytes@.len() == NONCE_LEN
    }

    /// Serialize the nonce as its raw bytes.
    pub fn serialize(&self) -> (r: Vec<u8>)
        ensures
            r@ == self@,
            r@.len() == NONCE_LEN,
    {
        proof {
            use_type_invariant(self);
        }
        subvec(&self.bytes, 0, self.bytes.len())
    }

    /// Decode a hex string as a nonce: the hex must decode, and to exactly
    /// [`NONCE_LEN`] bytes; a wrong byte count is a length error of its own,
    /// distinct from a malformed-hex error.
    pub fn from_hex(data: &str) -> (r: Result<Nonce, Error>)
        ensures
            nonce_result_view(r) == spec_nonce_from_hex(data@),
    {
        match hex_decode(data) {
            Err(e) => Err(Error::Hex(e)),
            Ok(bytes) => {
                if bytes.len() != NONCE_LEN {
                    Err(Error::BadLength(bytes.len()))
                } else {
                    Ok(Nonce { bytes })
                }
            },
        }
    }

    /// The nonce a contract carries.
    pub fn from_contract(contract: &Contract) -> (r: Nonce)
        ensures
            r@ == contract@.nonce,
    {
        proof {
            use_type_invariant(&contract.nonce);
        }
        Nonce { bytes: subvec(&contract.nonce.bytes, 0, contract.nonce.bytes.len()) }
    }

    /// The nonce as 32 lowercase hex characters, without separators.
    pub fn to_hex(&self) -> (r: String)
        ensures
            r@ == hex_encode_chars(self@),
            r@.len() == 2 * NONCE_LEN,
    {
        proof {
            use_type_invariant(self);
            crate::hexcode::lemma_hex_encode_chars_digits(self@);
        }
        hex_encode(self.bytes.as_slice())
    }
}

/// What decoding a hex string as a nonce yields.
pub open spec fn spec_nonce_from_hex(s: Seq<char>) -> Result<Seq<u8>, ErrorV> {
    match spec_hex_decode(s) {
        Err(e) => Err(ErrorV::Hex(e)),
        Ok(b) => if b.len() != NONCE_LEN {
            Err(ErrorV::BadLength(b.len() as usize))
        } else {
            Ok(b)
        },
    }
}

/// The view of a nonce decoding result.
pub open spec fn nonce_result_view(r: Result<Nonce, Error>) -> Result<Seq<u8>, ErrorV> {
    match r {
        Ok(n) => Ok(n@),
        Err(e) => Err(e@),
    }
}

/// A contract: a type, a nonce, and a 20-byte data payload.
#[derive(Debug)]
pub struct Contract {
    ty: Type,
    nonce: Nonce,
    data: Vec<u8>,
}

/// The view of a [`Contract`].
#[verifier::ext_equal]
pub struct ContractV {
    /// Type of the contract.
    pub ty: Type,
    /// The 16 nonce bytes.
    pub nonce: Seq<u8>,
    /// The 20 data bytes.
    pub data: Seq<u8>,
}

impl ContractV {
    /// Well-formedness: the nonce and data lengths are canonical.
    pub open spec fn wf(&self) -> bool {
        self.nonce.len() == NONCE_LEN && self.data.len() == DATA_LEN
    }
}

impl View for Contract {
    type V = ContractV;

    closed spec fn view(&self) -> ContractV {
        ContractV { ty: self.ty, nonce: self.nonce@, data: self.data@ }
    }
}

/// The canonical serialization: type tag, then nonce, then data.
pub open spec fn spec_serialize(c: ContractV) -> Seq<u8> {
    spec_type_tag(c.ty) + c.nonce + c.data
}

/// The view of a contract construction result.
pub open spec fn contract_result_view(r: Result<Contract, Error>) -> Result<ContractV, ErrorV> {
    match r {
        Ok(c) => Ok(c@),
        Err(e) => Err(e@),
    }
}

/// What decoding a hex string as a contract yields: 40 bytes, read as the
/// type tag, the nonce, and the data, in that order.
pub open spec fn spec_contract_from_hex(s: Seq<char>) -> Result<ContractV, ErrorV> {
    match spec_hex_decode(s) {
        Err(e) => Err(ErrorV::Hex(e)),
        Ok(b) => if b.len() != CONTRACT_LEN {
            Err(ErrorV::BadLength(b.len() as usize))
        } else {
            match spec_type_deserialize(b.subrange(0, 4)) {
                Err(e) => Err(e),
                Ok(ty) => Ok(
                    ContractV { ty, nonce: b.subrange(4, 20), data: b.subrange(20, 40) },
                ),
            }
        },
    }
}

/// Whether a version byte opens a known address payload.
pub open spec fn valid_address_version(v: u8) -> bool {
    v == 0 || v == 5 || v == 111 || v == 196
}

/// The network a known address version byte belongs to.
pub open spec fn address_version_network(v: u8) -> Network {
    if v == 0 || v == 5 {
        Network::Bitcoin
    } else {
        Network::Testnet
    }
}

/// The contract type a known address version byte maps to.
pub open spec fn address_version_type(v: u8) -> Type {
    if v == 0 || v == 111 {
        Type::PubkeyHash
    } else {
        Type::ScriptHash
    }
}

/// What decoding a base58check address as a contract yields, given the
/// decoded payload (or its absence), the nonce, and the expected network.
pub open spec fn spec_contract_from_p2sh(
    dec: Option<Seq<u8>>,
    nonce: Seq<u8>,
    expected_network: Network,
) -> Result<ContractV, ErrorV> {
    match dec {
        None => Err(ErrorV::Base58(Base58Error::Decode)),
        Some(b) => if b.len() != 21 {
            Err(ErrorV::Base58(Base58Error::InvalidLength(b.len() as usize)))
        } else if !valid_address_version(b[0]) {
            Err(ErrorV::Base58(Base58Error::InvalidVersion(b[0])))
        } else if address_version_network(b[0]) != expected_network {
            Err(ErrorV::WrongNetwork(address_version_network(b[0]), expected_network))
        } else {
            Ok(
                ContractV {
                    ty: address_version_type(b[0]),
                    nonce,
                    data: b.subrange(1, 21),
                },
            )
        },
    }
}

/// What decoding an ASCII string as a contract yields, given the string's
/// bytes and the nonce: the bytes must number exactly [`DATA_LEN`].
pub open spec fn spec_contract_from_ascii(b: Seq<u8>, nonce: Seq<u8>) -> Result<
    ContractV,
    ErrorV,
> {
    if b.len() != DATA_LEN {
        Err(ErrorV::BadLength(b.len() as usize))
    } else {
        Ok(ContractV { ty: Type::Text, nonce, data: b })
    }
}

/// The base58check decoding of a string: its base58 digits read as a base-256
/// number, with the four checksum bytes verified and removed; absent when the
/// string does not decode or the checksum fails. A fixed function of the
/// string alone.
pub uninterp spec fn base58check_decode(s: Seq<char>) -> Option<Seq<u8>>;

/// Relies on bitcoin's `base58::decode_check`: base58 decoding of the whole
/// string, failing on a bad character, a payload under four bytes, or a bad
/// checksum, and otherwise returning the payload with the four checksum bytes
/// stripped. Deterministic in the string alone.
#[verifier::external_body]
pub(crate) fn decode_base58check(s: &str) -> (r: Result<Vec<u8>, Base58Error>)
    ensures
        match r {
            Ok(v) => base58check_decode(s@) == Some(v@),
            Err(e) => base58check_decode(s@) is None && e == Base58Error::Decode,
        },
{
    match bitcoin::base58::decode_check(s) {
        Ok(v) => Ok(v),
        Err(_) => Err(Base58Error::Decode),
    }
}

impl Contract {
    /// Serialize the contract in the canonical 40-byte form used for key
    /// tweaking: type tag, nonce, data.
    pub fn serialize(&self) -> (r: Vec<u8>)
        ensures
            r@ == spec_serialize(self@),
            r@.len() == CONTRACT_LEN,
    {
        proof {
            use_type_invariant(self);
            use_type_invariant(&self.nonce);
        }
        let mut r = self.ty.serialize();
        let mut i: usize = 0;
        while i < self.nonce.bytes.len()
            invariant
                i <= self.nonce.bytes@.len(),
                r@ == spec_type_tag(self.ty) + self.nonce.bytes@.subrange(0, i as int),
            decreases self.nonce.bytes@.len() - i,
        {
            r.push(self.nonce.bytes[i]);
            proof {
                assert(spec_type_tag(self.ty) + self.nonce.bytes@.subrange(0, i + 1) =~= (
                spec_type_tag(self.ty) + self.nonce.bytes@.subrange(0, i as int)).push(
                    self.nonce.bytes@[i as int],
                ));
            }
            i += 1;
        }
        let mut j: usize = 0;
        while j < self.data.len()
            invariant
                j <= self.data@.len(),
                r@ == spec_type_tag(self.ty) + self.nonce.bytes@ + self.data@.subrange(
                    0,
                    j as int,
                ),
            decreases self.data@.len() - j,
        {
            r.push(self.data[j]);
            proof {
                assert(spec_type_tag(self.ty) + self.nonce.bytes@ + self.data@.subrange(
                    0,
                    j + 1,
                ) =~= (spec_type_tag(self.ty) + self.nonce.bytes@ + self.data@.subrange(
                    0,
                    j as int,
                )).push(self.data@[j as int]));
            }
            j += 1;
        }
        proof {
            assert(self.nonce.bytes@.subrange(0, self.nonce.bytes@.len() as int) =~= self
                .nonce
                .bytes@);
            assert(self.data@.subrange(0, self.data@.len() as int) =~= self.data@);
            assert(spec_type_tag(self.ty).len() == 4);
        }
        r
    }

    /// Decode a hex string as a contract: 40 bytes of type tag, nonce and
    /// data. This path carries its own nonce.
    pub fn from_hex(data: &str) -> (r: Result<Contract, Error>)
        ensures
            contract_result_view(r) == spec_contract_from_hex(data@),
    {
        let bytes = match hex_decode(data) {
            Err(e) => {
                return Err(Error::Hex(e));
            },
            Ok(b) => b,
        };
        if bytes.len() != CONTRACT_LEN {
            return Err(Error::BadLength(bytes.len()));
        }
        let tag = subvec(&bytes, 0, 4);
        let ty = match Type::deserialize(tag.as_slice()) {
            Err(e) => {
                return Err(e);
            },
            Ok(t) => t,
        };
        Ok(
            Contract {
                ty,
                nonce: Nonce { bytes: subvec(&bytes, 4, 20) },
                data: subvec(&bytes, 20, 40),
            },
        )
    }

    /// Decode a P2SH-style base58check address as a contract: the embedded
    /// hash becomes the data, the address kind picks the type, and the nonce
    /// is the caller's. The decoded network must match the expected one.
    pub fn from_p2sh_base58_str(s: &str, nonce: Nonce, expected_network: Network) -> (r: Result<
        Contract,
        Error,
    >)
        ensures
            contract_result_view(r) == spec_contract_from_p2sh(
                base58check_decode(s@),
                nonce@,
                expected_network,
            ),
    {
        let bytes = match decode_base58check(s) {
            Err(e) => {
                return Err(Error::Base58(e));
            },
            Ok(b) => b,
        };
        if bytes.len() != 21 {
            return Err(Error::Base58(Base58Error::InvalidLength(bytes.len())));
        }
        let version = bytes[0];
        let (network, ty) = if version == 0 {
            (Network::Bitcoin, Type::PubkeyHash)
        } else if version == 5 {
            (Network::Bitcoin, Type::ScriptHash)
        } else if version == 111 {
            (Network::Testnet, Type::PubkeyHash)
        } else if version == 196 {
            (Network::Testnet, Type::ScriptHash)
        } else {
            return Err(Error::Base58(Base58Error::InvalidVersion(version)));
        };
        if network != expected_network {
            return Err(Error::WrongNetwork(network, expected_network));
        }
        Ok(Contract { ty, nonce, data: subvec(&bytes, 1, 21) })
    }

    /// Decode an ASCII string as a contract: its bytes must number exactly
    /// [`DATA_LEN`]; the type is always [`Type::Text`], and the nonce is the
    /// caller's.
    pub fn from_ascii_str(s: &str, nonce: Nonce) -> (r: Result<Contract, Error>)
        ensures
            contract_result_view(r) == spec_contract_from_ascii(s.spec_bytes(), nonce@),
    {
        let bytes = s.as_bytes();
        if bytes.len() != DATA_LEN {
            Err(Error::BadLength(bytes.len()))
        } else {
            Ok(Contract { ty: Type::Text, nonce, data: vstd::slice::slice_to_vec(bytes) })
        }
    }

}

impl Contract {
    #[verifier::type_invariant]
    spec fn inv(self) -> bool {
        self.data@.len() == DATA_LEN
    }
}

/// The serialized type tag always holds exactly 4 bytes.
pub proof fn lemma_type_tag_len(t: Type)
    ensures
        spec_type_tag(t).len() == 4,
{
    match t {
        Type::Text => assert(spec_type_tag(t).len() == 4),
        Type::PubkeyHash => assert(spec_type_tag(t).len() == 4),
        Type::ScriptHash => assert(spec_type_tag(t).len() == 4),
    }
}

/// The three type tags are pairwise distinct.
proof fn lemma_type_tags_distinct()
    ensures
        spec_type_tag(Type::Text) != spec_type_tag(Type::PubkeyHash),
        spec_type_tag(Type::Text) != spec_type_tag(Type::ScriptHash),
        spec_type_tag(Type::PubkeyHash) != spec_type_tag(Type::ScriptHash),
{
    assert(spec_type_tag(Type::Text)[0] == 84);
    assert(spec_type_tag(Type::PubkeyHash)[0] == 80);
    assert(spec_type_tag(Type::ScriptHash)[0] == 80);
    assert(spec_type_tag(Type::PubkeyHash)[2] == 80);
    assert(spec_type_tag(Type::ScriptHash)[2] == 83);
}

/// Tag bijection, forward direction: each type's tag deserializes back to it.
pub proof fn lemma_type_tag_round_trip(t: Type)
    ensures
        spec_type_deserialize(spec_type_tag(t)) == Ok::<Type, ErrorV>(t),
{
    lemma_type_tags_distinct();
}

/// Tag bijection, reverse direction: any 4-byte sequence that is no known
/// tag deserializes to the unrecognized-type error carrying those bytes.
pub proof fn lemma_type_tag_unknown(d: Seq<u8>)
    requires
        d != spec_type_tag(Type::Text),
        d != spec_type_tag(Type::PubkeyHash),
        d != spec_type_tag(Type::ScriptHash),
    ensures
        spec_type_deserialize(d) == Err::<Type, ErrorV>(ErrorV::BadType(d)),
{
}

/// A well-formed contract serializes to exactly [`CONTRACT_LEN`] bytes.
pub proof fn lemma_serialize_len(c: ContractV)
    requires
        c.wf(),
    ensures
        spec_serialize(c).len() == CONTRACT_LEN,
{
    lemma_type_tag_len(c.ty);
}

/// Round trip: hex-encoding the serialization of any well-formed contract
/// and parsing it back yields the same contract.
pub proof fn lemma_contract_hex_round_trip(c: ContractV)
    requires
        c.wf(),
    ensures
        spec_contract_from_hex(hex_encode_chars(spec_serialize(c))) == Ok::<ContractV, ErrorV>(c),
{
    let ser = spec_serialize(c);
    lemma_serialize_len(c);
    crate::hexcode::lemma_hex_round_trip(ser);
    lemma_type_tag_len(c.ty);
    assert(ser.subrange(0, 4) =~= spec_type_tag(c.ty));
    lemma_type_tag_round_trip(c.ty);
    assert(ser.subrange(4, 20) =~= c.nonce);
    assert(ser.subrange(20, 40) =~= c.data);
    assert(spec_contract_from_hex(hex_encode_chars(ser)) == Ok::<ContractV, ErrorV>(
        ContractV { ty: c.ty, nonce: ser.subrange(4, 20), data: ser.subrange(20, 40) },
    ));
    assert(ContractV { ty: c.ty, nonce: ser.subrange(4, 20), data: ser.subrange(20, 40) } =~= c);
}

/// Path equivalence: a contract built from a decoded address payload with a
/// caller's nonce, and one parsed from the full 40-byte hex layout with the
/// same tag, nonce and hash, are the same contract, and serialize to the
/// same 40 bytes, which are exactly that layout.
pub proof fn lemma_path_equivalence(dec: Seq<u8>, nonce: Seq<u8>, expected_network: Network)
    requires
        dec.len() == 21,
        valid_address_version(dec[0]),
        address_version_network(dec[0]) == expected_network,
        nonce.len() == NONCE_LEN,
    ensures
        ({
            let c = ContractV {
                ty: address_version_type(dec[0]),
                nonce,
                data: dec.subrange(1, 21),
            };
            let layout = spec_type_tag(c.ty) + nonce + dec.subrange(1, 21);
            &&& spec_contract_from_p2sh(Some(dec), nonce, expected_network) == Ok::<
                ContractV,
                ErrorV,
            >(c)
            &&& spec_contract_from_hex(hex_encode_chars(layout)) == Ok::<ContractV, ErrorV>(c)
            &&& spec_serialize(c) == layout
        }),
{
    let c = ContractV { ty: address_version_type(dec[0]), nonce, data: dec.subrange(1, 21) };
    lemma_contract_hex_round_trip(c);
}

/// Nonce length enforcement: a hex string that decodes to any byte count
/// other than [`NONCE_LEN`] is rejected as a nonce with the length error.
pub proof fn lemma_nonce_length_enforced(s: Seq<char>, b: Seq<u8>)
    requires
        spec_hex_decode(s) == Ok::<Seq<u8>, HexError>(b),
        b.len() != NONCE_LEN,
    ensures
        spec_nonce_from_hex(s) == Err::<Seq<u8>, ErrorV>(ErrorV::BadLength(b.len() as usize)),
{
}

/// ASCII length boundary: a string of any byte count other than
/// [`DATA_LEN`] is rejected with the length error, and one of exactly
/// [`DATA_LEN`] bytes yields the text contract with those bytes.
pub proof fn lemma_ascii_length_boundary(b: Seq<u8>, nonce: Seq<u8>)
    ensures
        b.len() != DATA_LEN ==> spec_contract_from_ascii(b, nonce) == Err::<ContractV, ErrorV>(
            ErrorV::BadLength(b.len() as usize),
        ),
        b.len() == DATA_LEN ==> spec_contract_from_ascii(b, nonce) == Ok::<ContractV, ErrorV>(
            ContractV { ty: Type::Text, nonce, data: b },
        ),
{
}

/// Relies on `rand::random`: 16 bytes drawn from the thread's random number
/// generator. Nothing is promised of their values.
#[verifier::external_body]
pub(crate) fn random_nonce() -> (r: Nonce)
    ensures
        r@.len() == NONCE_LEN,
{
    Nonce { bytes: rand::random::<[u8; 16]>().to_vec() }
}

} // verus!
