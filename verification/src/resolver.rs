//! The command-mode resolver: the decision procedure that, from a set of
//! mutually-constrained optional inputs, either produces a single fully
//! resolved run or fails with a specific, diagnosable reason.
//!
//! Resolution order: first the mode, from its two flags; then the redeem
//! script (required with [`Mode::GenAddress`], refused with
//! [`Mode::GenPrivkey`]); then the private key (the other way round, and its
//! network must match the tool's); then exactly one contract source. A P2SH
//! address or an ASCII text needs a nonce: one supplied in hex, or, under
//! [`Mode::GenAddress`] only, a fresh one drawn for the run. A full hex
//! contract carries its own nonce, and a nonce supplied beside it is ignored
//! rather than checked against the embedded one.

use vstd::prelude::*;

use crate::contract::{
    base58check_decode, decode_base58check, random_nonce, spec_contract_from_ascii,
    spec_contract_from_hex, spec_contract_from_p2sh, spec_nonce_from_hex, subvec, Base58Error,
    Contract, ContractV, Error, ErrorV, Network, Nonce, Type, DATA_LEN, NONCE_LEN,
};
use crate::hexcode::{hex_decode, hex_encode_chars, lemma_hex_round_trip, spec_hex_decode, HexError};
use vstd::utf8::encode_utf8;

verus! {

/// Modes that a run can resolve to.
#[derive(Clone, Copy, Debug, PartialEq, Eq, Structural)]
pub enum Mode {
    /// Generate a redeem script and corresponding P2SH address.
    GenAddress,
    /// Generate a private key.
    GenPrivkey,
}

/// A private key in its decoded layout: its network, whether it is in
/// compressed form, and its 32 raw key bytes.
#[derive(Debug)]
pub struct PrivKey {
    /// The network the key belongs to.
    pub network: Network,
    /// Whether the key asks for compressed public keys.
    pub compressed: bool,
    /// The 32 raw key bytes.
    pub key: Vec<u8>,
}

/// The view of a [`PrivKey`].
#[verifier::ext_equal]
pub struct PrivKeyV {
    /// The network the key belongs to.
    pub network: Network,
    /// Whether the key asks for compressed public keys.
    pub compressed: bool,
    /// The 32 raw key bytes.
    pub key: Seq<u8>,
}

impl View for PrivKey {
    type V = PrivKeyV;

    open spec fn view(&self) -> PrivKeyV {
        PrivKeyV { network: self.network, compressed: self.compressed, key: self.key@ }
    }
}

/// The inputs a run starts from, each as the operator supplied it.
pub struct ResolveInput {
    /// Whether the tool runs against the test network.
    pub testnet: bool,
    /// The flag asking for a redeem script and address.
    pub gen_address: bool,
    /// The flag asking for a private key.
    pub gen_privkey: bool,
    /// A hex-encoded redemption script.
    pub redeem_script: Option<String>,
    /// A base58check-encoded private key.
    pub private_key: Option<String>,
    /// A hex-encoded nonce.
    pub nonce: Option<String>,
    /// A contract as a full hex string.
    pub hex_contract: Option<String>,
    /// A contract as a P2SH address.
    pub p2sh_address: Option<String>,
    /// A contract as an ASCII string.
    pub ascii_contract: Option<String>,
}

/// The view of a [`ResolveInput`].
#[verifier::ext_equal]
pub struct ResolveInputV {
    /// Whether the tool runs against the test network.
    pub testnet: bool,
    /// The flag asking for a redeem script and address.
    pub gen_address: bool,
    /// The flag asking for a private key.
    pub gen_privkey: bool,
    /// A hex-encoded redemption script.
    pub redeem_script: Option<Seq<char>>,
    /// A base58check-encoded private key.
    pub private_key: Option<Seq<char>>,
    /// A hex-encoded nonce.
    pub nonce: Option<Seq<char>>,
    /// A contract as a full hex string.
    pub hex_contract: Option<Seq<char>>,
    /// A contract as a P2SH address.
    pub p2sh_address: Option<Seq<char>>,
    /// A contract as an ASCII string.
    pub ascii_contract: Option<Seq<char>>,
}

/// The view of an optional string.
pub open spec fn opt_str_view(o: Option<String>) -> Option<Seq<char>> {
    match o {
        Some(s) => Some(s@),
        None => None,
    }
}

impl View for ResolveInput {
    type V = ResolveInputV;

    open spec fn view(&self) -> ResolveInputV {
        ResolveInputV {
            testnet: self.testnet,
            gen_address: self.gen_address,
            gen_privkey: self.gen_privkey,
            redeem_script: opt_str_view(self.redeem_script),
            private_key: opt_str_view(self.private_key),
            nonce: opt_str_view(self.nonce),
            hex_contract: opt_str_view(self.hex_contract),
            p2sh_address: opt_str_view(self.p2sh_address),
            ascii_contract: opt_str_view(self.ascii_contract),
        }
    }
}

/// A fully resolved run, ready for the key-tweaking step.
pub struct Resolved {
    /// The network the run works against.
    pub network: Network,
    /// The resolved mode.
    pub mode: Mode,
    /// The resolved contract.
    pub contract: Contract,
    /// The decoded redeem script, present exactly under [`Mode::GenAddress`].
    pub redeem_script: Option<Vec<u8>>,
    /// The decoded private key, present exactly under [`Mode::GenPrivkey`].
    pub private_key: Option<PrivKey>,
}

/// The view of a [`Resolved`].
#[verifier::ext_equal]
pub struct ResolvedV {
    /// The network the run works against.
    pub network: Network,
    /// The resolved mode.
    pub mode: Mode,
    /// The resolved contract.
    pub contract: ContractV,
    /// The decoded redeem script, present exactly under [`Mode::GenAddress`].
    pub redeem_script: Option<Seq<u8>>,
    /// The decoded private key, present exactly under [`Mode::GenPrivkey`].
    pub private_key: Option<PrivKeyV>,
}

impl View for Resolved {
    type V = ResolvedV;

    open spec fn view(&self) -> ResolvedV {
        ResolvedV {
            network: self.network,
            mode: self.mode,
            contract: self.contract@,
            redeem_script: match self.redeem_script {
                Some(ref b) => Some(b@),
                None => None,
            },
            private_key: match self.private_key {
                Some(ref k) => Some(k@),
                None => None,
            },
        }
    }
}

/// Why a run could not be resolved.
#[derive(Debug)]
pub enum ResolveError {
    /// Neither mode flag was given.
    NoMode,
    /// Both mode flags were given.
    BothModes,
    /// No redeem script was given in the mode that needs one.
    MissingRedeemScript,
    /// A redeem script was given in the mode that refuses one.
    UnexpectedRedeemScript,
    /// The redeem script was not valid hex.
    BadRedeemScript(HexError),
    /// No private key was given in the mode that needs one.
    MissingPrivateKey,
    /// A private key was given in the mode that refuses one.
    UnexpectedPrivateKey,
    /// The private key did not decode or was laid out wrongly.
    BadPrivateKey(Base58Error),
    /// The private key's network did not match the tool's (got, expected).
    PrivateKeyWrongNetwork(Network, Network),
    /// Not exactly one contract source was supplied.
    ContractSourceConflict,
    /// No nonce was given on a path that needs one.
    MissingNonce,
    /// The nonce did not decode.
    BadNonce(Error),
    /// The contract source did not decode.
    BadContract(Error),
}

/// The view of a [`ResolveError`].
#[verifier::ext_equal]
pub enum ResolveErrorV {
    /// Neither mode flag was given.
    NoMode,
    /// Both mode flags were given.
    BothModes,
    /// No redeem script was given in the mode that needs one.
    MissingRedeemScript,
    /// A redeem script was given in the mode that refuses one.
    UnexpectedRedeemScript,
    /// The redeem script was not valid hex.
    BadRedeemScript(HexError),
    /// No private key was given in the mode that needs one.
    MissingPrivateKey,
    /// A private key was given in the mode that refuses one.
    UnexpectedPrivateKey,
    /// The private key did not decode or was laid out wrongly.
    BadPrivateKey(Base58Error),
    /// The private key's network did not match the tool's (got, expected).
    PrivateKeyWrongNetwork(Network, Network),
    /// Not exactly one contract source was supplied.
    ContractSourceConflict,
    /// No nonce was given on a path that needs one.
    MissingNonce,
    /// The nonce did not decode.
    BadNonce(ErrorV),
    /// The contract source did not decode.
    BadContract(ErrorV),
}

impl View for ResolveError {
    type V = ResolveErrorV;

    open spec fn view(&self) -> ResolveErrorV {
        match *self {
            ResolveError::NoMode => ResolveErrorV::NoMode,
            ResolveError::BothModes => ResolveErrorV::BothModes,
            ResolveError::MissingRedeemScript => ResolveErrorV::MissingRedeemScript,
            ResolveError::UnexpectedRedeemScript => ResolveErrorV::UnexpectedRedeemScript,
            ResolveError::BadRedeemScript(e) => ResolveErrorV::BadRedeemScript(e),
            ResolveError::MissingPrivateKey => ResolveErrorV::MissingPrivateKey,
            ResolveError::UnexpectedPrivateKey => ResolveErrorV::UnexpectedPrivateKey,
            ResolveError::BadPrivateKey(e) => ResolveErrorV::BadPrivateKey(e),
            ResolveError::PrivateKeyWrongNetwork(got, expected) => (
            ResolveErrorV::PrivateKeyWrongNetwork(got, expected)),
            ResolveError::ContractSourceConflict => ResolveErrorV::ContractSourceConflict,
            ResolveError::MissingNonce => ResolveErrorV::MissingNonce,
            ResolveError::BadNonce(ref e) => ResolveErrorV::BadNonce(e@),
            ResolveError::BadContract(ref e) => ResolveErrorV::BadContract(e@),
        }
    }
}

/// The mode the two flags resolve to: exactly one must be set.
pub open spec fn spec_mode(gen_address: bool, gen_privkey: bool) -> Result<Mode, ResolveErrorV> {
    if !gen_address && !gen_privkey {
        Err(ResolveErrorV::NoMode)
    } else if gen_address && gen_privkey {
        Err(ResolveErrorV::BothModes)
    } else if gen_address {
        Ok(Mode::GenAddress)
    } else {
        Ok(Mode::GenPrivkey)
    }
}

/// The decoded redeem script: required and hex-decoded under
/// [`Mode::GenAddress`], refused under [`Mode::GenPrivkey`].
pub open spec fn spec_redeem_script(mode: Mode, rs: Option<Seq<char>>) -> Result<
    Option<Seq<u8>>,
    ResolveErrorV,
> {
    match rs {
        Some(s) => if mode == Mode::GenPrivkey {
            Err(ResolveErrorV::UnexpectedRedeemScript)
        } else {
            match spec_hex_decode(s) {
                Ok(b) => Ok(Some(b)),
                Err(e) => Err(ResolveErrorV::BadRedeemScript(e)),
            }
        },
        None => if mode == Mode::GenAddress {
            Err(ResolveErrorV::MissingRedeemScript)
        } else {
            Ok(None)
        },
    }
}

/// The layout of a decoded private key payload: a version byte naming the
/// network, 32 key bytes, and an optional trailing 1 marking compressed form.
pub open spec fn spec_privkey_layout(b: Seq<u8>) -> Result<PrivKeyV, Base58Error> {
    if b.len() != 33 && b.len() != 34 {
        Err(Base58Error::InvalidLength(b.len() as usize))
    } else if b.len() == 34 && b[33] != 1 {
        Err(Base58Error::InvalidFormat)
    } else if b[0] == 128 {
        Ok(PrivKeyV { network: Network::Bitcoin, compressed: b.len() == 34, key: b.subrange(1, 33) })
    } else if b[0] == 239 {
        Ok(PrivKeyV { network: Network::Testnet, compressed: b.len() == 34, key: b.subrange(1, 33) })
    } else {
        Err(Base58Error::InvalidVersion(b[0]))
    }
}

/// What decoding a private key string yields: base58check, then the layout,
/// then the network check against the tool's network.
pub open spec fn spec_parse_private_key(s: Seq<char>, network: Network) -> Result<
    PrivKeyV,
    ResolveErrorV,
> {
    match base58check_decode(s) {
        None => Err(ResolveErrorV::BadPrivateKey(Base58Error::Decode)),
        Some(b) => match spec_privkey_layout(b) {
            Err(e) => Err(ResolveErrorV::BadPrivateKey(e)),
            Ok(k) => if k.network != network {
                Err(ResolveErrorV::PrivateKeyWrongNetwork(k.network, network))
            } else {
                Ok(k)
            },
        },
    }
}

/// The decoded private key: required, decoded and network-checked under
/// [`Mode::GenPrivkey`], refused under [`Mode::GenAddress`].
pub open spec fn spec_private_key(mode: Mode, pk: Option<Seq<char>>, network: Network) -> Result<
    Option<PrivKeyV>,
    ResolveErrorV,
> {
    match pk {
        Some(s) => if mode == Mode::GenAddress {
            Err(ResolveErrorV::UnexpectedPrivateKey)
        } else {
            match spec_parse_private_key(s, network) {
                Ok(k) => Ok(Some(k)),
                Err(e) => Err(e),
            }
        },
        None => if mode == Mode::GenPrivkey {
            Err(ResolveErrorV::MissingPrivateKey)
        } else {
            Ok(None)
        },
    }
}

/// The nonce a contract path uses: one supplied in hex, or, only under
/// [`Mode::GenAddress`], the fresh one drawn for the run.
pub open spec fn spec_nonce_stage(mode: Mode, nonce: Option<Seq<char>>, fresh: Seq<u8>) -> Result<
    Seq<u8>,
    ResolveErrorV,
> {
    match nonce {
        Some(s) => match spec_nonce_from_hex(s) {
            Ok(n) => Ok(n),
            Err(e) => Err(ResolveErrorV::BadNonce(e)),
        },
        None => if mode == Mode::GenPrivkey {
            Err(ResolveErrorV::MissingNonce)
        } else {
            Ok(fresh)
        },
    }
}

/// The contract the run commits to: from exactly one of the three sources.
/// The full-hex source carries its own nonce and consults no supplied one;
/// the other two go through the nonce policy first.
pub open spec fn spec_contract_stage(
    i: ResolveInputV,
    mode: Mode,
    network: Network,
    fresh: Seq<u8>,
) -> Result<ContractV, ResolveErrorV> {
    match (i.hex_contract, i.p2sh_address, i.ascii_contract) {
        (Some(h), None, None) => match spec_contract_from_hex(h) {
            Ok(c) => Ok(c),
            Err(e) => Err(ResolveErrorV::BadContract(e)),
        },
        (None, Some(d), None) => match spec_nonce_stage(mode, i.nonce, fresh) {
            Err(e) => Err(e),
            Ok(n) => match spec_contract_from_p2sh(base58check_decode(d), n, network) {
                Ok(c) => Ok(c),
                Err(e) => Err(ResolveErrorV::BadContract(e)),
            },
        },
        (None, None, Some(a)) => match spec_nonce_stage(mode, i.nonce, fresh) {
            Err(e) => Err(e),
            Ok(n) => match spec_contract_from_ascii(encode_utf8(a), n) {
                Ok(c) => Ok(c),
                Err(e) => Err(ResolveErrorV::BadContract(e)),
            },
        },
        _ => Err(ResolveErrorV::ContractSourceConflict),
    }
}

/// The network the run works against.
pub open spec fn spec_network(testnet: bool) -> Network {
    if testnet {
        Network::Testnet
    } else {
        Network::Bitcoin
    }
}

/// What resolution yields on the given inputs, with `fresh` standing for the
/// 16 bytes the run would draw were a nonce to be generated.
pub open spec fn spec_resolve(i: ResolveInputV, fresh: Seq<u8>) -> Result<
    ResolvedV,
    ResolveErrorV,
> {
    let network = spec_network(i.testnet);
    match spec_mode(i.gen_address, i.gen_privkey) {
        Err(e) => Err(e),
        Ok(mode) => match spec_redeem_script(mode, i.redeem_script) {
            Err(e) => Err(e),
            Ok(redeem_script) => match spec_private_key(mode, i.private_key, network) {
                Err(e) => Err(e),
                Ok(private_key) => match spec_contract_stage(i, mode, network, fresh) {
                    Err(e) => Err(e),
                    Ok(contract) => Ok(
                        ResolvedV { network, mode, contract, redeem_script, private_key },
                    ),
                },
            },
        },
    }
}

/// The view of a resolution result.
pub open spec fn resolve_result_view(r: Result<Resolved, ResolveError>) -> Result<
    ResolvedV,
    ResolveErrorV,
> {
    match r {
        Ok(res) => Ok(res@),
        Err(e) => Err(e@),
    }
}

/// Decode and check a private key string against the tool's network.
fn parse_private_key(s: &str, network: Network) -> (r: Result<PrivKey, ResolveError>)
    ensures
        (match r {
            Ok(k) => Ok::<PrivKeyV, ResolveErrorV>(k@),
            Err(e) => Err(e@),
        }) == spec_parse_private_key(s@, network),
{
    let bytes = match decode_base58check(s) {
        Err(e) => {
            return Err(ResolveError::BadPrivateKey(e));
        },
        Ok(b) => b,
    };
    if bytes.len() != 33 && bytes.len() != 34 {
        return Err(ResolveError::BadPrivateKey(Base58Error::InvalidLength(bytes.len())));
    }
    let compressed = bytes.len() == 34;
    if compressed && bytes[33] != 1 {
        return Err(ResolveError::BadPrivateKey(Base58Error::InvalidFormat));
    }
    let version = bytes[0];
    let key_network = if version == 128 {
        Network::Bitcoin
    } else if version == 239 {
        Network::Testnet
    } else {
        return Err(ResolveError::BadPrivateKey(Base58Error::InvalidVersion(version)));
    };
    if key_network != network {
        return Err(ResolveError::PrivateKeyWrongNetwork(key_network, network));
    }
    Ok(PrivKey { network: key_network, compressed, key: subvec(&bytes, 1, 33) })
}

/// The nonce for a contract path that needs one.
fn resolve_nonce(mode: Mode, nonce: &Option<String>, fresh: Nonce) -> (r: Result<
    Nonce,
    ResolveError,
>)
    ensures
        (match r {
            Ok(n) => Ok::<Seq<u8>, ResolveErrorV>(n@),
            Err(e) => Err(e@),
        }) == spec_nonce_stage(mode, opt_str_view(*nonce), fresh@),
{
    match nonce {
        Some(s) => match Nonce::from_hex(s.as_str()) {
            Ok(n) => Ok(n),
            Err(e) => Err(ResolveError::BadNonce(e)),
        },
        None => if mode == Mode::GenPrivkey {
            Err(ResolveError::MissingNonce)
        } else {
            Ok(fresh)
        },
    }
}

/// The contract from exactly one of the three sources.
fn resolve_contract(input: &ResolveInput, mode: Mode, network: Network, fresh: Nonce) -> (r:
    Result<Contract, ResolveError>)
    ensures
        (match r {
            Ok(c) => Ok::<ContractV, ResolveErrorV>(c@),
            Err(e) => Err(e@),
        }) == spec_contract_stage(input@, mode, network, fresh@),
{
    match &input.hex_contract {
        Some(h) => {
            if input.p2sh_address.is_some() || input.ascii_contract.is_some() {
                return Err(ResolveError::ContractSourceConflict);
            }
            match Contract::from_hex(h.as_str()) {
                Ok(c) => Ok(c),
                Err(e) => Err(ResolveError::BadContract(e)),
            }
        },
        None => match &input.p2sh_address {
            Some(d) => {
                if input.ascii_contract.is_some() {
                    return Err(ResolveError::ContractSourceConflict);
                }
                let n = match resolve_nonce(mode, &input.nonce, fresh) {
                    Ok(n) => n,
                    Err(e) => {
                        return Err(e);
                    },
                };
                match Contract::from_p2sh_base58_str(d.as_str(), n, network) {
                    Ok(c) => Ok(c),
                    Err(e) => Err(ResolveError::BadContract(e)),
                }
            },
            None => match &input.ascii_contract {
                Some(a) => {
                    let n = match resolve_nonce(mode, &input.nonce, fresh) {
                        Ok(n) => n,
                        Err(e) => {
                            return Err(e);
                        },
                    };
                    match Contract::from_ascii_str(a.as_str(), n) {
                        Ok(c) => Ok(c),
                        Err(e) => Err(ResolveError::BadContract(e)),
                    }
                },
                None => Err(ResolveError::ContractSourceConflict),
            },
        },
    }
}

/// Resolve a run from its inputs, with `fresh` supplying the nonce were one
/// to be generated; the caller draws it, which keeps resolution itself a
/// function of its arguments.
pub fn resolve(input: &ResolveInput, fresh: Nonce) -> (r: Result<Resolved, ResolveError>)
    ensures
        resolve_result_view(r) == spec_resolve(input@, fresh@),
{
    let network = if input.testnet {
        Network::Testnet
    } else {
        Network::Bitcoin
    };
    let mode = if !input.gen_address && !input.gen_privkey {
        return Err(ResolveError::NoMode);
    } else if input.gen_address && input.gen_privkey {
        return Err(ResolveError::BothModes);
    } else if input.gen_address {
        Mode::GenAddress
    } else {
        Mode::GenPrivkey
    };
    let redeem_script: Option<Vec<u8>> = match &input.redeem_script {
        Some(s) => {
            if mode == Mode::GenPrivkey {
                return Err(ResolveError::UnexpectedRedeemScript);
            }
            match hex_decode(s.as_str()) {
                Ok(b) => Some(b),
                Err(e) => {
                    return Err(ResolveError::BadRedeemScript(e));
                },
            }
        },
        None => {
            if mode == Mode::GenAddress {
                return Err(ResolveError::MissingRedeemScript);
            }
            None
        },
    };
    let private_key: Option<PrivKey> = match &input.private_key {
        Some(s) => {
            if mode == Mode::GenAddress {
                return Err(ResolveError::UnexpectedPrivateKey);
            }
            match parse_private_key(s.as_str(), network) {
                Ok(k) => Some(k),
                Err(e) => {
                    return Err(e);
                },
            }
        },
        None => {
            if mode == Mode::GenPrivkey {
                return Err(ResolveError::MissingPrivateKey);
            }
            None
        },
    };
    let contract = match resolve_contract(input, mode, network, fresh) {
        Ok(c) => c,
        Err(e) => {
            return Err(e);
        },
    };
    Ok(Resolved { network, mode, contract, redeem_script, private_key })
}

/// Resolve a run, drawing the nonce that may be needed from the random
/// source: the result is what [`resolve`] yields for some 16 fresh bytes.
pub fn resolve_auto(input: &ResolveInput) -> (r: Result<Resolved, ResolveError>)
    ensures
        exists|fresh: Seq<u8>|
            fresh.len() == NONCE_LEN && resolve_result_view(r) == spec_resolve(input@, fresh),
{
    let fresh = random_nonce();
    let ghost fresh_bytes = fresh@;
    let r = resolve(input, fresh);
    proof {
        assert(fresh_bytes.len() == NONCE_LEN && resolve_result_view(r) == spec_resolve(
            input@,
            fresh_bytes,
        ));
    }
    r
}

/// Resolver exclusivity: the two mode flags are weighed before any other
/// input, so with both set resolution fails with the one error, and with
/// neither it fails with the other, whatever else is supplied.
pub proof fn lemma_mode_exclusive(i: ResolveInputV, fresh: Seq<u8>)
    ensures
        i.gen_address && i.gen_privkey ==> spec_resolve(i, fresh) == Err::<
            ResolvedV,
            ResolveErrorV,
        >(ResolveErrorV::BothModes),
        !i.gen_address && !i.gen_privkey ==> spec_resolve(i, fresh) == Err::<
            ResolvedV,
            ResolveErrorV,
        >(ResolveErrorV::NoMode),
{
}

/// Nonce auto-generation: with the address-generating mode, a well-formed
/// redeem script, a 20-byte ASCII contract source and no nonce, resolution
/// succeeds and salts the contract with the fresh nonce — and feeding that
/// same nonce back explicitly, in hex, reproduces the identical contract,
/// whatever fresh bytes the second run would have drawn.
pub proof fn lemma_nonce_autogeneration(i: ResolveInputV, fresh: Seq<u8>, fresh2: Seq<u8>)
    requires
        i.gen_address,
        !i.gen_privkey,
        (i.redeem_script matches Some(rs) && spec_hex_decode(rs) is Ok),
        i.private_key is None,
        i.nonce is None,
        i.hex_contract is None,
        i.p2sh_address is None,
        (i.ascii_contract matches Some(a) && encode_utf8(a).len() == DATA_LEN),
        fresh.len() == NONCE_LEN,
    ensures
        ({
            let explicit = ResolveInputV { nonce: Some(hex_encode_chars(fresh)), ..i };
            &&& spec_resolve(i, fresh) matches Ok(res)
            &&& res.contract.ty == Type::Text
            &&& res.contract.nonce == fresh
            &&& spec_resolve(explicit, fresh2) matches Ok(res2)
            &&& res2.contract == res.contract
        }),
{
    lemma_hex_round_trip(fresh);
}

} // verus!

