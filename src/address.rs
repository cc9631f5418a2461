use vstd::prelude::*;
use crate::network::NetworkType;

verus! {

/// The human-readable part of an address, one per network type.
#[derive(Clone, Copy, Debug, PartialEq, Eq, Structural)]
pub enum Prefix {
    Mainnet,
    Testnet,
    Simnet,
    Devnet,
}

/// How an address payload is to be read.
#[derive(Clone, Copy, Debug, PartialEq, Eq, Structural)]
pub enum AddressVersion {
    /// A 32-byte x-only key, for Schnorr signatures.
    PubKey,
    /// A 33-byte compressed full key, for ECDSA signatures.
    PubKeyECDSA,
}

/// An address: network prefix, version tag and payload bytes.
#[derive(Clone, Debug)]
pub struct Address {
    pub prefix: Prefix,
    pub version: AddressVersion,
    pub payload: Vec<u8>,
}

/// The textual form of an address (prefix, separator, checksummed payload) as
/// `kaspa_addresses` writes it.
pub uninterp spec fn address_text_of(a: (Prefix, AddressVersion, Seq<u8>)) -> Seq<char>;

/// Relies on `kaspa_addresses::Address::new`, which panics unless the payload
/// length fits the version, and on `String::from(&Address)` for the text.
#[verifier::external_body]
fn encode_address(a: &Address) -> (r: String)
    requires
        a.wf(),
    ensures
        r@ == address_text_of(a@),
{
    let prefix = match a.prefix {
        Prefix::Mainnet => kaspa_addresses::Prefix::Mainnet,
        Prefix::Testnet => kaspa_addresses::Prefix::Testnet,
        Prefix::Simnet => kaspa_addresses::Prefix::Simnet,
        Prefix::Devnet => kaspa_addresses::Prefix::Devnet,
    };
    let version = match a.version {
        AddressVersion::PubKey => kaspa_addresses::Version::PubKey,
        AddressVersion::PubKeyECDSA => kaspa_addresses::Version::PubKeyECDSA,
    };
    String::from(&kaspa_addresses::Address::new(prefix, version, a.payload.as_slice()))
}

/// The address prefix of a network type.
pub open spec fn prefix_spec(t: NetworkType) -> Prefix {
    match t {
        NetworkType::Mainnet => Prefix::Mainnet,
        NetworkType::Testnet => Prefix::Testnet,
        NetworkType::Simnet => Prefix::Simnet,
        NetworkType::Devnet => Prefix::Devnet,
    }
}

/// The payload length that a version tag asks for.
pub open spec fn payload_len(v: AddressVersion) -> nat {
    match v {
        AddressVersion::PubKey => 32,
        AddressVersion::PubKeyECDSA => 33,
    }
}

impl Prefix {
    /// The address prefix of a network type.
    pub fn from_network_type(t: NetworkType) -> (r: Prefix)
        ensures
            r == prefix_spec(t),
    {
        match t {
            NetworkType::Mainnet => Prefix::Mainnet,
            NetworkType::Testnet => Prefix::Testnet,
            NetworkType::Simnet => Prefix::Simnet,
            NetworkType::Devnet => Prefix::Devnet,
        }
    }
}

impl View for Address {
    type V = (Prefix, AddressVersion, Seq<u8>);

    open spec fn view(&self) -> (Prefix, AddressVersion, Seq<u8>) {
        (self.prefix, self.version, self.payload@)
    }
}

impl Address {
    /// Whether the payload has the length that the version asks for.
    pub open spec fn wf(&self) -> bool {
        self.payload@.len() == payload_len(self.version)
    }

    /// The textual form of the address; `None` where the payload length does
    /// not fit the version.
    pub fn to_address_string(&self) -> (r: Option<String>)
        ensures
            self.wf() ==> (r matches Some(t) && t@ == address_text_of(self@)),
            !self.wf() ==> r is None,
    {
        let expected: usize = match self.version {
            AddressVersion::PubKey => 32,
            AddressVersion::PubKeyECDSA => 33,
        };
        if self.payload.len() == expected {
            Some(encode_address(self))
        } else {
            None
        }
    }

    /// The address of a payload on a network, under a version tag.
    pub fn new(network_type: NetworkType, version: AddressVersion, payload: Vec<u8>) -> (r: Address)
        ensures
            r.prefix == prefix_spec(network_type),
            r.version == version,
            r.payload@ == payload@,
    {
        Address { prefix: Prefix::from_network_type(network_type), version, payload }
    }
}

} // verus!
