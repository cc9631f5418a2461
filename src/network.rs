use vstd::prelude::*;
use std::str::FromStr;
use crate::error::Error;
use kaspa_consensus_core::network::NetworkType as KaspaNetworkType;

verus! {

/// The kinds of Kaspa network.
#[derive(Clone, Copy, Debug, PartialEq, Eq, Structural)]
pub enum NetworkType {
    Mainnet,
    Testnet,
    Devnet,
    Simnet,
}

/// A network instance: its type and, for types with several concurrently
/// running instances, a numeric suffix that tells them apart.
#[derive(Clone, Copy, Debug, PartialEq, Eq, Structural)]
pub struct NetworkId {
    pub network_type: NetworkType,
    pub suffix: Option<u32>,
}

/// Lower-case form of a text, as `str::to_lowercase` gives it.
pub uninterp spec fn lowercase_of(s: Seq<char>) -> Seq<char>;

/// The network type named by an already lower-cased token.
pub open spec fn network_type_of_lower(t: Seq<char>) -> Option<NetworkType> {
    if t == "mainnet"@ {
        Some(NetworkType::Mainnet)
    } else if t == "testnet"@ {
        Some(NetworkType::Testnet)
    } else if t == "simnet"@ {
        Some(NetworkType::Simnet)
    } else if t == "devnet"@ {
        Some(NetworkType::Devnet)
    } else {
        None
    }
}

/// The network type named by a token, letter case ignored.
pub open spec fn network_type_of(s: Seq<char>) -> Option<NetworkType> {
    network_type_of_lower(lowercase_of(s))
}

/// Whether a network type lacks a single canonical instance, so that an
/// identifier for it needs a suffix.
pub open spec fn needs_suffix(t: NetworkType) -> bool {
    t is Testnet || t is Devnet
}

/// The identifier that a network type and an optional suffix resolve to.
pub open spec fn resolve_type_spec(t: NetworkType, suffix: Option<u32>) -> Result<NetworkId, Error> {
    if !needs_suffix(t) {
        Ok(NetworkId { network_type: t, suffix: None })
    } else {
        match suffix {
            None => Err(Error::SuffixRequired),
            Some(n) => Ok(NetworkId { network_type: t, suffix: Some(n) }),
        }
    }
}

/// The identifier that a type token and an optional suffix resolve to.
pub open spec fn resolve_spec(s: Seq<char>, suffix: Option<u32>) -> Result<NetworkId, Error> {
    match network_type_of(s) {
        None => Err(Error::InvalidNetworkType),
        Some(t) => resolve_type_spec(t, suffix),
    }
}

/// Relies on `kaspa_consensus_core::network::NetworkType::from_str`, which
/// lower-cases the token with `str::to_lowercase` and accepts `mainnet`,
/// `testnet`, `simnet` and `devnet`.
#[verifier::external_body]
pub(crate) fn parse_network_type(s: &str) -> (r: Option<NetworkType>)
    ensures
        r == network_type_of_lower(lowercase_of(s@)),
{
    match KaspaNetworkType::from_str(s) {
        Ok(KaspaNetworkType::Mainnet) => Some(NetworkType::Mainnet),
        Ok(KaspaNetworkType::Testnet) => Some(NetworkType::Testnet),
        Ok(KaspaNetworkType::Devnet) => Some(NetworkType::Devnet),
        Ok(KaspaNetworkType::Simnet) => Some(NetworkType::Simnet),
        Err(_) => None,
    }
}

impl NetworkType {
    /// Whether identifiers of this network type need a suffix.
    pub fn needs_suffix(&self) -> (r: bool)
        ensures
            r == needs_suffix(*self),
    {
        match self {
            NetworkType::Testnet | NetworkType::Devnet => true,
            _ => false,
        }
    }
}

impl NetworkId {
    /// The canonical identifier of a network type, which exists only for
    /// types with a single instance.
    pub fn try_new(network_type: NetworkType) -> (r: Result<NetworkId, Error>)
        ensures
            r == (if needs_suffix(network_type) {
                Err(Error::SuffixRequired)
            } else {
                Ok(NetworkId { network_type, suffix: None })
            }),
    {
        if network_type.needs_suffix() {
            Err(Error::SuffixRequired)
        } else {
            Ok(NetworkId { network_type, suffix: None })
        }
    }

    /// An identifier of the network type with the given suffix.
    pub fn with_suffix(network_type: NetworkType, suffix: u32) -> (r: NetworkId)
        ensures
            r == (NetworkId { network_type, suffix: Some(suffix) }),
    {
        NetworkId { network_type, suffix: Some(suffix) }
    }
}

/// Resolves a network type and an optional suffix to a network identifier:
/// the canonical identifier where the type has one (the suffix is then
/// ignored), else the type with the suffix, which is then required.
pub fn resolve_network_id(network_type: NetworkType, network_suffix: Option<u32>) -> (r: Result<NetworkId, Error>)
    ensures
        r == resolve_type_spec(network_type, network_suffix),
{
    match NetworkId::try_new(network_type) {
        Ok(id) => Ok(id),
        Err(_) => match network_suffix {
            None => Err(Error::SuffixRequired),
            Some(suffix) => Ok(NetworkId::with_suffix(network_type, suffix)),
        },
    }
}

/// Resolves a network type token, letter case ignored, and an optional suffix
/// to a network identifier; fails with `InvalidNetworkType` on an unknown
/// token.
pub fn into_network_id(network: &str, network_suffix: Option<u32>) -> (r: Result<NetworkId, Error>)
    ensures
        r == resolve_spec(network@, network_suffix),
{
    let network_type = match parse_network_type(network) {
        Some(t) => t,
        None => return Err(Error::InvalidNetworkType),
    };
    resolve_network_id(network_type, network_suffix)
}

} // verus!
