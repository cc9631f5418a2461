//! Key identity and endpoint selection for a Kaspa wallet SDK: address and
//! fingerprint derivation from verification keys, network identifier
//! resolution, and selection of a service endpoint from a configured pool.

pub mod address;
pub mod crypto;
pub mod error;
pub mod hex;
pub mod keys;
pub mod network;
pub mod resolver;
pub mod text;

pub use address::{Address, AddressVersion, Prefix};
pub use error::Error;
pub use keys::{
    fingerprint_from_digest, lemma_address_identity, lemma_schnorr_address_round_trip, PublicKey,
    XOnlyPublicKey,
};
pub use network::{into_network_id, resolve_network_id, NetworkId, NetworkType};
pub use resolver::{lemma_selection_sound, ConnectRequest, NodeDescriptor, Resolver, WrpcEncoding};
