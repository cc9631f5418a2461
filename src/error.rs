use vstd::prelude::*;

verus! {

/// Failures reported by key parsing, address derivation, network resolution
/// and endpoint selection.
#[derive(Clone, Copy, Debug, PartialEq, Eq, Structural)]
pub enum Error {
    /// The text is neither a full public key nor an x-only public key.
    InvalidKeyFormat,
    /// A full key was requested from a key that only has its x-only form.
    NotAFullKey,
    /// An ECDSA address was requested from a key without its full form.
    MissingFullKey,
    /// The network type token is not one of the supported network types.
    InvalidNetworkType,
    /// The network type has no canonical instance and no suffix was given.
    SuffixRequired,
    /// The wire encoding token is neither `borsh` nor `json`.
    InvalidEncoding,
    /// No endpoint serves the requested encoding and network.
    NoViableEndpoint,
    /// The transport handshake with the selected endpoint failed.
    ConnectionFailed,
}

/// The descriptive message of an error.
pub open spec fn message_of(e: Error) -> Seq<char> {
    match e {
        Error::InvalidKeyFormat => "Invalid public key format"@,
        Error::NotAFullKey => "Not a full public key"@,
        Error::MissingFullKey => "An ECDSA address needs a full public key"@,
        Error::InvalidNetworkType => "Invalid network type"@,
        Error::SuffixRequired => "Network suffix required for this network"@,
        Error::InvalidEncoding => "Invalid wRPC encoding"@,
        Error::NoViableEndpoint => "No endpoint serves this encoding and network"@,
        Error::ConnectionFailed => "Connection failed"@,
    }
}

impl Error {
    /// The descriptive message of this error.
    pub fn message(&self) -> (r: &'static str)
        ensures
            r@ == message_of(*self),
    {
        match self {
            Error::InvalidKeyFormat => "Invalid public key format",
            Error::NotAFullKey => "Not a full public key",
            Error::MissingFullKey => "An ECDSA address needs a full public key",
            Error::InvalidNetworkType => "Invalid network type",
            Error::SuffixRequired => "Network suffix required for this network",
            Error::InvalidEncoding => "Invalid wRPC encoding",
            Error::NoViableEndpoint => "No endpoint serves this encoding and network",
            Error::ConnectionFailed => "Connection failed",
        }
    }
}

} // verus!
