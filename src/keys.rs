use vstd::prelude::*;
use crate::address::{prefix_spec, Address, AddressVersion, Prefix};
use crate::crypto::{
    full_key_from_text, is_x_only_point, parse_full_key, parse_x_only_key, ripemd160, ripemd160_of,
    sha256, sha256_of, x_only_from_slice, x_only_from_text, x_only_of_full,
};
use crate::error::Error;
use crate::hex::{hex_of, to_hex};
use crate::network::{network_type_of, parse_network_type, NetworkType};

verus! {

/// Whether bytes are the serialization of an x-only key: 32 bytes holding
/// the x coordinate of a curve point.
pub open spec fn valid_x_only(x: Seq<u8>) -> bool {
    x.len() == 32 && is_x_only_point(x)
}

/// Whether an x-only serialization and an optional full serialization form a
/// key: the full form, where present, is 33 bytes and projects to the x-only
/// form.
pub open spec fn valid_key(x: Seq<u8>, full: Option<Seq<u8>>) -> bool {
    &&& valid_x_only(x)
    &&& full matches Some(f) ==> f.len() == 33 && x == x_only_of_full(f)
}

/// The key that a hex text denotes: a full key where the text parses as one,
/// else an x-only key.
pub open spec fn parse_key_spec(s: Seq<char>) -> Result<(Seq<u8>, Option<Seq<u8>>), Error> {
    match full_key_from_text(s) {
        Some(f) => Ok((x_only_of_full(f), Some(f))),
        None => match x_only_from_text(s) {
            Some(x) => Ok((x, None)),
            None => Err(Error::InvalidKeyFormat),
        },
    }
}

/// The Schnorr address of an x-only serialization on a network.
pub open spec fn schnorr_address(x: Seq<u8>, t: NetworkType) -> (Prefix, AddressVersion, Seq<u8>) {
    (prefix_spec(t), AddressVersion::PubKey, x)
}

/// The ECDSA address of a key on a network, which needs the full form.
pub open spec fn ecdsa_address(full: Option<Seq<u8>>, t: NetworkType) -> Result<
    (Prefix, AddressVersion, Seq<u8>),
    Error,
> {
    match full {
        Some(f) => Ok((prefix_spec(t), AddressVersion::PubKeyECDSA, f)),
        None => Err(Error::MissingFullKey),
    }
}

/// The fingerprint of a full serialization: the hex text of the first four
/// bytes of RIPEMD160(SHA256(full)).
pub open spec fn fingerprint_of(full: Seq<u8>) -> Seq<char> {
    hex_of(ripemd160_of(sha256_of(full)).subrange(0, 4))
}

/// The x-only key that an address payload denotes.
pub open spec fn from_payload_spec(payload: Seq<u8>) -> Result<Seq<u8>, Error> {
    if is_x_only_point(payload) {
        Ok(payload)
    } else {
        Err(Error::InvalidKeyFormat)
    }
}

/// The fingerprint text of a digest: its first four bytes in hex.
pub fn fingerprint_from_digest(digest: &[u8]) -> (r: String)
    requires
        digest@.len() >= 4,
    ensures
        r@ == hex_of(digest@.subrange(0, 4)),
{
    let mut head: Vec<u8> = Vec::new();
    let mut i: usize = 0;
    while i < 4
        invariant
            digest@.len() >= 4,
            i <= 4,
            head@ == digest@.subrange(0, i as int),
        decreases 4 - i,
    {
        head.push(digest[i]);
        i = i + 1;
    }
    to_hex(head.as_slice())
}

/// A Schnorr public key in its 32-byte x-only serialization.
#[derive(Clone, Debug)]
pub struct XOnlyPublicKey {
    inner: Vec<u8>,
}

impl View for XOnlyPublicKey {
    type V = Seq<u8>;

    closed spec fn view(&self) -> Seq<u8> {
        self.inner@
    }
}

/// A public key: its x-only projection, always present, and its full
/// compressed serialization where the key was given in full.
#[derive(Clone, Debug)]
pub struct PublicKey {
    xonly_public_key: XOnlyPublicKey,
    public_key: Option<Vec<u8>>,
}

impl View for PublicKey {
    type V = (Seq<u8>, Option<Seq<u8>>);

    closed spec fn view(&self) -> (Seq<u8>, Option<Seq<u8>>) {
        (
            self.xonly_public_key@,
            match self.public_key {
                Some(f) => Some(f@),
                None => None,
            },
        )
    }
}

fn copy_bytes(b: &Vec<u8>) -> (r: Vec<u8>)
    ensures
        r@ == b@,
{
    let mut r: Vec<u8> = Vec::new();
    let mut i: usize = 0;
    while i < b.len()
        invariant
            i <= b@.len(),
            r@ == b@.subrange(0, i as int),
        decreases b@.len() - i,
    {
        r.push(b[i]);
        i = i + 1;
    }
    assert(b@.subrange(0, b@.len() as int) == b@);
    r
}

impl XOnlyPublicKey {
    /// Well-formed: the bytes are a valid x-only serialization.
    pub open spec fn wf(&self) -> bool {
        valid_x_only(self@)
    }

    /// The key with the given valid x-only serialization.
    pub fn new(inner: Vec<u8>) -> (r: XOnlyPublicKey)
        requires
            valid_x_only(inner@),
        ensures
            r@ == inner@,
            r.wf(),
    {
        XOnlyPublicKey { inner }
    }

    /// Parses a hex text as an x-only key.
    pub fn try_new(key: &str) -> (r: Result<XOnlyPublicKey, Error>)
        ensures
            match r {
                Ok(k) => x_only_from_text(key@) == Some(k@) && k.wf(),
                Err(e) => x_only_from_text(key@) is None && e == Error::InvalidKeyFormat,
            },
    {
        match parse_x_only_key(key) {
            Some(x) => Ok(XOnlyPublicKey { inner: x }),
            None => Err(Error::InvalidKeyFormat),
        }
    }

    /// Same as `try_new`.
    pub fn try_new_py(key: &str) -> (r: Result<XOnlyPublicKey, Error>)
        ensures
            match r {
                Ok(k) => x_only_from_text(key@) == Some(k@) && k.wf(),
                Err(e) => x_only_from_text(key@) is None && e == Error::InvalidKeyFormat,
            },
    {
        XOnlyPublicKey::try_new(key)
    }

    /// The serialized key as lowercase hex text.
    pub fn to_string_impl(&self) -> (r: String)
        ensures
            r@ == hex_of(self@),
    {
        to_hex(self.inner.as_slice())
    }

    /// Same as `to_string_impl`.
    pub fn to_string_impl_py(&self) -> (r: String)
        ensures
            r@ == hex_of(self@),
    {
        self.to_string_impl()
    }

    /// The serialized key.
    pub fn serialize(&self) -> (r: Vec<u8>)
        ensures
            r@ == self@,
    {
        copy_bytes(&self.inner)
    }

    /// The Schnorr address of this key on a network; it always succeeds.
    pub fn to_address(&self, network: NetworkType) -> (r: Result<Address, Error>)
        ensures
            r matches Ok(a) && a@ == schnorr_address(self@, network),
    {
        Ok(Address::new(network, AddressVersion::PubKey, self.serialize()))
    }

    /// An ECDSA address needs the full key, which an x-only key lacks: this
    /// always fails with `MissingFullKey`.
    pub fn to_address_ecdsa(&self, network: NetworkType) -> (r: Result<Address, Error>)
        ensures
            r matches Err(e) && e == Error::MissingFullKey,
    {
        Err(Error::MissingFullKey)
    }

    /// The Schnorr address of this key on the network that a token names.
    pub fn to_address_py(&self, network: &str) -> (r: Result<Address, Error>)
        ensures
            match network_type_of(network@) {
                Some(t) => r matches Ok(a) && a@ == schnorr_address(self@, t),
                None => r matches Err(e) && e == Error::InvalidNetworkType,
            },
    {
        match parse_network_type(network) {
            Some(t) => self.to_address(t),
            None => Err(Error::InvalidNetworkType),
        }
    }

    /// Fails with `InvalidNetworkType` on an unknown token, else with
    /// `MissingFullKey`.
    pub fn to_address_ecdsa_py(&self, network: &str) -> (r: Result<Address, Error>)
        ensures
            match network_type_of(network@) {
                Some(t) => r matches Err(e) && e == Error::MissingFullKey,
                None => r matches Err(e) && e == Error::InvalidNetworkType,
            },
    {
        match parse_network_type(network) {
            Some(t) => self.to_address_ecdsa(t),
            None => Err(Error::InvalidNetworkType),
        }
    }

    /// The x-only key that an address's payload holds.
    pub fn from_address(address: &Address) -> (r: Result<XOnlyPublicKey, Error>)
        ensures
            match r {
                Ok(k) => from_payload_spec(address.payload@) == Ok::<Seq<u8>, Error>(k@) && k.wf(),
                Err(e) => from_payload_spec(address.payload@) == Err::<Seq<u8>, Error>(e),
            },
    {
        match x_only_from_slice(address.payload.as_slice()) {
            Some(x) => Ok(XOnlyPublicKey::new(x)),
            None => Err(Error::InvalidKeyFormat),
        }
    }

    /// Same as `from_address`.
    pub fn from_address_py(address: &Address) -> (r: Result<XOnlyPublicKey, Error>)
        ensures
            match r {
                Ok(k) => from_payload_spec(address.payload@) == Ok::<Seq<u8>, Error>(k@) && k.wf(),
                Err(e) => from_payload_spec(address.payload@) == Err::<Seq<u8>, Error>(e),
            },
    {
        XOnlyPublicKey::from_address(address)
    }
}

impl PublicKey {
    /// Well-formed: the x-only form is valid and is the projection of the
    /// full form where that is present.
    pub open spec fn wf(&self) -> bool {
        valid_key(self@.0, self@.1)
    }

    /// Parses a hex text as a full public key, or failing that as an x-only
    /// key; fails with `InvalidKeyFormat` where it is neither.
    pub fn try_new(key: &str) -> (r: Result<PublicKey, Error>)
        ensures
            match r {
                Ok(k) => parse_key_spec(key@) == Ok::<_, Error>(k@) && k.wf(),
                Err(e) => parse_key_spec(key@) == Err::<(Seq<u8>, Option<Seq<u8>>), Error>(e),
            },
    {
        match parse_full_key(key) {
            Some((full, x)) => Ok(PublicKey { xonly_public_key: XOnlyPublicKey { inner: x }, public_key: Some(full) }),
            None => match parse_x_only_key(key) {
                Some(x) => Ok(PublicKey { xonly_public_key: XOnlyPublicKey { inner: x }, public_key: None }),
                None => Err(Error::InvalidKeyFormat),
            },
        }
    }

    /// Same as `try_new`.
    pub fn try_new_py(key: &str) -> (r: Result<PublicKey, Error>)
        ensures
            match r {
                Ok(k) => parse_key_spec(key@) == Ok::<_, Error>(k@) && k.wf(),
                Err(e) => parse_key_spec(key@) == Err::<(Seq<u8>, Option<Seq<u8>>), Error>(e),
            },
    {
        PublicKey::try_new(key)
    }

    /// The key as lowercase hex text: its full form where present, else its
    /// x-only form.
    pub fn to_string_impl(&self) -> (r: String)
        ensures
            r@ == hex_of(
                match self@.1 {
                    Some(f) => f,
                    None => self@.0,
                },
            ),
    {
        match &self.public_key {
            Some(f) => to_hex(f.as_slice()),
            None => self.xonly_public_key.to_string_impl(),
        }
    }

    /// Same as `to_string_impl`.
    pub fn to_string_impl_py(&self) -> (r: String)
        ensures
            r@ == hex_of(
                match self@.1 {
                    Some(f) => f,
                    None => self@.0,
                },
            ),
    {
        self.to_string_impl()
    }

    /// The x-only projection of this key.
    pub fn to_x_only_public_key(&self) -> (r: XOnlyPublicKey)
        ensures
            r@ == self@.0,
            self.wf() ==> r.wf(),
    {
        XOnlyPublicKey { inner: copy_bytes(&self.xonly_public_key.inner) }
    }

    /// The full compressed serialization; fails with `NotAFullKey` for a key
    /// given in x-only form.
    pub fn to_full(&self) -> (r: Result<Vec<u8>, Error>)
        ensures
            match self@.1 {
                Some(f) => r matches Ok(b) && b@ == f,
                None => r matches Err(e) && e == Error::NotAFullKey,
            },
    {
        match &self.public_key {
            Some(f) => Ok(copy_bytes(f)),
            None => Err(Error::NotAFullKey),
        }
    }

    /// The 4-byte fingerprint, as hex text, of a key given in full: the first
    /// four bytes of RIPEMD160(SHA256(full)). Absent for an x-only key.
    pub fn fingerprint(&self) -> (r: Option<String>)
        ensures
            match self@.1 {
                Some(f) => r matches Some(h) && h@ == fingerprint_of(f),
                None => r is None,
            },
    {
        match &self.public_key {
            Some(f) => {
                let digest = ripemd160(sha256(f.as_slice()).as_slice());
                Some(fingerprint_from_digest(digest.as_slice()))
            },
            None => None,
        }
    }

    /// The Schnorr address of this key on a network: its x-only form under
    /// the `PubKey` version. It always succeeds.
    pub fn to_address(&self, network_type: NetworkType) -> (r: Result<Address, Error>)
        ensures
            r matches Ok(a) && a@ == schnorr_address(self@.0, network_type),
    {
        self.xonly_public_key.to_address(network_type)
    }

    /// The ECDSA address of this key on a network: its full form under the
    /// `PubKeyECDSA` version; fails with `MissingFullKey` for an x-only key.
    pub fn to_address_ecdsa(&self, network_type: NetworkType) -> (r: Result<Address, Error>)
        ensures
            match ecdsa_address(self@.1, network_type) {
                Ok(v) => r matches Ok(a) && a@ == v,
                Err(e) => r matches Err(e2) && e2 == e,
            },
    {
        match &self.public_key {
            Some(f) => Ok(Address::new(network_type, AddressVersion::PubKeyECDSA, copy_bytes(f))),
            None => Err(Error::MissingFullKey),
        }
    }

    /// The Schnorr address of this key on the network that a token names.
    pub fn to_address_py(&self, network: &str) -> (r: Result<Address, Error>)
        ensures
            match network_type_of(network@) {
                Some(t) => r matches Ok(a) && a@ == schnorr_address(self@.0, t),
                None => r matches Err(e) && e == Error::InvalidNetworkType,
            },
    {
        match parse_network_type(network) {
            Some(t) => self.to_address(t),
            None => Err(Error::InvalidNetworkType),
        }
    }

    /// The ECDSA address of this key on the network that a token names.
    pub fn to_address_ecdsa_py(&self, network: &str) -> (r: Result<Address, Error>)
        ensures
            match network_type_of(network@) {
                Some(t) => match ecdsa_address(self@.1, t) {
                    Ok(v) => r matches Ok(a) && a@ == v,
                    Err(e) => r matches Err(e2) && e2 == e,
                },
                None => r matches Err(e) && e == Error::InvalidNetworkType,
            },
    {
        match parse_network_type(network) {
            Some(t) => self.to_address_ecdsa(t),
            None => Err(Error::InvalidNetworkType),
        }
    }
}

/// Addresses are a function of key and network. Keys with different full
/// forms never share an ECDSA address, and two keys share a Schnorr address
/// exactly when their x-only projections coincide.
pub proof fn lemma_address_identity(k1: PublicKey, k2: PublicKey, t: NetworkType)
    requires
        k1.wf(),
        k2.wf(),
        k1@.1 is Some,
        k2@.1 is Some,
    ensures
        k1@ == k2@ ==> schnorr_address(k1@.0, t) == schnorr_address(k2@.0, t) && ecdsa_address(
            k1@.1,
            t,
        ) == ecdsa_address(k2@.1, t),
        k1@ != k2@ ==> ecdsa_address(k1@.1, t) != ecdsa_address(k2@.1, t),
        (schnorr_address(k1@.0, t) == schnorr_address(k2@.0, t)) == (k1@.0 == k2@.0),
{
    if k1@ != k2@ && ecdsa_address(k1@.1, t) == ecdsa_address(k2@.1, t) {
        let f1 = k1@.1->0;
        let f2 = k2@.1->0;
        assert(f1 == f2);
        assert(k1@.0 == x_only_of_full(f1));
        assert(k2@.0 == x_only_of_full(f2));
        assert(k1@ == k2@);
    }
}

/// Reading an x-only key back from the payload of its Schnorr address gives
/// the serialized key that built the address.
pub proof fn lemma_schnorr_address_round_trip(k: XOnlyPublicKey, t: NetworkType)
    requires
        k.wf(),
    ensures
        from_payload_spec(schnorr_address(k@, t).2) == Ok::<Seq<u8>, Error>(k@),
{
}

} // verus!
