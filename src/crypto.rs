use vstd::prelude::*;
use std::str::FromStr;
use ripemd::Digest;

verus! {

/// Compressed serialization of the key that `secp256k1::PublicKey::from_str`
/// parses from the text, or none where it refuses the text.
pub uninterp spec fn full_key_from_text(s: Seq<char>) -> Option<Seq<u8>>;

/// Serialization of the x-only projection of the full key whose compressed
/// serialization is given.
pub uninterp spec fn x_only_of_full(full: Seq<u8>) -> Seq<u8>;

/// Serialization of the key that `secp256k1::XOnlyPublicKey::from_str`
/// parses from the text, or none where it refuses the text.
pub uninterp spec fn x_only_from_text(s: Seq<char>) -> Option<Seq<u8>>;

/// Whether `secp256k1::XOnlyPublicKey::from_slice` accepts the bytes.
pub uninterp spec fn is_x_only_point(b: Seq<u8>) -> bool;

/// SHA-256 digest of a byte string.
pub uninterp spec fn sha256_of(b: Seq<u8>) -> Seq<u8>;

/// RIPEMD-160 digest of a byte string.
pub uninterp spec fn ripemd160_of(b: Seq<u8>) -> Seq<u8>;

/// Relies on `secp256k1::PublicKey::from_str` to parse hex text as a full
/// public key, on `PublicKey::serialize` for its 33-byte compressed form and
/// on `PublicKey::x_only_public_key` with `XOnlyPublicKey::serialize` for its
/// 32-byte x-only form, which `XOnlyPublicKey::from_slice` accepts again.
#[verifier::external_body]
pub(crate) fn parse_full_key(s: &str) -> (r: Option<(Vec<u8>, Vec<u8>)>)
    ensures
        match r {
            Some((f, x)) => {
                &&& full_key_from_text(s@) == Some(f@)
                &&& f@.len() == 33
                &&& x@ == x_only_of_full(f@)
                &&& x@.len() == 32
                &&& is_x_only_point(x@)
            },
            None => full_key_from_text(s@) is None,
        },
{
    match secp256k1::PublicKey::from_str(s) {
        Ok(pk) => Some((pk.serialize().to_vec(), pk.x_only_public_key().0.serialize().to_vec())),
        Err(_) => None,
    }
}

/// Relies on `secp256k1::XOnlyPublicKey::from_str` to parse hex text as an
/// x-only public key, and on `XOnlyPublicKey::serialize` for its 32 bytes,
/// which `XOnlyPublicKey::from_slice` accepts again.
#[verifier::external_body]
pub(crate) fn parse_x_only_key(s: &str) -> (r: Option<Vec<u8>>)
    ensures
        match r {
            Some(x) => {
                &&& x_only_from_text(s@) == Some(x@)
                &&& x@.len() == 32
                &&& is_x_only_point(x@)
            },
            None => x_only_from_text(s@) is None,
        },
{
    match secp256k1::XOnlyPublicKey::from_str(s) {
        Ok(k) => Some(k.serialize().to_vec()),
        Err(_) => None,
    }
}

/// Relies on `secp256k1::XOnlyPublicKey::from_slice`, which accepts exactly
/// 32 bytes holding the x coordinate of a curve point, and on
/// `XOnlyPublicKey::serialize`, which gives that coordinate back.
#[verifier::external_body]
pub(crate) fn x_only_from_slice(b: &[u8]) -> (r: Option<Vec<u8>>)
    ensures
        r is Some <==> is_x_only_point(b@),
        r is Some ==> r->0@ == b@ && b@.len() == 32,
{
    match secp256k1::XOnlyPublicKey::from_slice(b) {
        Ok(k) => Some(k.serialize().to_vec()),
        Err(_) => None,
    }
}

/// Relies on `sha2::Sha256::digest`: the 32-byte SHA-256 digest.
#[verifier::external_body]
pub(crate) fn sha256(b: &[u8]) -> (r: Vec<u8>)
    ensures
        r@ == sha256_of(b@),
        r@.len() == 32,
{
    sha2::Sha256::digest(b).to_vec()
}

/// Relies on `ripemd::Ripemd160::digest`: the 20-byte RIPEMD-160 digest.
#[verifier::external_body]
pub(crate) fn ripemd160(b: &[u8]) -> (r: Vec<u8>)
    ensures
        r@ == ripemd160_of(b@),
        r@.len() == 20,
{
    ripemd::Ripemd160::digest(b).to_vec()
}

} // verus!
