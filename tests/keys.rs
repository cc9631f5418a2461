use kaspa_keys::{
    fingerprint_from_digest, AddressVersion, Error, NetworkType, Prefix, PublicKey, XOnlyPublicKey,
};

const FULL: &str = "0339a36013301597daef41fbe593a02cc513d0b55527ec2df1050e2e8ff49c85c2";
const FULL_EVEN: &str = "0239a36013301597daef41fbe593a02cc513d0b55527ec2df1050e2e8ff49c85c2";
const XONLY: &str = "39a36013301597daef41fbe593a02cc513d0b55527ec2df1050e2e8ff49c85c2";

fn bytes_of(hex: &str) -> Vec<u8> {
    (0..hex.len()).step_by(2).map(|i| u8::from_str_radix(&hex[i..i + 2], 16).unwrap()).collect()
}

#[test]
fn fingerprint_matches_reference() {
    let key = PublicKey::try_new(FULL).unwrap();
    assert_eq!(key.fingerprint(), Some("3442193e".to_string()));
}

#[test]
fn fingerprint_from_digest_takes_four_bytes() {
    let digest = bytes_of("3442193e1bb70916e914552172cd4e2dbc9df811");
    assert_eq!(fingerprint_from_digest(&digest), "3442193e");
    assert_eq!(fingerprint_from_digest(&[0x00, 0x0f, 0xa0, 0xff, 0x12]), "000fa0ff");
}

#[test]
fn full_key_keeps_both_forms() {
    let key = PublicKey::try_new(FULL).unwrap();
    assert_eq!(key.to_string_impl(), FULL);
    assert_eq!(key.to_string_impl_py(), FULL);
    assert_eq!(key.to_x_only_public_key().to_string_impl(), XONLY);
    assert_eq!(key.to_full().unwrap(), bytes_of(FULL));
}

#[test]
fn x_only_key_has_no_full_form() {
    let key = PublicKey::try_new(XONLY).unwrap();
    assert_eq!(key.to_string_impl(), XONLY);
    assert_eq!(key.fingerprint(), None);
    assert_eq!(key.to_full().unwrap_err(), Error::NotAFullKey);
    assert_eq!(key.to_address_ecdsa(NetworkType::Mainnet).unwrap_err(), Error::MissingFullKey);
    assert_eq!(key.to_address_ecdsa_py("mainnet").unwrap_err(), Error::MissingFullKey);
    let addr = key.to_address(NetworkType::Mainnet).unwrap();
    assert_eq!(addr.payload, bytes_of(XONLY));
}

#[test]
fn invalid_key_text_is_refused() {
    assert_eq!(PublicKey::try_new("hello").unwrap_err(), Error::InvalidKeyFormat);
    assert_eq!(PublicKey::try_new("").unwrap_err(), Error::InvalidKeyFormat);
    assert_eq!(PublicKey::try_new_py("0439a360").unwrap_err(), Error::InvalidKeyFormat);
    assert_eq!(XOnlyPublicKey::try_new(FULL).unwrap_err(), Error::InvalidKeyFormat);
}

#[test]
fn schnorr_address_carries_x_only_payload() {
    let key = PublicKey::try_new(FULL).unwrap();
    let addr = key.to_address(NetworkType::Mainnet).unwrap();
    assert_eq!(addr.prefix, Prefix::Mainnet);
    assert_eq!(addr.version, AddressVersion::PubKey);
    assert_eq!(addr.payload, bytes_of(XONLY));
    let again = key.to_address(NetworkType::Mainnet).unwrap();
    assert_eq!(again.payload, addr.payload);
    assert_eq!(again.prefix, addr.prefix);
}

#[test]
fn ecdsa_address_carries_full_payload() {
    let key = PublicKey::try_new(FULL).unwrap();
    let addr = key.to_address_ecdsa(NetworkType::Testnet).unwrap();
    assert_eq!(addr.prefix, Prefix::Testnet);
    assert_eq!(addr.version, AddressVersion::PubKeyECDSA);
    assert_eq!(addr.payload, bytes_of(FULL));
    assert_eq!(addr.payload.len(), 33);
}

#[test]
fn keys_of_opposite_parity_share_only_the_schnorr_address() {
    let odd = PublicKey::try_new(FULL).unwrap();
    let even = PublicKey::try_new(FULL_EVEN).unwrap();
    let a = odd.to_address(NetworkType::Mainnet).unwrap();
    let b = even.to_address(NetworkType::Mainnet).unwrap();
    assert_eq!(a.payload, b.payload);
    let c = odd.to_address_ecdsa(NetworkType::Mainnet).unwrap();
    let d = even.to_address_ecdsa(NetworkType::Mainnet).unwrap();
    assert_ne!(c.payload, d.payload);
    assert_ne!(odd.fingerprint(), even.fingerprint());
}

#[test]
fn address_prefix_follows_network_token() {
    let key = PublicKey::try_new(FULL).unwrap();
    assert_eq!(key.to_address_py("mainnet").unwrap().prefix, Prefix::Mainnet);
    assert_eq!(key.to_address_py("MainNet").unwrap().prefix, Prefix::Mainnet);
    assert_eq!(key.to_address_py("testnet").unwrap().prefix, Prefix::Testnet);
    assert_eq!(key.to_address_py("simnet").unwrap().prefix, Prefix::Simnet);
    assert_eq!(key.to_address_py("devnet").unwrap().prefix, Prefix::Devnet);
    assert_eq!(key.to_address_py("bogus").unwrap_err(), Error::InvalidNetworkType);
    assert_eq!(key.to_address_ecdsa_py("devnet").unwrap().prefix, Prefix::Devnet);
    assert_eq!(key.to_address_ecdsa_py("bogus").unwrap_err(), Error::InvalidNetworkType);
}

#[test]
fn x_only_key_round_trips_through_address() {
    let key = XOnlyPublicKey::try_new(XONLY).unwrap();
    let addr = key.to_address(NetworkType::Devnet).unwrap();
    let back = XOnlyPublicKey::from_address(&addr).unwrap();
    assert_eq!(back.serialize(), bytes_of(XONLY));
    assert_eq!(back.to_string_impl(), XONLY);
    let back_py = XOnlyPublicKey::from_address_py(&addr).unwrap();
    assert_eq!(back_py.to_string_impl_py(), XONLY);
}

#[test]
fn x_only_key_from_bad_payload_is_refused() {
    let key = PublicKey::try_new(FULL).unwrap();
    let addr = key.to_address_ecdsa(NetworkType::Mainnet).unwrap();
    assert_eq!(XOnlyPublicKey::from_address(&addr).unwrap_err(), Error::InvalidKeyFormat);
}

#[test]
fn x_only_key_has_no_ecdsa_address() {
    let key = XOnlyPublicKey::try_new_py(XONLY).unwrap();
    assert_eq!(key.to_address_ecdsa(NetworkType::Mainnet).unwrap_err(), Error::MissingFullKey);
    assert_eq!(key.to_address_ecdsa_py("mainnet").unwrap_err(), Error::MissingFullKey);
    assert_eq!(key.to_address_ecdsa_py("nonet").unwrap_err(), Error::InvalidNetworkType);
    let addr = key.to_address_py("simnet").unwrap();
    assert_eq!(addr.prefix, Prefix::Simnet);
    assert_eq!(addr.version, AddressVersion::PubKey);
}

#[test]
fn x_only_key_from_bytes() {
    let key = XOnlyPublicKey::new(bytes_of(XONLY));
    assert_eq!(key.to_string_impl(), XONLY);
}

#[test]
fn address_text_carries_network_prefix() {
    let key = PublicKey::try_new(FULL).unwrap();
    let main = key.to_address(NetworkType::Mainnet).unwrap().to_address_string().unwrap();
    assert!(main.starts_with("kaspa:"));
    let test = key.to_address(NetworkType::Testnet).unwrap().to_address_string().unwrap();
    assert!(test.starts_with("kaspatest:"));
    let ecdsa = key.to_address_ecdsa(NetworkType::Mainnet).unwrap().to_address_string().unwrap();
    assert!(ecdsa.starts_with("kaspa:"));
    assert_ne!(main, ecdsa);
    let again = key.to_address(NetworkType::Mainnet).unwrap().to_address_string().unwrap();
    assert_eq!(main, again);
}

#[test]
fn address_text_needs_fitting_payload() {
    let addr = kaspa_keys::Address::new(NetworkType::Simnet, AddressVersion::PubKeyECDSA, vec![1, 2, 3]);
    assert_eq!(addr.prefix, Prefix::Simnet);
    assert_eq!(addr.to_address_string(), None);
    assert_eq!(Prefix::from_network_type(NetworkType::Devnet), Prefix::Devnet);
}
