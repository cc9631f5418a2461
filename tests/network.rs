use kaspa_keys::{into_network_id, resolve_network_id, Error, NetworkId, NetworkType};

#[test]
fn mainnet_resolves_without_suffix() {
    assert_eq!(
        into_network_id("mainnet", None),
        Ok(NetworkId { network_type: NetworkType::Mainnet, suffix: None })
    );
}

#[test]
fn devnet_requires_suffix() {
    assert_eq!(into_network_id("devnet", None), Err(Error::SuffixRequired));
    assert_eq!(into_network_id("testnet", None), Err(Error::SuffixRequired));
}

#[test]
fn devnet_with_suffix() {
    assert_eq!(
        into_network_id("devnet", Some(5)),
        Ok(NetworkId { network_type: NetworkType::Devnet, suffix: Some(5) })
    );
    assert_eq!(
        into_network_id("testnet", Some(10)),
        Ok(NetworkId { network_type: NetworkType::Testnet, suffix: Some(10) })
    );
}

#[test]
fn unknown_network_type_is_refused() {
    assert_eq!(into_network_id("bogus", None), Err(Error::InvalidNetworkType));
    assert_eq!(into_network_id("", Some(1)), Err(Error::InvalidNetworkType));
}

#[test]
fn suffix_is_ignored_for_unique_networks() {
    assert_eq!(
        into_network_id("mainnet", Some(7)),
        Ok(NetworkId { network_type: NetworkType::Mainnet, suffix: None })
    );
    assert_eq!(
        into_network_id("SIMNET", None),
        Ok(NetworkId { network_type: NetworkType::Simnet, suffix: None })
    );
}

#[test]
fn resolve_from_network_type() {
    assert_eq!(resolve_network_id(NetworkType::Devnet, None), Err(Error::SuffixRequired));
    assert_eq!(
        resolve_network_id(NetworkType::Testnet, Some(11)),
        Ok(NetworkId::with_suffix(NetworkType::Testnet, 11))
    );
    assert_eq!(NetworkId::try_new(NetworkType::Simnet), Ok(NetworkId { network_type: NetworkType::Simnet, suffix: None }));
    assert!(NetworkType::Testnet.needs_suffix());
    assert!(!NetworkType::Mainnet.needs_suffix());
}

#[test]
fn errors_carry_messages() {
    assert_eq!(Error::InvalidNetworkType.message(), "Invalid network type");
    assert_eq!(Error::SuffixRequired.message(), "Network suffix required for this network");
    assert_eq!(Error::NoViableEndpoint.message(), "No endpoint serves this encoding and network");
}
