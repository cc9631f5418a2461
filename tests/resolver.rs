use kaspa_keys::{Error, NetworkId, NetworkType, NodeDescriptor, Resolver, WrpcEncoding};

fn node(uid: &str, url: &str, encoding: WrpcEncoding, network_id: NetworkId) -> NodeDescriptor {
    NodeDescriptor { uid: uid.to_string(), url: url.to_string(), encoding, network_id }
}

fn mainnet() -> NetworkId {
    NetworkId { network_type: NetworkType::Mainnet, suffix: None }
}

fn testnet10() -> NetworkId {
    NetworkId { network_type: NetworkType::Testnet, suffix: Some(10) }
}

fn candidates() -> Vec<NodeDescriptor> {
    vec![
        node("a", "wss://a.example/json", WrpcEncoding::SerdeJson, mainnet()),
        node("b", "wss://b.example/borsh-t10", WrpcEncoding::Borsh, testnet10()),
        node("c", "wss://c.example/borsh", WrpcEncoding::Borsh, mainnet()),
        node("d", "wss://d.example/borsh", WrpcEncoding::Borsh, mainnet()),
    ]
}

fn pool() -> Resolver {
    Resolver::ctor(Some(vec!["https://r1.example".to_string(), "https://r2.example".to_string()]), Some(true))
}

#[test]
fn pool_is_kept_in_order() {
    let r = pool();
    assert_eq!(r.urls(), vec!["https://r1.example".to_string(), "https://r2.example".to_string()]);
    assert!(r.tls());
    let d = Resolver::ctor(None, None);
    assert!(d.urls().is_empty());
    assert!(!d.tls());
    assert!(!d.is_pool_empty());
    assert!(Resolver::ctor(Some(vec![]), None).is_pool_empty());
}

#[test]
fn first_matching_endpoint_is_selected() {
    let r = pool();
    let c = candidates();
    assert_eq!(r.get_url("borsh", "mainnet", None, &c).unwrap(), "wss://c.example/borsh");
    let n = r.get_node("borsh", "testnet", Some(10), &c).unwrap();
    assert_eq!(n.uid, "b");
    assert_eq!(n.encoding, WrpcEncoding::Borsh);
    assert_eq!(n.network_id, testnet10());
    let req = r.connect("json", "mainnet", None, &c).unwrap();
    assert_eq!(req.url, "wss://a.example/json");
    assert_eq!(req.encoding, WrpcEncoding::SerdeJson);
    assert_eq!(req.network_id, mainnet());
    assert_eq!(r.select(&c, WrpcEncoding::Borsh, mainnet()), Ok(2));
}

#[test]
fn no_endpoint_serves_request() {
    let r = pool();
    let c = candidates();
    assert_eq!(r.get_url("json", "testnet", Some(10), &c).unwrap_err(), Error::NoViableEndpoint);
    assert_eq!(r.get_node("borsh", "testnet", Some(11), &c).unwrap_err(), Error::NoViableEndpoint);
    assert_eq!(r.connect("borsh", "simnet", None, &c).unwrap_err(), Error::NoViableEndpoint);
    assert_eq!(r.get_url("borsh", "mainnet", None, &vec![]).unwrap_err(), Error::NoViableEndpoint);
}

#[test]
fn empty_pool_has_no_endpoint() {
    let r = Resolver::ctor(Some(vec![]), Some(false));
    let c = candidates();
    assert_eq!(r.get_url("borsh", "mainnet", None, &c).unwrap_err(), Error::NoViableEndpoint);
    assert_eq!(r.get_node("borsh", "mainnet", None, &c).unwrap_err(), Error::NoViableEndpoint);
    assert_eq!(r.connect("borsh", "mainnet", None, &c).unwrap_err(), Error::NoViableEndpoint);
}

#[test]
fn request_errors_come_before_selection() {
    let r = pool();
    let c = candidates();
    assert_eq!(r.get_url("xml", "mainnet", None, &c).unwrap_err(), Error::InvalidEncoding);
    assert_eq!(r.get_node("borsh", "bogus", None, &c).unwrap_err(), Error::InvalidNetworkType);
    assert_eq!(r.connect("borsh", "devnet", None, &c).unwrap_err(), Error::SuffixRequired);
}

#[test]
fn encoding_tokens() {
    assert_eq!(WrpcEncoding::parse("borsh"), Ok(WrpcEncoding::Borsh));
    assert_eq!(WrpcEncoding::parse("json"), Ok(WrpcEncoding::SerdeJson));
    assert_eq!(WrpcEncoding::parse("Borsh"), Err(Error::InvalidEncoding));
    assert_eq!(WrpcEncoding::parse(""), Err(Error::InvalidEncoding));
}
