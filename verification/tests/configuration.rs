use btc_transfer::keys::{derivation_path, ecdsa_key_id, ecdsa_key_name, EcdsaCurve};
use btc_transfer::network::{get_network, network_from_name, to_btc_network, BitcoinNetwork};

#[test]
fn derivation_path_is_the_btc_label() {
    assert_eq!(derivation_path(), vec![b"btc".to_vec()]);
}

#[test]
fn unconfigured_network_is_regtest() {
    assert_eq!(get_network(None), BitcoinNetwork::Regtest);
}

#[test]
fn network_names_are_matched_whatever_their_case() {
    assert_eq!(get_network(Some("mainnet")), BitcoinNetwork::Mainnet);
    assert_eq!(get_network(Some("MAINNET")), BitcoinNetwork::Mainnet);
    assert_eq!(get_network(Some("Testnet")), BitcoinNetwork::Testnet);
    assert_eq!(get_network(Some("regtest")), BitcoinNetwork::Regtest);
}

#[test]
fn unknown_network_names_mean_regtest() {
    assert_eq!(get_network(Some("")), BitcoinNetwork::Regtest);
    assert_eq!(get_network(Some("signet")), BitcoinNetwork::Regtest);
    assert_eq!(get_network(Some("mainnet ")), BitcoinNetwork::Regtest);
}

#[test]
fn lower_case_names_are_taken_as_they_are() {
    assert_eq!(network_from_name("mainnet"), BitcoinNetwork::Mainnet);
    assert_eq!(network_from_name("testnet"), BitcoinNetwork::Testnet);
    assert_eq!(network_from_name("MAINNET"), BitcoinNetwork::Regtest);
}

#[test]
fn networks_map_to_the_bitcoin_crate() {
    assert_eq!(to_btc_network(BitcoinNetwork::Mainnet), bitcoin::Network::Bitcoin);
    assert_eq!(to_btc_network(BitcoinNetwork::Testnet), bitcoin::Network::Testnet);
    assert_eq!(to_btc_network(BitcoinNetwork::Regtest), bitcoin::Network::Regtest);
}

#[test]
fn key_names_follow_the_network() {
    assert_eq!(ecdsa_key_name(BitcoinNetwork::Mainnet), "key_1");
    assert_eq!(ecdsa_key_name(BitcoinNetwork::Testnet), "test_key_1");
    assert_eq!(ecdsa_key_name(BitcoinNetwork::Regtest), "test_key_1");
}

#[test]
fn key_id_is_on_the_bitcoin_curve() {
    let id = ecdsa_key_id(BitcoinNetwork::Mainnet);
    assert_eq!(id.curve, EcdsaCurve::Secp256k1);
    assert_eq!(id.name, "key_1");
    assert_eq!(ecdsa_key_id(BitcoinNetwork::Regtest).name, "test_key_1");
}
