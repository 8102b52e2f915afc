//! The Bitcoin networks a transfer can run on, and how one is named in configuration.

use vstd::prelude::*;

verus! {

#[verifier::external_type_specification]
pub struct ExNetwork(bitcoin::Network);

/// The network that the ledger and the signing service are asked about.
#[derive(Clone, Copy, Debug, PartialEq, Eq, Structural)]
pub enum BitcoinNetwork {
    Mainnet,
    Testnet,
    Regtest,
}

/// The lower-case form of `text`, as `str::to_lowercase` gives it.
pub uninterp spec fn lowercase_of(text: Seq<char>) -> Seq<char>;

/// Calls `str::to_lowercase`: the result is the lower-case form of `text`.
#[verifier::external_body]
fn lowercase(text: &str) -> (lower: String)
    ensures
        lower@ == lowercase_of(text@),
{
    text.to_lowercase()
}

/// The network that a lower-case name stands for: `mainnet`, `testnet`, and the
/// regression-test network for every other name.
pub open spec fn network_named(name: Seq<char>) -> BitcoinNetwork {
    if name == "mainnet"@ {
        BitcoinNetwork::Mainnet
    } else if name == "testnet"@ {
        BitcoinNetwork::Testnet
    } else {
        BitcoinNetwork::Regtest
    }
}

/// The network that the lower-case name `name` stands for.
pub fn network_from_name(name: &str) -> (network: BitcoinNetwork)
    ensures
        network == network_named(name@),
{
    let given = name.to_owned();
    if given == "mainnet".to_owned() {
        BitcoinNetwork::Mainnet
    } else if given == "testnet".to_owned() {
        BitcoinNetwork::Testnet
    } else {
        BitcoinNetwork::Regtest
    }
}

/// The network that a configuration value selects, whatever the case of its letters:
/// the regression-test network where nothing is configured.
pub fn get_network(configured: Option<&str>) -> (network: BitcoinNetwork)
    ensures
        network == match configured {
            Some(name) => network_named(lowercase_of(name@)),
            None => BitcoinNetwork::Regtest,
        },
{
    match configured {
        Some(name) => {
            let lower = lowercase(name);
            network_from_name(lower.as_str())
        },
        None => BitcoinNetwork::Regtest,
    }
}

/// The `bitcoin` crate's name for `network`.
pub open spec fn btc_network_of(network: BitcoinNetwork) -> bitcoin::Network {
    match network {
        BitcoinNetwork::Mainnet => bitcoin::Network::Bitcoin,
        BitcoinNetwork::Testnet => bitcoin::Network::Testnet,
        BitcoinNetwork::Regtest => bitcoin::Network::Regtest,
    }
}

/// The `bitcoin` crate's name for `network`.
pub fn to_btc_network(network: BitcoinNetwork) -> (btc: bitcoin::Network)
    ensures
        btc == btc_network_of(network),
{
    match network {
        BitcoinNetwork::Mainnet => bitcoin::Network::Bitcoin,
        BitcoinNetwork::Testnet => bitcoin::Network::Testnet,
        BitcoinNetwork::Regtest => bitcoin::Network::Regtest,
    }
}

} // verus!
