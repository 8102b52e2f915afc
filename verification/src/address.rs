//! Addresses: the canister's own, derived from its public key, and the destination,
//! parsed from text and held to the configured network.

use vstd::prelude::*;
use crate::consensus::is_p2wpkh_script;
use crate::error::TransferError;
use crate::keys::compressed_key_of;
use crate::model::copy_bytes;
use crate::network::{btc_network_of, to_btc_network, BitcoinNetwork};

verus! {

/// An address that may be paid: the network it belongs to, its text, and the script
/// that an output to it carries.
#[derive(Debug, PartialEq, Eq)]
pub struct Address {
    network: BitcoinNetwork,
    text: String,
    script_pubkey: Vec<u8>,
}

/// What an [`Address`] holds.
pub struct AddressView {
    pub network: BitcoinNetwork,
    pub text: Seq<char>,
    pub script_pubkey: Seq<u8>,
}

impl View for Address {
    type V = AddressView;

    closed spec fn view(&self) -> AddressView {
        AddressView {
            network: self.network,
            text: self.text@,
            script_pubkey: self.script_pubkey@,
        }
    }
}

impl Address {
    /// The network that the address belongs to.
    pub fn network(&self) -> (network: BitcoinNetwork)
        ensures
            network == self@.network,
    {
        self.network
    }

    /// The address as text.
    pub fn text(&self) -> (text: &String)
        ensures
            text@ == self@.text,
    {
        &self.text
    }

    /// The script of an output that pays this address.
    pub fn script_pubkey(&self) -> (script: &Vec<u8>)
        ensures
            script@ == self@.script_pubkey,
    {
        &self.script_pubkey
    }
}

impl Clone for Address {
    fn clone(&self) -> (copy: Self)
        ensures
            copy@ == self@,
    {
        Address {
            network: self.network,
            text: self.text.clone(),
            script_pubkey: copy_bytes(&self.script_pubkey),
        }
    }
}

/// Why a text is no destination on a network.
#[derive(Clone, Copy, Debug, PartialEq, Eq, Structural)]
pub enum AddressFault {
    /// The text encodes no address.
    Malformed,
    /// The text encodes an address of another network.
    WrongNetwork,
}

/// What `bitcoin::Address` makes of `text` as a destination on `network`: the script
/// of the address that `text` encodes, or why there is none.
pub uninterp spec fn checked_destination(text: Seq<char>, network: BitcoinNetwork) -> Result<
    Seq<u8>,
    AddressFault,
>;

/// The text and the script of the pay-to-witness-public-key-hash address of the key
/// that `public_key` encodes, on `network`, as `bitcoin::Address::p2wpkh` gives them;
/// `None` where the bytes encode no key.
pub uninterp spec fn p2wpkh_address_of(public_key: Seq<u8>, network: BitcoinNetwork) -> Option<
    (Seq<char>, Seq<u8>),
>;

/// Parses `text` with `bitcoin::Address::from_str`, holds the address to the
/// network `outside` with `require_network`, and hands back the bytes of its
/// `script_pubkey`. A text that does not parse is `Malformed`; the only error of
/// `require_network` is that the address belongs to another network. The result is
/// what the text is as a destination on the network that `outside` names.
#[verifier::external_body]
fn decode_destination(text: &str, outside: bitcoin::Network) -> (decoded: Result<
    Vec<u8>,
    AddressFault,
>)
    ensures
        forall|network: BitcoinNetwork|
            #![trigger checked_destination(text@, network)]
            btc_network_of(network) == outside ==> match decoded {
                Ok(script) => checked_destination(text@, network) == Ok::<Seq<u8>, AddressFault>(
                    script@,
                ),
                Err(fault) => checked_destination(text@, network) == Err::<Seq<u8>, AddressFault>(
                    fault,
                ),
            },
{
    match text.parse::<bitcoin::Address<bitcoin::address::NetworkUnchecked>>() {
        Err(_) => Err(AddressFault::Malformed),
        Ok(unchecked) => match unchecked.require_network(outside) {
            Ok(address) => Ok(address.script_pubkey().into_bytes()),
            Err(_) => Err(AddressFault::WrongNetwork),
        },
    }
}

/// Parses `public_key` with `bitcoin::CompressedPublicKey::from_slice`, makes the
/// key's address on the network `outside` with `bitcoin::Address::p2wpkh`, and hands
/// back the address as text and the bytes of its `script_pubkey`: the address of the
/// key on the network that `outside` names.
///
/// There is an address exactly where `from_slice` accepts the bytes, which is where
/// the key has a compressed form. The address holds a version 0 witness program of
/// the key's 20-byte hash, so its script is the version byte 0, a push of 20 bytes
/// and the hash: a pay-to-witness-public-key-hash script.
#[verifier::external_body]
fn derive_p2wpkh(public_key: &[u8], outside: bitcoin::Network) -> (derived: Option<
    (String, Vec<u8>),
>)
    ensures
        forall|network: BitcoinNetwork|
            #![trigger p2wpkh_address_of(public_key@, network)]
            btc_network_of(network) == outside ==> match derived {
                Some(parts) => p2wpkh_address_of(public_key@, network) == Some(
                    (parts.0@, parts.1@),
                ),
                None => p2wpkh_address_of(public_key@, network) is None,
            },
        match derived {
            Some(parts) => compressed_key_of(public_key@) is Some && is_p2wpkh_script(parts.1@),
            None => compressed_key_of(public_key@) is None,
        },
{
    let key = bitcoin::CompressedPublicKey::from_slice(public_key).ok()?;
    let address = bitcoin::Address::p2wpkh(&key, outside);
    Some((address.to_string(), address.script_pubkey().into_bytes()))
}

/// The destination that `text` names on `network`, given what decoding `text` for
/// that network gave: an address with that text and the decoded script, and
/// `InvalidAddress` for either fault.
pub fn destination_from(
    text: &str,
    network: BitcoinNetwork,
    decoded: Result<Vec<u8>, AddressFault>,
) -> (result: Result<Address, TransferError>)
    ensures
        match decoded {
            Ok(script) => result is Ok && result->Ok_0@ == (AddressView {
                network,
                text: text@,
                script_pubkey: script@,
            }),
            Err(_) => result == Err::<Address, TransferError>(TransferError::InvalidAddress),
        },
{
    match decoded {
        Ok(script) => Ok(Address { network, text: text.to_owned(), script_pubkey: script }),
        Err(_) => Err(TransferError::InvalidAddress),
    }
}

/// Parses the destination `text` and holds it to `network`.
///
/// Fails with `InvalidAddress` where the text encodes no address, and where it
/// encodes one of another network.
pub fn parse_destination(text: &str, network: BitcoinNetwork) -> (result: Result<
    Address,
    TransferError,
>)
    ensures
        match checked_destination(text@, network) {
            Ok(script) => result is Ok && result->Ok_0@ == (AddressView {
                network,
                text: text@,
                script_pubkey: script,
            }),
            Err(_) => result == Err::<Address, TransferError>(TransferError::InvalidAddress),
        },
{
    let decoded = decode_destination(text, to_btc_network(network));
    destination_from(text, network, decoded)
}

/// The own address on `network`, given what deriving it from the public key gave:
/// `InvalidKeyMaterial` where the key was refused.
pub fn own_address_from(network: BitcoinNetwork, derived: Option<(String, Vec<u8>)>) -> (result:
    Result<Address, TransferError>)
    ensures
        match derived {
            Some(parts) => result is Ok && result->Ok_0@ == (AddressView {
                network,
                text: parts.0@,
                script_pubkey: parts.1@,
            }),
            None => result == Err::<Address, TransferError>(TransferError::InvalidKeyMaterial),
        },
{
    match derived {
        Some(parts) => Ok(Address { network, text: parts.0, script_pubkey: parts.1 }),
        None => Err(TransferError::InvalidKeyMaterial),
    }
}

/// Whether `address` is the pay-to-witness-public-key-hash address on `network` of
/// the key that `public_key` encodes: then the key has a compressed form and the
/// address's script is a pay-to-witness-public-key-hash script.
pub open spec fn is_own_address(
    address: AddressView,
    public_key: Seq<u8>,
    network: BitcoinNetwork,
) -> bool {
    &&& address.network == network
    &&& p2wpkh_address_of(public_key, network) == Some((address.text, address.script_pubkey))
    &&& compressed_key_of(public_key) is Some
    &&& is_p2wpkh_script(address.script_pubkey)
}

/// The pay-to-witness-public-key-hash address of the public key `public_key` on
/// `network`.
///
/// Fails with `InvalidKeyMaterial` where the bytes encode no public key.
pub fn get_p2wpkh_address(public_key: &[u8], network: BitcoinNetwork) -> (result: Result<
    Address,
    TransferError,
>)
    ensures
        result matches Ok(address) ==> is_own_address(address@, public_key@, network),
        match p2wpkh_address_of(public_key@, network) {
            Some(parts) => result is Ok && result->Ok_0@ == (AddressView {
                network,
                text: parts.0,
                script_pubkey: parts.1,
            }),
            None => result == Err::<Address, TransferError>(TransferError::InvalidKeyMaterial),
        },
{
    own_address_from(network, derive_p2wpkh(public_key, to_btc_network(network)))
}

} // verus!
