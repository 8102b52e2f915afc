//! The key that signs for every address this library controls, and the forms in
//! which public keys and signatures enter a witness.

use vstd::prelude::*;
use crate::network::BitcoinNetwork;

verus! {

/// The byte that marks a signature as committing to all inputs and all outputs.
pub const SIGHASH_ALL: u8 = 0x01;

/// The length of a public key in compressed form.
pub const COMPRESSED_KEY_LEN: usize = 33;

/// The curve of a key of the signing service.
#[derive(Clone, Copy, Debug, PartialEq, Eq, Structural)]
pub enum EcdsaCurve {
    Secp256k1,
}

/// Which key of the signing service to use.
#[derive(Debug, PartialEq, Eq)]
pub struct EcdsaKeyId {
    pub curve: EcdsaCurve,
    pub name: String,
}

/// The name of the signing service's key on `network`.
pub open spec fn key_name_of(network: BitcoinNetwork) -> Seq<char> {
    match network {
        BitcoinNetwork::Mainnet => "key_1"@,
        BitcoinNetwork::Testnet => "test_key_1"@,
        BitcoinNetwork::Regtest => "test_key_1"@,
    }
}

/// The one label of the derivation path: the bytes of `btc`.
pub open spec fn derivation_label() -> Seq<u8> {
    seq![0x62u8, 0x74u8, 0x63u8]
}

/// The name of the signing service's key on `network`.
pub fn ecdsa_key_name(network: BitcoinNetwork) -> (name: String)
    ensures
        name@ == key_name_of(network),
{
    match network {
        BitcoinNetwork::Mainnet => "key_1".to_owned(),
        BitcoinNetwork::Testnet => "test_key_1".to_owned(),
        BitcoinNetwork::Regtest => "test_key_1".to_owned(),
    }
}

/// The signing service's key on `network`.
pub fn ecdsa_key_id(network: BitcoinNetwork) -> (id: EcdsaKeyId)
    ensures
        id.curve == EcdsaCurve::Secp256k1,
        id.name@ == key_name_of(network),
{
    EcdsaKeyId { curve: EcdsaCurve::Secp256k1, name: ecdsa_key_name(network) }
}

/// The fixed derivation path under which the signing service keeps the key, whatever
/// address is shown.
pub fn derivation_path() -> (path: Vec<Vec<u8>>)
    ensures
        path@.len() == 1,
        path@[0]@ == derivation_label(),
{
    let mut label: Vec<u8> = Vec::new();
    label.push(0x62);
    label.push(0x74);
    label.push(0x63);
    let mut path: Vec<Vec<u8>> = Vec::new();
    path.push(label);
    path
}

/// The 33-byte compressed serialization of the public key that `public_key` encodes,
/// as `bitcoin::CompressedPublicKey` gives it; `None` where the bytes encode no key.
pub uninterp spec fn compressed_key_of(public_key: Seq<u8>) -> Option<Seq<u8>>;

/// The witness item for the signature that the 64 bytes `compact` hold: its DER
/// encoding followed by the sign-all marker, as `bitcoin::ecdsa::Signature` gives
/// it; `None` where the bytes hold no signature.
pub uninterp spec fn witness_signature_of(compact: Seq<u8>) -> Option<Seq<u8>>;

/// Calls `bitcoin::CompressedPublicKey::from_slice`, then `to_bytes` on the key.
/// The result is the key's compressed serialization, which has 33 bytes, and there
/// is none exactly where the bytes are refused.
#[verifier::external_body]
pub(crate) fn compress_public_key(public_key: &[u8]) -> (key: Option<Vec<u8>>)
    ensures
        match key {
            Some(bytes) => {
                &&& compressed_key_of(public_key@) == Some(bytes@)
                &&& bytes@.len() == COMPRESSED_KEY_LEN
            },
            None => compressed_key_of(public_key@) is None,
        },
{
    bitcoin::CompressedPublicKey::from_slice(public_key).ok().map(|key| key.to_bytes().to_vec())
}

/// Calls `secp256k1::ecdsa::Signature::from_compact`, then
/// `bitcoin::ecdsa::Signature::sighash_all` and `to_vec` on the signature. The result
/// is the DER encoding with the sign-all marker as its last byte, and there is none
/// exactly where the bytes are refused.
#[verifier::external_body]
pub(crate) fn encode_signature(compact: &[u8]) -> (item: Option<Vec<u8>>)
    ensures
        match item {
            Some(bytes) => {
                &&& witness_signature_of(compact@) == Some(bytes@)
                &&& bytes@.len() > 0
                &&& bytes@.last() == SIGHASH_ALL
            },
            None => witness_signature_of(compact@) is None,
        },
{
    let signature = bitcoin::secp256k1::ecdsa::Signature::from_compact(compact).ok()?;
    Some(bitcoin::ecdsa::Signature::sighash_all(signature).to_vec())
}

} // verus!
