//! What the `bitcoin` crate computes of a transaction: its virtual size, the digest
//! that a signature of one input commits to, its identifier and its serialization.

use vstd::prelude::*;
use crate::model::{witnesses_fit, Tx, TxView};

verus! {

#[verifier::external_type_specification]
#[verifier::external_body]
pub struct ExTransaction(bitcoin::Transaction);

/// The virtual size of the transaction, as `bitcoin::Transaction::vsize` measures it.
pub uninterp spec fn vsize_of(tx: TxView) -> nat;

/// The 32-byte digest that a sign-all signature of input `index` commits to, where
/// that input spends an output of `value` satoshi locked by `script`, as
/// `bitcoin::sighash::SighashCache::p2wpkh_signature_hash` computes it; `None`
/// where it computes none.
pub uninterp spec fn p2wpkh_sighash_of(tx: TxView, index: nat, script: Seq<u8>, value: u64) -> Option<
    Seq<u8>,
>;

/// The identifier of the transaction as text, as `bitcoin::Transaction::compute_txid`
/// and the identifier's `Display` give it.
pub uninterp spec fn txid_of(tx: TxView) -> Seq<char>;

/// The bytes of the transaction, as `bitcoin::consensus::serialize` writes them.
pub uninterp spec fn serialized(tx: TxView) -> Seq<u8>;

/// Whether `script` locks an output to the hash of a public key in a version 0
/// witness program: 22 bytes that start with the version 0 and a push of 20 bytes.
pub open spec fn is_p2wpkh_script(script: Seq<u8>) -> bool {
    &&& script.len() == 22
    &&& script[0] == 0x00
    &&& script[1] == 0x14
}

/// Builds the `bitcoin::Transaction` that holds, field for field, what `tx` holds,
/// with the `bitcoin` crate's own constructors: `Txid::from_byte_array`,
/// `ScriptBuf::from_bytes`, `Sequence`, `Witness::from_slice`, `Amount::from_sat`,
/// `transaction::Version` and `absolute::LockTime::from_consensus`. Nothing is
/// claimed of the result here: each function below that hands it to the `bitcoin`
/// crate says what comes back.
///
/// `Witness::from_slice` records where each item begins as a 32-bit number and
/// does not return where an item begins beyond that range, so every witness must fit.
#[verifier::external_body]
fn consensus_form(tx: &Tx) -> bitcoin::Transaction
    requires
        witnesses_fit(tx@),
{
    let input = tx.input.iter().map(|i| bitcoin::TxIn {
        previous_output: bitcoin::OutPoint {
            txid: bitcoin::hashes::Hash::from_byte_array(i.previous_output.txid),
            vout: i.previous_output.vout,
        },
        script_sig: bitcoin::ScriptBuf::from_bytes(i.script_sig.clone()),
        sequence: bitcoin::Sequence(i.sequence),
        witness: bitcoin::Witness::from_slice(&i.witness),
    }).collect();
    let output = tx.output.iter().map(|o| bitcoin::TxOut {
        value: bitcoin::Amount::from_sat(o.value),
        script_pubkey: bitcoin::ScriptBuf::from_bytes(o.script_pubkey.clone()),
    }).collect();
    let lock_time = bitcoin::absolute::LockTime::from_consensus(tx.lock_time);
    bitcoin::Transaction { version: bitcoin::transaction::Version(tx.version), lock_time, input, output }
}

/// Calls `bitcoin::Transaction::vsize` on the transaction that holds what `tx` holds.
/// The witnesses of `tx` must fit, so that the transaction can be built.
#[verifier::external_body]
pub(crate) fn virtual_size(tx: &Tx) -> (size: usize)
    requires
        witnesses_fit(tx@),
    ensures
        size == vsize_of(tx@),
{
    consensus_form(tx).vsize()
}

/// Calls `bitcoin::sighash::SighashCache::p2wpkh_signature_hash`, for sign-all, on the
/// transaction that holds what `tx` holds. There is a digest, of 32 bytes, exactly
/// where `tx` has an input `index` and `script` is a pay-to-witness-public-key-hash
/// script: those are the two errors of that function. The witnesses of `tx` must
/// fit, so that the transaction can be built.
#[verifier::external_body]
pub(crate) fn p2wpkh_sighash(tx: &Tx, index: usize, script: &Vec<u8>, value: u64) -> (digest:
    Option<Vec<u8>>)
    requires
        witnesses_fit(tx@),
    ensures
        match digest {
            Some(bytes) => {
                &&& index < tx@.input.len() && is_p2wpkh_script(script@)
                &&& p2wpkh_sighash_of(tx@, index as nat, script@, value) == Some(bytes@)
                &&& bytes@.len() == 32
            },
            None => {
                &&& !(index < tx@.input.len() && is_p2wpkh_script(script@))
                &&& p2wpkh_sighash_of(tx@, index as nat, script@, value) is None
            },
        },
{
    let outside = consensus_form(tx);
    let script = bitcoin::Script::from_bytes(script);
    let value = bitcoin::Amount::from_sat(value);
    bitcoin::sighash::SighashCache::new(&outside)
        .p2wpkh_signature_hash(index, script, value, bitcoin::EcdsaSighashType::All)
        .ok()
        .map(|hash| bitcoin::hashes::Hash::to_byte_array(hash).to_vec())
}

/// Calls `bitcoin::Transaction::compute_txid` on the transaction that holds what
/// `tx` holds, and writes the identifier as text. The witnesses of `tx` must fit, so
/// that the transaction can be built.
#[verifier::external_body]
pub(crate) fn transaction_id(tx: &Tx) -> (id: String)
    requires
        witnesses_fit(tx@),
    ensures
        id@ == txid_of(tx@),
{
    consensus_form(tx).compute_txid().to_string()
}

/// Calls `bitcoin::consensus::serialize` on the transaction that holds what `tx` holds.
/// The witnesses of `tx` must fit, so that the transaction can be built.
#[verifier::external_body]
pub(crate) fn serialize_transaction(tx: &Tx) -> (bytes: Vec<u8>)
    requires
        witnesses_fit(tx@),
    ensures
        bytes@ == serialized(tx@),
{
    bitcoin::consensus::serialize(&consensus_form(tx))
}

} // verus!
