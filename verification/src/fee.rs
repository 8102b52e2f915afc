//! Settling the fee of a transfer: select, build, measure with placeholder
//! signatures, and repeat until the fee that the size asks for is the fee paid.

use vstd::prelude::*;
use crate::address::Address;
use crate::builder::{build_transaction, change_value, unsigned_transaction};
use crate::consensus::{virtual_size, vsize_of};
use crate::error::TransferError;
use crate::model::{
    byte_strings, total_value, with_witness, witness_bytes, witnesses_fit, Tx, TxView, Utxo,
};
use crate::select::{
    greedy_selection, lemma_selection_excess_fits, lemma_selection_total, select_utxos,
};

verus! {

/// The length of the placeholder that stands for a signature.
pub const MOCK_SIGNATURE_LEN: usize = 64;

/// The length of the placeholder that stands for a compressed public key.
pub const MOCK_PUBLIC_KEY_LEN: usize = 33;

/// The witness that stands for a signature and a public key while a transaction is
/// measured: 64 bytes of 1, then 33 bytes of 2.
pub open spec fn mock_witness() -> Seq<Seq<u8>> {
    seq![
        Seq::new(MOCK_SIGNATURE_LEN as nat, |i: int| 1u8),
        Seq::new(MOCK_PUBLIC_KEY_LEN as nat, |i: int| 2u8),
    ]
}

/// The transaction `tx` with the placeholder witness on every input, and nothing
/// else changed.
pub open spec fn mock_signed(tx: TxView) -> TxView {
    TxView {
        input: Seq::new(tx.input.len(), |i: int| with_witness(tx.input[i], mock_witness())),
        ..tx
    }
}

/// A transaction under placeholder signatures has witnesses that fit: each takes
/// 99 bytes.
pub proof fn lemma_mock_signed_fits(tx: TxView)
    ensures
        witnesses_fit(mock_signed(tx)),
{
    let signature = Seq::new(MOCK_SIGNATURE_LEN as nat, |i: int| 1u8);
    let key = Seq::new(MOCK_PUBLIC_KEY_LEN as nat, |i: int| 2u8);
    assert(mock_witness().drop_last() =~= seq![signature]);
    assert(seq![signature].drop_last() =~= Seq::<Seq<u8>>::empty());
    assert(witness_bytes(Seq::<Seq<u8>>::empty()) == 0);
    assert(witness_bytes(seq![signature]) == 65);
    assert(mock_witness().last() == key);
    assert(witness_bytes(mock_witness()) == 99);
}

/// The fee for a transaction of virtual size `vsize` at `fee_rate`, which is in
/// thousandths of a satoshi per unit of size: the product, divided by 1000, rounded down.
pub open spec fn fee_for(vsize: nat, fee_rate: u64) -> int {
    vsize * fee_rate / 1000
}

/// How many rounds the fee is given to settle, for `count` unspent outputs.
pub open spec fn round_limit(count: nat) -> nat {
    2 * count + 8
}

/// What settling the fee gives, from a fee of `fee` and with `rounds` rounds left.
///
/// A round selects for `amount + fee`, builds the transaction, and derives a fee from
/// its size under placeholder signatures. Where that fee is the one the round began
/// with, the round's selection, transaction and fee are the result. Otherwise the next
/// round begins with the derived fee.
pub open spec fn settled_fee(
    utxos: Seq<Utxo>,
    own_script: Seq<u8>,
    dst_script: Seq<u8>,
    amount: u64,
    fee_rate: u64,
    fee: u64,
    rounds: nat,
) -> Result<(Seq<Utxo>, TxView, u64), TransferError>
    decreases rounds,
{
    let selected = greedy_selection(utxos, amount + fee);
    let tx = unsigned_transaction(selected, own_script, dst_script, amount, fee);
    let derived = fee_for(vsize_of(mock_signed(tx)), fee_rate);
    if rounds == 0 {
        Err(TransferError::InternalInconsistency)
    } else if total_value(utxos) < amount + fee {
        Err(
            TransferError::InsufficientFunds {
                have: total_value(utxos) as u128,
                need: (amount + fee) as u128,
                amount,
                fee,
            },
        )
    } else if derived == fee {
        Ok((selected, tx, fee))
    } else if derived > u64::MAX {
        Err(TransferError::InternalInconsistency)
    } else {
        settled_fee(
            utxos,
            own_script,
            dst_script,
            amount,
            fee_rate,
            derived as u64,
            (rounds - 1) as nat,
        )
    }
}

/// A settled fee is a fixed point: the selection is the one for the amount and that
/// fee, the transaction is the one built from that selection, and its size under
/// placeholder signatures asks for exactly that fee. So settling again from the
/// settled fee, with any number of rounds, gives the same selection, transaction and fee.
pub proof fn lemma_settled_fee_is_fixed_point(
    utxos: Seq<Utxo>,
    own_script: Seq<u8>,
    dst_script: Seq<u8>,
    amount: u64,
    fee_rate: u64,
    fee: u64,
    rounds: nat,
    again: nat,
)
    requires
        settled_fee(utxos, own_script, dst_script, amount, fee_rate, fee, rounds) is Ok,
        again > 0,
    ensures
        ({
            let quote = settled_fee(
                utxos,
                own_script,
                dst_script,
                amount,
                fee_rate,
                fee,
                rounds,
            )->Ok_0;
            &&& amount + quote.2 <= total_value(utxos)
            &&& quote.0 == greedy_selection(utxos, amount + quote.2)
            &&& 0 <= change_value(quote.0, amount, quote.2) <= u64::MAX
            &&& quote.1 == unsigned_transaction(quote.0, own_script, dst_script, amount, quote.2)
            &&& quote.2 == fee_for(vsize_of(mock_signed(quote.1)), fee_rate)
            &&& settled_fee(utxos, own_script, dst_script, amount, fee_rate, quote.2, again)
                == Ok::<(Seq<Utxo>, TxView, u64), TransferError>(quote)
        }),
    decreases rounds,
{
    let selected = greedy_selection(utxos, amount + fee);
    let tx = unsigned_transaction(selected, own_script, dst_script, amount, fee);
    let derived = fee_for(vsize_of(mock_signed(tx)), fee_rate);
    lemma_selection_total(utxos, amount + fee);
    lemma_selection_excess_fits(utxos, amount + fee);
    if derived != fee {
        lemma_settled_fee_is_fixed_point(
            utxos,
            own_script,
            dst_script,
            amount,
            fee_rate,
            derived as u64,
            (rounds - 1) as nat,
            again,
        );
    }
}

/// At a fee rate of zero the fee settles in the first round, at zero, whatever the
/// size: the transfer needs only that the unspent outputs cover the amount.
pub proof fn lemma_zero_rate_settles_at_once(
    utxos: Seq<Utxo>,
    own_script: Seq<u8>,
    dst_script: Seq<u8>,
    amount: u64,
    rounds: nat,
)
    requires
        rounds > 0,
        amount <= total_value(utxos),
    ensures
        settled_fee(utxos, own_script, dst_script, amount, 0, 0, rounds) == Ok::<
            (Seq<Utxo>, TxView, u64),
            TransferError,
        >(
            (
                greedy_selection(utxos, amount as int),
                unsigned_transaction(
                    greedy_selection(utxos, amount as int),
                    own_script,
                    dst_script,
                    amount,
                    0,
                ),
                0,
            ),
        ),
{
}

/// The fee for a transaction of virtual size `vsize` at `fee_rate`, where it is an
/// amount of satoshi that fits 64 bits.
pub fn fee_for_size(vsize: usize, fee_rate: u64) -> (fee: Option<u64>)
    ensures
        fee == if fee_for(vsize as nat, fee_rate) <= u64::MAX {
            Some(fee_for(vsize as nat, fee_rate) as u64)
        } else {
            None
        },
{
    assert(vsize * fee_rate <= u128::MAX) by (nonlinear_arith)
        requires
            vsize <= u64::MAX,
            fee_rate <= u64::MAX,
    ;
    let derived: u128 = (vsize as u128) * (fee_rate as u128) / 1000;
    if derived <= u64::MAX as u128 {
        Some(derived as u64)
    } else {
        None
    }
}

/// A vector of `len` bytes, each `byte`.
fn filled(byte: u8, len: usize) -> (bytes: Vec<u8>)
    ensures
        bytes@ == Seq::new(len as nat, |i: int| byte),
{
    let mut bytes: Vec<u8> = Vec::new();
    let mut i: usize = 0;
    while i < len
        invariant
            i <= len,
            bytes@ == Seq::new(i as nat, |k: int| byte),
        decreases len - i,
    {
        bytes.push(byte);
        i += 1;
        assert(bytes@ =~= Seq::new(i as nat, |k: int| byte));
    }
    bytes
}

/// Fills every input's witness with the placeholders for a signature and a public
/// key, so that the transaction has the size it will have when signed.
pub fn mock_sign_transaction(tx: Tx) -> (signed: Tx)
    ensures
        signed@ == mock_signed(tx@),
{
    let mut signed = tx;
    let mut i: usize = 0;
    while i < signed.input.len()
        invariant
            i <= signed.input.len(),
            signed.input@.len() == tx.input@.len(),
            signed@.version == tx@.version,
            signed@.lock_time == tx@.lock_time,
            signed@.output == tx@.output,
            signed@.input.len() == tx@.input.len(),
            forall|k: int| 0 <= k < i ==> signed@.input[k] == with_witness(
                tx@.input[k],
                mock_witness(),
            ),
            forall|k: int| i <= k < signed@.input.len() ==> signed@.input[k] == tx@.input[k],
        decreases signed.input.len() - i,
    {
        let mut witness: Vec<Vec<u8>> = Vec::new();
        witness.push(filled(1, MOCK_SIGNATURE_LEN));
        witness.push(filled(2, MOCK_PUBLIC_KEY_LEN));
        assert(byte_strings(witness@) =~= mock_witness());
        signed.set_witness(i, witness);
        assert(signed@.input.len() == signed.input@.len());
        i += 1;
    }
    assert(signed@.input =~= mock_signed(tx@).input);
    signed
}

/// Settles the fee of a transfer of `amount` at `fee_per_vbyte`, which is in
/// thousandths of a satoshi per unit of virtual size.
///
/// Gives the selection, the unsigned transaction and the fee of the round in which
/// the fee derived from the transaction's size was the fee the round began with.
/// Fails with `InsufficientFunds` as soon as a round's target exceeds what `utxos`
/// hold, and with `InternalInconsistency` where the fee has not settled within
/// `round_limit` rounds or a derived fee leaves the range of 64 bits.
pub fn estimate_fee(
    utxos: &[Utxo],
    own_address: &Address,
    dst_address: &Address,
    amount: u64,
    fee_per_vbyte: u64,
) -> (result: Result<(Vec<Utxo>, Tx, u64), TransferError>)
    ensures
        ({
            let settled = settled_fee(
                utxos@,
                own_address@.script_pubkey,
                dst_address@.script_pubkey,
                amount,
                fee_per_vbyte,
                0,
                round_limit(utxos@.len()),
            );
            match result {
                Ok(quote) => settled == Ok::<(Seq<Utxo>, TxView, u64), TransferError>(
                    (quote.0@, quote.1@, quote.2),
                ),
                Err(error) => settled == Err::<(Seq<Utxo>, TxView, u64), TransferError>(error),
            }
        }),
{
    let mut fee: u64 = 0;
    let mut rounds: u128 = 2 * (utxos.len() as u128) + 8;
    while rounds > 0
        invariant
            settled_fee(
                utxos@,
                own_address@.script_pubkey,
                dst_address@.script_pubkey,
                amount,
                fee_per_vbyte,
                fee,
                rounds as nat,
            ) == settled_fee(
                utxos@,
                own_address@.script_pubkey,
                dst_address@.script_pubkey,
                amount,
                fee_per_vbyte,
                0,
                round_limit(utxos@.len()),
            ),
        decreases rounds,
    {
        let selected = match select_utxos(utxos, amount, fee) {
            Ok(selected) => selected,
            Err(error) => {
                return Err(error);
            },
        };
        proof {
            lemma_selection_excess_fits(utxos@, amount + fee);
        }
        let tx = build_transaction(selected.as_slice(), own_address, dst_address, amount, fee);
        let measured = mock_sign_transaction(tx.clone());
        proof {
            lemma_mock_signed_fits(tx@);
        }
        match fee_for_size(virtual_size(&measured), fee_per_vbyte) {
            None => {
                return Err(TransferError::InternalInconsistency);
            },
            Some(derived) => {
                if derived == fee {
                    return Ok((selected, tx, fee));
                }
                fee = derived;
            },
        }
        rounds = rounds - 1;
    }
    Err(TransferError::InternalInconsistency)
}

} // verus!
