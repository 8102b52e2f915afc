//! Assembling the unsigned transaction of a transfer.

use vstd::prelude::*;
use crate::address::Address;
use crate::model::{
    copy_bytes, inputs_view, outputs_view, total_value, witnesses_fit, Tx, TxIn, TxInView, TxOut,
    TxOutView, TxView, Utxo, DUST_THRESHOLD, LOCK_TIME_NONE, SEQUENCE_FINAL, TX_VERSION,
};
use crate::select::lemma_total_push;

verus! {

/// The input that spends `utxo` before it is signed: the output's reference as it
/// is, the final sequence number, no signature script and no witness.
pub open spec fn unsigned_input(utxo: Utxo) -> TxInView {
    TxInView {
        previous_output: utxo.outpoint,
        script_sig: Seq::empty(),
        sequence: SEQUENCE_FINAL,
        witness: Seq::empty(),
    }
}

/// One unsigned input for each of `utxos`, in their order.
pub open spec fn unsigned_inputs(utxos: Seq<Utxo>) -> Seq<TxInView> {
    Seq::new(utxos.len(), |i: int| unsigned_input(utxos[i]))
}

/// What is left of the value of `utxos` once `amount` is paid and `fee` set aside.
pub open spec fn change_value(utxos: Seq<Utxo>, amount: u64, fee: u64) -> int {
    total_value(utxos) - amount - fee
}

/// The outputs of a transfer: the payment, and the change where it is no dust.
pub open spec fn transfer_outputs(
    utxos: Seq<Utxo>,
    own_script: Seq<u8>,
    dst_script: Seq<u8>,
    amount: u64,
    fee: u64,
) -> Seq<TxOutView> {
    let payment = TxOutView { value: amount, script_pubkey: dst_script };
    if change_value(utxos, amount, fee) >= DUST_THRESHOLD {
        seq![
            payment,
            TxOutView { value: change_value(utxos, amount, fee) as u64, script_pubkey: own_script },
        ]
    } else {
        seq![payment]
    }
}

/// The unsigned transaction that spends `utxos` to pay `amount` to `dst_script`,
/// with the change, where it is no dust, going back to `own_script`.
pub open spec fn unsigned_transaction(
    utxos: Seq<Utxo>,
    own_script: Seq<u8>,
    dst_script: Seq<u8>,
    amount: u64,
    fee: u64,
) -> TxView {
    TxView {
        version: TX_VERSION,
        lock_time: LOCK_TIME_NONE,
        input: unsigned_inputs(utxos),
        output: transfer_outputs(utxos, own_script, dst_script, amount, fee),
    }
}

/// The sum of the values of `outputs`.
pub open spec fn output_total(outputs: Seq<TxOutView>) -> nat
    decreases outputs.len(),
{
    if outputs.len() == 0 {
        0
    } else {
        output_total(outputs.drop_last()) + outputs.last().value as nat
    }
}

/// An unsigned transaction has no witness, so its witnesses fit.
pub proof fn lemma_unsigned_fits(
    utxos: Seq<Utxo>,
    own_script: Seq<u8>,
    dst_script: Seq<u8>,
    amount: u64,
    fee: u64,
)
    ensures
        witnesses_fit(unsigned_transaction(utxos, own_script, dst_script, amount, fee)),
{
}

/// A list of outputs holds at most the largest amount times its length.
pub proof fn lemma_total_bounded(utxos: Seq<Utxo>)
    ensures
        total_value(utxos) <= utxos.len() * u64::MAX,
    decreases utxos.len(),
{
    if utxos.len() > 0 {
        lemma_total_bounded(utxos.drop_last());
        assert((utxos.len() - 1) * u64::MAX + u64::MAX == utxos.len() * u64::MAX)
            by (nonlinear_arith);
    }
}

/// Value is conserved: what the inputs hold equals the payment, the fee and the
/// change. The change is the second output where it reaches the dust threshold,
/// as far as an output can hold it; below the threshold there is no second output
/// and the change goes to the fee.
pub proof fn lemma_value_conservation(
    utxos: Seq<Utxo>,
    own_script: Seq<u8>,
    dst_script: Seq<u8>,
    amount: u64,
    fee: u64,
)
    requires
        amount + fee <= total_value(utxos),
    ensures
        ({
            let tx = unsigned_transaction(utxos, own_script, dst_script, amount, fee);
            let change = change_value(utxos, amount, fee);
            &&& tx.output[0] == TxOutView { value: amount, script_pubkey: dst_script }
            &&& DUST_THRESHOLD <= change <= u64::MAX ==> {
                &&& tx.output.len() == 2
                &&& tx.output[1].value == change
                &&& tx.output[1].script_pubkey == own_script
                &&& total_value(utxos) == output_total(tx.output) + fee
            }
            &&& change < DUST_THRESHOLD ==> {
                &&& tx.output.len() == 1
                &&& total_value(utxos) == output_total(tx.output) + fee + change
            }
        }),
{
    let tx = unsigned_transaction(utxos, own_script, dst_script, amount, fee);
    let payment = TxOutView { value: amount, script_pubkey: dst_script };
    assert(seq![payment].drop_last() =~= Seq::<TxOutView>::empty());
    assert(output_total(seq![payment].drop_last()) == 0);
    assert(output_total(seq![payment]) == amount);
    if change_value(utxos, amount, fee) >= DUST_THRESHOLD {
        assert(tx.output.drop_last() =~= seq![payment]);
    }
}

/// The sum of the values of `utxos`.
pub fn total_of(utxos: &[Utxo]) -> (total: u128)
    ensures
        total == total_value(utxos@),
{
    let mut total: u128 = 0;
    let mut i: usize = 0;
    while i < utxos.len()
        invariant
            i <= utxos.len(),
            total == total_value(utxos@.take(i as int)),
        decreases utxos.len() - i,
    {
        proof {
            lemma_total_bounded(utxos@.take(i as int));
            lemma_total_push(utxos@.take(i as int), utxos@[i as int]);
            assert(utxos@.take(i as int).push(utxos@[i as int]) =~= utxos@.take(i + 1));
            assert(i * u64::MAX + u64::MAX <= u128::MAX) by (nonlinear_arith)
                requires
                    i <= usize::MAX,
                    usize::MAX <= u64::MAX,
            ;
        }
        total = total + utxos[i].value as u128;
        i += 1;
    }
    assert(utxos@.take(i as int) =~= utxos@);
    total
}

/// Builds the unsigned transaction that spends `utxos_to_spend`, pays `amount` to
/// `dst_address` and sets `fee` aside.
///
/// Each unspent output becomes one input, in order. What is left after payment and
/// fee goes back to `own_address` as a second output if it reaches the dust
/// threshold; a smaller remainder is left to the fee.
pub fn build_transaction(
    utxos_to_spend: &[Utxo],
    own_address: &Address,
    dst_address: &Address,
    amount: u64,
    fee: u64,
) -> (tx: Tx)
    requires
        amount + fee <= total_value(utxos_to_spend@),
        change_value(utxos_to_spend@, amount, fee) <= u64::MAX,
    ensures
        witnesses_fit(tx@),
        tx@ == unsigned_transaction(
            utxos_to_spend@,
            own_address@.script_pubkey,
            dst_address@.script_pubkey,
            amount,
            fee,
        ),
{
    let mut input: Vec<TxIn> = Vec::new();
    let mut i: usize = 0;
    while i < utxos_to_spend.len()
        invariant
            i <= utxos_to_spend.len(),
            input@.len() == i,
            inputs_view(input@) == unsigned_inputs(utxos_to_spend@.take(i as int)),
        decreases utxos_to_spend.len() - i,
    {
        let ghost before = input@;
        input.push(
            TxIn {
                previous_output: utxos_to_spend[i].outpoint,
                script_sig: Vec::new(),
                sequence: SEQUENCE_FINAL,
                witness: Vec::new(),
            },
        );
        i += 1;
        assert forall|k: int| 0 <= k < i implies inputs_view(input@)[k] == unsigned_inputs(
            utxos_to_spend@.take(i as int),
        )[k] by {
            if k < i - 1 {
                assert(inputs_view(before)[k] == unsigned_inputs(
                    utxos_to_spend@.take(i - 1),
                )[k]);
            } else {
                assert(input@[k].witness@ =~= Seq::<Vec<u8>>::empty());
                assert(input@[k]@.witness =~= Seq::<Seq<u8>>::empty());
            }
        }
        assert(inputs_view(input@) =~= unsigned_inputs(utxos_to_spend@.take(i as int)));
    }
    assert(utxos_to_spend@.take(i as int) =~= utxos_to_spend@);

    let mut output: Vec<TxOut> = Vec::new();
    output.push(TxOut { value: amount, script_pubkey: copy_bytes(dst_address.script_pubkey()) });
    let total_in = total_of(utxos_to_spend);
    let change = total_in - amount as u128 - fee as u128;
    if change >= DUST_THRESHOLD as u128 {
        output.push(
            TxOut { value: change as u64, script_pubkey: copy_bytes(own_address.script_pubkey()) },
        );
    }
    assert(outputs_view(output@) =~= transfer_outputs(
        utxos_to_spend@,
        own_address@.script_pubkey,
        dst_address@.script_pubkey,
        amount,
        fee,
    ));
    proof {
        lemma_unsigned_fits(
            utxos_to_spend@,
            own_address@.script_pubkey,
            dst_address@.script_pubkey,
            amount,
            fee,
        );
    }
    Tx { version: TX_VERSION, lock_time: LOCK_TIME_NONE, input, output }
}

} // verus!
