//! The data a transfer works on: unspent outputs and transactions, with their
//! mathematical views.

use vstd::prelude::*;
use crate::error::TransferError;

verus! {

/// Outputs worth less than this many satoshi are not created.
pub const DUST_THRESHOLD: u64 = 1_000;

/// The transaction version every built transaction carries.
pub const TX_VERSION: i32 = 2;

/// The lock time every built transaction carries: none.
pub const LOCK_TIME_NONE: u32 = 0;

/// The sequence number of every built input: final, no relative lock, no replacement signal.
pub const SEQUENCE_FINAL: u32 = 0xFFFF_FFFF;

/// The most bytes that the items of one witness may take, each counted with its
/// length prefix: beyond it the `bitcoin` crate cannot hold the witness.
pub const MAX_WITNESS_BYTES: u64 = 0xFFFF_FFFF;

/// The length of a transaction identifier.
pub const TXID_LEN: usize = 32;

/// A reference to one output of an earlier transaction.
#[derive(Clone, Copy, Debug, PartialEq, Eq)]
pub struct OutPoint {
    pub txid: [u8; 32],
    pub vout: u32,
}

/// An unspent output: where it is, and how many satoshi it holds.
#[derive(Clone, Copy, Debug, PartialEq, Eq)]
pub struct Utxo {
    pub outpoint: OutPoint,
    pub value: u64,
}

/// One input of a transaction.
#[derive(Debug, PartialEq, Eq)]
pub struct TxIn {
    pub previous_output: OutPoint,
    pub script_sig: Vec<u8>,
    pub sequence: u32,
    pub witness: Vec<Vec<u8>>,
}

/// One output of a transaction.
#[derive(Debug, PartialEq, Eq)]
pub struct TxOut {
    pub value: u64,
    pub script_pubkey: Vec<u8>,
}

/// A transaction, signed or not.
#[derive(Debug, PartialEq, Eq)]
pub struct Tx {
    pub version: i32,
    pub lock_time: u32,
    pub input: Vec<TxIn>,
    pub output: Vec<TxOut>,
}

/// What a [`TxIn`] holds.
pub struct TxInView {
    pub previous_output: OutPoint,
    pub script_sig: Seq<u8>,
    pub sequence: u32,
    pub witness: Seq<Seq<u8>>,
}

/// What a [`TxOut`] holds.
pub struct TxOutView {
    pub value: u64,
    pub script_pubkey: Seq<u8>,
}

/// What a [`Tx`] holds.
pub struct TxView {
    pub version: i32,
    pub lock_time: u32,
    pub input: Seq<TxInView>,
    pub output: Seq<TxOutView>,
}

/// The byte strings that `items` hold.
pub open spec fn byte_strings(items: Seq<Vec<u8>>) -> Seq<Seq<u8>> {
    Seq::new(items.len(), |i: int| items[i]@)
}

/// What the inputs `inputs` hold.
pub open spec fn inputs_view(inputs: Seq<TxIn>) -> Seq<TxInView> {
    Seq::new(inputs.len(), |i: int| inputs[i]@)
}

/// What the outputs `outputs` hold.
pub open spec fn outputs_view(outputs: Seq<TxOut>) -> Seq<TxOutView> {
    Seq::new(outputs.len(), |i: int| outputs[i]@)
}

impl View for TxIn {
    type V = TxInView;

    open spec fn view(&self) -> TxInView {
        TxInView {
            previous_output: self.previous_output,
            script_sig: self.script_sig@,
            sequence: self.sequence,
            witness: byte_strings(self.witness@),
        }
    }
}

impl View for TxOut {
    type V = TxOutView;

    open spec fn view(&self) -> TxOutView {
        TxOutView { value: self.value, script_pubkey: self.script_pubkey@ }
    }
}

impl View for Tx {
    type V = TxView;

    open spec fn view(&self) -> TxView {
        TxView {
            version: self.version,
            lock_time: self.lock_time,
            input: inputs_view(self.input@),
            output: outputs_view(self.output@),
        }
    }
}

/// A fresh vector that holds the bytes of `bytes`.
pub fn copy_bytes(bytes: &Vec<u8>) -> (copy: Vec<u8>)
    ensures
        copy@ == bytes@,
{
    let mut copy: Vec<u8> = Vec::new();
    let mut i: usize = 0;
    while i < bytes.len()
        invariant
            i <= bytes.len(),
            copy@ == bytes@.take(i as int),
        decreases bytes.len() - i,
    {
        copy.push(bytes[i]);
        i += 1;
    }
    assert(bytes@.take(i as int) =~= bytes@);
    copy
}

impl Clone for TxIn {
    fn clone(&self) -> (copy: Self)
        ensures
            copy@ == self@,
    {
        let mut witness: Vec<Vec<u8>> = Vec::new();
        let mut i: usize = 0;
        while i < self.witness.len()
            invariant
                i <= self.witness.len(),
                witness@.len() == i,
                byte_strings(witness@) == byte_strings(self.witness@).take(i as int),
            decreases self.witness.len() - i,
        {
            let item = copy_bytes(&self.witness[i]);
            let ghost before = witness@;
            witness.push(item);
            i += 1;
            assert forall|k: int| 0 <= k < i implies byte_strings(witness@)[k] == byte_strings(
                self.witness@,
            )[k] by {
                if k < i - 1 {
                    assert(byte_strings(before)[k] == byte_strings(self.witness@).take(i - 1)[k]);
                }
            }
            assert(byte_strings(witness@) =~= byte_strings(self.witness@).take(i as int));
        }
        assert(byte_strings(self.witness@).take(i as int) =~= byte_strings(self.witness@));
        TxIn {
            previous_output: self.previous_output,
            script_sig: copy_bytes(&self.script_sig),
            sequence: self.sequence,
            witness,
        }
    }
}

impl Clone for TxOut {
    fn clone(&self) -> (copy: Self)
        ensures
            copy@ == self@,
    {
        TxOut { value: self.value, script_pubkey: copy_bytes(&self.script_pubkey) }
    }
}

impl Clone for Tx {
    fn clone(&self) -> (copy: Self)
        ensures
            copy@ == self@,
    {
        let mut input: Vec<TxIn> = Vec::new();
        let mut i: usize = 0;
        while i < self.input.len()
            invariant
                i <= self.input.len(),
                input@.len() == i,
                inputs_view(input@) == inputs_view(self.input@).take(i as int),
            decreases self.input.len() - i,
        {
            let item = self.input[i].clone();
            let ghost before = input@;
            input.push(item);
            i += 1;
            assert forall|k: int| 0 <= k < i implies inputs_view(input@)[k] == inputs_view(
                self.input@,
            )[k] by {
                if k < i - 1 {
                    assert(inputs_view(before)[k] == inputs_view(self.input@).take(i - 1)[k]);
                }
            }
            assert(inputs_view(input@) =~= inputs_view(self.input@).take(i as int));
        }
        assert(inputs_view(self.input@).take(i as int) =~= inputs_view(self.input@));
        let mut output: Vec<TxOut> = Vec::new();
        let mut j: usize = 0;
        while j < self.output.len()
            invariant
                j <= self.output.len(),
                output@.len() == j,
                outputs_view(output@) == outputs_view(self.output@).take(j as int),
            decreases self.output.len() - j,
        {
            let item = self.output[j].clone();
            let ghost before = output@;
            output.push(item);
            j += 1;
            assert forall|k: int| 0 <= k < j implies outputs_view(output@)[k] == outputs_view(
                self.output@,
            )[k] by {
                if k < j - 1 {
                    assert(outputs_view(before)[k] == outputs_view(self.output@).take(j - 1)[k]);
                }
            }
            assert(outputs_view(output@) =~= outputs_view(self.output@).take(j as int));
        }
        assert(outputs_view(self.output@).take(j as int) =~= outputs_view(self.output@));
        Tx { version: self.version, lock_time: self.lock_time, input, output }
    }
}

/// The number of bytes of the length prefix of an item of `len` bytes.
pub open spec fn length_prefix_len(len: nat) -> nat {
    if len <= 0xFC {
        1
    } else if len <= 0xFFFF {
        3
    } else if len <= 0xFFFF_FFFF {
        5
    } else {
        9
    }
}

/// The number of bytes that the items of `witness` take, each with its length prefix.
pub open spec fn witness_bytes(witness: Seq<Seq<u8>>) -> nat
    decreases witness.len(),
{
    if witness.len() == 0 {
        0
    } else {
        witness_bytes(witness.drop_last()) + length_prefix_len(witness.last().len())
            + witness.last().len()
    }
}

/// Whether the items of `witness` take no more bytes than a witness may.
pub open spec fn witness_fits(witness: Seq<Seq<u8>>) -> bool {
    witness_bytes(witness) <= MAX_WITNESS_BYTES
}

/// Whether every witness of `tx` takes no more bytes than a witness may.
pub open spec fn witnesses_fit(tx: TxView) -> bool {
    forall|i: int| #![trigger tx.input[i]] 0 <= i < tx.input.len() ==> witness_fits(tx.input[i].witness)
}

/// The first items of a witness take no more bytes than all of them.
pub proof fn lemma_witness_bytes_grow(witness: Seq<Seq<u8>>, count: int)
    requires
        0 <= count <= witness.len(),
    ensures
        witness_bytes(witness.take(count)) <= witness_bytes(witness),
    decreases witness.len(),
{
    if count == witness.len() {
        assert(witness.take(count) =~= witness);
    } else {
        lemma_witness_bytes_grow(witness.drop_last(), count);
        assert(witness.drop_last().take(count) =~= witness.take(count));
    }
}

/// Putting a witness that fits on one input of a transaction whose witnesses fit
/// leaves a transaction whose witnesses fit.
pub proof fn lemma_witnesses_still_fit(tx: TxView, index: int, witness: Seq<Seq<u8>>)
    requires
        witnesses_fit(tx),
        witness_fits(witness),
        0 <= index < tx.input.len(),
    ensures
        witnesses_fit(with_witness_at(tx, index, witness)),
{
    let after = with_witness_at(tx, index, witness);
    assert forall|i: int| 0 <= i < after.input.len() implies witness_fits(
        (#[trigger] after.input[i]).witness,
    ) by {
        if i != index {
            assert(after.input[i] == tx.input[i]);
        }
    }
}

/// Whether the items of `witness` take no more bytes than a witness may.
pub fn check_witness(witness: &Vec<Vec<u8>>) -> (fits: bool)
    ensures
        fits == witness_fits(byte_strings(witness@)),
{
    let ghost items = byte_strings(witness@);
    let mut total: u128 = 0;
    let mut i: usize = 0;
    while i < witness.len()
        invariant
            i <= witness.len(),
            items == byte_strings(witness@),
            total == witness_bytes(items.take(i as int)),
            total <= MAX_WITNESS_BYTES,
        decreases witness.len() - i,
    {
        let len = witness[i].len();
        let prefix: u128 = if len <= 0xFC {
            1
        } else if len <= 0xFFFF {
            3
        } else if len <= 0xFFFF_FFFF {
            5
        } else {
            9
        };
        proof {
            assert(items.take(i + 1).drop_last() =~= items.take(i as int));
            assert(items.take(i + 1).last() == witness@[i as int]@);
            lemma_witness_bytes_grow(items, i + 1);
        }
        total = total + prefix + len as u128;
        i += 1;
        if total > MAX_WITNESS_BYTES as u128 {
            return false;
        }
    }
    assert(items.take(i as int) =~= items);
    true
}

/// The input `input` with `witness` in place of its witness.
pub open spec fn with_witness(input: TxInView, witness: Seq<Seq<u8>>) -> TxInView {
    TxInView { witness, ..input }
}

/// The transaction `tx` with `witness` as the witness of its input `index`.
pub open spec fn with_witness_at(tx: TxView, index: int, witness: Seq<Seq<u8>>) -> TxView {
    TxView { input: tx.input.update(index, with_witness(tx.input[index], witness)), ..tx }
}

impl Tx {
    /// Whether every witness of the transaction takes no more bytes than a witness may.
    pub fn check_witnesses(&self) -> (fit: bool)
        ensures
            fit == witnesses_fit(self@),
    {
        let mut i: usize = 0;
        while i < self.input.len()
            invariant
                i <= self.input.len(),
                forall|k: int|
                    #![trigger self@.input[k]]
                    0 <= k < i ==> witness_fits(self@.input[k].witness),
            decreases self.input.len() - i,
        {
            if !check_witness(&self.input[i].witness) {
                assert(!witness_fits(self@.input[i as int].witness));
                return false;
            }
            i += 1;
        }
        true
    }

    /// Puts `witness` in place of the witness of input `index`.
    pub fn set_witness(&mut self, index: usize, witness: Vec<Vec<u8>>)
        requires
            index < old(self).input.len(),
        ensures
            final(self)@ == with_witness_at(old(self)@, index as int, byte_strings(witness@)),
    {
        self.input[index].witness = witness;
        assert(final(self)@.input =~= with_witness_at(
            old(self)@,
            index as int,
            byte_strings(witness@),
        ).input);
    }
}

/// The unspent output that the ledger describes by the identifier `txid` of a
/// transaction, the index `vout` of one of its outputs, and the output's `value`.
///
/// Fails with `SighashComputationFailure` exactly where `txid` is not 32 bytes long:
/// such an output cannot be spent from.
pub fn utxo_from_parts(txid: &[u8], vout: u32, value: u64) -> (result: Result<Utxo, TransferError>)
    ensures
        match result {
            Ok(utxo) => {
                &&& txid@.len() == TXID_LEN
                &&& utxo.outpoint.txid@ == txid@
                &&& utxo.outpoint.vout == vout
                &&& utxo.value == value
            },
            Err(error) => {
                &&& txid@.len() != TXID_LEN
                &&& error == TransferError::SighashComputationFailure
            },
        },
{
    if txid.len() != TXID_LEN {
        return Err(TransferError::SighashComputationFailure);
    }
    let mut bytes = [0u8; 32];
    let mut i: usize = 0;
    while i < TXID_LEN
        invariant
            i <= TXID_LEN,
            txid@.len() == TXID_LEN,
            forall|k: int| 0 <= k < i ==> bytes@[k] == txid@[k],
        decreases TXID_LEN - i,
    {
        bytes[i] = txid[i];
        i += 1;
    }
    assert(bytes@ =~= txid@);
    Ok(Utxo { outpoint: OutPoint { txid: bytes, vout }, value })
}

/// The sum of the values of `utxos`.
pub open spec fn total_value(utxos: Seq<Utxo>) -> nat
    decreases utxos.len(),
{
    if utxos.len() == 0 {
        0
    } else {
        total_value(utxos.drop_last()) + utxos.last().value as nat
    }
}

} // verus!
