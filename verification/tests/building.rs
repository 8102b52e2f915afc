use btc_transfer::address::{destination_from, Address};
use btc_transfer::builder::{build_transaction, total_of};
use btc_transfer::error::TransferError;
use btc_transfer::model::{check_witness, utxo_from_parts, OutPoint, Tx, TxIn, TxOut, Utxo};
use btc_transfer::network::BitcoinNetwork;
use btc_transfer::select::select_utxos;

fn utxo(tag: u8, value: u64) -> Utxo {
    Utxo { outpoint: OutPoint { txid: [tag; 32], vout: tag as u32 }, value }
}

fn address(text: &str, script: &[u8]) -> Address {
    destination_from(text, BitcoinNetwork::Regtest, Ok(script.to_vec())).unwrap()
}

fn own() -> Address {
    address("own", &[0xAA, 0xBB])
}

fn destination() -> Address {
    address("destination", &[0xCC, 0xDD, 0xEE])
}

#[test]
fn payment_and_change_spend_exactly_the_input() {
    let utxos = vec![utxo(1, 5_000), utxo(2, 8_000), utxo(3, 100_000)];
    let selected = select_utxos(&utxos, 50_000, 1_500).unwrap();
    assert_eq!(selected.len(), 1);
    assert_eq!(selected[0].value, 100_000);
    let tx = build_transaction(&selected, &own(), &destination(), 50_000, 1_500);
    assert_eq!(tx.output.len(), 2);
    assert_eq!(tx.output[0].value, 50_000);
    assert_eq!(tx.output[0].script_pubkey, vec![0xCC, 0xDD, 0xEE]);
    assert_eq!(tx.output[1].value, 48_500);
    assert_eq!(tx.output[1].script_pubkey, vec![0xAA, 0xBB]);
    assert_eq!(tx.output[0].value + tx.output[1].value + 1_500, 100_000);
}

#[test]
fn inputs_reference_the_outputs_spent() {
    let selected = vec![utxo(9, 600), utxo(4, 700)];
    let tx = build_transaction(&selected, &own(), &destination(), 1_000, 100);
    assert_eq!(tx.version, 2);
    assert_eq!(tx.lock_time, 0);
    assert_eq!(tx.input.len(), 2);
    assert_eq!(tx.input[0].previous_output.txid, [9u8; 32]);
    assert_eq!(tx.input[0].previous_output.vout, 9);
    assert_eq!(tx.input[1].previous_output.txid, [4u8; 32]);
    assert_eq!(tx.input[1].previous_output.vout, 4);
    for input in &tx.input {
        assert_eq!(input.sequence, 0xFFFF_FFFF);
        assert!(input.script_sig.is_empty());
        assert!(input.witness.is_empty());
    }
}

#[test]
fn change_below_dust_is_left_to_the_fee() {
    let selected = vec![utxo(1, 100_000)];
    let tx = build_transaction(&selected, &own(), &destination(), 98_000, 1_001);
    assert_eq!(tx.output.len(), 1);
    assert_eq!(tx.output[0].value, 98_000);
    assert_eq!(tx.output[0].script_pubkey, vec![0xCC, 0xDD, 0xEE]);
}

#[test]
fn change_at_the_dust_threshold_is_paid_back() {
    let selected = vec![utxo(1, 100_000)];
    let tx = build_transaction(&selected, &own(), &destination(), 98_000, 1_000);
    assert_eq!(tx.output.len(), 2);
    assert_eq!(tx.output[1].value, 1_000);
    assert_eq!(tx.output[1].script_pubkey, vec![0xAA, 0xBB]);
}

#[test]
fn no_change_when_everything_is_spent() {
    let selected = vec![utxo(1, 700), utxo(2, 300)];
    let tx = build_transaction(&selected, &own(), &destination(), 900, 100);
    assert_eq!(tx.input.len(), 2);
    assert_eq!(tx.output.len(), 1);
    assert_eq!(tx.output[0].value, 900);
}

#[test]
fn transaction_without_inputs_pays_nothing() {
    let tx = build_transaction(&[], &own(), &destination(), 0, 0);
    assert!(tx.input.is_empty());
    assert_eq!(tx.output.len(), 1);
    assert_eq!(tx.output[0].value, 0);
}

#[test]
fn totals_add_up_beyond_sixty_four_bits() {
    assert_eq!(total_of(&[]), 0);
    assert_eq!(total_of(&[utxo(1, 5), utxo(2, 7)]), 12);
    assert_eq!(total_of(&[utxo(1, u64::MAX), utxo(2, u64::MAX)]), 2 * (u64::MAX as u128));
}

#[test]
fn copies_hold_what_was_copied() {
    let tx = Tx {
        version: 2,
        lock_time: 0,
        input: vec![TxIn {
            previous_output: OutPoint { txid: [3; 32], vout: 1 },
            script_sig: vec![1, 2],
            sequence: 5,
            witness: vec![vec![7, 8], vec![], vec![9]],
        }],
        output: vec![TxOut { value: 11, script_pubkey: vec![4, 5, 6] }],
    };
    let copy = tx.clone();
    assert_eq!(copy, tx);
    assert_eq!(copy.version, 2);
    assert_eq!(copy.lock_time, 0);
    assert_eq!(copy.input.len(), 1);
    assert_eq!(copy.input[0].previous_output.txid, [3u8; 32]);
    assert_eq!(copy.input[0].previous_output.vout, 1);
    assert_eq!(copy.input[0].script_sig, vec![1, 2]);
    assert_eq!(copy.input[0].sequence, 5);
    assert_eq!(copy.input[0].witness, vec![vec![7, 8], vec![], vec![9]]);
    assert_eq!(copy.output.len(), 1);
    assert_eq!(copy.output[0].value, 11);
    assert_eq!(copy.output[0].script_pubkey, vec![4, 5, 6]);
}

#[test]
fn witness_is_set_on_one_input_only() {
    let selected = vec![utxo(1, 600), utxo(2, 700)];
    let mut tx = build_transaction(&selected, &own(), &destination(), 1_000, 100);
    tx.set_witness(1, vec![vec![1, 2, 3], vec![4]]);
    assert!(tx.input[0].witness.is_empty());
    assert_eq!(tx.input[1].witness, vec![vec![1, 2, 3], vec![4]]);
    assert_eq!(tx.input[1].previous_output.vout, 2);
    assert_eq!(tx.output.len(), 1);
}

#[test]
fn change_is_what_the_inputs_hold_beyond_sixty_four_bits() {
    let selected = vec![utxo(1, u64::MAX), utxo(2, u64::MAX)];
    let tx = build_transaction(&selected, &own(), &destination(), u64::MAX, 5);
    assert_eq!(tx.output.len(), 2);
    assert_eq!(tx.output[0].value, u64::MAX);
    assert_eq!(tx.output[1].value, u64::MAX - 5);
}

#[test]
fn ledger_output_with_a_full_identifier_is_taken() {
    let txid: Vec<u8> = (0..32).collect();
    let utxo = utxo_from_parts(&txid, 7, 1_234).unwrap();
    assert_eq!(utxo.outpoint.txid.to_vec(), txid);
    assert_eq!(utxo.outpoint.vout, 7);
    assert_eq!(utxo.value, 1_234);
}

#[test]
fn ledger_output_with_another_identifier_length_is_refused() {
    for len in [0usize, 1, 31, 33, 64] {
        assert_eq!(
            utxo_from_parts(&vec![9u8; len], 0, 1).unwrap_err(),
            TransferError::SighashComputationFailure
        );
    }
}

#[test]
fn small_witnesses_fit() {
    assert!(check_witness(&vec![]));
    assert!(check_witness(&vec![vec![], vec![1u8; 252], vec![2u8; 253], vec![3u8; 70_000]]));
    let selected = vec![utxo(1, 600), utxo(2, 700)];
    let mut tx = build_transaction(&selected, &own(), &destination(), 1_000, 100);
    assert!(tx.check_witnesses());
    tx.set_witness(0, vec![vec![1u8; 73], vec![2u8; 33]]);
    assert!(tx.check_witnesses());
}
