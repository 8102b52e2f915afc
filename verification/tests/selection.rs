use btc_transfer::error::TransferError;
use btc_transfer::model::{OutPoint, Utxo};
use btc_transfer::select::select_utxos;

fn utxo(tag: u8, value: u64) -> Utxo {
    Utxo { outpoint: OutPoint { txid: [tag; 32], vout: tag as u32 }, value }
}

fn values(utxos: &[Utxo]) -> Vec<u64> {
    utxos.iter().map(|u| u.value).collect()
}

fn tags(utxos: &[Utxo]) -> Vec<u32> {
    utxos.iter().map(|u| u.outpoint.vout).collect()
}

#[test]
fn largest_last_output_is_taken_alone() {
    let utxos = vec![utxo(1, 5_000), utxo(2, 8_000), utxo(3, 100_000)];
    let selected = select_utxos(&utxos, 50_000, 1_500).unwrap();
    assert_eq!(values(&selected), vec![100_000]);
    assert_eq!(tags(&selected), vec![3]);
    assert_eq!(selected[0].outpoint.txid, [3u8; 32]);
}

#[test]
fn scan_runs_from_the_end_until_covered() {
    let utxos = vec![utxo(1, 1_000), utxo(2, 2_000), utxo(3, 3_000)];
    let selected = select_utxos(&utxos, 4_000, 500).unwrap();
    assert_eq!(values(&selected), vec![3_000, 2_000]);
    assert_eq!(tags(&selected), vec![3, 2]);
}

#[test]
fn scan_takes_everything_when_all_is_needed() {
    let utxos = vec![utxo(1, 1_000), utxo(2, 2_000), utxo(3, 3_000)];
    let selected = select_utxos(&utxos, 5_000, 1_000).unwrap();
    assert_eq!(values(&selected), vec![3_000, 2_000, 1_000]);
}

#[test]
fn selection_stops_at_the_exact_target() {
    let utxos = vec![utxo(1, 7), utxo(2, 40), utxo(3, 60)];
    let selected = select_utxos(&utxos, 90, 10).unwrap();
    assert_eq!(values(&selected), vec![60, 40]);
}

#[test]
fn selection_does_not_prefer_larger_outputs() {
    let utxos = vec![utxo(1, 100_000), utxo(2, 10), utxo(3, 20)];
    let selected = select_utxos(&utxos, 25, 0).unwrap();
    assert_eq!(values(&selected), vec![20, 10]);
}

#[test]
fn shortfall_is_reported() {
    let utxos = vec![utxo(1, 5_000), utxo(2, 8_000)];
    let error = select_utxos(&utxos, 20_000, 300).unwrap_err();
    assert_eq!(
        error,
        TransferError::InsufficientFunds { have: 13_000, need: 20_300, amount: 20_000, fee: 300 }
    );
}

#[test]
fn one_satoshi_short_fails() {
    let utxos = vec![utxo(1, 500), utxo(2, 499)];
    let error = select_utxos(&utxos, 900, 100).unwrap_err();
    assert_eq!(
        error,
        TransferError::InsufficientFunds { have: 999, need: 1_000, amount: 900, fee: 100 }
    );
}

#[test]
fn nothing_to_spend_fails_for_a_positive_target() {
    let error = select_utxos(&[], 1, 0).unwrap_err();
    assert_eq!(error, TransferError::InsufficientFunds { have: 0, need: 1, amount: 1, fee: 0 });
}

#[test]
fn nothing_is_needed_from_an_empty_list_for_a_zero_target() {
    let selected = select_utxos(&[], 0, 0).unwrap();
    assert!(selected.is_empty());
}

#[test]
fn zero_target_still_takes_the_last_output() {
    let utxos = vec![utxo(1, 10), utxo(2, 20)];
    let selected = select_utxos(&utxos, 0, 0).unwrap();
    assert_eq!(values(&selected), vec![20]);
}

#[test]
fn target_beyond_sixty_four_bits_is_reported_in_full() {
    let utxos = vec![utxo(1, u64::MAX)];
    let error = select_utxos(&utxos, u64::MAX, 2).unwrap_err();
    assert_eq!(
        error,
        TransferError::InsufficientFunds {
            have: u64::MAX as u128,
            need: u64::MAX as u128 + 2,
            amount: u64::MAX,
            fee: 2,
        }
    );
}

#[test]
fn larger_target_extends_the_selection() {
    let utxos = vec![utxo(1, 4), utxo(2, 3), utxo(3, 2), utxo(4, 1)];
    let small = select_utxos(&utxos, 2, 1).unwrap();
    let large = select_utxos(&utxos, 5, 2).unwrap();
    assert_eq!(values(&small), vec![1, 2]);
    assert_eq!(values(&large), vec![1, 2, 3, 4]);
    assert_eq!(values(&large[..small.len()]), values(&small));
}
