use btc_transfer::address::{
    destination_from, get_p2wpkh_address, own_address_from, parse_destination, AddressFault,
};
use btc_transfer::error::TransferError;
use btc_transfer::network::BitcoinNetwork;

const MAINNET_ADDRESS: &str = "bc1qw508d6qejxtdg4y5r3zarvary0c5xw7kv8f3t4";
const LEGACY_MAINNET_ADDRESS: &str = "1BvBMSEYstWetqTFn5Au4m4GFg7xJaNVN2";

fn generator_key() -> Vec<u8> {
    let mut key = vec![0x02u8];
    key.extend_from_slice(&[
        0x79, 0xBE, 0x66, 0x7E, 0xF9, 0xDC, 0xBB, 0xAC, 0x55, 0xA0, 0x62, 0x95, 0xCE, 0x87, 0x0B,
        0x07, 0x02, 0x9B, 0xFC, 0xDB, 0x2D, 0xCE, 0x28, 0xD9, 0x59, 0xF2, 0x81, 0x5B, 0x16, 0xF8,
        0x17, 0x98,
    ]);
    key
}

fn generator_script() -> Vec<u8> {
    let mut script = vec![0x00u8, 0x14];
    script.extend_from_slice(&[
        0x75, 0x1e, 0x76, 0xe8, 0x19, 0x91, 0x96, 0xd4, 0x54, 0x94, 0x1c, 0x45, 0xd1, 0xb3, 0xa3,
        0x23, 0xf1, 0x43, 0x3b, 0xd6,
    ]);
    script
}

#[test]
fn destination_on_its_own_network_is_accepted() {
    let address = parse_destination(MAINNET_ADDRESS, BitcoinNetwork::Mainnet).unwrap();
    assert_eq!(address.network(), BitcoinNetwork::Mainnet);
    assert_eq!(address.text(), MAINNET_ADDRESS);
    assert_eq!(address.script_pubkey(), &generator_script());
}

#[test]
fn legacy_destination_is_accepted() {
    let address = parse_destination(LEGACY_MAINNET_ADDRESS, BitcoinNetwork::Mainnet).unwrap();
    assert_eq!(address.text(), LEGACY_MAINNET_ADDRESS);
    assert_eq!(address.script_pubkey().len(), 25);
    assert_eq!(address.script_pubkey()[0], 0x76);
}

#[test]
fn destination_of_another_network_is_refused() {
    assert_eq!(
        parse_destination(MAINNET_ADDRESS, BitcoinNetwork::Testnet).unwrap_err(),
        TransferError::InvalidAddress
    );
    assert_eq!(
        parse_destination(MAINNET_ADDRESS, BitcoinNetwork::Regtest).unwrap_err(),
        TransferError::InvalidAddress
    );
    assert_eq!(
        parse_destination(LEGACY_MAINNET_ADDRESS, BitcoinNetwork::Regtest).unwrap_err(),
        TransferError::InvalidAddress
    );
}

#[test]
fn own_address_of_one_network_is_no_destination_on_another() {
    let own = get_p2wpkh_address(&generator_key(), BitcoinNetwork::Regtest).unwrap();
    assert!(parse_destination(own.text(), BitcoinNetwork::Regtest).is_ok());
    assert_eq!(
        parse_destination(own.text(), BitcoinNetwork::Mainnet).unwrap_err(),
        TransferError::InvalidAddress
    );
    assert_eq!(
        parse_destination(own.text(), BitcoinNetwork::Testnet).unwrap_err(),
        TransferError::InvalidAddress
    );
}

#[test]
fn text_that_is_no_address_is_refused() {
    for text in ["", "not an address", "bc1qw508d6qejxtdg4y5r3zarvary0c5xw7kv8f3t5"] {
        assert_eq!(
            parse_destination(text, BitcoinNetwork::Mainnet).unwrap_err(),
            TransferError::InvalidAddress
        );
    }
}

#[test]
fn decoding_faults_become_invalid_address() {
    assert_eq!(
        destination_from("x", BitcoinNetwork::Mainnet, Err(AddressFault::Malformed)).unwrap_err(),
        TransferError::InvalidAddress
    );
    assert_eq!(
        destination_from("x", BitcoinNetwork::Mainnet, Err(AddressFault::WrongNetwork)).unwrap_err(),
        TransferError::InvalidAddress
    );
    let address =
        destination_from("somewhere", BitcoinNetwork::Testnet, Ok(vec![1, 2, 3])).unwrap();
    assert_eq!(address.network(), BitcoinNetwork::Testnet);
    assert_eq!(address.text(), "somewhere");
    assert_eq!(address.script_pubkey(), &vec![1u8, 2, 3]);
}

#[test]
fn own_address_is_the_key_hash_address() {
    let own = get_p2wpkh_address(&generator_key(), BitcoinNetwork::Mainnet).unwrap();
    assert_eq!(own.text(), MAINNET_ADDRESS);
    assert_eq!(own.script_pubkey(), &generator_script());
}

#[test]
fn own_address_carries_the_network() {
    let key = generator_key();
    let mainnet = get_p2wpkh_address(&key, BitcoinNetwork::Mainnet).unwrap();
    let testnet = get_p2wpkh_address(&key, BitcoinNetwork::Testnet).unwrap();
    let regtest = get_p2wpkh_address(&key, BitcoinNetwork::Regtest).unwrap();
    assert_eq!(mainnet.network(), BitcoinNetwork::Mainnet);
    assert_eq!(testnet.network(), BitcoinNetwork::Testnet);
    assert_eq!(regtest.network(), BitcoinNetwork::Regtest);
    assert!(mainnet.text().starts_with("bc1q"));
    assert!(testnet.text().starts_with("tb1q"));
    assert!(regtest.text().starts_with("bcrt1q"));
    assert_eq!(testnet.script_pubkey(), mainnet.script_pubkey());
    assert_eq!(regtest.script_pubkey(), mainnet.script_pubkey());
    let copy = regtest.clone();
    assert_eq!(copy.text(), regtest.text());
    assert_eq!(copy.script_pubkey(), regtest.script_pubkey());
}

#[test]
fn malformed_public_key_is_refused() {
    for key in [vec![], vec![2u8; 32], vec![5u8; 33], vec![0u8; 33]] {
        assert_eq!(
            get_p2wpkh_address(&key, BitcoinNetwork::Regtest).unwrap_err(),
            TransferError::InvalidKeyMaterial
        );
    }
}

#[test]
fn refused_key_gives_no_own_address() {
    assert_eq!(own_address_from(BitcoinNetwork::Regtest, None).unwrap_err(), TransferError::InvalidKeyMaterial);
    let own = own_address_from(BitcoinNetwork::Regtest, Some(("text".to_string(), vec![9u8]))).unwrap();
    assert_eq!(own.text(), "text");
    assert_eq!(own.script_pubkey(), &vec![9u8]);
}
