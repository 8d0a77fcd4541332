use skale_gasless::chains::{ChainConfig, NetworkType, SkaleChain};
use skale_gasless::transaction::{
    call_data, create_transaction, is_signature_rejection, TransactionError, ADDRESS_PADDING,
    GAS_LIMIT,
};

const FROM: [u8; 20] = [
    0x01, 0x02, 0x03, 0x04, 0x05, 0x06, 0x07, 0x08, 0x09, 0x0a, 0x0b, 0x0c, 0x0d, 0x0e, 0x0f, 0x10,
    0x11, 0x12, 0x13, 0x14,
];

#[test]
fn request_constants() {
    assert_eq!(GAS_LIMIT, 100000);
    assert_eq!(ADDRESS_PADDING, 12);
}

#[test]
fn call_data_pads_the_address() {
    let data = call_data(vec![0x0c, 0x11, 0xde, 0xdd], &FROM);
    assert_eq!(data.len(), 36);
    assert_eq!(&data[..4], &[0x0c, 0x11, 0xde, 0xdd]);
    assert_eq!(&data[4..16], &[0u8; 12]);
    assert_eq!(&data[16..], &FROM);
    let bare = call_data(Vec::new(), &FROM);
    assert_eq!(bare.len(), 32);
    assert_eq!(&bare[..12], &[0u8; 12]);
    assert_eq!(&bare[12..], &FROM);
}

#[test]
fn transaction_carries_what_it_was_given() {
    let config = ChainConfig::new(SkaleChain::Europa, NetworkType::Mainnet);
    let gas_price = [0x42u8; 32];
    let request = create_transaction(
        FROM,
        config.target_address,
        9,
        gas_price,
        GAS_LIMIT,
        &config.function_signature_without_prefix(),
    )
    .unwrap();
    assert_eq!(request.from, FROM);
    assert_eq!(request.to, config.target_address);
    assert_eq!(request.nonce, 9);
    assert_eq!(request.gas_price, gas_price);
    assert_eq!(request.gas, 100000);
    assert_eq!(&request.data[..4], &[0x6a, 0x62, 0x78, 0x42]);
    assert_eq!(&request.data[4..16], &[0u8; 12]);
    assert_eq!(&request.data[16..], &FROM);
}

#[test]
fn transaction_decodes_the_selector() {
    let request = create_transaction(FROM, FROM, 0, [0u8; 32], 1, "0c11dedd").unwrap();
    assert_eq!(&request.data[..4], &[0x0c, 0x11, 0xde, 0xdd]);
    assert_ne!(&request.data[..8], "0c11dedd".as_bytes());
    let upper = create_transaction(FROM, FROM, 0, [0u8; 32], 1, "0C11DEDD").unwrap();
    assert_eq!(upper.data, request.data);
    let empty = create_transaction(FROM, FROM, 0, [0u8; 32], 1, "").unwrap();
    assert_eq!(empty.data.len(), 32);
}

#[test]
fn transaction_refuses_a_bad_selector() {
    let odd = create_transaction(FROM, FROM, 0, [0u8; 32], 1, "0c1");
    assert_eq!(odd.err(), Some(TransactionError::InvalidSelector));
    let other = create_transaction(FROM, FROM, 0, [0u8; 32], 1, "zz11dedd");
    assert_eq!(other.err(), Some(TransactionError::InvalidSelector));
}

#[test]
fn signature_rejection_is_found_in_the_answer() {
    assert!(is_signature_rejection("Invalid transaction signature"));
    assert!(is_signature_rejection("(code: -32004, message: Invalid transaction signature.)"));
    assert!(!is_signature_rejection("invalid transaction signature"));
    assert!(!is_signature_rejection("Invalid transaction"));
    assert!(!is_signature_rejection(""));
}
