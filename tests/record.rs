use mcp_marketplace::address::Address;
use mcp_marketplace::error::MarketError;
use mcp_marketplace::marketplace::{Marketplace, Module};
use mcp_marketplace::record::{decode_marketplace, decode_module, encode_marketplace, encode_module};

fn sample_marketplace() -> Marketplace {
    Marketplace {
        is_initialized: true,
        authority: Address::new([7u8; 32]),
        fee_percentage: 10,
        total_revenue: 0x0102,
        total_modules_sold: 3,
    }
}

fn sample_module(uri: &str) -> Module {
    Module {
        is_initialized: true,
        creator: Address::new([2u8; 32]),
        price: 1000,
        is_free_issuance: false,
        uri: uri.to_string(),
        total_sales: 4,
        total_revenue: 4000,
        collected_revenue: 1000,
    }
}

#[test]
fn marketplace_record_bytes() {
    let bytes = encode_marketplace(&sample_marketplace());
    assert_eq!(bytes.len(), 50);
    assert_eq!(bytes[0], 1);
    assert_eq!(&bytes[1..33], &[7u8; 32][..]);
    assert_eq!(bytes[33], 10);
    assert_eq!(&bytes[34..42], &[2, 1, 0, 0, 0, 0, 0, 0]);
    assert_eq!(&bytes[42..50], &[3, 0, 0, 0, 0, 0, 0, 0]);
    let back = decode_marketplace(&bytes).unwrap();
    assert!(back.is_initialized);
    assert!(back.authority.same_as(&Address::new([7u8; 32])));
    assert_eq!((back.fee_percentage, back.total_revenue, back.total_modules_sold), (10, 0x0102, 3));
}

#[test]
fn marketplace_record_reading() {
    let zeros = decode_marketplace(&[0u8; 64]).unwrap();
    assert!(!zeros.is_initialized);
    assert_eq!(zeros.total_revenue, 0);
    assert!(matches!(decode_marketplace(&[0u8; 49]), Err(MarketError::MalformedRecord)));
    let mut bytes = encode_marketplace(&sample_marketplace());
    bytes[0] = 2;
    assert!(matches!(decode_marketplace(&bytes), Err(MarketError::MalformedRecord)));
}

#[test]
fn module_record_bytes() {
    let bytes = encode_module(&sample_module("ipfs://é"));
    let uri = "ipfs://é".as_bytes();
    assert_eq!(bytes.len(), 70 + uri.len());
    assert_eq!(bytes[0], 1);
    assert_eq!(&bytes[33..41], &[0xe8, 0x03, 0, 0, 0, 0, 0, 0]);
    assert_eq!(bytes[41], 0);
    assert_eq!(&bytes[42..46], &[uri.len() as u8, 0, 0, 0]);
    assert_eq!(&bytes[46..46 + uri.len()], uri);
    let back = decode_module(&bytes).unwrap();
    assert_eq!(back.uri, "ipfs://é");
    assert!(back.creator.same_as(&Address::new([2u8; 32])));
    assert_eq!(&bytes[62 + uri.len()..], &[0xe8, 0x03, 0, 0, 0, 0, 0, 0]);
    assert_eq!((back.price, back.total_sales, back.total_revenue, back.collected_revenue), (1000, 4, 4000, 1000));
    assert!(!back.is_free_issuance);
}

#[test]
fn module_record_reading() {
    let zeros = decode_module(&[0u8; 100]).unwrap();
    assert!(!zeros.is_initialized);
    assert_eq!(zeros.uri, "");
    assert!(matches!(decode_module(&[0u8; 69]), Err(MarketError::MalformedRecord)));
    let mut bytes = encode_module(&sample_module("ab"));
    bytes[46] = 0xff;
    assert!(matches!(decode_module(&bytes), Err(MarketError::MalformedRecord)));
    let mut bytes = encode_module(&sample_module("ab"));
    bytes[42] = 200;
    assert!(matches!(decode_module(&bytes), Err(MarketError::MalformedRecord)));
    let mut bytes = encode_module(&sample_module(""));
    bytes[41] = 3;
    assert!(matches!(decode_module(&bytes), Err(MarketError::MalformedRecord)));
}
