use mcp_marketplace::bytes::{read_u64_le, write_u64_le};
use mcp_marketplace::error::MarketError;
use mcp_marketplace::instruction::{
    decode_marketplace_instruction, decode_token_instruction, encode_marketplace_instruction,
    encode_token_instruction,
    MarketplaceInstruction, MetaTokenInstruction,
};

#[test]
fn decodes_marketplace_requests() {
    assert_eq!(
        decode_marketplace_instruction(&[0, 10]),
        Ok(MarketplaceInstruction::InitializeMarketplace { fee_percentage: 10 })
    );
    assert_eq!(
        decode_marketplace_instruction(&[1, 0xe8, 0x03, 0, 0, 0, 0, 0, 0, 0]),
        Ok(MarketplaceInstruction::ListModule { price: 1000, is_free_issuance: false })
    );
    assert_eq!(
        decode_marketplace_instruction(&[1, 0, 0, 0, 0, 0, 0, 0, 0, 1]),
        Ok(MarketplaceInstruction::ListModule { price: 0, is_free_issuance: true })
    );
    assert_eq!(decode_marketplace_instruction(&[2]), Ok(MarketplaceInstruction::PurchaseModule {}));
    assert_eq!(decode_marketplace_instruction(&[3]), Ok(MarketplaceInstruction::CollectRevenue {}));
}

#[test]
fn rejects_malformed_marketplace_requests() {
    let bad: [&[u8]; 7] = [
        &[],
        &[4],
        &[0],
        &[0, 10, 0],
        &[1, 0, 0, 0, 0, 0, 0, 0, 0, 2],
        &[1, 0, 0, 0, 0, 0, 0, 0, 0],
        &[2, 0],
    ];
    for data in bad {
        assert_eq!(decode_marketplace_instruction(data), Err(MarketError::MalformedInstruction));
    }
}

#[test]
fn decodes_token_requests() {
    assert_eq!(decode_token_instruction(&[0]), Ok(MetaTokenInstruction::Initialize {}));
    assert_eq!(
        decode_token_instruction(&[1, 1, 0, 0, 0, 0, 0, 0, 0]),
        Ok(MetaTokenInstruction::Mint { amount: 1 })
    );
    assert_eq!(
        decode_token_instruction(&[2, 0xff, 0xff, 0xff, 0xff, 0xff, 0xff, 0xff, 0xff]),
        Ok(MetaTokenInstruction::Burn { amount: u64::MAX })
    );
    assert_eq!(
        decode_token_instruction(&[3, 0, 1, 0, 0, 0, 0, 0, 0]),
        Ok(MetaTokenInstruction::Transfer { amount: 256 })
    );
    for data in [&[][..], &[4][..], &[0, 0][..], &[1, 0][..], &[3, 0, 0, 0, 0, 0, 0, 0, 0, 0][..]] {
        assert_eq!(decode_token_instruction(data), Err(MarketError::MalformedInstruction));
    }
}

#[test]
fn reads_little_endian() {
    let data = [9u8, 0x08, 0x07, 0x06, 0x05, 0x04, 0x03, 0x02, 0x01];
    assert_eq!(read_u64_le(&data, 1), 0x0102_0304_0506_0708);
    assert_eq!(read_u64_le(&data, 0), 0x0203_0405_0607_0809);
}

#[test]
fn encodes_marketplace_requests() {
    let list = MarketplaceInstruction::ListModule { price: 1000, is_free_issuance: true };
    assert_eq!(encode_marketplace_instruction(&list), vec![1, 0xe8, 0x03, 0, 0, 0, 0, 0, 0, 1]);
    let all = [
        MarketplaceInstruction::InitializeMarketplace { fee_percentage: 100 },
        list,
        MarketplaceInstruction::ListModule { price: u64::MAX, is_free_issuance: false },
        MarketplaceInstruction::PurchaseModule {},
        MarketplaceInstruction::CollectRevenue {},
    ];
    for i in all {
        assert_eq!(decode_marketplace_instruction(&encode_marketplace_instruction(&i)), Ok(i));
    }
}

#[test]
fn encodes_token_requests() {
    assert_eq!(encode_token_instruction(&MetaTokenInstruction::Burn { amount: 258 }), vec![2, 2, 1, 0, 0, 0, 0, 0, 0]);
    let all = [
        MetaTokenInstruction::Initialize {},
        MetaTokenInstruction::Mint { amount: 0 },
        MetaTokenInstruction::Burn { amount: u64::MAX },
        MetaTokenInstruction::Transfer { amount: 0x0102_0304_0506_0708 },
    ];
    for i in all {
        assert_eq!(decode_token_instruction(&encode_token_instruction(&i)), Ok(i));
    }
}

#[test]
fn writes_little_endian() {
    let mut out = vec![7u8];
    write_u64_le(&mut out, 0x0102_0304_0506_0708);
    assert_eq!(out, vec![7, 0x08, 0x07, 0x06, 0x05, 0x04, 0x03, 0x02, 0x01]);
}
