use mcp_marketplace::address::{AccountRef, Address};
use mcp_marketplace::error::MarketError;
use mcp_marketplace::token::{
    process_burn, process_initialize, process_mint, process_transfer, LedgerRequest,
};

fn key(b: u8) -> Address {
    Address::new([b; 32])
}

fn account(k: u8, is_signer: bool) -> AccountRef {
    AccountRef { key: key(k), owner: key(0), is_signer }
}

#[test]
fn initialize_requests_mint_setup() {
    match process_initialize(&account(1, true), &account(2, false), false) {
        Ok(LedgerRequest::InitializeMint { mint, mint_authority, freeze_authority, decimals }) => {
            assert!(mint.same_as(&key(2)));
            assert!(mint_authority.same_as(&key(1)));
            assert!(freeze_authority.same_as(&key(1)));
            assert_eq!(decimals, 9);
        }
        other => panic!("unexpected {:?}", other),
    }
    assert!(matches!(process_initialize(&account(1, false), &account(2, false), false), Err(MarketError::MissingSignature)));
    assert!(matches!(process_initialize(&account(1, true), &account(2, false), true), Err(MarketError::AlreadyInitialized)));
}

#[test]
fn mint_needs_recorded_authority() {
    match process_mint(&account(1, true), &account(2, false), true, Some(key(1)), &account(3, false), 500) {
        Ok(LedgerRequest::MintTo { mint, destination, authority, amount }) => {
            assert!(mint.same_as(&key(2)));
            assert!(destination.same_as(&key(3)));
            assert!(authority.same_as(&key(1)));
            assert_eq!(amount, 500);
        }
        other => panic!("unexpected {:?}", other),
    }
    assert!(matches!(
        process_mint(&account(7, true), &account(2, false), true, Some(key(1)), &account(3, false), 500),
        Err(MarketError::Unauthorized)
    ));
    assert!(matches!(
        process_mint(&account(1, true), &account(2, false), true, None, &account(3, false), 500),
        Err(MarketError::Unauthorized)
    ));
    assert!(matches!(
        process_mint(&account(1, true), &account(2, false), false, Some(key(1)), &account(3, false), 500),
        Err(MarketError::Uninitialized)
    ));
    assert!(matches!(
        process_mint(&account(1, false), &account(2, false), true, Some(key(1)), &account(3, false), 500),
        Err(MarketError::MissingSignature)
    ));
}

#[test]
fn burn_and_transfer_need_source_owner() {
    match process_burn(&account(1, true), &account(4, false), &key(1), &account(2, false), 30) {
        Ok(LedgerRequest::Burn { source, mint, owner, amount }) => {
            assert!(source.same_as(&key(4)));
            assert!(mint.same_as(&key(2)));
            assert!(owner.same_as(&key(1)));
            assert_eq!(amount, 30);
        }
        other => panic!("unexpected {:?}", other),
    }
    match process_transfer(&account(1, true), &account(4, false), &key(1), &account(5, false), 31) {
        Ok(LedgerRequest::Transfer { source, destination, owner, amount }) => {
            assert!(source.same_as(&key(4)));
            assert!(destination.same_as(&key(5)));
            assert!(owner.same_as(&key(1)));
            assert_eq!(amount, 31);
        }
        other => panic!("unexpected {:?}", other),
    }
    assert!(matches!(process_burn(&account(1, true), &account(4, false), &key(6), &account(2, false), 30), Err(MarketError::Unauthorized)));
    assert!(matches!(process_transfer(&account(1, false), &account(4, false), &key(1), &account(5, false), 30), Err(MarketError::MissingSignature)));
    assert!(matches!(process_transfer(&account(1, true), &account(4, false), &key(6), &account(5, false), 30), Err(MarketError::Unauthorized)));
}
