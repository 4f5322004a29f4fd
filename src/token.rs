use vstd::prelude::*;

use crate::address::{AccountRef, Address};
use crate::error::MarketError;

verus! {

/// Decimal places of the settlement token.
pub const TOKEN_DECIMALS: u8 = 9;

/// What the token authority asks the ledger service to do. It never holds or
/// computes balances itself.
#[derive(Clone, Copy, Debug)]
pub enum LedgerRequest {
    InitializeMint { mint: Address, mint_authority: Address, freeze_authority: Address, decimals: u8 },
    MintTo { mint: Address, destination: Address, authority: Address, amount: u64 },
    Burn { source: Address, mint: Address, owner: Address, amount: u64 },
    Transfer { source: Address, destination: Address, owner: Address, amount: u64 },
}

pub open spec fn initialize_error(authority: AccountRef, mint_initialized: bool) -> Option<
    MarketError,
> {
    if !authority.is_signer {
        Some(MarketError::MissingSignature)
    } else if mint_initialized {
        Some(MarketError::AlreadyInitialized)
    } else {
        None
    }
}

/// Sets up the settlement token's mint with the signer as mint and freeze
/// authority.
pub fn process_initialize(authority: &AccountRef, mint: &AccountRef, mint_initialized: bool) -> (r:
    Result<LedgerRequest, MarketError>)
    ensures
        match initialize_error(*authority, mint_initialized) {
            Some(e) => r == Err::<LedgerRequest, MarketError>(e),
            None => r matches Ok(
                LedgerRequest::InitializeMint { mint: m, mint_authority: a, freeze_authority: f, decimals: d },
            ) && m@ == mint.key@ && a@ == authority.key@ && f@ == authority.key@ && d == 9,
        },
{
    if !authority.is_signer {
        return Err(MarketError::MissingSignature);
    }
    if mint_initialized {
        return Err(MarketError::AlreadyInitialized);
    }
    Ok(
        LedgerRequest::InitializeMint {
            mint: mint.key,
            mint_authority: authority.key,
            freeze_authority: authority.key,
            decimals: TOKEN_DECIMALS,
        },
    )
}

pub open spec fn mint_error(
    authority: AccountRef,
    mint_initialized: bool,
    mint_authority: Option<Address>,
) -> Option<MarketError> {
    if !authority.is_signer {
        Some(MarketError::MissingSignature)
    } else if !mint_initialized {
        Some(MarketError::Uninitialized)
    } else if !(mint_authority matches Some(a) && a@ == authority.key@) {
        Some(MarketError::Unauthorized)
    } else {
        None
    }
}

/// Issues `amount` new tokens to `destination`; only the mint's recorded
/// authority may do so.
pub fn process_mint(
    authority: &AccountRef,
    mint: &AccountRef,
    mint_initialized: bool,
    mint_authority: Option<Address>,
    destination: &AccountRef,
    amount: u64,
) -> (r: Result<LedgerRequest, MarketError>)
    ensures
        match mint_error(*authority, mint_initialized, mint_authority) {
            Some(e) => r == Err::<LedgerRequest, MarketError>(e),
            None => r matches Ok(LedgerRequest::MintTo { mint: m, destination: d, authority: a, amount: x })
                && m@ == mint.key@ && d@ == destination.key@ && a@ == authority.key@ && x == amount,
        },
{
    if !authority.is_signer {
        return Err(MarketError::MissingSignature);
    }
    if !mint_initialized {
        return Err(MarketError::Uninitialized);
    }
    let authorized = match mint_authority {
        Some(a) => a.same_as(&authority.key),
        None => false,
    };
    if !authorized {
        return Err(MarketError::Unauthorized);
    }
    Ok(
        LedgerRequest::MintTo {
            mint: mint.key,
            destination: destination.key,
            authority: authority.key,
            amount,
        },
    )
}

pub open spec fn movement_error(owner: AccountRef, source_owner: Address) -> Option<MarketError> {
    if !owner.is_signer {
        Some(MarketError::MissingSignature)
    } else if owner.key@ != source_owner@ {
        Some(MarketError::Unauthorized)
    } else {
        None
    }
}

fn check_source_owner(owner: &AccountRef, source_owner: &Address) -> (r: Result<(), MarketError>)
    ensures
        match movement_error(*owner, *source_owner) {
            Some(e) => r == Err::<(), MarketError>(e),
            None => r is Ok,
        },
{
    if !owner.is_signer {
        return Err(MarketError::MissingSignature);
    }
    if !owner.key.same_as(source_owner) {
        return Err(MarketError::Unauthorized);
    }
    Ok(())
}

/// Destroys `amount` tokens held by `source`, whose recorded owner is
/// `source_owner` and must be the signer.
pub fn process_burn(
    owner: &AccountRef,
    source: &AccountRef,
    source_owner: &Address,
    mint: &AccountRef,
    amount: u64,
) -> (r: Result<LedgerRequest, MarketError>)
    ensures
        match movement_error(*owner, *source_owner) {
            Some(e) => r == Err::<LedgerRequest, MarketError>(e),
            None => r matches Ok(LedgerRequest::Burn { source: s, mint: m, owner: o, amount: x })
                && s@ == source.key@ && m@ == mint.key@ && o@ == owner.key@ && x == amount,
        },
{
    match check_source_owner(owner, source_owner) {
        Err(e) => Err(e),
        Ok(()) => Ok(
            LedgerRequest::Burn { source: source.key, mint: mint.key, owner: owner.key, amount },
        ),
    }
}

/// Moves `amount` tokens from `source`, whose recorded owner is
/// `source_owner` and must be the signer, to `destination`.
pub fn process_transfer(
    owner: &AccountRef,
    source: &AccountRef,
    source_owner: &Address,
    destination: &AccountRef,
    amount: u64,
) -> (r: Result<LedgerRequest, MarketError>)
    ensures
        match movement_error(*owner, *source_owner) {
            Some(e) => r == Err::<LedgerRequest, MarketError>(e),
            None => r matches Ok(
                LedgerRequest::Transfer { source: s, destination: d, owner: o, amount: x },
            ) && s@ == source.key@ && d@ == destination.key@ && o@ == owner.key@ && x == amount,
        },
{
    match check_source_owner(owner, source_owner) {
        Err(e) => Err(e),
        Ok(()) => Ok(
            LedgerRequest::Transfer {
                source: source.key,
                destination: destination.key,
                owner: owner.key,
                amount,
            },
        ),
    }
}

} // verus!
