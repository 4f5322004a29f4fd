use vstd::prelude::*;

use crate::bytes::{le_u64_at, read_u64_le, write_u64_le};
use crate::error::MarketError;

verus! {

/// Requests handled by the marketplace program.
#[derive(Clone, Copy, Debug, PartialEq, Eq, Structural)]
pub enum MarketplaceInstruction {
    /// Accounts: authority (signer), marketplace (writable), rent sysvar.
    InitializeMarketplace { fee_percentage: u8 },
    /// Accounts: creator (signer), marketplace, module (writable), module mint.
    ListModule { price: u64, is_free_issuance: bool },
    /// Accounts: buyer (signer), marketplace, module (writable), creator,
    /// platform, buyer token account, module mint (all writable).
    PurchaseModule {},
    /// Accounts: creator (signer), marketplace, creator revenue account,
    /// module (writable), treasury token account (writable), treasury
    /// authority, token program.
    CollectRevenue {},
}

/// Requests handled by the settlement token program.
#[derive(Clone, Copy, Debug, PartialEq, Eq, Structural)]
pub enum MetaTokenInstruction {
    /// Accounts: authority (signer), mint (writable), rent sysvar, token program.
    Initialize {},
    /// Accounts: authority (signer), mint, destination (writable), token program.
    Mint { amount: u64 },
    /// Accounts: owner (signer), source (writable), mint, token program.
    Burn { amount: u64 },
    /// Accounts: owner (signer), source (writable), destination (writable),
    /// token program.
    Transfer { amount: u64 },
}

/// The marketplace request that `data` encodes: a tag byte, then the
/// variant's fields in order (a byte, an 8-byte little-endian integer, a
/// boolean byte that must be 0 or 1), with nothing after them.
pub open spec fn marketplace_instruction_of(data: Seq<u8>) -> Option<MarketplaceInstruction> {
    if data.len() == 0 {
        None
    } else if data[0] == 0 && data.len() == 2 {
        Some(MarketplaceInstruction::InitializeMarketplace { fee_percentage: data[1] })
    } else if data[0] == 1 && data.len() == 10 && data[9] <= 1 {
        Some(
            MarketplaceInstruction::ListModule {
                price: le_u64_at(data, 1),
                is_free_issuance: data[9] == 1,
            },
        )
    } else if data[0] == 2 && data.len() == 1 {
        Some(MarketplaceInstruction::PurchaseModule {  })
    } else if data[0] == 3 && data.len() == 1 {
        Some(MarketplaceInstruction::CollectRevenue {  })
    } else {
        None
    }
}

/// The token request that `data` encodes, laid out as for the marketplace.
pub open spec fn token_instruction_of(data: Seq<u8>) -> Option<MetaTokenInstruction> {
    if data.len() == 0 {
        None
    } else if data[0] == 0 && data.len() == 1 {
        Some(MetaTokenInstruction::Initialize {  })
    } else if data[0] == 1 && data.len() == 9 {
        Some(MetaTokenInstruction::Mint { amount: le_u64_at(data, 1) })
    } else if data[0] == 2 && data.len() == 9 {
        Some(MetaTokenInstruction::Burn { amount: le_u64_at(data, 1) })
    } else if data[0] == 3 && data.len() == 9 {
        Some(MetaTokenInstruction::Transfer { amount: le_u64_at(data, 1) })
    } else {
        None
    }
}

/// Decodes a marketplace request, failing on an unknown tag, a wrong length
/// or a boolean byte other than 0 or 1.
pub fn decode_marketplace_instruction(data: &[u8]) -> (r: Result<MarketplaceInstruction, MarketError>)
    ensures
        r == match marketplace_instruction_of(data@) {
            Some(i) => Ok::<MarketplaceInstruction, MarketError>(i),
            None => Err(MarketError::MalformedInstruction),
        },
{
    let n = data.len();
    if n == 0 {
        return Err(MarketError::MalformedInstruction);
    }
    let tag = data[0];
    if tag == 0 && n == 2 {
        Ok(MarketplaceInstruction::InitializeMarketplace { fee_percentage: data[1] })
    } else if tag == 1 && n == 10 && data[9] <= 1 {
        let price = read_u64_le(data, 1);
        Ok(MarketplaceInstruction::ListModule { price, is_free_issuance: data[9] == 1 })
    } else if tag == 2 && n == 1 {
        Ok(MarketplaceInstruction::PurchaseModule {  })
    } else if tag == 3 && n == 1 {
        Ok(MarketplaceInstruction::CollectRevenue {  })
    } else {
        Err(MarketError::MalformedInstruction)
    }
}

/// Decodes a token request, failing on an unknown tag or a wrong length.
pub fn decode_token_instruction(data: &[u8]) -> (r: Result<MetaTokenInstruction, MarketError>)
    ensures
        r == match token_instruction_of(data@) {
            Some(i) => Ok::<MetaTokenInstruction, MarketError>(i),
            None => Err(MarketError::MalformedInstruction),
        },
{
    let n = data.len();
    if n == 0 {
        return Err(MarketError::MalformedInstruction);
    }
    let tag = data[0];
    if tag == 0 && n == 1 {
        Ok(MetaTokenInstruction::Initialize {  })
    } else if tag == 1 && n == 9 {
        Ok(MetaTokenInstruction::Mint { amount: read_u64_le(data, 1) })
    } else if tag == 2 && n == 9 {
        Ok(MetaTokenInstruction::Burn { amount: read_u64_le(data, 1) })
    } else if tag == 3 && n == 9 {
        Ok(MetaTokenInstruction::Transfer { amount: read_u64_le(data, 1) })
    } else {
        Err(MarketError::MalformedInstruction)
    }
}

/// Encodes a marketplace request; decoding the result gives it back.
pub fn encode_marketplace_instruction(instruction: &MarketplaceInstruction) -> (r: Vec<u8>)
    ensures
        marketplace_instruction_of(r@) == Some(*instruction),
{
    let mut out: Vec<u8> = Vec::new();
    match instruction {
        MarketplaceInstruction::InitializeMarketplace { fee_percentage } => {
            out.push(0);
            out.push(*fee_percentage);
        },
        MarketplaceInstruction::ListModule { price, is_free_issuance } => {
            out.push(1);
            write_u64_le(&mut out, *price);
            let ghost written = out@;
            assert(written[0] == 1) by {
                assert(written.subrange(0, 1)[0] == written[0]);
            }
            out.push(if *is_free_issuance { 1 } else { 0 });
            assert(out@.subrange(1, 9) =~= written.subrange(1, 9));
        },
        MarketplaceInstruction::PurchaseModule {  } => {
            out.push(2);
        },
        MarketplaceInstruction::CollectRevenue {  } => {
            out.push(3);
        },
    }
    out
}

/// Encodes a token request; decoding the result gives it back.
pub fn encode_token_instruction(instruction: &MetaTokenInstruction) -> (r: Vec<u8>)
    ensures
        token_instruction_of(r@) == Some(*instruction),
{
    let mut out: Vec<u8> = Vec::new();
    match instruction {
        MetaTokenInstruction::Initialize {  } => {
            out.push(0);
        },
        MetaTokenInstruction::Mint { amount } => {
            out.push(1);
            write_u64_le(&mut out, *amount);
            assert(out@[0] == 1) by {
                assert(out@.subrange(0, 1)[0] == out@[0]);
            }
        },
        MetaTokenInstruction::Burn { amount } => {
            out.push(2);
            write_u64_le(&mut out, *amount);
            assert(out@[0] == 2) by {
                assert(out@.subrange(0, 1)[0] == out@[0]);
            }
        },
        MetaTokenInstruction::Transfer { amount } => {
            out.push(3);
            write_u64_le(&mut out, *amount);
            assert(out@[0] == 3) by {
                assert(out@.subrange(0, 1)[0] == out@[0]);
            }
        },
    }
    out
}

} // verus!
