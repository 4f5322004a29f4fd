use vstd::prelude::*;

verus! {

/// Why an instruction was rejected. Every check aborts the whole
/// instruction on its first failure.
#[derive(Clone, Copy, Debug, PartialEq, Eq, Structural)]
pub enum MarketError {
    MalformedInstruction,
    MissingSignature,
    WrongOwner,
    Uninitialized,
    AlreadyInitialized,
    InvalidFeePercentage,
    InvalidPrice,
    ArithmeticOverflow,
    InsufficientFunds,
    Unauthorized,
    RentExemptionViolation,
    /// Stored account data that does not hold a record.
    MalformedRecord,
}

/// How the ledger service refused a balance movement.
#[derive(Clone, Copy, Debug, PartialEq, Eq, Structural)]
pub enum LedgerError {
    InsufficientFunds,
    Unauthorized,
}

pub open spec fn ledger_failure(e: LedgerError) -> MarketError {
    match e {
        LedgerError::InsufficientFunds => MarketError::InsufficientFunds,
        LedgerError::Unauthorized => MarketError::Unauthorized,
    }
}

/// The instruction's error for the ledger's refusal.
pub fn from_ledger_error(e: LedgerError) -> (r: MarketError)
    ensures
        r == ledger_failure(e),
{
    match e {
        LedgerError::InsufficientFunds => MarketError::InsufficientFunds,
        LedgerError::Unauthorized => MarketError::Unauthorized,
    }
}

/// Turns the ledger's answer to a movement request into the instruction's
/// outcome.
pub fn settle_ledger_outcome(outcome: Result<(), LedgerError>) -> (r: Result<(), MarketError>)
    ensures
        match outcome {
            Ok(()) => r is Ok,
            Err(e) => r == Err::<(), MarketError>(ledger_failure(e)),
        },
{
    match outcome {
        Ok(()) => Ok(()),
        Err(e) => Err(from_ledger_error(e)),
    }
}

} // verus!
