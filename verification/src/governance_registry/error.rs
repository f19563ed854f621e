use vstd::prelude::*;
use crate::error::GovernanceError;

verus! {

/// Errors of the governance registry.
#[derive(Clone, Copy, Debug, PartialEq, Eq, Structural)]
pub enum ErrorCode {
    /// Exchange rate must be greater than zero
    InvalidRate,
    RatesFull,
    ExchangeRateEntryNotFound,
    DepositEntryNotFound,
    DepositEntryFull,
    VotingTokenNonZero,
    InvalidDepositId,
    InsufficientVestedTokens,
    UnableToConvert,
    InvalidLockupPeriod,
    InvalidEndTs,
    InvalidDays,
    RateNotZero,
    InvalidIndex,
    /// Exchange rate decimals cannot be larger than registrar decimals
    InvalidDecimals,
    InvalidToDepositAndWithdrawInOneSlot,
    ForbiddenCpi,
    InvalidMint,
    DebugInstruction,
    ClawbackNotAllowedOnDeposit,
    DepositStillLocked,
    InvalidAuthority,
}

/// The error of an instruction: either one of the registry's own codes or
/// one reported by the governance program.
#[derive(Clone, Copy, Debug, PartialEq, Eq, Structural)]
pub enum Error {
    ErrorCode(ErrorCode),
    Governance(GovernanceError),
}

} // verus!
