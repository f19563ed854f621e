use vstd::prelude::*;

verus! {

/// Errors raised by the registry's instructions and state computations.
#[derive(Clone, Copy, Debug, PartialEq, Eq, Structural)]
pub enum ErrorCode {
    /// Exchange rate must be greater than zero
    InvalidRate,
    RatesFull,
    VotingMintNotFound,
    DepositEntryNotFound,
    DepositEntryFull,
    VotingTokenNonZero,
    OutOfBoundsDepositEntryIndex,
    UnusedDepositEntryIndex,
    InsufficientVestedTokens,
    UnableToConvert,
    InvalidLockupPeriod,
    InvalidEndTs,
    InvalidDays,
    VotingMintConfigIndexAlreadyInUse,
    OutOfBoundsVotingMintConfigIndex,
    /// Exchange rate decimals cannot be larger than registrar decimals
    InvalidDecimals,
    InvalidToDepositAndWithdrawInOneSlot,
    ShouldBeTheFirstIxInATx,
    ForbiddenCpi,
    InvalidMint,
    DebugInstruction,
    ClawbackNotAllowedOnDeposit,
    DepositStillLocked,
    InvalidAuthority,
    InvalidTokenOwnerRecord,
    InvalidRealmAuthority,
    VoterWeightOverflow,
    LockupSaturationMustBePositive,
    VotingMintConfiguredWithDifferentIndex,
    InternalProgramError,
    InsufficientLockedTokens,
    MustKeepTokensLocked,
    InvalidLockupKind,
    InvalidChangeToClawbackDepositEntry,
    InternalErrorBadLockupVoteWeight,
    DepositStartTooFarInFuture,
    /// No exchange rate entry is registered for the mint.
    ExchangeRateEntryNotFound,
    /// The deposit entry index is out of bounds or the entry is unused.
    InvalidDepositEntryIndex,
    /// The exchange rate index is out of bounds.
    OutOfBoundsRatesIndex,
    /// The exchange rate slot at the index is already taken.
    RatesIndexAlreadyInUse,
}

/// Errors that the governance program reports when a token owner record
/// does not allow its governing tokens to be withdrawn.
#[derive(Clone, Copy, Debug, PartialEq, Eq, Structural)]
pub enum GovernanceError {
    AllVotesMustBeRelinquishedToWithdrawGoverningTokens,
    AllProposalsMustBeFinalisedToWithdrawGoverningTokens,
}

/// The error of an instruction: either one of the registry's own codes or
/// one reported by the governance program.
#[derive(Clone, Copy, Debug, PartialEq, Eq, Structural)]
pub enum Error {
    ErrorCode(ErrorCode),
    Governance(GovernanceError),
}

} // verus!
