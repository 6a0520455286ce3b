//! Strongly-typed error enums returned by the contracts.
use vstd::prelude::*;

verus! {

/// Escrow contract errors.
#[derive(Copy, Clone, Debug, PartialEq, Eq, Structural)]
pub enum EscrowError {
    /// Contract has already been initialized
    AlreadyInitialized,
    /// Caller is not authorized to perform this action
    Unauthorized,
    /// Invalid nonce provided for replay protection
    InvalidNonce,
    /// Number of participants exceeds maximum allowed
    TooManyParticipants,
    /// Escrow not found
    EscrowNotFound,
    /// Invalid escrow status for this operation
    InvalidStatus,
    /// Deposit would exceed escrow amount
    DepositExceedsAmount,
    /// Time lock is still active
    TimeLockActive,
    /// Signature threshold not met for multi-sig approval
    SignatureThresholdNotMet,
    /// Signer has already signed this approval
    AlreadySigned,
}

/// Risk pool contract errors.
#[derive(Copy, Clone, Debug, PartialEq, Eq, Structural)]
pub enum RiskPoolError {
    AlreadyInitialized,
    NotInitialized,
    BelowMinimumStake,
    InsufficientStake,
    InsufficientPoolFunds,
    InvalidAmount,
}

/// Governance contract errors.
#[derive(Copy, Clone, Debug, PartialEq, Eq, Structural)]
pub enum GovernanceError {
    AlreadyInitialized,
    NotInitialized,
    VotingPeriodEnded,
    AlreadyVoted,
    VotingPeriodNotEnded,
    MustFinalizeFirst,
    AlreadyExecuted,
    ThresholdNotMet,
    ClaimsContractNotSet,
    RiskPoolContractNotSet,
    PolicyContractNotSet,
    SlashingContractNotSet,
    InvalidPauseDuration,
}

/// Oracle contract errors.
#[derive(Copy, Clone, Debug, PartialEq, Eq, Structural)]
pub enum OracleError {
    AlreadyInitialized,
    NotInitialized,
}

/// ABI versioning errors: the caller's declared ABI version is not served
/// by the callee.
#[derive(Copy, Clone, Debug, PartialEq, Eq, Structural)]
pub enum AbiError {
    AbiVersionMismatch,
    AbiNotInitialized,
    InvalidAbiVersion,
}

impl EscrowError {
    /// The stable numeric error code surfaced to clients.
    pub fn code(&self) -> (c: u32)
        ensures
            1 <= c <= 10,
            c == match *self {
                EscrowError::AlreadyInitialized => 1u32,
                EscrowError::Unauthorized => 2,
                EscrowError::InvalidNonce => 3,
                EscrowError::TooManyParticipants => 4,
                EscrowError::EscrowNotFound => 5,
                EscrowError::InvalidStatus => 6,
                EscrowError::DepositExceedsAmount => 7,
                EscrowError::TimeLockActive => 8,
                EscrowError::SignatureThresholdNotMet => 9,
                EscrowError::AlreadySigned => 10,
            },
    {
        match self {
            EscrowError::AlreadyInitialized => 1,
            EscrowError::Unauthorized => 2,
            EscrowError::InvalidNonce => 3,
            EscrowError::TooManyParticipants => 4,
            EscrowError::EscrowNotFound => 5,
            EscrowError::InvalidStatus => 6,
            EscrowError::DepositExceedsAmount => 7,
            EscrowError::TimeLockActive => 8,
            EscrowError::SignatureThresholdNotMet => 9,
            EscrowError::AlreadySigned => 10,
        }
    }
}

} // verus!
