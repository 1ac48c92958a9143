//! Errors of the engine.
use vstd::prelude::*;

verus! {

/// The class an error falls into, for callers that only need to know
/// whether a retry with other inputs can help.
#[derive(Clone, Copy, Debug, PartialEq, Eq, Structural)]
pub enum ErrorKind {
    /// An add, subtract, multiply or divide left the range of its type.
    ArithmeticError,
    /// A structural check of the engine failed.
    InvariantViolation,
    /// The caller may not perform the operation.
    Unauthorized,
    /// Records that must belong together do not.
    InvalidLinkage,
    /// Not enough staked or held tokens.
    InsufficientBalance,
    /// A minter's allowance does not cover the mint.
    AllowanceExceeded,
    /// A mint would take the supply over its hard cap.
    HardCapExceeded,
    /// A timestamp earlier than the last checkpoint.
    InvalidTimestamp,
}

/// Every error that an operation of the engine can end with.
#[derive(Clone, Copy, Debug, PartialEq, Eq, Structural)]
pub enum ErrorCode {
    /// Checked arithmetic failed.
    IntegerOverflow,
    /// The caller is not the authority of the record.
    Unauthorized,
    /// Withdrawal of more than the staked balance.
    InsufficientBalance,
    /// No pending authority was proposed.
    PendingAuthorityNotSet,
    /// A pool's share is larger than the allocator's total.
    InvalidRewardsShare,
    /// A depositor holds more than its pool.
    NotEnoughTokens,
    /// A timestamp before the last checkpoint.
    InvalidTimestamp,
    /// The claim fee is not below the fee denominator.
    InvalidMaxClaimFee,
    /// The annual rate is above the allowed maximum.
    MaxAnnualRewardsRateExceeded,
    /// The allocator is paused.
    Paused,
    /// A claim is larger than the independent upper bound allows.
    UpperboundExceeded,
    /// Replica tokens are still staked while the primary stake shrinks.
    OutstandingReplicaTokens,
    /// A post-condition of a merge-mining step failed.
    InvariantFailed,
    /// A minter's allowance does not cover the mint.
    MinterAllowanceExceeded,
    /// A mint would take the supply over the hard cap.
    HardcapExceeded,
    /// A record belongs to another pool or mint.
    InvalidLinkage,
    /// A depositor record for a pool that stakes neither token of a merge pool.
    InvalidMiner,
    /// Replica tokens cannot leave a merge-mining position.
    CannotWithdrawReplicaMint,
}

impl ErrorCode {
    /// The class of an error.
    pub open spec fn spec_kind(self) -> ErrorKind {
        match self {
            ErrorCode::IntegerOverflow => ErrorKind::ArithmeticError,
            ErrorCode::Unauthorized => ErrorKind::Unauthorized,
            ErrorCode::PendingAuthorityNotSet => ErrorKind::Unauthorized,
            ErrorCode::InsufficientBalance => ErrorKind::InsufficientBalance,
            ErrorCode::NotEnoughTokens => ErrorKind::InvariantViolation,
            ErrorCode::InvalidRewardsShare => ErrorKind::InvariantViolation,
            ErrorCode::InvalidTimestamp => ErrorKind::InvalidTimestamp,
            ErrorCode::InvalidMaxClaimFee => ErrorKind::InvariantViolation,
            ErrorCode::MaxAnnualRewardsRateExceeded => ErrorKind::InvariantViolation,
            ErrorCode::Paused => ErrorKind::Unauthorized,
            ErrorCode::UpperboundExceeded => ErrorKind::InvariantViolation,
            ErrorCode::OutstandingReplicaTokens => ErrorKind::InvariantViolation,
            ErrorCode::InvariantFailed => ErrorKind::InvariantViolation,
            ErrorCode::MinterAllowanceExceeded => ErrorKind::AllowanceExceeded,
            ErrorCode::HardcapExceeded => ErrorKind::HardCapExceeded,
            ErrorCode::InvalidLinkage => ErrorKind::InvalidLinkage,
            ErrorCode::InvalidMiner => ErrorKind::InvalidLinkage,
            ErrorCode::CannotWithdrawReplicaMint => ErrorKind::InvalidLinkage,
        }
    }

    /// The class of an error.
    pub fn kind(&self) -> (r: ErrorKind)
        ensures
            r == self.spec_kind(),
    {
        match self {
            ErrorCode::IntegerOverflow => ErrorKind::ArithmeticError,
            ErrorCode::Unauthorized => ErrorKind::Unauthorized,
            ErrorCode::PendingAuthorityNotSet => ErrorKind::Unauthorized,
            ErrorCode::InsufficientBalance => ErrorKind::InsufficientBalance,
            ErrorCode::NotEnoughTokens => ErrorKind::InvariantViolation,
            ErrorCode::InvalidRewardsShare => ErrorKind::InvariantViolation,
            ErrorCode::InvalidTimestamp => ErrorKind::InvalidTimestamp,
            ErrorCode::InvalidMaxClaimFee => ErrorKind::InvariantViolation,
            ErrorCode::MaxAnnualRewardsRateExceeded => ErrorKind::InvariantViolation,
            ErrorCode::Paused => ErrorKind::Unauthorized,
            ErrorCode::UpperboundExceeded => ErrorKind::InvariantViolation,
            ErrorCode::OutstandingReplicaTokens => ErrorKind::InvariantViolation,
            ErrorCode::InvariantFailed => ErrorKind::InvariantViolation,
            ErrorCode::MinterAllowanceExceeded => ErrorKind::AllowanceExceeded,
            ErrorCode::HardcapExceeded => ErrorKind::HardCapExceeded,
            ErrorCode::InvalidLinkage => ErrorKind::InvalidLinkage,
            ErrorCode::InvalidMiner => ErrorKind::InvalidLinkage,
            ErrorCode::CannotWithdrawReplicaMint => ErrorKind::InvalidLinkage,
        }
    }
}

} // verus!
