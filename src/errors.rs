use vstd::prelude::*;

verus! {

/// The named rejections of the bounty lifecycle.
#[derive(Clone, Copy, Debug, PartialEq, Eq, Structural)]
pub enum BountyForgeError {
    BountyNotOpen,
    BountyAlreadySubmitted,
    SolutionHashMismatch,
    AttestationOwnerMismatch,
    ReputationScoreOverflow,
    BountyNotSubmitted,
    UnauthorizedSettlement,
    ReputationOwnerMismatch,
    ReputationOverflow,
    OracleVerificationFailed,
    OracleDataStale,
}

/// The rejections of bounty creation, raised by the escrow-account checks.
#[derive(Clone, Copy, Debug, PartialEq, Eq, Structural)]
pub enum PostBountyError {
    /// The escrow account is not the one derived from the bounty and the currency.
    ConstraintTokenMint,
    /// The escrow account has no storage allocated.
    AccountNotInitialized,
    /// The escrow balance cannot take the reward without overflowing.
    EscrowOverflow,
}

} // verus!
