use vstd::prelude::*;

use crate::errors::BountyForgeError;
use crate::state::{keys_equal, Attestation, Bounty, BountyStatus, Pubkey, Reputation, TokenAccount, Transfer};

verus! {

/// The records that settlement reads and writes.
#[derive(Debug)]
pub struct SettleBounty {
    /// The signer, who must be the bounty's creator.
    pub creator: Pubkey,
    /// The derived address of the bounty record, the authority over its escrow.
    pub bounty_address: Pubkey,
    pub bounty: Bounty,
    /// The attestation of the submitted solution; its agent is the winner.
    pub attestation: Attestation,
    /// The winning agent's reputation record.
    pub reputation: Reputation,
    /// The escrow account of the bounty.
    pub bounty_token_account: TokenAccount,
    /// The winning agent's token account of the settlement currency.
    pub agent_token_account: Pubkey,
}

/// The first check that settlement fails, in the order they are made; `None` when all pass.
pub open spec fn settle_error(s: SettleBounty) -> Option<BountyForgeError> {
    if s.bounty.status != BountyStatus::Submitted {
        Some(BountyForgeError::BountyNotSubmitted)
    } else if s.creator != s.bounty.creator {
        Some(BountyForgeError::UnauthorizedSettlement)
    } else if s.bounty.solution_hash != Some(s.attestation.solution_hash) {
        Some(BountyForgeError::SolutionHashMismatch)
    } else if s.reputation.agent != s.attestation.agent {
        Some(BountyForgeError::ReputationOwnerMismatch)
    } else if s.reputation.successful_bounties == u64::MAX || s.reputation.total_earned
        + s.bounty_token_account.amount > u64::MAX {
        Some(BountyForgeError::ReputationOverflow)
    } else {
        None
    }
}

/// The records after a successful settlement: the bounty is Settled, the escrow is
/// drained, and the winner's reputation counts one more success and the payout.
pub open spec fn settled(s: SettleBounty) -> SettleBounty {
    SettleBounty {
        bounty: Bounty { status: BountyStatus::Settled, ..s.bounty },
        reputation: Reputation {
            successful_bounties: (s.reputation.successful_bounties + 1) as u64,
            total_earned: (s.reputation.total_earned + s.bounty_token_account.amount) as u64,
            ..s.reputation
        },
        bounty_token_account: TokenAccount { amount: 0, ..s.bounty_token_account },
        ..s
    }
}

/// The movement of the whole escrow balance to the winner, signed by the bounty's address.
pub open spec fn payout_transfer(s: SettleBounty) -> Transfer {
    Transfer {
        from: s.bounty_token_account.address,
        to: s.agent_token_account,
        authority: s.bounty_address,
        amount: s.bounty_token_account.amount,
    }
}

/// The outcome of a settlement and the records after it: a rejection leaves every record as it was.
pub open spec fn settle_model(s: SettleBounty) -> (Result<Transfer, BountyForgeError>, SettleBounty) {
    match settle_error(s) {
        Some(e) => (Err(e), s),
        None => (Ok(payout_transfer(s)), settled(s)),
    }
}

impl SettleBounty {
    /// Releases the escrow of a submitted bounty to the winning agent and finalizes the
    /// bounty and the agent's reputation. On success the returned transfer is the token
    /// movement that the escrow balance now reflects.
    pub fn settle_bounty(&mut self) -> (r: Result<Transfer, BountyForgeError>)
        ensures
            (r, *final(self)) == settle_model(*old(self)),
    {
        if self.bounty.status != BountyStatus::Submitted {
            return Err(BountyForgeError::BountyNotSubmitted);
        }
        if !keys_equal(&self.creator, &self.bounty.creator) {
            return Err(BountyForgeError::UnauthorizedSettlement);
        }
        match &self.bounty.solution_hash {
            None => {
                return Err(BountyForgeError::SolutionHashMismatch);
            },
            Some(h) => {
                if !keys_equal(h, &self.attestation.solution_hash) {
                    return Err(BountyForgeError::SolutionHashMismatch);
                }
            },
        }
        if !keys_equal(&self.reputation.agent, &self.attestation.agent) {
            return Err(BountyForgeError::ReputationOwnerMismatch);
        }
        let payout = self.bounty_token_account.amount;
        let successes = match self.reputation.successful_bounties.checked_add(1) {
            None => {
                return Err(BountyForgeError::ReputationOverflow);
            },
            Some(n) => n,
        };
        let earned = match self.reputation.total_earned.checked_add(payout) {
            None => {
                return Err(BountyForgeError::ReputationOverflow);
            },
            Some(n) => n,
        };
        self.bounty.status = BountyStatus::Settled;
        self.reputation.successful_bounties = successes;
        self.reputation.total_earned = earned;
        self.bounty_token_account.amount = 0;
        Ok(
            Transfer {
                from: self.bounty_token_account.address,
                to: self.agent_token_account,
                authority: self.bounty_address,
                amount: payout,
            },
        )
    }
}

} // verus!
