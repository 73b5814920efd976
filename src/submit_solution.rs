use vstd::prelude::*;

use crate::errors::BountyForgeError;
use crate::state::{keys_equal, Attestation, Bounty, BountyStatus, Pubkey, Reputation, SolutionHash};
use crate::text::{contains_seq, contains_term, lower_of, lowercase};

verus! {

/// An oracle reference handed to a submission: its address and how many bytes of data it holds.
#[derive(Clone, Copy, Debug, PartialEq, Eq)]
pub struct OracleAccount {
    pub address: Pubkey,
    pub data_len: u64,
}

/// The records that a submission reads and writes.
#[derive(Debug)]
pub struct SubmitSolution {
    /// The signing agent.
    pub agent: Pubkey,
    pub bounty: Bounty,
    pub attestation: Attestation,
    /// The agent's reputation record, `None` when the agent has none yet.
    pub reputation: Option<Reputation>,
    pub oracle: Option<OracleAccount>,
}

/// A description (in lower case) that names a price-sensitive subject needs an oracle reference.
pub open spec fn oracle_required(lower: Seq<char>) -> bool {
    contains_seq(lower, "oracle"@) || contains_seq(lower, "switchboard"@) || contains_seq(
        lower,
        "price"@,
    )
}

/// An oracle reference was supplied and points to an account with data.
pub open spec fn oracle_present(oracle: Option<OracleAccount>) -> bool {
    match oracle {
        Some(o) => o.data_len > 0,
        None => false,
    }
}

/// The reputation of `agent` after one more submission: a new record with score 1,
/// or the existing one with its score one higher.
pub open spec fn credited(rep: Option<Reputation>, agent: Pubkey, bump: u8) -> Reputation {
    match rep {
        Some(r) => Reputation { score: (r.score + 1) as u64, ..r },
        None => Reputation {
            agent,
            score: 1,
            successful_bounties: 0,
            failed_bounties: 0,
            total_earned: 0,
            bump,
        },
    }
}

/// The first check that a submission of `hash` fails, in the order they are made;
/// `None` when all pass. `lower` is the bounty's description in lower case.
pub open spec fn submit_error(s: SubmitSolution, hash: SolutionHash, lower: Seq<char>) -> Option<
    BountyForgeError,
> {
    if s.bounty.status != BountyStatus::Open {
        Some(BountyForgeError::BountyNotOpen)
    } else if s.bounty.solution_hash.is_some() {
        Some(BountyForgeError::BountyAlreadySubmitted)
    } else if s.attestation.agent != s.agent {
        Some(BountyForgeError::AttestationOwnerMismatch)
    } else if s.attestation.solution_hash != hash {
        Some(BountyForgeError::SolutionHashMismatch)
    } else if oracle_required(lower) && !oracle_present(s.oracle) {
        Some(BountyForgeError::OracleVerificationFailed)
    } else {
        match s.reputation {
            Some(r) => if r.agent != s.agent {
                Some(BountyForgeError::ReputationOwnerMismatch)
            } else if r.score == u64::MAX {
                Some(BountyForgeError::ReputationScoreOverflow)
            } else {
                None
            },
            None => None,
        }
    }
}

/// The records after a successful submission of `hash`: the bounty holds the hash and is
/// Submitted, and the agent's reputation is credited.
pub open spec fn submitted(s: SubmitSolution, hash: SolutionHash, bump: u8) -> SubmitSolution {
    SubmitSolution {
        bounty: Bounty { solution_hash: Some(hash), status: BountyStatus::Submitted, ..s.bounty },
        reputation: Some(credited(s.reputation, s.agent, bump)),
        ..s
    }
}

/// The outcome of a submission and the records after it: a rejection leaves every record as it was.
pub open spec fn submit_model(
    s: SubmitSolution,
    hash: SolutionHash,
    lower: Seq<char>,
    bump: u8,
) -> (Result<(), BountyForgeError>, SubmitSolution) {
    match submit_error(s, hash, lower) {
        Some(e) => (Err(e), s),
        None => (Ok(()), submitted(s, hash, bump)),
    }
}

impl SubmitSolution {
    /// Binds an attested solution hash to an open bounty and credits the agent's reputation.
    /// `bump` is the derivation nonce of a reputation record created here.
    pub fn submit_solution(&mut self, solution_hash: SolutionHash, bump: u8) -> (r: Result<
        (),
        BountyForgeError,
    >)
        ensures
            (r, *final(self)) == submit_model(
                *old(self),
                solution_hash,
                lower_of(old(self).bounty.description@),
                bump,
            ),
    {
        let lower = lowercase(self.bounty.description.as_str());
        self.submit_lowered(solution_hash, bump, lower.as_str())
    }

    /// The submission, given the bounty's description already in lower case.
    pub fn submit_lowered(
        &mut self,
        solution_hash: SolutionHash,
        bump: u8,
        description_lower: &str,
    ) -> (r: Result<(), BountyForgeError>)
        ensures
            (r, *final(self)) == submit_model(*old(self), solution_hash, description_lower@, bump),
    {
        if self.bounty.status != BountyStatus::Open {
            return Err(BountyForgeError::BountyNotOpen);
        }
        if self.bounty.solution_hash.is_some() {
            return Err(BountyForgeError::BountyAlreadySubmitted);
        }
        if !keys_equal(&self.attestation.agent, &self.agent) {
            return Err(BountyForgeError::AttestationOwnerMismatch);
        }
        if !keys_equal(&self.attestation.solution_hash, &solution_hash) {
            return Err(BountyForgeError::SolutionHashMismatch);
        }
        let requires_oracle = contains_term(description_lower, "oracle") || contains_term(
            description_lower,
            "switchboard",
        ) || contains_term(description_lower, "price");
        if requires_oracle {
            match &self.oracle {
                None => {
                    return Err(BountyForgeError::OracleVerificationFailed);
                },
                Some(o) => {
                    if o.data_len == 0 {
                        return Err(BountyForgeError::OracleVerificationFailed);
                    }
                },
            }
        }
        let new_rep = match &self.reputation {
            None => Reputation {
                agent: self.agent,
                score: 1,
                successful_bounties: 0,
                failed_bounties: 0,
                total_earned: 0,
                bump,
            },
            Some(rep) => {
                if !keys_equal(&rep.agent, &self.agent) {
                    return Err(BountyForgeError::ReputationOwnerMismatch);
                }
                match rep.score.checked_add(1) {
                    None => {
                        return Err(BountyForgeError::ReputationScoreOverflow);
                    },
                    Some(score) => Reputation {
                        agent: rep.agent,
                        score,
                        successful_bounties: rep.successful_bounties,
                        failed_bounties: rep.failed_bounties,
                        total_earned: rep.total_earned,
                        bump: rep.bump,
                    },
                }
            },
        };
        self.bounty.solution_hash = Some(solution_hash);
        self.bounty.status = BountyStatus::Submitted;
        self.reputation = Some(new_rep);
        Ok(())
    }
}

} // verus!
