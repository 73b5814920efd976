use vstd::prelude::*;

use crate::errors::BountyForgeError;
use crate::post_bounty::{post_model, PostBounty};
use crate::settle_bounty::{settle_model, SettleBounty};
use crate::state::{status_step, BountyStatus, BountyType, SolutionHash};
use crate::submit_solution::{submit_model, SubmitSolution};

verus! {

/// A successful creation leaves an Open bounty with no solution hash, holding the reward it was given.
pub proof fn lemma_post_opens(
    p: PostBounty,
    expected_escrow: Seq<u8>,
    bounty_id: u64,
    bounty_type: BountyType,
    description: String,
    reward: u64,
    bump: u8,
)
    ensures
        ({
            let (r, after) = post_model(p, expected_escrow, bounty_id, bounty_type, description, reward, bump);
            r is Ok ==> {
                &&& after.bounty is Some
                &&& after.bounty->Some_0.status == BountyStatus::Open
                &&& after.bounty->Some_0.solution_hash is None
                &&& after.bounty->Some_0.wf()
                &&& after.bounty->Some_0.reward == reward
                &&& after.bounty->Some_0.creator == p.creator
            }
        }),
{
}

/// A submission moves the bounty's status at most one step forward, and a successful one
/// moves it from Open to Submitted; the reward never changes, and a well-formed bounty stays so.
pub proof fn lemma_submit_status_step(s: SubmitSolution, hash: SolutionHash, lower: Seq<char>, bump: u8)
    ensures
        ({
            let (r, after) = submit_model(s, hash, lower, bump);
            &&& status_step(s.bounty.status, after.bounty.status)
            &&& r is Ok ==> s.bounty.status == BountyStatus::Open && after.bounty.status
                == BountyStatus::Submitted
            &&& after.bounty.reward == s.bounty.reward
            &&& s.bounty.wf() ==> after.bounty.wf()
        }),
{
}

/// A settlement moves the bounty's status at most one step forward, and a successful one
/// moves it from Submitted to Settled; the reward never changes, and a well-formed bounty stays so.
pub proof fn lemma_settle_status_step(s: SettleBounty)
    ensures
        ({
            let (r, after) = settle_model(s);
            &&& status_step(s.bounty.status, after.bounty.status)
            &&& r is Ok ==> s.bounty.status == BountyStatus::Submitted && after.bounty.status
                == BountyStatus::Settled
            &&& after.bounty.reward == s.bounty.reward
            &&& s.bounty.wf() ==> after.bounty.wf()
        }),
{
}

/// Creation into a freshly created, empty escrow account leaves the escrow balance equal
/// to the reward, and the funding transfer moves exactly the reward.
pub proof fn lemma_escrow_funded(
    p: PostBounty,
    expected_escrow: Seq<u8>,
    bounty_id: u64,
    bounty_type: BountyType,
    description: String,
    reward: u64,
    bump: u8,
)
    requires
        p.bounty_token_account.amount == 0,
    ensures
        ({
            let (r, after) = post_model(p, expected_escrow, bounty_id, bounty_type, description, reward, bump);
            r is Ok ==> after.bounty_token_account.amount == reward && r->Ok_0.amount == reward
                && r->Ok_0.to == p.bounty_token_account.address
        }),
{
}

/// A successful settlement drains the escrow to zero, paying its whole balance to the winner;
/// a failed one leaves the escrow balance as it was.
pub proof fn lemma_escrow_drained(s: SettleBounty)
    ensures
        ({
            let (r, after) = settle_model(s);
            &&& r is Ok ==> after.bounty_token_account.amount == 0 && r->Ok_0.amount
                == s.bounty_token_account.amount && r->Ok_0.from == s.bounty_token_account.address
            &&& r is Err ==> after.bounty_token_account == s.bounty_token_account
        }),
{
}

/// A submission succeeds only for the hash that the signer's own attestation commits to;
/// on any mismatch it fails and leaves the bounty and the reputation as they were.
pub proof fn lemma_submit_needs_attestation(
    s: SubmitSolution,
    hash: SolutionHash,
    lower: Seq<char>,
    bump: u8,
)
    ensures
        ({
            let (r, after) = submit_model(s, hash, lower, bump);
            &&& r is Ok ==> hash == s.attestation.solution_hash && s.agent == s.attestation.agent
            &&& (hash != s.attestation.solution_hash || s.agent != s.attestation.agent) ==> {
                &&& r is Err
                &&& after.bounty == s.bounty
                &&& after.reputation == s.reputation
            }
        }),
{
}

/// A first submission gives the agent a reputation of score 1; a later one raises its score
/// by exactly 1 and keeps its other counts; a record owned by another agent is never changed.
pub proof fn lemma_submit_reputation(
    s: SubmitSolution,
    hash: SolutionHash,
    lower: Seq<char>,
    bump: u8,
)
    ensures
        ({
            let (r, after) = submit_model(s, hash, lower, bump);
            &&& (r is Ok && s.reputation is None) ==> {
                &&& after.reputation is Some
                &&& after.reputation->Some_0.score == 1
                &&& after.reputation->Some_0.agent == s.agent
            }
            &&& (r is Ok && s.reputation is Some) ==> {
                &&& after.reputation is Some
                &&& after.reputation->Some_0.score == s.reputation->Some_0.score + 1
                &&& after.reputation->Some_0.agent == s.agent
                &&& after.reputation->Some_0.successful_bounties
                    == s.reputation->Some_0.successful_bounties
                &&& after.reputation->Some_0.total_earned == s.reputation->Some_0.total_earned
            }
            &&& (s.reputation is Some && s.reputation->Some_0.agent != s.agent) ==> {
                &&& r is Err
                &&& after.reputation == s.reputation
            }
        }),
{
}

/// A settlement succeeds only when signed by the bounty's creator on a Submitted bounty.
pub proof fn lemma_settle_authorized(s: SettleBounty)
    ensures
        settle_model(s).0 is Ok ==> s.creator == s.bounty.creator && s.bounty.status
            == BountyStatus::Submitted,
        s.creator != s.bounty.creator && s.bounty.status == BountyStatus::Submitted
            ==> settle_model(s).0 == Err::<crate::state::Transfer, BountyForgeError>(
            BountyForgeError::UnauthorizedSettlement,
        ),
{
}

/// Settling twice is refused: after a successful settlement, the next one fails with
/// `BountyNotSubmitted` and changes nothing.
pub proof fn lemma_settle_twice(s: SettleBounty)
    ensures
        ({
            let (r, after) = settle_model(s);
            r is Ok ==> {
                &&& settle_model(after).0 == Err::<crate::state::Transfer, BountyForgeError>(
                    BountyForgeError::BountyNotSubmitted,
                )
                &&& settle_model(after).1 == after
            }
        }),
{
}

} // verus!
