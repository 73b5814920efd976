use vstd::prelude::*;

pub mod errors;
pub mod laws;
pub mod post_bounty;
pub mod settle_bounty;
pub mod state;
pub mod submit_solution;
pub mod text;

pub use errors::{BountyForgeError, PostBountyError};
pub use post_bounty::PostBounty;
pub use settle_bounty::SettleBounty;
pub use state::{
    Attestation, Bounty, BountyStatus, BountyType, Pubkey, Reputation, SolutionHash, TokenAccount,
    Transfer,
};
pub use submit_solution::{OracleAccount, SubmitSolution};

use post_bounty::{associated_token_address_of, post_model};
use settle_bounty::settle_model;
use submit_solution::submit_model;
use text::lower_of;

verus! {

/// Opens a bounty and funds its escrow (see [`PostBounty::post_bounty`]).
pub fn post_bounty(
    accounts: &mut PostBounty,
    bounty_id: u64,
    bounty_type: BountyType,
    description: String,
    reward: u64,
    bump: u8,
) -> (r: Result<Transfer, PostBountyError>)
    ensures
        (r, *final(accounts)) == post_model(
            *old(accounts),
            associated_token_address_of(old(accounts).bounty_address@, old(accounts).usdc_mint@),
            bounty_id,
            bounty_type,
            description,
            reward,
            bump,
        ),
{
    accounts.post_bounty(bounty_id, bounty_type, description, reward, bump)
}

/// Records `agent`'s commitment to `solution_hash` under `solution_id`, stamped with
/// `timestamp`. The record starts unverified.
pub fn attest_solution(
    agent: Pubkey,
    solution_id: u64,
    solution_hash: SolutionHash,
    timestamp: i64,
    bump: u8,
) -> (r: Attestation)
    ensures
        r == (Attestation { solution_id, solution_hash, timestamp, agent, verified: false, bump }),
{
    Attestation { solution_id, solution_hash, timestamp, agent, verified: false, bump }
}

/// Binds an attested solution hash to an open bounty (see [`SubmitSolution::submit_solution`]).
pub fn submit_solution(
    accounts: &mut SubmitSolution,
    solution_hash: SolutionHash,
    bump: u8,
) -> (r: Result<(), BountyForgeError>)
    ensures
        (r, *final(accounts)) == submit_model(
            *old(accounts),
            solution_hash,
            lower_of(old(accounts).bounty.description@),
            bump,
        ),
{
    accounts.submit_solution(solution_hash, bump)
}

/// Releases a submitted bounty's escrow to the winner (see [`SettleBounty::settle_bounty`]).
pub fn settle_bounty(accounts: &mut SettleBounty) -> (r: Result<Transfer, BountyForgeError>)
    ensures
        (r, *final(accounts)) == settle_model(*old(accounts)),
{
    accounts.settle_bounty()
}

} // verus!
