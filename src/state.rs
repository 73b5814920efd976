use vstd::prelude::*;

verus! {

/// A 32-byte account identity (a public key or a derived address).
pub type Pubkey = [u8; 32];

/// A 32-byte commitment to a solution.
pub type SolutionHash = [u8; 32];

/// The category tag of a bounty.
#[derive(Clone, Copy, Debug, PartialEq, Eq, Structural)]
pub enum BountyType {
    WalletIntelligence,
    TokenScreening,
}

/// Where a bounty stands in its lifecycle.
#[derive(Clone, Copy, Debug, PartialEq, Eq, Structural)]
pub enum BountyStatus {
    Open,
    Submitted,
    Settled,
}

/// The step relation of the lifecycle: a status stays, or moves one step forward.
pub open spec fn status_step(before: BountyStatus, after: BountyStatus) -> bool {
    after == before
        || (before == BountyStatus::Open && after == BountyStatus::Submitted)
        || (before == BountyStatus::Submitted && after == BountyStatus::Settled)
}

/// A reward-bearing task.
#[derive(Debug)]
pub struct Bounty {
    pub id: u64,
    pub bounty_type: BountyType,
    pub description: String,
    pub reward: u64,
    pub solution_hash: Option<SolutionHash>,
    pub status: BountyStatus,
    pub creator: Pubkey,
    pub bump: u8,
}

impl Bounty {
    /// A solution hash is held exactly when the bounty has left the Open state.
    pub open spec fn wf(&self) -> bool {
        (self.status == BountyStatus::Open) == self.solution_hash.is_none()
    }
}

/// An agent's commitment to a solution hash.
#[derive(Clone, Copy, Debug, PartialEq, Eq)]
pub struct Attestation {
    pub solution_id: u64,
    pub solution_hash: SolutionHash,
    pub timestamp: i64,
    pub agent: Pubkey,
    pub verified: bool,
    pub bump: u8,
}

/// An agent's running tally of participation and success.
#[derive(Clone, Copy, Debug, PartialEq, Eq)]
pub struct Reputation {
    pub agent: Pubkey,
    pub score: u64,
    pub successful_bounties: u64,
    pub failed_bounties: u64,
    pub total_earned: u64,
    pub bump: u8,
}

/// A token account of the settlement currency, as far as the lifecycle reads it.
#[derive(Clone, Copy, Debug, PartialEq, Eq)]
pub struct TokenAccount {
    pub address: Pubkey,
    /// Whether the account exists with storage allocated.
    pub initialized: bool,
    pub amount: u64,
}

/// A movement of `amount` units of the settlement currency, signed by `authority`.
#[derive(Clone, Copy, Debug, PartialEq, Eq)]
pub struct Transfer {
    pub from: Pubkey,
    pub to: Pubkey,
    pub authority: Pubkey,
    pub amount: u64,
}

/// Tells whether two identities are the same 32 bytes.
pub fn keys_equal(a: &[u8; 32], b: &[u8; 32]) -> (r: bool)
    ensures
        r == (a@ == b@),
        r == (*a == *b),
{
    let mut i: usize = 0;
    while i < 32
        invariant
            0 <= i <= 32,
            a@.len() == 32,
            b@.len() == 32,
            forall|j: int| 0 <= j < i ==> a@[j] == b@[j],
        decreases 32 - i,
    {
        if a[i] != b[i] {
            proof {
                assert(a@[i as int] != b@[i as int]);
            }
            return false;
        }
        i = i + 1;
    }
    proof {
        broadcast use vstd::array::group_array_axioms;

        assert(a@ =~= b@);
        assert(*a =~= *b);
    }
    true
}

} // verus!
