use vstd::prelude::*;

use crate::errors::PostBountyError;
use crate::state::{keys_equal, Bounty, BountyStatus, BountyType, Pubkey, TokenAccount, Transfer};

verus! {

/// The associated token account address of a wallet for a mint, as the
/// associated-token-account program derives it.
pub uninterp spec fn associated_token_address_of(wallet: Seq<u8>, mint: Seq<u8>) -> Seq<u8>;

/// Relies on `anchor_spl::associated_token::get_associated_token_address`: the
/// program-derived address for (wallet, token program, mint), a function of its
/// arguments alone.
#[verifier::external_body]
fn associated_token_address(wallet: &Pubkey, mint: &Pubkey) -> (r: Pubkey)
    ensures
        r@ == associated_token_address_of(wallet@, mint@),
{
    anchor_spl::associated_token::get_associated_token_address(
        &anchor_lang::prelude::Pubkey::new_from_array(*wallet),
        &anchor_lang::prelude::Pubkey::new_from_array(*mint),
    ).to_bytes()
}

/// The records that bounty creation reads and writes.
#[derive(Debug)]
pub struct PostBounty {
    /// The signing creator.
    pub creator: Pubkey,
    /// The creator's token account of the settlement currency, debited by the reward.
    pub creator_token_account: Pubkey,
    /// The derived address of the bounty record.
    pub bounty_address: Pubkey,
    /// The bounty record, `None` until this creation fills it.
    pub bounty: Option<Bounty>,
    /// The settlement currency.
    pub usdc_mint: Pubkey,
    /// The escrow account of the bounty.
    pub bounty_token_account: TokenAccount,
}

/// The first escrow check that creation fails, given the escrow address that
/// the bounty and the currency derive; `None` when all pass.
pub open spec fn post_error(p: PostBounty, expected_escrow: Seq<u8>, reward: u64) -> Option<
    PostBountyError,
> {
    if p.bounty_token_account.address@ != expected_escrow {
        Some(PostBountyError::ConstraintTokenMint)
    } else if !p.bounty_token_account.initialized {
        Some(PostBountyError::AccountNotInitialized)
    } else if p.bounty_token_account.amount + reward > u64::MAX {
        Some(PostBountyError::EscrowOverflow)
    } else {
        None
    }
}

/// The records after a successful creation: an Open bounty with no solution, and the
/// reward moved into the escrow balance.
pub open spec fn posted(
    p: PostBounty,
    bounty_id: u64,
    bounty_type: BountyType,
    description: String,
    reward: u64,
    bump: u8,
) -> PostBounty {
    PostBounty {
        bounty: Some(
            Bounty {
                id: bounty_id,
                bounty_type,
                description,
                reward,
                solution_hash: None,
                status: BountyStatus::Open,
                creator: p.creator,
                bump,
            },
        ),
        bounty_token_account: TokenAccount {
            amount: (p.bounty_token_account.amount + reward) as u64,
            ..p.bounty_token_account
        },
        ..p
    }
}

/// The movement of the reward from the creator into escrow, signed by the creator.
pub open spec fn funding_transfer(p: PostBounty, reward: u64) -> Transfer {
    Transfer {
        from: p.creator_token_account,
        to: p.bounty_token_account.address,
        authority: p.creator,
        amount: reward,
    }
}

/// The outcome of a creation and the records after it: a rejection leaves every record as it was.
pub open spec fn post_model(
    p: PostBounty,
    expected_escrow: Seq<u8>,
    bounty_id: u64,
    bounty_type: BountyType,
    description: String,
    reward: u64,
    bump: u8,
) -> (Result<Transfer, PostBountyError>, PostBounty) {
    match post_error(p, expected_escrow, reward) {
        Some(e) => (Err(e), p),
        None => (
            Ok(funding_transfer(p, reward)),
            posted(p, bounty_id, bounty_type, description, reward, bump),
        ),
    }
}

impl PostBounty {
    /// Opens a bounty and funds its escrow with the reward. On success the returned
    /// transfer is the token movement that the escrow balance now reflects.
    /// `bump` is the derivation nonce of the bounty record.
    pub fn post_bounty(
        &mut self,
        bounty_id: u64,
        bounty_type: BountyType,
        description: String,
        reward: u64,
        bump: u8,
    ) -> (r: Result<Transfer, PostBountyError>)
        ensures
            (r, *final(self)) == post_model(
                *old(self),
                associated_token_address_of(old(self).bounty_address@, old(self).usdc_mint@),
                bounty_id,
                bounty_type,
                description,
                reward,
                bump,
            ),
    {
        let expected = associated_token_address(&self.bounty_address, &self.usdc_mint);
        self.open_bounty(bounty_id, bounty_type, description, reward, bump, &expected)
    }

    /// The creation, given the escrow address that the bounty and the currency derive.
    pub fn open_bounty(
        &mut self,
        bounty_id: u64,
        bounty_type: BountyType,
        description: String,
        reward: u64,
        bump: u8,
        expected_escrow: &Pubkey,
    ) -> (r: Result<Transfer, PostBountyError>)
        ensures
            (r, *final(self)) == post_model(
                *old(self),
                expected_escrow@,
                bounty_id,
                bounty_type,
                description,
                reward,
                bump,
            ),
    {
        if !keys_equal(&self.bounty_token_account.address, expected_escrow) {
            return Err(PostBountyError::ConstraintTokenMint);
        }
        if !self.bounty_token_account.initialized {
            return Err(PostBountyError::AccountNotInitialized);
        }
        let escrowed = match self.bounty_token_account.amount.checked_add(reward) {
            None => {
                return Err(PostBountyError::EscrowOverflow);
            },
            Some(a) => a,
        };
        self.bounty = Some(
            Bounty {
                id: bounty_id,
                bounty_type,
                description,
                reward,
                solution_hash: None,
                status: BountyStatus::Open,
                creator: self.creator,
                bump,
            },
        );
        self.bounty_token_account.amount = escrowed;
        Ok(
            Transfer {
                from: self.creator_token_account,
                to: self.bounty_token_account.address,
                authority: self.creator,
                amount: reward,
            },
        )
    }
}

} // verus!
