use anchor_lang::prelude::Pubkey as AnchorPubkey;
use bountyforge::{
    attest_solution, post_bounty, settle_bounty, submit_solution, Attestation, Bounty,
    BountyForgeError, BountyStatus, BountyType, OracleAccount, PostBounty, PostBountyError,
    Reputation, SettleBounty, SubmitSolution, TokenAccount,
};

const CREATOR: [u8; 32] = [1; 32];
const AGENT: [u8; 32] = [2; 32];
const OTHER: [u8; 32] = [3; 32];
const BOUNTY_ADDR: [u8; 32] = [4; 32];
const MINT: [u8; 32] = [5; 32];
const CREATOR_TOKENS: [u8; 32] = [6; 32];
const AGENT_TOKENS: [u8; 32] = [7; 32];
const HASH: [u8; 32] = [0xAB; 32];
const OTHER_HASH: [u8; 32] = [0xCD; 32];

fn derived_escrow(wallet: [u8; 32], mint: [u8; 32]) -> [u8; 32] {
    anchor_spl::associated_token::get_associated_token_address(
        &AnchorPubkey::new_from_array(wallet),
        &AnchorPubkey::new_from_array(mint),
    )
    .to_bytes()
}

fn post_accounts(escrow_address: [u8; 32], initialized: bool) -> PostBounty {
    PostBounty {
        creator: CREATOR,
        creator_token_account: CREATOR_TOKENS,
        bounty_address: BOUNTY_ADDR,
        bounty: None,
        usdc_mint: MINT,
        bounty_token_account: TokenAccount { address: escrow_address, initialized, amount: 0 },
    }
}

fn open_bounty(description: &str) -> Bounty {
    Bounty {
        id: 7,
        bounty_type: BountyType::TokenScreening,
        description: description.to_string(),
        reward: 1000,
        solution_hash: None,
        status: BountyStatus::Open,
        creator: CREATOR,
        bump: 254,
    }
}

fn submit_accounts(description: &str, reputation: Option<Reputation>) -> SubmitSolution {
    SubmitSolution {
        agent: AGENT,
        bounty: open_bounty(description),
        attestation: attest_solution(AGENT, 1, HASH, 1_700_000_000, 253),
        reputation,
        oracle: None,
    }
}

fn reputation_of(agent: [u8; 32], score: u64) -> Reputation {
    Reputation {
        agent,
        score,
        successful_bounties: 0,
        failed_bounties: 0,
        total_earned: 0,
        bump: 250,
    }
}

#[test]
fn full_lifecycle_create_submit_settle() {
    let escrow = derived_escrow(BOUNTY_ADDR, MINT);
    let mut post = post_accounts(escrow, true);
    let transfer = post_bounty(
        &mut post,
        7,
        BountyType::WalletIntelligence,
        "find the wallet".to_string(),
        1000,
        254,
    )
    .unwrap();
    assert_eq!(transfer.amount, 1000);
    assert_eq!(transfer.from, CREATOR_TOKENS);
    assert_eq!(transfer.to, escrow);
    assert_eq!(transfer.authority, CREATOR);
    assert_eq!(post.bounty_token_account.amount, 1000);
    let bounty = post.bounty.take().unwrap();
    assert_eq!(bounty.id, 7);
    assert_eq!(bounty.reward, 1000);
    assert_eq!(bounty.status, BountyStatus::Open);
    assert_eq!(bounty.solution_hash, None);
    assert_eq!(bounty.creator, CREATOR);

    let attestation = attest_solution(AGENT, 1, HASH, 1_700_000_000, 253);
    let mut submit = SubmitSolution {
        agent: AGENT,
        bounty,
        attestation,
        reputation: None,
        oracle: None,
    };
    assert_eq!(submit_solution(&mut submit, HASH, 252), Ok(()));
    assert_eq!(submit.bounty.status, BountyStatus::Submitted);
    assert_eq!(submit.bounty.solution_hash, Some(HASH));
    let rep = submit.reputation.unwrap();
    assert_eq!(rep.score, 1);
    assert_eq!(rep.agent, AGENT);

    let mut settle = SettleBounty {
        creator: CREATOR,
        bounty_address: BOUNTY_ADDR,
        bounty: submit.bounty,
        attestation,
        reputation: rep,
        bounty_token_account: post.bounty_token_account,
        agent_token_account: AGENT_TOKENS,
    };
    let payout = settle_bounty(&mut settle).unwrap();
    assert_eq!(settle.bounty.status, BountyStatus::Settled);
    assert_eq!(settle.bounty_token_account.amount, 0);
    assert_eq!(settle.reputation.successful_bounties, 1);
    assert_eq!(settle.reputation.total_earned, 1000);
    assert_eq!(settle.reputation.score, 1);
    assert_eq!(payout.amount, 1000);
    assert_eq!(payout.from, escrow);
    assert_eq!(payout.to, AGENT_TOKENS);
    assert_eq!(payout.authority, BOUNTY_ADDR);

    assert_eq!(settle_bounty(&mut settle), Err(BountyForgeError::BountyNotSubmitted));
    assert_eq!(settle.reputation.successful_bounties, 1);
}

#[test]
fn submit_with_wrong_hash_is_rejected() {
    let mut submit = submit_accounts("find the wallet", None);
    assert_eq!(
        submit.submit_solution(OTHER_HASH, 252),
        Err(BountyForgeError::SolutionHashMismatch)
    );
    assert_eq!(submit.bounty.status, BountyStatus::Open);
    assert_eq!(submit.bounty.solution_hash, None);
    assert!(submit.reputation.is_none());
}

#[test]
fn price_description_without_oracle_is_rejected() {
    let mut submit = submit_accounts("track the price of SOL", None);
    assert_eq!(
        submit.submit_solution(HASH, 252),
        Err(BountyForgeError::OracleVerificationFailed)
    );
    assert_eq!(submit.bounty.status, BountyStatus::Open);
}

#[test]
fn trigger_terms_match_in_any_case() {
    for description in ["Current PRICE feed", "use an Oracle", "SwitchBoard data"] {
        let mut submit = submit_accounts(description, None);
        assert_eq!(
            submit.submit_solution(HASH, 252),
            Err(BountyForgeError::OracleVerificationFailed)
        );
    }
}

#[test]
fn empty_oracle_account_is_rejected() {
    let mut submit = submit_accounts("price check", None);
    submit.oracle = Some(OracleAccount { address: OTHER, data_len: 0 });
    assert_eq!(
        submit.submit_solution(HASH, 252),
        Err(BountyForgeError::OracleVerificationFailed)
    );
}

#[test]
fn oracle_with_data_lets_price_bounty_through() {
    let mut submit = submit_accounts("price check", None);
    submit.oracle = Some(OracleAccount { address: OTHER, data_len: 64 });
    assert_eq!(submit.submit_solution(HASH, 252), Ok(()));
    assert_eq!(submit.bounty.status, BountyStatus::Submitted);
}

#[test]
fn lowered_description_decides_the_oracle_gate() {
    let mut plain = submit_accounts("Price", None);
    assert_eq!(plain.submit_lowered(HASH, 252, "nothing here"), Ok(()));
    let mut gated = submit_accounts("nothing", None);
    assert_eq!(
        gated.submit_lowered(HASH, 252, "a price"),
        Err(BountyForgeError::OracleVerificationFailed)
    );
}

#[test]
fn submit_on_submitted_bounty_is_rejected() {
    let mut submit = submit_accounts("wallet", None);
    submit.bounty.status = BountyStatus::Submitted;
    submit.bounty.solution_hash = Some(OTHER_HASH);
    assert_eq!(submit.submit_solution(HASH, 252), Err(BountyForgeError::BountyNotOpen));
    assert_eq!(submit.bounty.solution_hash, Some(OTHER_HASH));
}

#[test]
fn submit_on_open_bounty_with_hash_is_rejected() {
    let mut submit = submit_accounts("wallet", None);
    submit.bounty.solution_hash = Some(OTHER_HASH);
    assert_eq!(
        submit.submit_solution(HASH, 252),
        Err(BountyForgeError::BountyAlreadySubmitted)
    );
}

#[test]
fn submit_with_foreign_attestation_is_rejected() {
    let mut submit = submit_accounts("wallet", None);
    submit.attestation = attest_solution(OTHER, 1, HASH, 1_700_000_000, 253);
    assert_eq!(
        submit.submit_solution(HASH, 252),
        Err(BountyForgeError::AttestationOwnerMismatch)
    );
    assert_eq!(submit.bounty.status, BountyStatus::Open);
}

#[test]
fn existing_reputation_score_increments_by_one() {
    let mut submit = submit_accounts("wallet", Some(reputation_of(AGENT, 41)));
    assert_eq!(submit.submit_solution(HASH, 1), Ok(()));
    let rep = submit.reputation.unwrap();
    assert_eq!(rep.score, 42);
    assert_eq!(rep.bump, 250);
}

#[test]
fn foreign_reputation_is_left_unchanged() {
    let mut submit = submit_accounts("wallet", Some(reputation_of(OTHER, 5)));
    assert_eq!(
        submit.submit_solution(HASH, 252),
        Err(BountyForgeError::ReputationOwnerMismatch)
    );
    assert_eq!(submit.reputation.unwrap().score, 5);
    assert_eq!(submit.bounty.status, BountyStatus::Open);
    assert_eq!(submit.bounty.solution_hash, None);
}

#[test]
fn reputation_score_at_max_overflows() {
    let mut submit = submit_accounts("wallet", Some(reputation_of(AGENT, u64::MAX)));
    assert_eq!(
        submit.submit_solution(HASH, 252),
        Err(BountyForgeError::ReputationScoreOverflow)
    );
    assert_eq!(submit.bounty.status, BountyStatus::Open);
}

#[test]
fn post_with_underived_escrow_is_rejected() {
    let mut post = post_accounts(BOUNTY_ADDR, true);
    let r = post.post_bounty(7, BountyType::TokenScreening, "x".to_string(), 1000, 254);
    assert_eq!(r.unwrap_err(), PostBountyError::ConstraintTokenMint);
    assert!(post.bounty.is_none());
    assert_eq!(post.bounty_token_account.amount, 0);
}

#[test]
fn post_with_uninitialized_escrow_is_rejected() {
    let mut post = post_accounts(derived_escrow(BOUNTY_ADDR, MINT), false);
    let r = post.post_bounty(7, BountyType::TokenScreening, "x".to_string(), 1000, 254);
    assert_eq!(r.unwrap_err(), PostBountyError::AccountNotInitialized);
    assert!(post.bounty.is_none());
}

#[test]
fn post_escrow_overflow_is_rejected() {
    let mut post = post_accounts(OTHER, true);
    post.bounty_token_account.amount = u64::MAX;
    let r = post.open_bounty(7, BountyType::TokenScreening, "x".to_string(), 1, 254, &OTHER);
    assert_eq!(r.unwrap_err(), PostBountyError::EscrowOverflow);
    assert_eq!(post.bounty_token_account.amount, u64::MAX);
}

#[test]
fn open_bounty_with_given_escrow_address() {
    let mut post = post_accounts(OTHER, true);
    let r = post.open_bounty(9, BountyType::TokenScreening, "y".to_string(), 5, 200, &OTHER);
    assert_eq!(r.unwrap().amount, 5);
    let b = post.bounty.unwrap();
    assert_eq!(b.id, 9);
    assert_eq!(b.bump, 200);
    assert_eq!(b.description, "y");
    assert_eq!(post.bounty_token_account.amount, 5);
}

fn submitted_settle(signer: [u8; 32]) -> SettleBounty {
    let mut bounty = open_bounty("wallet");
    bounty.status = BountyStatus::Submitted;
    bounty.solution_hash = Some(HASH);
    SettleBounty {
        creator: signer,
        bounty_address: BOUNTY_ADDR,
        bounty,
        attestation: attest_solution(AGENT, 1, HASH, 0, 253),
        reputation: reputation_of(AGENT, 3),
        bounty_token_account: TokenAccount { address: OTHER, initialized: true, amount: 1000 },
        agent_token_account: AGENT_TOKENS,
    }
}

#[test]
fn settle_by_non_creator_is_rejected() {
    let mut settle = submitted_settle(OTHER);
    assert_eq!(settle.settle_bounty(), Err(BountyForgeError::UnauthorizedSettlement));
    assert_eq!(settle.bounty.status, BountyStatus::Submitted);
    assert_eq!(settle.bounty_token_account.amount, 1000);
}

#[test]
fn settle_open_bounty_is_rejected() {
    let mut settle = submitted_settle(CREATOR);
    settle.bounty.status = BountyStatus::Open;
    settle.bounty.solution_hash = None;
    assert_eq!(settle.settle_bounty(), Err(BountyForgeError::BountyNotSubmitted));
}

#[test]
fn settle_with_foreign_reputation_is_rejected() {
    let mut settle = submitted_settle(CREATOR);
    settle.reputation = reputation_of(OTHER, 3);
    assert_eq!(settle.settle_bounty(), Err(BountyForgeError::ReputationOwnerMismatch));
}

#[test]
fn settle_with_unrelated_attestation_is_rejected() {
    let mut settle = submitted_settle(CREATOR);
    settle.attestation = attest_solution(AGENT, 2, OTHER_HASH, 0, 253);
    assert_eq!(settle.settle_bounty(), Err(BountyForgeError::SolutionHashMismatch));
}

#[test]
fn settle_earnings_overflow_is_rejected() {
    let mut settle = submitted_settle(CREATOR);
    settle.reputation.total_earned = u64::MAX - 999;
    assert_eq!(settle.settle_bounty(), Err(BountyForgeError::ReputationOverflow));
    assert_eq!(settle.bounty_token_account.amount, 1000);
    settle.reputation.total_earned = 0;
    settle.reputation.successful_bounties = u64::MAX;
    assert_eq!(settle.settle_bounty(), Err(BountyForgeError::ReputationOverflow));
}

#[test]
fn attestation_records_its_inputs() {
    let a: Attestation = attest_solution(AGENT, 11, HASH, -5, 9);
    assert_eq!(a.solution_id, 11);
    assert_eq!(a.solution_hash, HASH);
    assert_eq!(a.timestamp, -5);
    assert_eq!(a.agent, AGENT);
    assert!(!a.verified);
    assert_eq!(a.bump, 9);
}

#[test]
fn keys_compare_bytewise() {
    assert!(bountyforge::state::keys_equal(&HASH, &HASH));
    let mut h = HASH;
    h[31] = 0;
    assert!(!bountyforge::state::keys_equal(&HASH, &h));
}
