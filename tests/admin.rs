use quarry::create_miner::{handler as create_miner, CreateMiner};
use quarry::create_operator::{handler as create_operator, CreateOperator};
use quarry::error::ErrorCode;
use quarry::key::Pubkey;
use quarry::mint_wrapper::MintWrapper;
use quarry::new_rewarder_v2::{handler as new_rewarder, NewRewarderV2};
use quarry::new_wrapper::{handler as new_wrapper, NewWrapper};
use quarry::operator::Role;
use quarry::quarry_mine::{
    accept_authority, create_quarry, pause, set_annual_rewards, set_famine, set_pause_authority, set_rewards_share,
    transfer_authority, unpause, update_quarry_rewards,
};
use quarry::redeemer::{create_redeemer, redeem_all_tokens, redeem_tokens, RedeemTokens};
use quarry::rewarder::{DEFAULT_CLAIM_FEE_MILLIBPS, MAX_ANNUAL_REWARDS_RATE};
use quarry::state::{Miner, Quarry, Rewarder, TokenAccount};
use quarry::quarry_mine::{extract_fees, fee_to, rescue_tokens, ExtractFees, RescueTokens};
use quarry::merge_mine::{rescue_tokens as mm_rescue_tokens, MergeMiner, MergePool, RescueTokens as MmRescueTokens};

fn key(b: u8) -> Pubkey {
    Pubkey::new([b; 32])
}

fn rewarder_with_authority(a: u8) -> Rewarder {
    let mut r = Rewarder::default();
    r.authority = key(a);
    r
}

#[test]
fn new_rewarder_defaults() {
    let mut w = MintWrapper::default();
    w.token_mint = key(4);
    let ctx = NewRewarderV2 {
        base: key(1),
        base_is_signer: true,
        rewarder_key: key(2),
        bump: 9,
        initial_authority: key(3),
        mint_wrapper_key: key(5),
        mint_wrapper: w,
        rewards_token_mint: key(4),
        claim_fee_token_account: key(6),
        claim_fee_token_account_owner: key(2),
        claim_fee_token_account_mint: key(4),
    };
    let (r, ev) = new_rewarder(&ctx, 77).unwrap();
    assert_eq!(r.max_claim_fee_millibps, DEFAULT_CLAIM_FEE_MILLIBPS);
    assert_eq!(r.authority, key(3));
    assert_eq!(r.annual_rewards_rate, 0);
    assert_eq!(ev.timestamp, 77);
    let mut bad = ctx;
    bad.claim_fee_token_account_owner = key(9);
    assert_eq!(new_rewarder(&bad, 0).unwrap_err(), ErrorCode::InvalidLinkage);
    bad.base_is_signer = false;
    assert_eq!(new_rewarder(&bad, 0).unwrap_err(), ErrorCode::Unauthorized);
}

#[test]
fn new_wrapper_defaults() {
    let w = new_wrapper(&NewWrapper { base: key(1), bump: 2, admin: key(3), token_mint: key(4) }, 1_000);
    assert_eq!(w.hard_cap, 1_000);
    assert_eq!(w.admin, key(3));
    assert_eq!((w.num_minters, w.total_allowance, w.total_minted), (0, 0, 0));
}

#[test]
fn create_quarry_and_miner() {
    let mut r = rewarder_with_authority(1);
    let q = create_quarry(&mut r, key(2), &key(1), key(3), 6, 255).unwrap();
    assert_eq!(q.index, 0);
    assert_eq!(q.famine_ts, i64::MAX);
    assert_eq!(r.num_quarries, 1);
    assert_eq!(create_quarry(&mut r, key(2), &key(9), key(3), 6, 255).unwrap_err(), ErrorCode::Unauthorized);

    let mut ctx = CreateMiner {
        authority: key(7),
        miner_key: key(8),
        bump: 1,
        quarry: q,
        quarry_key: key(10),
        rewarder: r,
        rewarder_key: key(2),
        miner_vault_key: key(11),
        miner_vault_owner: key(8),
        miner_vault_mint: key(3),
    };
    let (m, ev) = create_miner(&mut ctx).unwrap();
    assert_eq!(m.index, 0);
    assert_eq!(m.authority, key(7));
    assert_eq!(m.quarry, key(10));
    assert_eq!(ev.miner, key(8));
    assert_eq!(ctx.quarry.num_miners, 1);
    ctx.miner_vault_owner = key(1);
    assert_eq!(create_miner(&mut ctx).unwrap_err(), ErrorCode::InvalidLinkage);
}

#[test]
fn authority_handover_and_pause() {
    let mut r = rewarder_with_authority(1);
    assert_eq!(accept_authority(&mut r, &key(2)), Err(ErrorCode::PendingAuthorityNotSet));
    transfer_authority(&mut r, &key(1), key(2)).unwrap();
    assert_eq!(accept_authority(&mut r, &key(3)), Err(ErrorCode::Unauthorized));
    accept_authority(&mut r, &key(2)).unwrap();
    assert_eq!(r.authority, key(2));
    assert_eq!(r.pending_authority, Pubkey::zeroed());

    set_pause_authority(&mut r, &key(2), key(5)).unwrap();
    assert_eq!(pause(&mut r, &key(2)), Err(ErrorCode::Unauthorized));
    pause(&mut r, &key(5)).unwrap();
    assert!(r.is_paused);
    assert_eq!(set_annual_rewards(&mut r, &key(2), 1), Err(ErrorCode::Paused));
    unpause(&mut r, &key(5)).unwrap();
    assert_eq!(set_annual_rewards(&mut r, &key(2), 10), Ok(0));
    assert_eq!(set_annual_rewards(&mut r, &key(2), MAX_ANNUAL_REWARDS_RATE + 1), Err(ErrorCode::MaxAnnualRewardsRateExceeded));
    assert_eq!(r.annual_rewards_rate, 10);
}

#[test]
fn share_change_swaps_total_and_rate() {
    let mut r = rewarder_with_authority(1);
    r.annual_rewards_rate = 1_000;
    r.total_rewards_shares = 10;
    let mut q = Quarry::default();
    q.rewarder = key(2);
    q.famine_ts = i64::MAX;
    q.rewards_share = 4;
    set_rewards_share(&mut r, &key(2), &mut q, &key(1), 100, 14).unwrap();
    assert_eq!(r.total_rewards_shares, 20);
    assert_eq!(q.rewards_share, 14);
    assert_eq!(q.annual_rewards_rate, 700);
    assert_eq!(q.last_update_ts, 100);
    assert_eq!(set_rewards_share(&mut r, &key(9), &mut q, &key(1), 100, 1), Err(ErrorCode::InvalidLinkage));
    set_famine(&r, &key(2), &mut q, &key(1), 500).unwrap();
    assert_eq!(q.famine_ts, 500);
    update_quarry_rewards(&mut q, &r, &key(2), 1_000).unwrap();
    assert_eq!(q.last_update_ts, 500);
}

#[test]
fn operator_roles_and_delegation() {
    let mut r = rewarder_with_authority(1);
    r.pending_authority = key(50);
    let mut ctx = CreateOperator { base: key(2), bump: 3, operator_key: key(50), admin: key(60), rewarder: r, rewarder_key: key(70) };
    let mut op = create_operator(&mut ctx, 123).unwrap();
    assert_eq!(ctx.rewarder.authority, key(50));
    assert_eq!(op.generation, 1);
    assert_eq!(op.last_modified_ts, 123);
    let mut r = ctx.rewarder;

    assert_eq!(op.set_role(&key(1), Role::RateSetter, key(61), 200), Err(ErrorCode::Unauthorized));
    op.set_rate_setter(&key(60), key(61), 200).unwrap();
    assert_eq!(op.rate_setter, key(61));
    assert_eq!(op.generation, 2);

    assert_eq!(op.delegate_set_annual_rewards(&key(50), &key(60), &mut r, &key(70), 5), Err(ErrorCode::Unauthorized));
    assert_eq!(op.delegate_set_annual_rewards(&key(50), &key(61), &mut r, &key(70), 5), Ok(0));
    assert_eq!(r.annual_rewards_rate, 5);

    let q = op.delegate_create_quarry(&key(50), &key(60), &mut r, &key(70), key(8), 6, 1).unwrap();
    let mut q: Quarry = q;
    op.delegate_set_rewards_share(&key(50), &key(60), &mut r, &key(70), &mut q, 0, 3).unwrap();
    assert_eq!(r.total_rewards_shares, 3);
    assert_eq!(q.annual_rewards_rate, 5);
    op.delegate_set_famine(&key(50), &key(60), &r, &key(70), &mut q, 99).unwrap();
    assert_eq!(q.famine_ts, 99);
}

#[test]
fn operator_needs_pending_authority() {
    let r = rewarder_with_authority(1);
    let mut ctx = CreateOperator { base: key(2), bump: 3, operator_key: key(50), admin: key(60), rewarder: r, rewarder_key: key(70) };
    assert_eq!(create_operator(&mut ctx, 0).unwrap_err(), ErrorCode::PendingAuthorityNotSet);
}

#[test]
fn redeem_burns_and_pays() {
    let redeemer = create_redeemer(key(1), key(2), 3);
    let mut ctx = RedeemTokens {
        redeemer,
        redeemer_key: key(40),
        source_authority: key(7),
        source_is_signer: true,
        iou_mint_supply: 1_000,
        iou_source: account(30, 1, key(7), 100),
        redemption_vault: account(31, 2, key(40), 500),
        redemption_destination: account(32, 2, key(7), 7),
    };
    redeem_tokens(&mut ctx, 40).unwrap();
    assert_eq!((ctx.iou_source.amount, ctx.iou_mint_supply), (60, 960));
    assert_eq!((ctx.redemption_vault.amount, ctx.redemption_destination.amount), (460, 47));
    assert_eq!(ctx.redeemer.total_tokens_redeemed, 40);
    assert_eq!(redeem_tokens(&mut ctx, 61), Err(ErrorCode::InsufficientBalance));
    redeem_all_tokens(&mut ctx).unwrap();
    assert_eq!(ctx.iou_source.amount, 0);
    assert_eq!(ctx.redeemer.total_tokens_redeemed, 100);
    let mut bad = ctx;
    bad.redemption_destination.owner = key(9);
    assert_eq!(redeem_tokens(&mut bad, 0), Err(ErrorCode::InvalidLinkage));
    bad.source_is_signer = false;
    assert_eq!(redeem_tokens(&mut bad, 0), Err(ErrorCode::Unauthorized));
}

fn account(k: u8, mint: u8, owner: Pubkey, amount: u64) -> TokenAccount {
    TokenAccount { key: key(k), mint: key(mint), owner, amount, has_delegate: false, has_close_authority: false }
}

#[test]
fn fees_move_to_the_fee_owner() {
    let mut r = Rewarder::default();
    r.claim_fee_token_account = key(5);
    r.rewards_token_mint = key(4);
    let mut ctx = ExtractFees {
        rewarder: r,
        claim_fee_token_account: account(5, 4, key(1), 250),
        fee_to_token_account: account(6, 4, fee_to(), 10),
    };
    assert_eq!(extract_fees(&mut ctx), Ok(250));
    assert_eq!(ctx.claim_fee_token_account.amount, 0);
    assert_eq!(ctx.fee_to_token_account.amount, 260);
    let mut bad = ctx;
    bad.fee_to_token_account.owner = key(9);
    assert_eq!(extract_fees(&mut bad), Err(ErrorCode::InvalidLinkage));
    let mut bad = ctx;
    bad.fee_to_token_account.has_delegate = true;
    assert_eq!(extract_fees(&mut bad), Err(ErrorCode::InvariantFailed));
}

#[test]
fn stray_tokens_are_rescued_but_not_the_vault() {
    let mut miner = Miner::default();
    miner.authority = key(7);
    miner.token_vault_key = key(20);
    let mut ctx = RescueTokens {
        miner,
        miner_key: key(8),
        authority: key(7),
        miner_token_account: account(21, 30, key(8), 40),
        destination_token_account: account(22, 30, key(7), 2),
    };
    assert_eq!(rescue_tokens(&mut ctx), Ok(40));
    assert_eq!(ctx.destination_token_account.amount, 42);
    assert_eq!(ctx.miner_token_account.amount, 0);
    ctx.miner_token_account.key = key(20);
    assert_eq!(rescue_tokens(&mut ctx), Err(ErrorCode::InvalidLinkage));
    ctx.authority = key(1);
    assert_eq!(rescue_tokens(&mut ctx), Err(ErrorCode::Unauthorized));
}

#[test]
fn position_cannot_rescue_pool_tokens() {
    let mut miner = Miner::default();
    miner.authority = key(11);
    miner.token_vault_key = key(20);
    let mut mm = MergeMiner::default();
    mm.owner = key(12);
    mm.pool = key(10);
    let mut pool = MergePool::default();
    pool.primary_mint = key(13);
    pool.replica_mint = key(14);
    let rescue = RescueTokens {
        miner,
        miner_key: key(8),
        authority: key(11),
        miner_token_account: account(21, 30, key(8), 40),
        destination_token_account: account(22, 30, key(12), 0),
    };
    let mut ctx = MmRescueTokens { mm_owner: key(12), mm, mm_key: key(11), merge_pool: pool, merge_pool_key: key(10), rescue };
    assert_eq!(mm_rescue_tokens(&mut ctx), Ok(40));
    ctx.rescue.miner_token_account.mint = key(14);
    assert_eq!(mm_rescue_tokens(&mut ctx), Err(ErrorCode::CannotWithdrawReplicaMint));
    ctx.mm_owner = key(1);
    assert_eq!(mm_rescue_tokens(&mut ctx), Err(ErrorCode::Unauthorized));
}

#[test]
fn share_change_subtracts_the_old_share_first() {
    let mut r = rewarder_with_authority(1);
    r.annual_rewards_rate = 1_000;
    r.total_rewards_shares = u64::MAX;
    let mut q = Quarry::default();
    q.rewarder = key(2);
    q.famine_ts = i64::MAX;
    q.rewards_share = 10;
    set_rewards_share(&mut r, &key(2), &mut q, &key(1), 0, 5).unwrap();
    assert_eq!(r.total_rewards_shares, u64::MAX - 5);
    assert_eq!(q.rewards_share, 5);
    // a new total beyond 64 bits is refused and nothing changes
    assert_eq!(set_rewards_share(&mut r, &key(2), &mut q, &key(1), 0, 11), Err(ErrorCode::IntegerOverflow));
    assert_eq!(r.total_rewards_shares, u64::MAX - 5);
    assert_eq!(q.rewards_share, 5);
}
