use quarry::claim_rewards_v2::{handler as claim, ClaimRewardsV2, UserClaimV2};
use quarry::error::ErrorCode;
use quarry::key::Pubkey;
use quarry::mint_wrapper::{MintWrapper, Minter};
use quarry::payroll::PRECISION_MULTIPLIER;
use quarry::quarry::StakeAction;
use quarry::quarry_mine::{stake_tokens, withdraw_tokens, UserStake};
use quarry::state::{Miner, Quarry, Rewarder};

const SECONDS_PER_DAY: u64 = 86_400;
const DEFAULT_TOKEN_DECIMALS: u8 = 6;

pub struct MinerVault {
    balance: u64,
}

fn sim_claim(current_ts: i64, rewarder: &Rewarder, quarry: &mut Quarry, _vault: &mut MinerVault, miner: &mut Miner) -> u64 {
    quarry.update_rewards_and_miner(miner, rewarder, current_ts).unwrap();
    let amount_claimable = miner.rewards_earned;
    miner.rewards_earned = 0;
    amount_claimable
}

fn sim_stake(current_ts: i64, rewarder: &Rewarder, quarry: &mut Quarry, vault: &mut MinerVault, miner: &mut Miner, amount: u64) {
    quarry
        .process_stake_action_internal(StakeAction::Stake, current_ts, rewarder, miner, amount)
        .unwrap();
    vault.balance += amount;
}

fn sim_withdraw(current_ts: i64, rewarder: &Rewarder, quarry: &mut Quarry, vault: &mut MinerVault, miner: &mut Miner, amount: u64) {
    quarry
        .process_stake_action_internal(StakeAction::Withdraw, current_ts, rewarder, miner, amount)
        .unwrap();
    vault.balance -= amount;
}

fn to_unit(amt: u64) -> u64 {
    amt * 1_000_000
}

#[test]
fn test_lifecycle_one_miner() {
    let quarry = &mut Quarry::default();
    quarry.famine_ts = i64::MAX;
    quarry.rewards_share = 100;
    quarry.token_mint_decimals = DEFAULT_TOKEN_DECIMALS;
    let miner_vault = &mut MinerVault { balance: 0 };

    let daily_rewards_rate = to_unit(5_000);
    let annual_rewards_rate = daily_rewards_rate * 365;
    let rewarder = Rewarder {
        bump: 254,
        annual_rewards_rate,
        num_quarries: 1,
        total_rewards_shares: quarry.rewards_share,
        ..Default::default()
    };

    let miner = &mut Miner::default();

    let mut current_ts: i64 = 0;
    let total_to_stake = to_unit(500);

    sim_stake(current_ts, &rewarder, quarry, miner_vault, miner, total_to_stake);
    assert!(quarry.annual_rewards_rate > 0);
    assert_eq!(miner_vault.balance, total_to_stake);

    current_ts += SECONDS_PER_DAY as i64 * 6;
    let expected_rewards_earned = daily_rewards_rate * 6;

    let withdraw_amount = to_unit(250);
    sim_withdraw(current_ts, &rewarder, quarry, miner_vault, miner, withdraw_amount);
    assert!(quarry.rewards_per_token_stored > 0);
    assert_eq!(
        miner.rewards_earned,
        (miner.rewards_per_token_paid * (total_to_stake as u128) / PRECISION_MULTIPLIER) as u64
    );
    assert_eq!(miner.rewards_earned, expected_rewards_earned);
    assert_eq!(miner_vault.balance, total_to_stake - withdraw_amount);

    let expected_rewards_earned = miner.rewards_earned;
    assert_eq!(sim_claim(current_ts, &rewarder, quarry, miner_vault, miner), expected_rewards_earned);
    assert_eq!(sim_claim(current_ts, &rewarder, quarry, miner_vault, miner), 0);

    current_ts += SECONDS_PER_DAY as i64 * 6;

    sim_withdraw(current_ts, &rewarder, quarry, miner_vault, miner, withdraw_amount);
    assert_eq!(miner_vault.balance, 0);

    assert_eq!(sim_claim(current_ts, &rewarder, quarry, miner_vault, miner), expected_rewards_earned);

    current_ts += SECONDS_PER_DAY as i64 * 6;

    assert_eq!(sim_claim(current_ts, &rewarder, quarry, miner_vault, miner), 0);
}

#[test]
fn test_lifecycle_two_miners() {
    let quarry = &mut Quarry::default();
    quarry.famine_ts = i64::MAX;
    quarry.rewards_share = 100;
    quarry.token_mint_decimals = DEFAULT_TOKEN_DECIMALS;
    let miner_vault_one = &mut MinerVault { balance: 0 };
    let miner_vault_two = &mut MinerVault { balance: 0 };

    let daily_rewards_rate = to_unit(5_000);
    let annual_rewards_rate = daily_rewards_rate * 365;
    let rewarder = Rewarder {
        bump: 254,
        annual_rewards_rate,
        num_quarries: 1,
        total_rewards_shares: quarry.rewards_share,
        ..Default::default()
    };
    let miner_one = &mut Miner::default();
    let miner_two = &mut Miner::default();

    let mut current_ts: i64 = 0;
    let total_to_stake = to_unit(500);

    sim_stake(current_ts, &rewarder, quarry, miner_vault_one, miner_one, total_to_stake);
    assert_eq!(miner_vault_one.balance, total_to_stake);
    assert_eq!(miner_one.balance, miner_vault_one.balance);
    sim_stake(current_ts, &rewarder, quarry, miner_vault_two, miner_two, total_to_stake);
    assert_eq!(miner_vault_two.balance, total_to_stake);
    assert_eq!(miner_two.balance, miner_vault_two.balance);
    assert!(quarry.annual_rewards_rate > 0);

    current_ts += SECONDS_PER_DAY as i64 * 3;

    sim_withdraw(current_ts, &rewarder, quarry, miner_vault_two, miner_two, total_to_stake);
    assert!(quarry.rewards_per_token_stored > 0);
    assert_eq!(
        miner_two.rewards_earned,
        (miner_two.rewards_per_token_paid * (total_to_stake as u128) / PRECISION_MULTIPLIER) as u64
    );
    assert_eq!(miner_vault_two.balance, 0);
    assert_eq!(miner_two.balance, miner_vault_two.balance);

    current_ts += SECONDS_PER_DAY as i64 * 3;

    let total_distributed = daily_rewards_rate * 6;
    let expected_miner_one_rewards_earned = total_distributed * 3 / 4;
    let expected_miner_two_rewards_earned = total_distributed / 4;
    assert_eq!(sim_claim(current_ts, &rewarder, quarry, miner_vault_one, miner_one), expected_miner_one_rewards_earned);
    assert_eq!(sim_claim(current_ts, &rewarder, quarry, miner_vault_two, miner_two), expected_miner_two_rewards_earned);

    current_ts += SECONDS_PER_DAY as i64 * 6;

    let expected_miner_one_rewards_earned = daily_rewards_rate * 6;
    let expected_miner_two_rewards_earned = 0;
    assert_eq!(sim_claim(current_ts, &rewarder, quarry, miner_vault_one, miner_one), expected_miner_one_rewards_earned);
    assert_eq!(sim_claim(current_ts, &rewarder, quarry, miner_vault_two, miner_two), expected_miner_two_rewards_earned);

    sim_stake(current_ts, &rewarder, quarry, miner_vault_two, miner_two, total_to_stake);
    assert_eq!(miner_vault_two.balance, total_to_stake);
    assert_eq!(miner_two.balance, miner_vault_two.balance);

    current_ts += SECONDS_PER_DAY as i64 * 6;

    let expected_miner_one_rewards_earned = expected_miner_one_rewards_earned / 2;
    let expected_miner_two_rewards_earned = expected_miner_one_rewards_earned;
    assert_eq!(sim_claim(current_ts, &rewarder, quarry, miner_vault_one, miner_one), expected_miner_one_rewards_earned);
    assert_eq!(sim_claim(current_ts, &rewarder, quarry, miner_vault_two, miner_two), expected_miner_two_rewards_earned);
}

fn key(b: u8) -> Pubkey {
    Pubkey::new([b; 32])
}

const REWARDER: u8 = 1;
const QUARRY: u8 = 2;
const WRAPPER: u8 = 3;
const REWARD_MINT: u8 = 4;
const FEE_ACCOUNT: u8 = 5;

fn setup_rewarder(annual_rewards_rate: u64, fee_millibps: u64) -> Rewarder {
    let mut r = Rewarder::default();
    r.annual_rewards_rate = annual_rewards_rate;
    r.total_rewards_shares = 100;
    r.num_quarries = 1;
    r.mint_wrapper = key(WRAPPER);
    r.rewards_token_mint = key(REWARD_MINT);
    r.claim_fee_token_account = key(FEE_ACCOUNT);
    r.max_claim_fee_millibps = fee_millibps;
    r
}

fn setup_quarry() -> Quarry {
    let mut q = Quarry::default();
    q.famine_ts = i64::MAX;
    q.rewards_share = 100;
    q.rewarder = key(REWARDER);
    q.token_mint_key = key(9);
    q
}

fn user_stake(owner: u8, miner: Miner, quarry: Quarry, rewarder: Rewarder, tokens: u64, vault: u64) -> UserStake {
    UserStake {
        authority: key(owner),
        authority_is_signer: true,
        miner,
        quarry,
        quarry_key: key(QUARRY),
        miner_vault_amount: vault,
        token_account_amount: tokens,
        rewarder,
        rewarder_key: key(REWARDER),
    }
}

fn new_miner(owner: u8) -> Miner {
    let mut m = Miner::default();
    m.authority = key(owner);
    m.quarry = key(QUARRY);
    m
}

fn claim_ctx(owner: u8, miner: Miner, quarry: Quarry, rewarder: Rewarder, allowance: u64) -> ClaimRewardsV2 {
    let mut wrapper = MintWrapper::default();
    wrapper.token_mint = key(REWARD_MINT);
    wrapper.hard_cap = u64::MAX;
    wrapper.total_allowance = allowance;
    let mut minter = Minter::default();
    minter.mint_wrapper = key(WRAPPER);
    minter.minter_authority = key(REWARDER);
    minter.allowance = allowance;
    ClaimRewardsV2 {
        mint_wrapper: wrapper,
        mint_wrapper_key: key(WRAPPER),
        minter,
        rewards_token_mint: key(REWARD_MINT),
        rewards_token_supply: 0,
        rewards_token_account: key(owner + 100),
        claim_fee_token_account: key(FEE_ACCOUNT),
        claim: UserClaimV2 {
            authority: key(owner),
            authority_is_signer: true,
            miner,
            quarry,
            quarry_key: key(QUARRY),
            rewarder,
            rewarder_key: key(REWARDER),
        },
    }
}

#[test]
fn single_depositor_six_day_scenario() {
    let daily_rate = 5_000 * 1_000_000u64;
    let rewarder = setup_rewarder(daily_rate * 365, 0);
    let stake_amount = 500 * 1_000_000u64;
    let mut ctx = user_stake(7, new_miner(7), setup_quarry(), rewarder, stake_amount, 0);
    stake_tokens(&mut ctx, 0, stake_amount).unwrap();
    assert_eq!(ctx.miner.balance, stake_amount);
    assert_eq!(ctx.miner_vault_amount, stake_amount);
    assert_eq!(ctx.token_account_amount, 0);
    assert_eq!(ctx.quarry.annual_rewards_rate, daily_rate * 365);

    let six_days = 6 * SECONDS_PER_DAY as i64;
    let mut c = claim_ctx(7, ctx.miner, ctx.quarry, rewarder, u64::MAX);
    assert_eq!(claim(&mut c, six_days), Ok((daily_rate * 6, 0)));
    assert_eq!(c.rewards_token_supply, daily_rate * 6);
    assert_eq!(c.claim.miner.rewards_earned, 0);
    // a second claim at the same instant pays nothing
    assert_eq!(claim(&mut c, six_days), Ok((0, 0)));

    let mut ctx = user_stake(7, c.claim.miner, c.claim.quarry, rewarder, 0, ctx.miner_vault_amount);
    withdraw_tokens(&mut ctx, six_days, stake_amount).unwrap();
    assert_eq!(ctx.miner.balance, 0);
    assert_eq!(ctx.token_account_amount, stake_amount);
    assert_eq!(ctx.quarry.total_tokens_deposited, 0);

    let mut c = claim_ctx(7, ctx.miner, ctx.quarry, rewarder, u64::MAX);
    assert_eq!(claim(&mut c, 2 * six_days), Ok((0, 0)));
}

#[test]
fn two_depositors_time_weighted_split() {
    let daily_rate = 5_000 * 1_000_000u64;
    let rewarder = setup_rewarder(daily_rate * 365, 0);
    let amount = 500 * 1_000_000u64;
    let mut a = new_miner(7);
    let mut b = new_miner(8);
    let mut q = setup_quarry();
    q.process_stake_action_internal(StakeAction::Stake, 0, &rewarder, &mut a, amount).unwrap();
    q.process_stake_action_internal(StakeAction::Stake, 0, &rewarder, &mut b, amount).unwrap();
    let three_days = 3 * SECONDS_PER_DAY as i64;
    q.process_stake_action_internal(StakeAction::Withdraw, three_days, &rewarder, &mut b, amount).unwrap();
    q.update_rewards_and_miner(&mut a, &rewarder, 2 * three_days).unwrap();
    q.update_rewards_and_miner(&mut b, &rewarder, 2 * three_days).unwrap();
    let total = daily_rate * 6;
    assert_eq!(a.rewards_earned, total * 3 / 4);
    assert_eq!(b.rewards_earned, total / 4);
}

#[test]
fn withdraw_more_than_staked_is_refused() {
    let rewarder = setup_rewarder(1_000_000, 0);
    let mut q = setup_quarry();
    let mut m = new_miner(7);
    q.process_stake_action_internal(StakeAction::Stake, 0, &rewarder, &mut m, 10).unwrap();
    let before = (q.total_tokens_deposited, m.balance);
    assert_eq!(
        q.process_stake_action_internal(StakeAction::Withdraw, 5, &rewarder, &mut m, 11),
        Err(ErrorCode::InsufficientBalance)
    );
    assert_eq!((q.total_tokens_deposited, m.balance), before);
}

#[test]
fn stake_overflow_is_refused() {
    let rewarder = setup_rewarder(0, 0);
    let mut q = setup_quarry();
    let mut m = new_miner(7);
    q.process_stake_action_internal(StakeAction::Stake, 0, &rewarder, &mut m, u64::MAX).unwrap();
    assert_eq!(
        q.process_stake_action_internal(StakeAction::Stake, 0, &rewarder, &mut m, 1),
        Err(ErrorCode::IntegerOverflow)
    );
}

#[test]
fn sync_is_idempotent_at_one_instant() {
    let rewarder = setup_rewarder(1_000_000_000, 0);
    let mut q = setup_quarry();
    let mut m = new_miner(7);
    q.process_stake_action_internal(StakeAction::Stake, 0, &rewarder, &mut m, 1_000).unwrap();
    q.update_rewards_and_miner(&mut m, &rewarder, 10_000).unwrap();
    let (q1, m1) = (q, m);
    q.update_rewards_and_miner(&mut m, &rewarder, 10_000).unwrap();
    assert_eq!(q.rewards_per_token_stored, q1.rewards_per_token_stored);
    assert_eq!(q.last_update_ts, q1.last_update_ts);
    assert_eq!(m.rewards_earned, m1.rewards_earned);
}

#[test]
fn sync_takes_rate_from_allocator_and_stops_at_famine() {
    let rewarder = setup_rewarder(1_000, 0);
    let mut q = setup_quarry();
    q.famine_ts = 50;
    let payroll = quarry::payroll::Payroll::from(q);
    q.update_rewards_internal(80, &rewarder, &payroll).unwrap();
    assert_eq!(q.annual_rewards_rate, 1_000);
    assert_eq!(q.last_update_ts, 50);
    assert_eq!(q.update_rewards_internal(40, &rewarder, &quarry::payroll::Payroll::from(q)), Err(ErrorCode::InvalidTimestamp));
}

#[test]
fn stake_with_wrong_owner_is_refused() {
    let rewarder = setup_rewarder(1_000, 0);
    let mut ctx = user_stake(7, new_miner(8), setup_quarry(), rewarder, 10, 0);
    assert_eq!(stake_tokens(&mut ctx, 0, 10), Err(ErrorCode::Unauthorized));
    let mut ctx = user_stake(7, new_miner(7), setup_quarry(), rewarder, 10, 0);
    ctx.quarry_key = key(99);
    assert_eq!(stake_tokens(&mut ctx, 0, 10), Err(ErrorCode::InvalidLinkage));
    let mut paused = rewarder;
    paused.is_paused = true;
    let mut ctx = user_stake(7, new_miner(7), setup_quarry(), paused, 10, 0);
    assert_eq!(stake_tokens(&mut ctx, 0, 10), Err(ErrorCode::Paused));
}

#[test]
fn stake_more_than_held_is_refused() {
    let rewarder = setup_rewarder(1_000, 0);
    let mut ctx = user_stake(7, new_miner(7), setup_quarry(), rewarder, 5, 0);
    assert_eq!(stake_tokens(&mut ctx, 0, 6), Err(ErrorCode::InsufficientBalance));
    assert_eq!(ctx.miner.balance, 0);
    assert_eq!(stake_tokens(&mut ctx, 0, 0), Ok(()));
    assert_eq!(ctx.token_account_amount, 5);
}

#[test]
fn withdraw_more_than_vault_is_refused() {
    let rewarder = setup_rewarder(1_000, 0);
    let mut ctx = user_stake(7, new_miner(7), setup_quarry(), rewarder, 5, 0);
    stake_tokens(&mut ctx, 0, 5).unwrap();
    assert_eq!(withdraw_tokens(&mut ctx, 1, 6), Err(ErrorCode::InsufficientBalance));
    assert_eq!(withdraw_tokens(&mut ctx, 1, 5), Ok(()));
    assert_eq!(ctx.token_account_amount, 5);
    assert_eq!(ctx.miner_vault_amount, 0);
}

#[test]
fn lone_depositor_claims_match_pool_rewards_across_checkpoints() {
    let rate = 5_000 * 1_000_000u64 * 365;
    let rewarder = setup_rewarder(rate, 0);
    let mut q = setup_quarry();
    let mut m = new_miner(7);
    q.process_stake_action_internal(StakeAction::Stake, 0, &rewarder, &mut m, 500 * 1_000_000).unwrap();
    let checkpoints = [1i64, 1_000, 86_400, 100_000, 1_000_000, 40_000_000, 2_147_483_647];
    let mut claimed: u128 = 0;
    for t in checkpoints {
        q.update_rewards_and_miner(&mut m, &rewarder, t).unwrap();
        claimed += m.rewards_earned as u128;
        m.rewards_earned = 0;
    }
    let exact = 2_147_483_647u128 * rate as u128 / 31_536_000;
    assert!(claimed <= exact);
    assert!(exact - claimed <= checkpoints.len() as u128, "{} {}", claimed, exact);
}

#[test]
fn lone_claimant_is_paid_pool_rewards_across_claims() {
    let rate = 5_000 * 1_000_000u64 * 365;
    let rewarder = setup_rewarder(rate, 1_000);
    let mut q = setup_quarry();
    let mut m = new_miner(7);
    q.process_stake_action_internal(StakeAction::Stake, 0, &rewarder, &mut m, 500 * 1_000_000).unwrap();
    let mut c = claim_ctx(7, m, q, rewarder, u64::MAX);
    let times = [7i64, 86_400, 90_000, 1_000_000, 31_536_000, 100_000_000];
    let mut paid: u128 = 0;
    for t in times {
        let (net, fee) = claim(&mut c, t).unwrap();
        paid += net as u128 + fee as u128;
    }
    let exact = 100_000_000u128 * rate as u128 / 31_536_000;
    assert!(paid <= exact);
    assert!(exact - paid <= times.len() as u128, "{} {}", paid, exact);
    assert_eq!(c.rewards_token_supply as u128, paid);
}
