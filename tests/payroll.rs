use rand::Rng;
use quarry::error::{ErrorCode, ErrorKind};
use quarry::payroll::{Payroll, PRECISION_MULTIPLIER, SECONDS_PER_YEAR};
use quarry::state::{Miner, Quarry};

#[test]
fn test_sanity_check_off_by_one_case() {
    let total_tokens_deposited = 1_000_000;
    let annual_rewards_rate = 365_000_000_000_000;
    let rewards_per_token_stored: u128 = 576247267536447296791024;

    let last_checkpoint_ts = 0;
    let payroll = Payroll::new(
        i64::MAX,
        last_checkpoint_ts,
        annual_rewards_rate,
        rewards_per_token_stored,
        total_tokens_deposited,
    );

    let current_ts = 6;
    let rewards_earned = payroll
        .calculate_rewards_earned(current_ts, total_tokens_deposited, 0, 0)
        .unwrap();
    let upperbound = payroll.calculate_claimable_upper_bound(current_ts, 0).unwrap();

    assert_eq!(
        upperbound + 1,
        rewards_earned,
        "rewards_earned: {}, upperbound: {}",
        rewards_earned,
        upperbound
    );
}

#[test]
fn sanity_check_allows_one_unit_of_rounding() {
    let payroll = Payroll::new(i64::MAX, 0, 365_000_000_000_000, 576247267536447296791024, 1_000_000);
    let earned = payroll.calculate_rewards_earned(6, 1_000_000, 0, 0).unwrap() as u64;
    let miner = Miner::default();
    assert_eq!(payroll.sanity_check(6, earned, &miner), Ok(()));
    assert_eq!(payroll.sanity_check(6, earned + 1, &miner), Err(ErrorCode::UpperboundExceeded));
    assert_eq!(ErrorCode::UpperboundExceeded.kind(), ErrorKind::InvariantViolation);
}

#[test]
fn sanity_check_subtracts_what_was_already_earned() {
    let payroll = Payroll::new(i64::MAX, 0, 365_000_000_000_000, 576247267536447296791024, 1_000_000);
    let fresh = payroll.calculate_rewards_earned(6, 1_000_000, 0, 0).unwrap() as u64;
    let mut miner = Miner::default();
    miner.rewards_earned = 500;
    assert_eq!(payroll.sanity_check(6, fresh + 500, &miner), Ok(()));
    // less than what the record had already earned
    assert_eq!(payroll.sanity_check(6, 499, &miner), Err(ErrorCode::IntegerOverflow));
}

#[test]
fn reward_per_token_one_year() {
    // a full year at rate 1000 over 1000 staked tokens is one token each
    let payroll = Payroll::new(i64::MAX, 0, 1000, 0, 1000);
    let rpt = payroll.calculate_reward_per_token(SECONDS_PER_YEAR as i64).unwrap();
    assert_eq!(rpt, PRECISION_MULTIPLIER);
    assert_eq!(PRECISION_MULTIPLIER, 1u128 << 64);
}

#[test]
fn reward_per_token_exact_value() {
    // 6 days of 1_825_000_000_000 a year over 500_000_000 staked
    let payroll = Payroll::new(i64::MAX, 0, 1_825_000_000_000, 0, 500_000_000);
    assert_eq!(payroll.calculate_reward_per_token(518_400), Ok(1_106_804_644_422_573_096_960));
}

#[test]
fn reward_per_token_is_monotonic() {
    let payroll = Payroll::new(i64::MAX, 100, 5_000_000_000, 42, 1_000_000);
    let mut last = payroll.calculate_reward_per_token(100).unwrap();
    assert_eq!(last, 42);
    for t in [101i64, 150, 1_000, 86_400, 31_536_000, 2_000_000_000] {
        let now = payroll.calculate_reward_per_token(t).unwrap();
        assert!(now >= last);
        last = now;
    }
}

#[test]
fn zero_stake_leaves_accumulator_alone() {
    let payroll = Payroll::new(i64::MAX, 10, u64::MAX, 777, 0);
    for t in [10i64, 11, 1_000_000, i64::MAX] {
        assert_eq!(payroll.calculate_reward_per_token(t), Ok(777));
    }
}

#[test]
fn zero_rate_leaves_accumulator_alone() {
    let payroll = Payroll::new(1_000, 5, 0, 123, 456);
    assert_eq!(payroll.calculate_reward_per_token(900), Ok(123));
}

#[test]
fn no_accrual_after_famine() {
    let payroll = Payroll::new(50, 100, 1_000_000, 9, 10);
    assert_eq!(payroll.last_time_reward_applicable(200), 50);
    assert_eq!(payroll.compute_time_worked(200), Some(0));
    assert_eq!(payroll.calculate_reward_per_token(200), Ok(9));
}

#[test]
fn time_worked_stops_at_famine() {
    let payroll = Payroll::new(150, 100, 1, 0, 1);
    assert_eq!(payroll.last_time_reward_applicable(120), 120);
    assert_eq!(payroll.compute_time_worked(120), Some(20));
    assert_eq!(payroll.compute_time_worked(400), Some(50));
}

#[test]
fn time_worked_overflow_is_none() {
    let payroll = Payroll::new(i64::MAX, i64::MIN, 1, 0, 1);
    assert_eq!(payroll.compute_time_worked(1), None);
    assert_eq!(payroll.calculate_reward_per_token(1), Err(ErrorCode::IntegerOverflow));
}

#[test]
fn timestamp_before_checkpoint_is_refused() {
    let payroll = Payroll::new(i64::MAX, 100, 1, 0, 1);
    assert_eq!(payroll.calculate_reward_per_token(99), Err(ErrorCode::InvalidTimestamp));
    assert_eq!(payroll.calculate_rewards_earned(99, 1, 0, 0), Err(ErrorCode::InvalidTimestamp));
    assert_eq!(ErrorCode::InvalidTimestamp.kind(), ErrorKind::InvalidTimestamp);
}

#[test]
fn record_larger_than_pool_is_refused() {
    let payroll = Payroll::new(i64::MAX, 0, 1, 0, 10);
    assert_eq!(payroll.calculate_rewards_earned(5, 11, 0, 0), Err(ErrorCode::NotEnoughTokens));
}

#[test]
fn accumulator_overflow_is_reported() {
    let payroll = Payroll::new(i64::MAX, 0, u64::MAX, u128::MAX - 5, 1);
    assert_eq!(payroll.calculate_reward_per_token(1_000), Err(ErrorCode::IntegerOverflow));
    assert_eq!(ErrorCode::IntegerOverflow.kind(), ErrorKind::ArithmeticError);
}

#[test]
fn checkpoint_ahead_of_accumulator_is_overflow() {
    let payroll = Payroll::new(i64::MAX, 0, 0, 10, 1);
    assert_eq!(payroll.calculate_rewards_earned(0, 1, 11, 0), Err(ErrorCode::IntegerOverflow));
}

#[test]
fn rewards_earned_when_zero_tokens_deposited() {
    let payroll = Payroll::new(1_000, 10, 99_999, 12_345, 77);
    assert_eq!(payroll.calculate_rewards_earned(500, 0, 12_000, 31), Ok(31));
}

#[test]
fn rewards_earned_exact_value() {
    // half of the stake, accumulator up by exactly one token per token
    let payroll = Payroll::new(i64::MAX, 0, 0, 3u128 << 64, 100);
    assert_eq!(payroll.calculate_rewards_earned(0, 40, 1u128 << 64, 5), Ok(85));
}

#[test]
fn payroll_from_quarry() {
    let mut q = Quarry::default();
    q.famine_ts = 9;
    q.last_update_ts = 3;
    q.annual_rewards_rate = 4;
    q.rewards_per_token_stored = 5;
    q.total_tokens_deposited = 6;
    let p = Payroll::from(q);
    assert_eq!(
        (p.famine_ts, p.last_checkpoint_ts, p.annual_rewards_rate, p.rewards_per_token_stored, p.total_tokens_deposited),
        (9, 3, 4, 5, 6)
    );
}

#[test]
fn upper_bound_exact_value() {
    // one year at 1000 a year, plus 2 tokens per token over 10 tokens
    let payroll = Payroll::new(i64::MAX, 0, 1000, 2u128 << 64, 10);
    assert_eq!(payroll.calculate_claimable_upper_bound(SECONDS_PER_YEAR as i64, 0), Some(1020));
    assert_eq!(payroll.calculate_claimable_upper_bound(SECONDS_PER_YEAR as i64, 3u128 << 64), None);
}

#[test]
fn lone_depositor_accrues_pool_rewards_within_one_unit() {
    for (rate, total, t) in [(5_000_000_000u64 * 365, 500_000_000u64, 518_400i64), (1_000_000, 3, 1_000), (7, 1, 31_536_000 * 3), (u64::MAX >> 3, 1_000_000_000_000_000, 2_147_483_647)] {
        let payroll = Payroll::new(i64::MAX, 0, rate, 0, total);
        let earned = payroll.calculate_rewards_earned(t, total, 0, 0).unwrap();
        let exact = (t as u128) * (rate as u128) / SECONDS_PER_YEAR;
        assert!(earned <= exact && earned + 1 >= exact, "{} {}", earned, exact);
    }
}

#[test]
fn upper_bound_covers_rewards_on_random_inputs() {
    let mut rng = rand::thread_rng();
    for _ in 0..2_000 {
        let rate: u64 = rng.gen_range(0..=(u64::MAX >> 3));
        let total: u64 = rng.gen_range(1..1_000_000_000_000_000);
        let mine: u64 = rng.gen_range(0..=total);
        let stored: u64 = rng.gen_range(0..1_000_000_000_000_000);
        let paid: u64 = rng.gen_range(0..=stored);
        let last: i64 = rng.gen_range(0..(i64::MAX - i32::MAX as i64));
        let now = last + rng.gen_range(0..i32::MAX as i64);
        let payroll = Payroll::new(i64::MAX, last, rate, stored as u128, total);
        let earned = payroll.calculate_rewards_earned(now, mine, paid as u128, 0).unwrap();
        let upper = payroll.calculate_claimable_upper_bound(now, paid as u128).unwrap();
        assert!(upper + 1 >= earned, "{} {}", upper, earned);
    }
}

#[test]
fn accumulated_precision_error_is_small_on_random_inputs() {
    let mut rng = rand::thread_rng();
    for _ in 0..200 {
        let updates: i64 = rng.gen_range(1..100);
        let rate: u64 = rng.gen_range(1_000_000..=(u64::MAX >> 3));
        let total: u64 = rng.gen_range(100_000..u64::MAX);
        let mine: u64 = rng.gen_range(0..100_000);
        let start: i64 = rng.gen_range(0..1_000_000_000);
        let end = start + rng.gen_range(1_000_000..i32::MAX as i64);
        let mut stored: u128 = 0;
        let mut last = start;
        for i in 0..=updates {
            let payroll = Payroll::new(i64::MAX, last, rate, stored, total);
            let t = start + ((end - start) as i128 * i as i128 / updates as i128) as i64;
            stored = payroll.calculate_reward_per_token(t).unwrap();
            last = t;
        }
        let payroll = Payroll::new(i64::MAX, last, rate, stored, total);
        let earned = payroll.calculate_rewards_earned(end, mine, 0, 0).unwrap();
        let exact = rate as u128 * (end - start) as u128 * mine as u128 / SECONDS_PER_YEAR / total as u128;
        assert!(earned <= exact + 1, "{} {}", earned, exact);
        assert!(exact - earned.min(exact) <= exact / 10_000 + 1, "{} {}", earned, exact);
    }
}
