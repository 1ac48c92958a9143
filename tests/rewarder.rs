use quarry::error::{ErrorCode, ErrorKind};
use quarry::rewarder::{split_claim, DEFAULT_CLAIM_FEE_MILLIBPS, FEE_DENOMINATOR, MAX_ANNUAL_REWARDS_RATE, MAX_BPS};
use quarry::state::Rewarder;
use quarry::wide::mul_div_u64;
use rand::{thread_rng, Rng};

const DEFAULT_ANNUAL_REWARDS_RATE: u64 = 100_000_000_000_000_000;

fn add_quarry(l: &mut Rewarder, quarry_share: u64) {
    l.total_rewards_shares += quarry_share;
}

#[test]
fn test_compute_quarry_annual_rewards_rate() {
    let mut rewarder = Rewarder {
        annual_rewards_rate: DEFAULT_ANNUAL_REWARDS_RATE,
        ..Default::default()
    };

    let invalid: Result<u64, ErrorCode> = Err(ErrorCode::InvalidRewardsShare);

    assert_eq!(rewarder.compute_quarry_annual_rewards_rate(DEFAULT_ANNUAL_REWARDS_RATE), invalid);

    rewarder.total_rewards_shares = 1_000_000_000_000;
    let tokens_per_share = DEFAULT_ANNUAL_REWARDS_RATE / rewarder.total_rewards_shares;

    assert_eq!(rewarder.compute_quarry_annual_rewards_rate(0), Ok(0));
    assert_eq!(rewarder.compute_quarry_annual_rewards_rate(1), Ok(tokens_per_share));
    assert_eq!(rewarder.compute_quarry_annual_rewards_rate(10), Ok(10 * tokens_per_share));
    assert_eq!(rewarder.compute_quarry_annual_rewards_rate(100), Ok(100 * tokens_per_share));
    assert_eq!(rewarder.compute_quarry_annual_rewards_rate(1_000), Ok(1_000 * tokens_per_share));
    assert_eq!(rewarder.compute_quarry_annual_rewards_rate(10_000), Ok(10_000 * tokens_per_share));
    assert_eq!(rewarder.compute_quarry_annual_rewards_rate(100_000), Ok(100_000 * tokens_per_share));
}

#[test]
fn test_compute_quarry_rewards_rate_with_multiple_quarries_fixed() {
    let rewarder = &mut Rewarder::default();
    rewarder.annual_rewards_rate = DEFAULT_ANNUAL_REWARDS_RATE;
    rewarder.num_quarries = 1_000;

    let mut rng = thread_rng();
    let mut quarry_rewards_shares: Vec<u64> = Vec::new();
    for _ in 0..rewarder.num_quarries {
        let quarry_rewards_share: u32 = rng.gen_range(1..rewarder.annual_rewards_rate as u32);
        add_quarry(rewarder, quarry_rewards_share as u64);
        quarry_rewards_shares.push(quarry_rewards_share.into());
    }

    let mut total_rewards_per_day: u64 = 0;
    for i in 0..rewarder.num_quarries {
        total_rewards_per_day += rewarder
            .compute_quarry_annual_rewards_rate(quarry_rewards_shares[i as usize])
            .unwrap();
    }
    let diff = rewarder.annual_rewards_rate - total_rewards_per_day;

    const MAX_EPSILON: u64 = 30;
    let num_quarries = rewarder.num_quarries as u64;
    let epsilon: u64 = if diff > num_quarries / 2 {
        diff - num_quarries / 2
    } else {
        num_quarries / 2 - diff
    };
    assert!(
        epsilon <= MAX_EPSILON,
        "diff: {}, num_quarries / 2: {}, epsilon: {}",
        diff,
        num_quarries / 2,
        epsilon
    );
}

#[test]
fn share_split_loses_less_than_one_unit_per_pool() {
    let shares = [3u64, 7, 11, 13, 17, 19, 23];
    let mut rewarder = Rewarder::default();
    rewarder.annual_rewards_rate = 1_000_003;
    rewarder.total_rewards_shares = shares.iter().sum();
    let sum: u64 = shares.iter().map(|s| rewarder.compute_quarry_annual_rewards_rate(*s).unwrap()).sum();
    assert!(sum <= rewarder.annual_rewards_rate);
    assert!(rewarder.annual_rewards_rate - sum < shares.len() as u64);
}

#[test]
fn share_split_exact_values() {
    let mut rewarder = Rewarder::default();
    rewarder.annual_rewards_rate = 10;
    rewarder.total_rewards_shares = 3;
    assert_eq!(rewarder.compute_quarry_annual_rewards_rate(1), Ok(3));
    assert_eq!(rewarder.compute_quarry_annual_rewards_rate(2), Ok(6));
    assert_eq!(rewarder.compute_quarry_annual_rewards_rate(3), Ok(10));
    assert_eq!(rewarder.compute_quarry_annual_rewards_rate(4), Err(ErrorCode::InvalidRewardsShare));
    assert_eq!(ErrorCode::InvalidRewardsShare.kind(), ErrorKind::InvariantViolation);
}

#[test]
fn share_split_largest_values() {
    let mut rewarder = Rewarder::default();
    rewarder.annual_rewards_rate = u64::MAX;
    rewarder.total_rewards_shares = u64::MAX;
    assert_eq!(rewarder.compute_quarry_annual_rewards_rate(u64::MAX), Ok(u64::MAX));
    assert_eq!(rewarder.compute_quarry_annual_rewards_rate(u64::MAX - 1), Ok(u64::MAX - 1));
}

#[test]
fn zero_total_shares_gives_zero_rate() {
    let rewarder = Rewarder { bump: 254, num_quarries: 7, annual_rewards_rate: 12345, ..Default::default() };
    assert_eq!(rewarder.compute_quarry_annual_rewards_rate(1), Err(ErrorCode::InvalidRewardsShare));
    assert_eq!(rewarder.compute_quarry_annual_rewards_rate(0), Ok(0));
}

#[test]
fn claim_fee_split() {
    assert_eq!(FEE_DENOMINATOR, MAX_BPS * DEFAULT_CLAIM_FEE_MILLIBPS);
    // 0.01% of 1_000_000
    assert_eq!(split_claim(1_000_000, DEFAULT_CLAIM_FEE_MILLIBPS), Ok((999_900, 100)));
    assert_eq!(split_claim(9_999, DEFAULT_CLAIM_FEE_MILLIBPS), Ok((9_999, 0)));
    assert_eq!(split_claim(u64::MAX, FEE_DENOMINATOR - 1), Ok((1_844_674_407_371, 18_446_742_229_035_144_244)));
    assert_eq!(split_claim(10, FEE_DENOMINATOR), Err(ErrorCode::InvalidMaxClaimFee));
}

#[test]
fn mul_div_exact_and_failing() {
    assert_eq!(mul_div_u64(u64::MAX, u64::MAX, u64::MAX), Some(u64::MAX));
    assert_eq!(mul_div_u64(7, 3, 2), Some(10));
    assert_eq!(mul_div_u64(1, 1, 0), None);
    assert_eq!(mul_div_u64(u64::MAX, 2, 1), None);
}

#[test]
fn max_annual_rate_leaves_headroom() {
    assert_eq!(MAX_ANNUAL_REWARDS_RATE, u64::MAX >> 3);
}
