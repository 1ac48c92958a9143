//! The allocator's share math and the claim fee.
use vstd::prelude::*;
use crate::error::ErrorCode;
use crate::state::Rewarder;
use crate::wide::{mul_div_u64, u128_to_u64};

verus! {

/// Largest annual rate an allocator may distribute, which keeps the
/// intermediate products of the payroll within their width.
pub const MAX_ANNUAL_REWARDS_RATE: u64 = 0x1FFF_FFFF_FFFF_FFFF;

/// Claim fee of a new allocator: 1,000 thousandths of a basis point, 0.01%.
pub const DEFAULT_CLAIM_FEE_MILLIBPS: u64 = 1_000;

/// Basis points in a whole.
pub const MAX_BPS: u64 = 10_000;

/// Thousandths of a basis point in a whole: the claim fee's denominator.
pub const FEE_DENOMINATOR: u64 = MAX_BPS * DEFAULT_CLAIM_FEE_MILLIBPS;

/// A pool's annual rate: its proportional part of the allocator's rate,
/// rounded down, and zero where there are no shares.
pub open spec fn quarry_rate(annual_rate: int, share: int, total_shares: int) -> int {
    if total_shares == 0 {
        0
    } else {
        annual_rate * share / total_shares
    }
}

/// The fee taken from a claim of `claimable` at `fee_millibps`.
pub open spec fn claim_fee(claimable: int, fee_millibps: int) -> int {
    claimable * fee_millibps / (FEE_DENOMINATOR as int)
}

/// Sum of a list of shares.
pub open spec fn sum_shares(shares: Seq<u64>) -> int
    decreases shares.len(),
{
    if shares.len() == 0 {
        0
    } else {
        sum_shares(shares.drop_last()) + shares.last()
    }
}

/// Sum of the annual rates of pools with the given shares.
pub open spec fn sum_quarry_rates(annual_rate: int, shares: Seq<u64>, total_shares: int) -> int
    decreases shares.len(),
{
    if shares.len() == 0 {
        0
    } else {
        sum_quarry_rates(annual_rate, shares.drop_last(), total_shares) + quarry_rate(
            annual_rate,
            shares.last() as int,
            total_shares,
        )
    }
}

impl Rewarder {
    /// The annual rate of a pool with `quarry_rewards_share`; an error where
    /// the share exceeds the allocator's total.
    pub fn compute_quarry_annual_rewards_rate(&self, quarry_rewards_share: u64) -> (r: Result<u64, ErrorCode>)
        ensures
            quarry_rewards_share > self.total_rewards_shares
                ==> r == Err::<u64, _>(ErrorCode::InvalidRewardsShare),
            quarry_rewards_share <= self.total_rewards_shares ==> r == Ok::<u64, ErrorCode>(
                quarry_rate(
                    self.annual_rewards_rate as int,
                    quarry_rewards_share as int,
                    self.total_rewards_shares as int,
                ) as u64,
            ),
            r is Ok ==> r->Ok_0 <= self.annual_rewards_rate,
    {
        if quarry_rewards_share > self.total_rewards_shares {
            return Err(ErrorCode::InvalidRewardsShare);
        }
        if self.total_rewards_shares == 0 || self.annual_rewards_rate == 0 || quarry_rewards_share == 0 {
            proof {
                if self.total_rewards_shares != 0 {
                    assert(self.annual_rewards_rate as int * quarry_rewards_share as int == 0)
                        by (nonlinear_arith)
                        requires
                            self.annual_rewards_rate == 0 || quarry_rewards_share == 0;
                }
            }
            return Ok(0);
        }
        let rate = self.annual_rewards_rate as u128;
        let share = quarry_rewards_share as u128;
        let total = self.total_rewards_shares as u128;
        proof {
            assert(rate * share <= rate * total) by (nonlinear_arith)
                requires share <= total, 0 <= rate;
            assert(rate * total <= u64::MAX as int * u64::MAX as int) by (nonlinear_arith)
                requires rate <= u64::MAX, total <= u64::MAX, 0 <= rate, 0 <= total;
            vstd::arithmetic::div_mod::lemma_div_is_ordered(
                rate * share,
                rate * total,
                total as int,
            );
            vstd::arithmetic::div_mod::lemma_div_multiples_vanish(rate as int, total as int);
            assert(rate * total == total * rate) by (nonlinear_arith);
        }
        let q = rate * share / total;
        match u128_to_u64(q) {
            Some(v) => Ok(v),
            None => Err(ErrorCode::IntegerOverflow),
        }
    }
}

/// Splits a claim into the fee and what is paid out; an error where the
/// fee rate is not below its denominator.
pub fn split_claim(amount_claimable: u64, max_claim_fee_millibps: u64) -> (r: Result<(u64, u64), ErrorCode>)
    ensures
        max_claim_fee_millibps >= FEE_DENOMINATOR ==> r == Err::<(u64, u64), _>(ErrorCode::InvalidMaxClaimFee),
        max_claim_fee_millibps < FEE_DENOMINATOR ==> r is Ok,
        r matches Ok((net, fee)) ==> fee == claim_fee(amount_claimable as int, max_claim_fee_millibps as int)
            && net + fee == amount_claimable,
{
    if max_claim_fee_millibps >= FEE_DENOMINATOR {
        return Err(ErrorCode::InvalidMaxClaimFee);
    }
    proof {
        let a = amount_claimable as int;
        let f = max_claim_fee_millibps as int;
        assert(a * f <= a * 10_000_000) by (nonlinear_arith)
            requires 0 <= a, 0 <= f < 10_000_000;
        vstd::arithmetic::div_mod::lemma_div_is_ordered(a * f, a * 10_000_000, 10_000_000);
        vstd::arithmetic::div_mod::lemma_div_multiples_vanish(a, 10_000_000);
        assert(a * 10_000_000 == 10_000_000 * a) by (nonlinear_arith);
    }
    let fee = match mul_div_u64(amount_claimable, max_claim_fee_millibps, FEE_DENOMINATOR) {
        Some(v) => v,
        None => return Err(ErrorCode::IntegerOverflow),
    };
    Ok((amount_claimable - fee, fee))
}

proof fn lemma_rates_remainder(annual_rate: int, shares: Seq<u64>, total_shares: int)
    requires
        total_shares > 0,
        annual_rate >= 0,
    ensures
        0 <= annual_rate * sum_shares(shares) - total_shares * sum_quarry_rates(annual_rate, shares, total_shares),
        annual_rate * sum_shares(shares) - total_shares * sum_quarry_rates(annual_rate, shares, total_shares)
            <= shares.len() * (total_shares - 1),
    decreases shares.len(),
{
    if shares.len() > 0 {
        let rest = shares.drop_last();
        let s = shares.last() as int;
        lemma_rates_remainder(annual_rate, rest, total_shares);
        let q = annual_rate * s / total_shares;
        vstd::arithmetic::div_mod::lemma_fundamental_div_mod(annual_rate * s, total_shares);
        vstd::arithmetic::div_mod::lemma_mod_bound(annual_rate * s, total_shares);
        let sr = sum_shares(rest);
        let qr = sum_quarry_rates(annual_rate, rest, total_shares);
        assert(annual_rate * (sr + s) == annual_rate * sr + annual_rate * s) by (nonlinear_arith);
        assert(total_shares * (qr + q) == total_shares * qr + total_shares * q) by (nonlinear_arith);
        assert((rest.len() + 1) * (total_shares - 1) == rest.len() * (total_shares - 1) + (total_shares - 1))
            by (nonlinear_arith);
    }
}

/// Where the pools' shares add up to the allocator's total, their annual
/// rates add up to at most the allocator's rate, and fall short of it by
/// less than one unit per pool.
pub proof fn lemma_share_split_bound(rewarder: Rewarder, shares: Seq<u64>)
    requires
        sum_shares(shares) == rewarder.total_rewards_shares,
        rewarder.total_rewards_shares > 0,
    ensures
        sum_quarry_rates(rewarder.annual_rewards_rate as int, shares, rewarder.total_rewards_shares as int)
            <= rewarder.annual_rewards_rate,
        rewarder.annual_rewards_rate - sum_quarry_rates(
            rewarder.annual_rewards_rate as int,
            shares,
            rewarder.total_rewards_shares as int,
        ) < shares.len(),
{
    let rate = rewarder.annual_rewards_rate as int;
    let t = rewarder.total_rewards_shares as int;
    let q = sum_quarry_rates(rate, shares, t);
    let n = shares.len() as int;
    lemma_rates_remainder(rate, shares, t);
    assert(rate * t - t * q == t * (rate - q)) by (nonlinear_arith);
    assert(rate - q >= 0) by (nonlinear_arith)
        requires t > 0, t * (rate - q) >= 0;
    assert(n * (t - 1) < n * t || n == 0) by (nonlinear_arith) requires n >= 0, t > 0;
    assert(n > 0);
    assert(rate - q < n) by (nonlinear_arith)
        requires t > 0, t * (rate - q) <= n * (t - 1), n > 0;
}

} // verus!
