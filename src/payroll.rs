//! The payroll: how many reward tokens each staked token has earned.
use vstd::prelude::*;
use crate::error::ErrorCode;
use crate::state::{Miner, Quarry};
use crate::wide::{
    limbs_from_u128, limbs_from_u64, limbs_to_u128, limbs_value, wide_add, wide_div, wide_mul,
};

verus! {

/// Seconds in a year.
pub const SECONDS_PER_YEAR: u128 = 86_400 * 365;

/// Scale of `rewards_per_token_stored`: 2^64.
pub const PRECISION_MULTIPLIER: u128 = 0x1_0000_0000_0000_0000;

/// The smaller of two timestamps.
pub open spec fn min_ts(a: int, b: int) -> int {
    if a <= b { a } else { b }
}

/// Rewards per staked token, scaled by the precision, that `time_worked`
/// seconds add at `annual_rate` over a stake of `total`.
pub open spec fn reward_increment(time_worked: int, annual_rate: int, total: int) -> int {
    time_worked * (PRECISION_MULTIPLIER as int) * annual_rate / (SECONDS_PER_YEAR as int) / total
}

/// Rewards that `tokens` earn while the accumulator rises by `net`.
pub open spec fn rewards_for(tokens: int, net: int) -> int {
    tokens * net / (PRECISION_MULTIPLIER as int)
}

/// Calculator of the rewards of one pool between two checkpoints.
#[derive(Clone, Copy, Debug)]
pub struct Payroll {
    /// Time after which rewards stop.
    pub famine_ts: i64,
    /// Time of the last checkpoint.
    pub last_checkpoint_ts: i64,
    /// Rewards the pool distributes per year.
    pub annual_rewards_rate: u64,
    /// Rewards per staked token up to the last checkpoint, scaled by the
    /// precision.
    pub rewards_per_token_stored: u128,
    /// Tokens staked in the pool.
    pub total_tokens_deposited: u64,
}

impl Payroll {
    /// The last instant at which rewards still accrue, up to `now`.
    pub open spec fn spec_last_time_reward_applicable(&self, now: i64) -> int {
        min_ts(now as int, self.famine_ts as int)
    }

    /// Seconds of accrual since the last checkpoint, never negative; `None`
    /// where the difference does not fit in 64 bits.
    pub open spec fn spec_time_worked(&self, now: i64) -> Option<int> {
        let d = self.spec_last_time_reward_applicable(now) - self.last_checkpoint_ts;
        if i64::MIN <= d && d <= i64::MAX {
            Some(if d < 0 { 0 } else { d })
        } else {
            None
        }
    }

    /// The accumulator brought forward to `now`; `None` on overflow.
    pub open spec fn spec_reward_per_token(&self, now: i64) -> Option<int> {
        if self.total_tokens_deposited == 0 {
            Some(self.rewards_per_token_stored as int)
        } else {
            match self.spec_time_worked(now) {
                None => None,
                Some(tw) => {
                    let v = self.rewards_per_token_stored + reward_increment(
                        tw,
                        self.annual_rewards_rate as int,
                        self.total_tokens_deposited as int,
                    );
                    if v <= u128::MAX { Some(v) } else { None }
                },
            }
        }
    }

    /// A depositor's rewards brought forward to `now`; `None` on overflow or
    /// where the checkpoint lies ahead of the accumulator.
    pub open spec fn spec_rewards_earned(
        &self,
        now: i64,
        tokens_deposited: u64,
        rewards_per_token_paid: u128,
        rewards_earned: u64,
    ) -> Option<int> {
        match self.spec_reward_per_token(now) {
            None => None,
            Some(rpt) => {
                if rpt < rewards_per_token_paid {
                    None
                } else {
                    let v = rewards_for(tokens_deposited as int, rpt - rewards_per_token_paid)
                        + rewards_earned;
                    if v <= u128::MAX { Some(v) } else { None }
                }
            },
        }
    }

    /// An upper bound of what the pool owes since `rewards_per_token_paid`,
    /// computed along another path: the pool's rewards over the time worked,
    /// plus the rewards stored beyond the checkpoint.
    pub open spec fn spec_claimable_upper_bound(&self, now: i64, rewards_per_token_paid: u128) -> Option<int> {
        match self.spec_time_worked(now) {
            None => None,
            Some(tw) => {
                if self.rewards_per_token_stored < rewards_per_token_paid {
                    None
                } else {
                    Some(tw * self.annual_rewards_rate / (SECONDS_PER_YEAR as int)
                        + rewards_for(
                        self.total_tokens_deposited as int,
                        self.rewards_per_token_stored - rewards_per_token_paid,
                    ))
                }
            },
        }
    }

    /// Creates a payroll.
    pub fn new(
        famine_ts: i64,
        last_checkpoint_ts: i64,
        annual_rewards_rate: u64,
        rewards_per_token_stored: u128,
        total_tokens_deposited: u64,
    ) -> (r: Payroll)
        ensures
            r == (Payroll {
                famine_ts,
                last_checkpoint_ts,
                annual_rewards_rate,
                rewards_per_token_stored,
                total_tokens_deposited,
            }),
    {
        Payroll {
            famine_ts,
            last_checkpoint_ts,
            annual_rewards_rate,
            rewards_per_token_stored,
            total_tokens_deposited,
        }
    }

    /// The last instant at which rewards still accrue, up to `now`.
    pub fn last_time_reward_applicable(&self, now: i64) -> (r: i64)
        ensures
            r == self.spec_last_time_reward_applicable(now),
    {
        if now <= self.famine_ts {
            now
        } else {
            self.famine_ts
        }
    }

    /// Seconds of accrual since the last checkpoint.
    pub fn compute_time_worked(&self, now: i64) -> (r: Option<i64>)
        ensures
            match r {
                Some(t) => self.spec_time_worked(now) == Some(t as int),
                None => self.spec_time_worked(now) is None,
            },
    {
        let d = self.last_time_reward_applicable(now).checked_sub(self.last_checkpoint_ts);
        match d {
            None => None,
            Some(d) => Some(if d < 0 { 0 } else { d }),
        }
    }

    fn try_reward_per_token(&self, now: i64) -> (r: Option<u128>)
        ensures
            match r {
                Some(v) => self.spec_reward_per_token(now) == Some(v as int),
                None => self.spec_reward_per_token(now) is None,
            },
    {
        if self.total_tokens_deposited == 0 {
            return Some(self.rewards_per_token_stored);
        }
        let tw = match self.compute_time_worked(now) {
            Some(t) => t,
            None => return None,
        };
        let tw_u: u64 = tw as u64;
        let rate = self.annual_rewards_rate;
        proof {
            let a = tw_u as int;
            let b = rate as int;
            assert(0 <= a < 0x8000_0000_0000_0000int);
            assert(0 <= b < 0x1_0000_0000_0000_0000int);
            assert(a * 0x1_0000_0000_0000_0000int < 0x8000_0000_0000_0000_0000_0000_0000_0000int)
                by (nonlinear_arith)
                requires 0 <= a < 0x8000_0000_0000_0000int;
            assert(a * 0x1_0000_0000_0000_0000int * b
                < 0x1_0000_0000_0000_0000_0000_0000_0000_0000_0000_0000_0000_0000int)
                by (nonlinear_arith)
                requires
                    0 <= a * 0x1_0000_0000_0000_0000int < 0x8000_0000_0000_0000_0000_0000_0000_0000int,
                    0 <= b < 0x1_0000_0000_0000_0000int;
        }
        let x = wide_mul(limbs_from_u64(tw_u), limbs_from_u128(PRECISION_MULTIPLIER));
        let x = wide_mul(x, limbs_from_u64(rate));
        let x = wide_div(x, limbs_from_u128(SECONDS_PER_YEAR));
        let x = wide_div(x, limbs_from_u64(self.total_tokens_deposited));
        let inc = match limbs_to_u128(x) {
            Some(v) => v,
            None => return None,
        };
        self.rewards_per_token_stored.checked_add(inc)
    }

    /// The accumulator brought forward to `now`.
    pub fn calculate_reward_per_token(&self, now: i64) -> (r: Result<u128, ErrorCode>)
        ensures
            now < self.last_checkpoint_ts ==> r == Err::<u128, _>(ErrorCode::InvalidTimestamp),
            now >= self.last_checkpoint_ts ==> match self.spec_reward_per_token(now) {
                Some(v) => r == Ok::<u128, ErrorCode>(v as u128),
                None => r == Err::<u128, _>(ErrorCode::IntegerOverflow),
            },
    {
        if now < self.last_checkpoint_ts {
            return Err(ErrorCode::InvalidTimestamp);
        }
        match self.try_reward_per_token(now) {
            Some(v) => Ok(v),
            None => Err(ErrorCode::IntegerOverflow),
        }
    }

    fn try_rewards_earned(
        &self,
        now: i64,
        tokens_deposited: u64,
        rewards_per_token_paid: u128,
        rewards_earned: u64,
    ) -> (r: Option<u128>)
        ensures
            match r {
                Some(v) => self.spec_rewards_earned(now, tokens_deposited, rewards_per_token_paid, rewards_earned) == Some(v as int),
                None => self.spec_rewards_earned(now, tokens_deposited, rewards_per_token_paid, rewards_earned) is None,
            },
    {
        let rpt = match self.try_reward_per_token(now) {
            Some(v) => v,
            None => return None,
        };
        let net = match rpt.checked_sub(rewards_per_token_paid) {
            Some(v) => v,
            None => return None,
        };
        proof {
            let a = tokens_deposited as int;
            let b = net as int;
            assert(a * b < 0x1_0000_0000_0000_0000_0000_0000_0000_0000_0000_0000_0000_0000int)
                by (nonlinear_arith)
                requires
                    0 <= a < 0x1_0000_0000_0000_0000int,
                    0 <= b < 0x1_0000_0000_0000_0000_0000_0000_0000_0000int;
        }
        let x = wide_mul(limbs_from_u64(tokens_deposited), limbs_from_u128(net));
        let x = wide_div(x, limbs_from_u128(PRECISION_MULTIPLIER));
        proof {
            let a = tokens_deposited as int;
            let b = net as int;
            assert(a * b / 0x1_0000_0000_0000_0000int <= a * b) by (nonlinear_arith)
                requires 0 <= a, 0 <= b;
        }
        let x = wide_add(x, limbs_from_u64(rewards_earned));
        limbs_to_u128(x)
    }

    /// A depositor's rewards brought forward to `now`: what it had earned
    /// plus what its tokens earned since its checkpoint.
    pub fn calculate_rewards_earned(
        &self,
        now: i64,
        tokens_deposited: u64,
        rewards_per_token_paid: u128,
        rewards_earned: u64,
    ) -> (r: Result<u128, ErrorCode>)
        ensures
            tokens_deposited > self.total_tokens_deposited ==> r == Err::<u128, _>(ErrorCode::NotEnoughTokens),
            tokens_deposited <= self.total_tokens_deposited && now < self.last_checkpoint_ts
                ==> r == Err::<u128, _>(ErrorCode::InvalidTimestamp),
            tokens_deposited <= self.total_tokens_deposited && now >= self.last_checkpoint_ts
                ==> match self.spec_rewards_earned(now, tokens_deposited, rewards_per_token_paid, rewards_earned) {
                Some(v) => r == Ok::<u128, ErrorCode>(v as u128),
                None => r == Err::<u128, _>(ErrorCode::IntegerOverflow),
            },
    {
        if tokens_deposited > self.total_tokens_deposited {
            return Err(ErrorCode::NotEnoughTokens);
        }
        if now < self.last_checkpoint_ts {
            return Err(ErrorCode::InvalidTimestamp);
        }
        match self.try_rewards_earned(now, tokens_deposited, rewards_per_token_paid, rewards_earned) {
            Some(v) => Ok(v),
            None => Err(ErrorCode::IntegerOverflow),
        }
    }

    fn claimable_upper_bound_limbs(&self, now: i64, rewards_per_token_paid: u128) -> (r: Option<[u64; 3]>)
        ensures
            match r {
                Some(u) => self.spec_claimable_upper_bound(now, rewards_per_token_paid) == Some(limbs_value(u) as int),
                None => self.spec_claimable_upper_bound(now, rewards_per_token_paid) is None,
            },
    {
        let tw = match self.compute_time_worked(now) {
            Some(t) => t,
            None => return None,
        };
        let tw_u: u64 = tw as u64;
        let rate = self.annual_rewards_rate;
        proof {
            let a = tw_u as int;
            let b = rate as int;
            assert(a * b < 0x8000_0000_0000_0000_0000_0000_0000_0000int) by (nonlinear_arith)
                requires 0 <= a < 0x8000_0000_0000_0000int, 0 <= b < 0x1_0000_0000_0000_0000int;
            assert(a * b / 31_536_000 <= a * b) by (nonlinear_arith) requires 0 <= a * b;
        }
        let accrued = wide_mul(limbs_from_u64(tw_u), limbs_from_u64(rate));
        let accrued = wide_div(accrued, limbs_from_u128(SECONDS_PER_YEAR));
        let net = match self.rewards_per_token_stored.checked_sub(rewards_per_token_paid) {
            Some(v) => v,
            None => return None,
        };
        proof {
            let a = net as int;
            let b = self.total_tokens_deposited as int;
            assert(a * b < 0x1_0000_0000_0000_0000_0000_0000_0000_0000_0000_0000_0000_0000int)
                by (nonlinear_arith)
                requires
                    0 <= a < 0x1_0000_0000_0000_0000_0000_0000_0000_0000int,
                    0 <= b < 0x1_0000_0000_0000_0000int;
            assert(a * b / 0x1_0000_0000_0000_0000int < 0x1_0000_0000_0000_0000_0000_0000_0000_0000int)
                by (nonlinear_arith)
                requires
                    0 <= a < 0x1_0000_0000_0000_0000_0000_0000_0000_0000int,
                    0 <= b < 0x1_0000_0000_0000_0000int;
            assert(b * a == a * b) by (nonlinear_arith);
        }
        let owed = wide_mul(limbs_from_u128(net), limbs_from_u64(self.total_tokens_deposited));
        let owed = wide_div(owed, limbs_from_u128(PRECISION_MULTIPLIER));
        Some(wide_add(accrued, owed))
    }

    /// The upper bound of what the pool owes since `rewards_per_token_paid`,
    /// where it fits in 128 bits.
    pub fn calculate_claimable_upper_bound(&self, now: i64, rewards_per_token_paid: u128) -> (r: Option<u128>)
        ensures
            match r {
                Some(u) => self.spec_claimable_upper_bound(now, rewards_per_token_paid) == Some(u as int),
                None => match self.spec_claimable_upper_bound(now, rewards_per_token_paid) {
                    None => true,
                    Some(u) => u > u128::MAX,
                },
            },
    {
        match self.claimable_upper_bound_limbs(now, rewards_per_token_paid) {
            Some(u) => limbs_to_u128(u),
            None => None,
        }
    }

    /// Whether a claim of `amount_claimable` is consistent with the upper
    /// bound: what was earned since the record's checkpoint may exceed the
    /// bound by at most one unit of rounding.
    pub open spec fn spec_sanity_check(&self, now: i64, amount_claimable: u64, miner: Miner) -> Result<(), ErrorCode> {
        match self.spec_claimable_upper_bound(now, miner.rewards_per_token_paid) {
            None => Err(ErrorCode::IntegerOverflow),
            Some(u) => {
                if amount_claimable < miner.rewards_earned {
                    Err(ErrorCode::IntegerOverflow)
                } else if amount_claimable - miner.rewards_earned <= u + 1 {
                    Ok(())
                } else {
                    Err(ErrorCode::UpperboundExceeded)
                }
            },
        }
    }

    /// Checks a claim of `amount_claimable` by `miner` against the upper bound.
    pub fn sanity_check(&self, now: i64, amount_claimable: u64, miner: &Miner) -> (r: Result<(), ErrorCode>)
        ensures
            r == self.spec_sanity_check(now, amount_claimable, *miner),
    {
        let upper = match self.claimable_upper_bound_limbs(now, miner.rewards_per_token_paid) {
            Some(u) => u,
            None => return Err(ErrorCode::IntegerOverflow),
        };
        let less_earned = match amount_claimable.checked_sub(miner.rewards_earned) {
            Some(v) => v,
            None => return Err(ErrorCode::IntegerOverflow),
        };
        match limbs_to_u128(upper) {
            None => Ok(()),
            Some(u) => {
                if u < less_earned as u128 && u + 1 < less_earned as u128 {
                    Err(ErrorCode::UpperboundExceeded)
                } else {
                    Ok(())
                }
            },
        }
    }
}

/// For a fixed stake, the accumulator never decreases as time goes on:
/// brought forward to a later instant it is at least what it is at an
/// earlier one.
pub proof fn lemma_reward_per_token_monotonic(p: Payroll, t1: i64, t2: i64)
    requires
        t1 <= t2,
        p.spec_reward_per_token(t1) is Some,
        p.spec_reward_per_token(t2) is Some,
    ensures
        p.spec_reward_per_token(t1)->0 <= p.spec_reward_per_token(t2)->0,
{
    if p.total_tokens_deposited != 0 {
        let tw1 = p.spec_time_worked(t1)->0;
        let tw2 = p.spec_time_worked(t2)->0;
        assert(tw1 <= tw2);
        let rate = p.annual_rewards_rate as int;
        let total = p.total_tokens_deposited as int;
        let m = PRECISION_MULTIPLIER as int;
        let y = SECONDS_PER_YEAR as int;
        assert(tw1 * m * rate <= tw2 * m * rate) by (nonlinear_arith)
            requires 0 <= tw1 <= tw2, 0 <= m, 0 <= rate;
        vstd::arithmetic::div_mod::lemma_div_is_ordered(tw1 * m * rate, tw2 * m * rate, y);
        vstd::arithmetic::div_mod::lemma_div_is_ordered(
            tw1 * m * rate / y,
            tw2 * m * rate / y,
            total,
        );
    }
}

/// With nothing staked, the accumulator stays where it is, whatever the
/// instant.
pub proof fn lemma_zero_stake_neutral(p: Payroll, now: i64)
    requires
        p.total_tokens_deposited == 0,
    ensures
        p.spec_reward_per_token(now) == Some(p.rewards_per_token_stored as int),
{
}

/// A depositor that holds the whole stake of a pool and was settled at the
/// pool's checkpoint gains, at the next settlement, the pool's rewards over
/// the time worked, rounded down, less at most one unit of rounding.
pub proof fn lemma_lone_depositor_accrual(p: Payroll, now: i64, rewards_earned: u64)
    requires
        p.total_tokens_deposited > 0,
        p.spec_rewards_earned(now, p.total_tokens_deposited, p.rewards_per_token_stored, rewards_earned) is Some,
    ensures
        p.spec_time_worked(now) is Some,
        ({
            let exact = p.spec_time_worked(now)->0 * p.annual_rewards_rate / (SECONDS_PER_YEAR as int);
            let gained = p.spec_rewards_earned(now, p.total_tokens_deposited, p.rewards_per_token_stored, rewards_earned)->0
                - rewards_earned;
            exact - 1 <= gained && gained <= exact
        }),
        ({
            let x = p.spec_time_worked(now)->0 * p.annual_rewards_rate;
            let gained = p.spec_rewards_earned(now, p.total_tokens_deposited, p.rewards_per_token_stored, rewards_earned)->0
                - rewards_earned;
            let y = SECONDS_PER_YEAR as int;
            let m = PRECISION_MULTIPLIER as int;
            &&& y * gained <= x
            &&& y * m * gained >= x * m - y * (p.total_tokens_deposited + m + 1)
        }),
{
    let tw = p.spec_time_worked(now)->0;
    let rate = p.annual_rewards_rate as int;
    let total = p.total_tokens_deposited as int;
    let m = PRECISION_MULTIPLIER as int;
    let y = SECONDS_PER_YEAR as int;
    let x = tw * rate;
    let big = tw * m * rate;
    assert(big == x * m) by (nonlinear_arith)
        requires big == tw * m * rate, x == tw * rate;
    let a1 = big / y;
    let inc = a1 / total;
    assert(inc == reward_increment(tw, rate, total));
    let g = total * inc / m;
    assert(p.spec_rewards_earned(now, p.total_tokens_deposited, p.rewards_per_token_stored, rewards_earned)->0
        == g + rewards_earned);
    let e = x / y;
    assert(tw >= 0 && rate >= 0);
    assert(x >= 0) by (nonlinear_arith) requires tw >= 0, rate >= 0, x == tw * rate;
    assert(big >= 0) by (nonlinear_arith) requires x >= 0, m >= 0, big == x * m;
    vstd::arithmetic::div_mod::lemma_fundamental_div_mod(big, y);
    vstd::arithmetic::div_mod::lemma_mod_bound(big, y);
    vstd::arithmetic::div_mod::lemma_div_pos_is_pos(big, y);
    vstd::arithmetic::div_mod::lemma_fundamental_div_mod(a1, total);
    vstd::arithmetic::div_mod::lemma_mod_bound(a1, total);
    vstd::arithmetic::div_mod::lemma_div_pos_is_pos(a1, total);
    assert(total * inc >= 0) by (nonlinear_arith) requires total > 0, inc >= 0;
    vstd::arithmetic::div_mod::lemma_fundamental_div_mod(total * inc, m);
    vstd::arithmetic::div_mod::lemma_mod_bound(total * inc, m);
    vstd::arithmetic::div_mod::lemma_fundamental_div_mod(x, y);
    vstd::arithmetic::div_mod::lemma_mod_bound(x, y);
    // upper: y * m * g <= y * total * inc <= y * a1 <= big == x * m
    assert(m * g <= a1) by (nonlinear_arith)
        requires m * g <= total * inc, total * inc <= a1;
    assert(y * (m * g) <= y * a1) by (nonlinear_arith) requires m * g <= a1, y > 0;
    assert(m * (y * g) <= m * x) by (nonlinear_arith)
        requires y * (m * g) <= y * a1, y * a1 <= big, big == x * m;
    assert(y * g <= x) by (nonlinear_arith) requires m * (y * g) <= m * x, m > 0;
    assert(g <= e) by (nonlinear_arith)
        requires y * g <= x, x == y * e + x % y, 0 <= x % y < y, y > 0;
    // lower
    assert(m * g > a1 - total - m) by (nonlinear_arith)
        requires
            total * inc == m * g + (total * inc) % m,
            (total * inc) % m < m,
            a1 == total * inc + a1 % total,
            a1 % total < total;
    assert(y * (m * g) > y * a1 - y * (total + m)) by (nonlinear_arith)
        requires m * g > a1 - total - m, y > 0;
    assert(y * a1 > big - y) by (nonlinear_arith)
        requires big == y * a1 + big % y, big % y < y;
    assert(big >= y * e * m) by (nonlinear_arith)
        requires big == x * m, x == y * e + x % y, 0 <= x % y, m > 0;
    assert(y * (m * g) > y * (e * m) - y * (total + m + 1)) by (nonlinear_arith)
        requires
            y * (m * g) > y * a1 - y * (total + m),
            y * a1 > big - y,
            big >= y * e * m;
    assert(m * g > e * m - (total + m + 1)) by (nonlinear_arith)
        requires y * (m * g) > y * (e * m) - y * (total + m + 1), y > 0;
    assert(total + 1 <= m);
    assert(m * g > (e - 2) * m) by (nonlinear_arith)
        requires m * g > e * m - (total + m + 1), total + 1 <= m;
    assert(g > e - 2) by (nonlinear_arith) requires m * g > (e - 2) * m, m > 0;
    assert(y * m * g >= x * m - y * (total + m + 1)) by (nonlinear_arith)
        requires
            y * (m * g) > y * a1 - y * (total + m),
            y * a1 > big - y,
            big == x * m;
}

/// The payroll after bringing its accumulator forward at each instant of
/// `times` in turn, each instant becoming the next checkpoint; `None` where
/// a step overflows.
pub open spec fn spec_accumulate(p: Payroll, times: Seq<i64>) -> Option<Payroll>
    decreases times.len(),
{
    if times.len() == 0 {
        Some(p)
    } else {
        match spec_accumulate(p, times.drop_last()) {
            None => None,
            Some(p1) => match p1.spec_reward_per_token(times.last()) {
                None => None,
                Some(v) => Some(Payroll { last_checkpoint_ts: times.last(), rewards_per_token_stored: v as u128, ..p1 }),
            },
        }
    }
}

pub(crate) proof fn lemma_floor_sum_bounds(a: int, b: int, s: int)
    requires
        a >= 0,
        b >= 0,
        s > 0,
    ensures
        a / s + b / s <= (a + b) / s,
        (a + b) / s <= a / s + b / s + 1,
{
    vstd::arithmetic::div_mod::lemma_fundamental_div_mod(a, s);
    vstd::arithmetic::div_mod::lemma_fundamental_div_mod(b, s);
    vstd::arithmetic::div_mod::lemma_fundamental_div_mod(a + b, s);
    vstd::arithmetic::div_mod::lemma_mod_bound(a, s);
    vstd::arithmetic::div_mod::lemma_mod_bound(b, s);
    vstd::arithmetic::div_mod::lemma_mod_bound(a + b, s);
    let qa = a / s;
    let qb = b / s;
    let qc = (a + b) / s;
    assert(s * qc > s * (qa + qb) - s && s * qc < s * (qa + qb) + 2 * s) by (nonlinear_arith)
        requires
            a == s * qa + a % s,
            b == s * qb + b % s,
            a + b == s * qc + (a + b) % s,
            0 <= a % s < s,
            0 <= b % s < s,
            0 <= (a + b) % s < s;
    assert(qc > qa + qb - 1) by (nonlinear_arith) requires s * qc > s * (qa + qb) - s, s > 0;
    assert(qc < qa + qb + 2) by (nonlinear_arith) requires s * qc < s * (qa + qb) + 2 * s, s > 0;
}

proof fn lemma_accumulate_bounds(p: Payroll, times: Seq<i64>)
    requires
        p.total_tokens_deposited > 0,
        forall|i: int| 0 <= i < times.len() ==> p.last_checkpoint_ts <= #[trigger] times[i] <= p.famine_ts,
        forall|i: int, j: int| 0 <= i <= j < times.len() ==> times[i] <= times[j],
        spec_accumulate(p, times) is Some,
    ensures
        ({
            let pn = spec_accumulate(p, times)->0;
            let end = if times.len() == 0 { p.last_checkpoint_ts as int } else { times.last() as int };
            let a = (end - p.last_checkpoint_ts) * p.annual_rewards_rate * (PRECISION_MULTIPLIER as int);
            let s = (SECONDS_PER_YEAR as int) * p.total_tokens_deposited;
            &&& pn.last_checkpoint_ts == end
            &&& pn.famine_ts == p.famine_ts
            &&& pn.annual_rewards_rate == p.annual_rewards_rate
            &&& pn.total_tokens_deposited == p.total_tokens_deposited
            &&& a / s - times.len() <= pn.rewards_per_token_stored - p.rewards_per_token_stored
            &&& pn.rewards_per_token_stored - p.rewards_per_token_stored <= a / s
        }),
    decreases times.len(),
{
    let rate = p.annual_rewards_rate as int;
    let m = PRECISION_MULTIPLIER as int;
    let y = SECONDS_PER_YEAR as int;
    let d = p.total_tokens_deposited as int;
    let s = y * d;
    assert(s > 0) by (nonlinear_arith) requires y > 0, d > 0, s == y * d;
    if times.len() == 0 {
        assert(0 * rate * m == 0) by (nonlinear_arith);
        vstd::arithmetic::div_mod::lemma_div_basics(s);
    } else {
        let prefix = times.drop_last();
        assert forall|i: int| 0 <= i < prefix.len() implies p.last_checkpoint_ts <= #[trigger] prefix[i] <= p.famine_ts by {
            assert(prefix[i] == times[i]);
        }
        assert forall|i: int, j: int| 0 <= i <= j < prefix.len() implies prefix[i] <= prefix[j] by {
            assert(prefix[i] == times[i] && prefix[j] == times[j]);
        }
        lemma_accumulate_bounds(p, prefix);
        let p1 = spec_accumulate(p, prefix)->0;
        let t = times.last() as int;
        assert(t == times[times.len() - 1]);
        let start = if prefix.len() == 0 { p.last_checkpoint_ts as int } else { prefix.last() as int };
        if prefix.len() > 0 {
            assert(prefix.last() == times[prefix.len() - 1]);
        }
        assert(start <= t);
        let tw = t - start;
        assert(p1.spec_time_worked(times.last()) == Some(tw));
        // the step adds tw * m * rate / y / d, which is tw * rate * m / s
        let b = tw * rate * m;
        assert(tw * m * rate == b) by (nonlinear_arith) requires b == tw * rate * m;
        assert(b >= 0) by (nonlinear_arith) requires tw >= 0, rate >= 0, m > 0, b == tw * rate * m;
        vstd::arithmetic::div_mod::lemma_div_denominator(b, y, d);
        assert(reward_increment(tw, rate, d) == b / s);
        let a1 = (start - p.last_checkpoint_ts) * rate * m;
        let a = (t - p.last_checkpoint_ts) * rate * m;
        assert(a1 >= 0) by (nonlinear_arith)
            requires start - p.last_checkpoint_ts >= 0, rate >= 0, m > 0, a1 == (start - p.last_checkpoint_ts) * rate * m;
        assert(a == a1 + b) by (nonlinear_arith)
            requires
                a == (t - p.last_checkpoint_ts) * rate * m,
                a1 == (start - p.last_checkpoint_ts) * rate * m,
                b == (t - start) * rate * m;
        lemma_floor_sum_bounds(a1, b, s);
    }
}

/// A depositor holding `tokens` of a pool whose accumulator, starting at
/// zero, is brought forward at each instant of `times` before the pool's
/// expiry, earns by the last instant the exact rewards over the whole span,
/// rounded down, or one unit less, as long as the holding times the number
/// of checkpoints plus one stays within the precision.
pub proof fn lemma_chained_rewards_precision(p: Payroll, times: Seq<i64>, tokens: u64)
    requires
        p.total_tokens_deposited > 0,
        p.rewards_per_token_stored == 0,
        tokens <= p.total_tokens_deposited,
        tokens * (times.len() + 1) <= PRECISION_MULTIPLIER,
        times.len() > 0,
        forall|i: int| 0 <= i < times.len() ==> p.last_checkpoint_ts <= #[trigger] times[i] <= p.famine_ts,
        forall|i: int, j: int| 0 <= i <= j < times.len() ==> times[i] <= times[j],
        spec_accumulate(p, times) is Some,
    ensures
        ({
            let pn = spec_accumulate(p, times)->0;
            let exact = (times.last() - p.last_checkpoint_ts) * p.annual_rewards_rate * tokens
                / ((SECONDS_PER_YEAR as int) * p.total_tokens_deposited);
            &&& pn.spec_rewards_earned(times.last(), tokens, 0, 0) is Some
            &&& exact - 1 <= pn.spec_rewards_earned(times.last(), tokens, 0, 0)->0
            &&& pn.spec_rewards_earned(times.last(), tokens, 0, 0)->0 <= exact
        }),
{
    lemma_accumulate_bounds(p, times);
    let pn = spec_accumulate(p, times)->0;
    let t = times.last();
    assert(t == times[times.len() - 1]);
    let rate = p.annual_rewards_rate as int;
    let m = PRECISION_MULTIPLIER as int;
    let y = SECONDS_PER_YEAR as int;
    let d = p.total_tokens_deposited as int;
    let s = y * d;
    assert(s > 0) by (nonlinear_arith) requires y > 0, d > 0, s == y * d;
    let n = times.len() as int;
    let my = tokens as int;
    let span = t - p.last_checkpoint_ts;
    assert(span >= 0);
    let x = span * rate;
    let a = span * rate * m;
    let r = pn.rewards_per_token_stored as int;
    // the accumulator does not move again at the last instant
    assert(pn.spec_time_worked(t) == Some(0int));
    assert(0 * m * rate == 0) by (nonlinear_arith);
    vstd::arithmetic::div_mod::lemma_div_basics(d);
    assert(reward_increment(0, rate, d) == 0);
    assert(pn.spec_reward_per_token(t) == Some(r));
    // bounds on the accumulator
    vstd::arithmetic::div_mod::lemma_fundamental_div_mod(a, s);
    vstd::arithmetic::div_mod::lemma_mod_bound(a, s);
    assert(x >= 0) by (nonlinear_arith) requires span >= 0, rate >= 0, x == span * rate;
    assert(a == x * m) by (nonlinear_arith) requires a == span * rate * m, x == span * rate;
    assert(r * s <= a) by (nonlinear_arith)
        requires r <= a / s, a == s * (a / s) + a % s, a % s >= 0, s > 0;
    assert(r * s > a - (n + 1) * s) by (nonlinear_arith)
        requires r >= a / s - n, a == s * (a / s) + a % s, a % s < s, s > 0;
    // the earned rewards
    assert(my * r >= 0) by (nonlinear_arith) requires my >= 0, r >= 0;
    let g = my * r / m;
    vstd::arithmetic::div_mod::lemma_fundamental_div_mod(my * r, m);
    vstd::arithmetic::div_mod::lemma_mod_bound(my * r, m);
    assert(g <= my * r) by (nonlinear_arith) requires my * r == m * g + (my * r) % m, (my * r) % m >= 0, m > 0, my * r >= 0;
    assert(my * r <= u64::MAX as int * 0x1_0000_0000_0000_0000_0000_0000_0000_0000int) by (nonlinear_arith)
        requires 0 <= my <= u64::MAX as int, 0 <= r < 0x1_0000_0000_0000_0000_0000_0000_0000_0000int;
    assert(g < 0x1_0000_0000_0000_0000_0000_0000_0000_0000int) by (nonlinear_arith)
        requires g * m <= my * r, my * r <= u64::MAX as int * 0x1_0000_0000_0000_0000_0000_0000_0000_0000int,
            m == 0x1_0000_0000_0000_0000int;
    assert(rewards_for(my, r) == g);
    let e = x * my / s;
    assert(x * my >= 0) by (nonlinear_arith) requires x >= 0, my >= 0;
    vstd::arithmetic::div_mod::lemma_fundamental_div_mod(x * my, s);
    vstd::arithmetic::div_mod::lemma_mod_bound(x * my, s);
    assert(span * rate * my == x * my) by (nonlinear_arith) requires x == span * rate;
    // upper: m * s * g <= s * my * r <= my * a = m * x * my, so s * g <= x * my
    assert(m * (s * g) <= m * (x * my)) by (nonlinear_arith)
        requires m * g <= my * r, r * s <= a, a == x * m, s > 0, my >= 0, m > 0;
    assert(s * g <= x * my) by (nonlinear_arith) requires m * (s * g) <= m * (x * my), m > 0;
    assert(g <= e) by (nonlinear_arith)
        requires s * g <= x * my, x * my == s * e + (x * my) % s, 0 <= (x * my) % s < s, s > 0;
    // lower: m * s * (g + 1) > s * my * r > my * a - my * (n + 1) * s >= m * x * my - m * s
    assert(m * (g + 1) > my * r) by (nonlinear_arith)
        requires my * r == m * g + (my * r) % m, (my * r) % m < m;
    assert(m * s * (g + 1) > m * x * my - m * s) by (nonlinear_arith)
        requires
            m * (g + 1) > my * r,
            r * s > a - (n + 1) * s,
            a == x * m,
            my * (n + 1) <= m,
            my >= 0,
            s > 0;
    assert(s * (g + 1) > x * my - s) by (nonlinear_arith) requires m * s * (g + 1) > m * x * my - m * s, m > 0;
    assert(g >= e - 1) by (nonlinear_arith)
        requires s * (g + 1) > x * my - s, x * my == s * e + (x * my) % s, 0 <= (x * my) % s, s > 0;
}

impl From<Quarry> for Payroll {
    /// The payroll of a pool's current checkpoint.
    fn from(quarry: Quarry) -> (r: Payroll) {
        Payroll::new(
            quarry.famine_ts,
            quarry.last_update_ts,
            quarry.annual_rewards_rate,
            quarry.rewards_per_token_stored,
            quarry.total_tokens_deposited,
        )
    }
}

impl vstd::std_specs::convert::FromSpecImpl<Quarry> for Payroll {
    open spec fn obeys_from_spec() -> bool {
        true
    }

    open spec fn from_spec(quarry: Quarry) -> Payroll {
        Payroll {
            famine_ts: quarry.famine_ts,
            last_checkpoint_ts: quarry.last_update_ts,
            annual_rewards_rate: quarry.annual_rewards_rate,
            rewards_per_token_stored: quarry.rewards_per_token_stored,
            total_tokens_deposited: quarry.total_tokens_deposited,
        }
    }
}

} // verus!
