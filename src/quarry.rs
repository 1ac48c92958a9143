//! Bringing a pool and its depositors up to date, and staking.
use vstd::prelude::*;
use crate::error::ErrorCode;
use crate::payroll::{lemma_lone_depositor_accrual, Payroll};
use crate::rewarder::quarry_rate;
use crate::state::{Miner, Quarry, Rewarder};
use crate::wide::u128_to_u64;

verus! {

/// A change of a depositor's stake.
#[derive(Clone, Copy, Debug, PartialEq, Eq, Structural)]
pub enum StakeAction {
    /// Stake into the pool.
    Stake,
    /// Withdraw from the pool.
    Withdraw,
}

/// The payroll of a pool's current checkpoint.
pub open spec fn payroll_of(q: Quarry) -> Payroll {
    Payroll {
        famine_ts: q.famine_ts,
        last_checkpoint_ts: q.last_update_ts,
        annual_rewards_rate: q.annual_rewards_rate,
        rewards_per_token_stored: q.rewards_per_token_stored,
        total_tokens_deposited: q.total_tokens_deposited,
    }
}

impl Quarry {
    /// The pool after a sync at `now` with `payroll`: its accumulator
    /// brought forward, its rate taken anew from the allocator, and its
    /// checkpoint moved to the last instant of accrual.
    pub open spec fn spec_update_rewards(self, now: i64, rewarder: Rewarder, payroll: Payroll) -> Result<Quarry, ErrorCode> {
        if now < payroll.last_checkpoint_ts {
            Err(ErrorCode::InvalidTimestamp)
        } else {
            match payroll.spec_reward_per_token(now) {
                None => Err(ErrorCode::IntegerOverflow),
                Some(rpt) => {
                    if self.rewards_share > rewarder.total_rewards_shares {
                        Err(ErrorCode::InvalidRewardsShare)
                    } else {
                        Ok(Quarry {
                            rewards_per_token_stored: rpt as u128,
                            annual_rewards_rate: quarry_rate(
                                rewarder.annual_rewards_rate as int,
                                self.rewards_share as int,
                                rewarder.total_rewards_shares as int,
                            ) as u64,
                            last_update_ts: payroll.spec_last_time_reward_applicable(now) as i64,
                            ..self
                        })
                    }
                },
            }
        }
    }

    /// The pool and the depositor after both are brought up to `now`: the
    /// depositor's rewards are settled against the pool's accumulator and
    /// its checkpoint set to the pool's new accumulator.
    pub open spec fn spec_update_rewards_and_miner(self, miner: Miner, rewarder: Rewarder, now: i64) -> Result<(Quarry, Miner), ErrorCode> {
        let p = payroll_of(self);
        match self.spec_update_rewards(now, rewarder, p) {
            Err(e) => Err(e),
            Ok(q) => {
                if miner.balance > p.total_tokens_deposited {
                    Err(ErrorCode::NotEnoughTokens)
                } else {
                    match p.spec_rewards_earned(now, miner.balance, miner.rewards_per_token_paid, miner.rewards_earned) {
                        None => Err(ErrorCode::IntegerOverflow),
                        Some(earned) => {
                            if earned > u64::MAX {
                                Err(ErrorCode::IntegerOverflow)
                            } else {
                                match p.spec_sanity_check(now, earned as u64, miner) {
                                    Err(e) => Err(e),
                                    Ok(_) => Ok((q, Miner {
                                        rewards_earned: earned as u64,
                                        rewards_per_token_paid: q.rewards_per_token_stored,
                                        ..miner
                                    })),
                                }
                            }
                        },
                    }
                }
            },
        }
    }

    /// The pool and depositor after settling and then applying `action`
    /// with `amount` to both the depositor's balance and the pool's total.
    pub open spec fn spec_process_stake_action(self, action: StakeAction, now: i64, rewarder: Rewarder, miner: Miner, amount: u64) -> Result<(Quarry, Miner), ErrorCode> {
        match self.spec_update_rewards_and_miner(miner, rewarder, now) {
            Err(e) => Err(e),
            Ok((q, m)) => match action {
                StakeAction::Stake => {
                    if m.balance + amount > u64::MAX || q.total_tokens_deposited + amount > u64::MAX {
                        Err(ErrorCode::IntegerOverflow)
                    } else {
                        Ok((
                            Quarry { total_tokens_deposited: (q.total_tokens_deposited + amount) as u64, ..q },
                            Miner { balance: (m.balance + amount) as u64, ..m },
                        ))
                    }
                },
                StakeAction::Withdraw => {
                    if amount > m.balance || amount > q.total_tokens_deposited {
                        Err(ErrorCode::InsufficientBalance)
                    } else {
                        Ok((
                            Quarry { total_tokens_deposited: (q.total_tokens_deposited - amount) as u64, ..q },
                            Miner { balance: (m.balance - amount) as u64, ..m },
                        ))
                    }
                },
            },
        }
    }

    /// Syncs the pool with the allocator at `now`, with the payroll of its
    /// current checkpoint. On an error the pool is left as it was.
    pub fn update_rewards_internal(&mut self, now: i64, rewarder: &Rewarder, payroll: &Payroll) -> (r: Result<(), ErrorCode>)
        ensures
            match old(self).spec_update_rewards(now, *rewarder, *payroll) {
                Ok(q) => r is Ok && *final(self) == q,
                Err(e) => r == Err::<(), _>(e) && *final(self) == *old(self),
            },
    {
        let rpt = match payroll.calculate_reward_per_token(now) {
            Ok(v) => v,
            Err(e) => return Err(e),
        };
        let rate = match rewarder.compute_quarry_annual_rewards_rate(self.rewards_share) {
            Ok(v) => v,
            Err(e) => return Err(e),
        };
        self.rewards_per_token_stored = rpt;
        self.annual_rewards_rate = rate;
        self.last_update_ts = payroll.last_time_reward_applicable(now);
        Ok(())
    }

    /// Brings the pool and the depositor up to `now`. On an error both are
    /// left as they were.
    pub fn update_rewards_and_miner(&mut self, miner: &mut Miner, rewarder: &Rewarder, now: i64) -> (r: Result<(), ErrorCode>)
        ensures
            match old(self).spec_update_rewards_and_miner(*old(miner), *rewarder, now) {
                Ok((q, m)) => r is Ok && *final(self) == q && *final(miner) == m,
                Err(e) => r == Err::<(), _>(e) && *final(self) == *old(self) && *final(miner) == *old(miner),
            },
    {
        let payroll = Payroll::new(
            self.famine_ts,
            self.last_update_ts,
            self.annual_rewards_rate,
            self.rewards_per_token_stored,
            self.total_tokens_deposited,
        );
        let mut synced = *self;
        match synced.update_rewards_internal(now, rewarder, &payroll) {
            Ok(()) => {},
            Err(e) => return Err(e),
        }
        let earned = match payroll.calculate_rewards_earned(
            now,
            miner.balance,
            miner.rewards_per_token_paid,
            miner.rewards_earned,
        ) {
            Ok(v) => v,
            Err(e) => return Err(e),
        };
        let earned = match u128_to_u64(earned) {
            Some(v) => v,
            None => return Err(ErrorCode::IntegerOverflow),
        };
        match payroll.sanity_check(now, earned, miner) {
            Ok(()) => {},
            Err(e) => return Err(e),
        }
        *self = synced;
        miner.rewards_earned = earned;
        miner.rewards_per_token_paid = self.rewards_per_token_stored;
        Ok(())
    }

    /// Settles the pool and the depositor at `now`, then stakes or
    /// withdraws `amount`. On an error both are left as they were.
    pub fn process_stake_action_internal(
        &mut self,
        action: StakeAction,
        now: i64,
        lord: &Rewarder,
        miner: &mut Miner,
        amount: u64,
    ) -> (r: Result<(), ErrorCode>)
        ensures
            match old(self).spec_process_stake_action(action, now, *lord, *old(miner), amount) {
                Ok((q, m)) => r is Ok && *final(self) == q && *final(miner) == m,
                Err(e) => r == Err::<(), _>(e) && *final(self) == *old(self) && *final(miner) == *old(miner),
            },
    {
        let mut q = *self;
        let mut m = *miner;
        match q.update_rewards_and_miner(&mut m, lord, now) {
            Ok(()) => {},
            Err(e) => return Err(e),
        }
        match action {
            StakeAction::Stake => {
                let balance = match m.balance.checked_add(amount) {
                    Some(v) => v,
                    None => return Err(ErrorCode::IntegerOverflow),
                };
                let total = match q.total_tokens_deposited.checked_add(amount) {
                    Some(v) => v,
                    None => return Err(ErrorCode::IntegerOverflow),
                };
                m.balance = balance;
                q.total_tokens_deposited = total;
            },
            StakeAction::Withdraw => {
                if amount > m.balance || amount > q.total_tokens_deposited {
                    return Err(ErrorCode::InsufficientBalance);
                }
                m.balance = m.balance - amount;
                q.total_tokens_deposited = q.total_tokens_deposited - amount;
            },
        }
        *self = q;
        *miner = m;
        Ok(())
    }
}

/// A stake or withdrawal that succeeds leaves the record's balance within
/// the pool's total, and moves both by the same amount.
pub proof fn lemma_stake_action_keeps_balance_within_pool(
    quarry: Quarry,
    action: StakeAction,
    now: i64,
    rewarder: Rewarder,
    miner: Miner,
    amount: u64,
)
    requires
        quarry.spec_process_stake_action(action, now, rewarder, miner, amount) is Ok,
    ensures
        ({
            let (q, m) = quarry.spec_process_stake_action(action, now, rewarder, miner, amount)->Ok_0;
            &&& m.balance <= q.total_tokens_deposited
            &&& q.total_tokens_deposited - quarry.total_tokens_deposited == m.balance - miner.balance
        }),
{
}

/// A sync never lowers the pool's accumulator, and never moves its
/// checkpoint past the time at which rewards stop.
pub proof fn lemma_sync_monotonic(quarry: Quarry, now: i64, rewarder: Rewarder)
    requires
        quarry.spec_update_rewards(now, rewarder, payroll_of(quarry)) is Ok,
    ensures
        ({
            let q = quarry.spec_update_rewards(now, rewarder, payroll_of(quarry))->Ok_0;
            &&& q.rewards_per_token_stored >= quarry.rewards_per_token_stored
            &&& q.last_update_ts <= quarry.famine_ts
            &&& q.last_update_ts <= now
            &&& q.total_tokens_deposited == quarry.total_tokens_deposited
        }),
{
    let p = payroll_of(quarry);
    if p.total_tokens_deposited != 0 {
        let tw = p.spec_time_worked(now)->0;
        let rate = p.annual_rewards_rate as int;
        let m = crate::payroll::PRECISION_MULTIPLIER as int;
        assert(tw * m * rate >= 0) by (nonlinear_arith) requires tw >= 0, m >= 0, rate >= 0;
        vstd::arithmetic::div_mod::lemma_div_pos_is_pos(tw * m * rate, 31_536_000);
        vstd::arithmetic::div_mod::lemma_div_pos_is_pos(
            tw * m * rate / 31_536_000,
            p.total_tokens_deposited as int,
        );
    }
}

/// A settlement never lowers what a depositor has earned and not claimed.
pub proof fn lemma_settle_never_lowers_earned(quarry: Quarry, miner: Miner, rewarder: Rewarder, now: i64)
    requires
        quarry.spec_update_rewards_and_miner(miner, rewarder, now) is Ok,
    ensures
        quarry.spec_update_rewards_and_miner(miner, rewarder, now)->Ok_0.1.rewards_earned >= miner.rewards_earned,
        quarry.spec_update_rewards_and_miner(miner, rewarder, now)->Ok_0.1.balance == miner.balance,
{
    let p = payroll_of(quarry);
    let rpt = p.spec_reward_per_token(now)->0;
    let net = rpt - miner.rewards_per_token_paid;
    let b = miner.balance as int;
    assert(b * net >= 0) by (nonlinear_arith) requires b >= 0, net >= 0;
    vstd::arithmetic::div_mod::lemma_div_pos_is_pos(b * net, crate::payroll::PRECISION_MULTIPLIER as int);
}

/// Syncing a pool a second time at the same instant changes nothing.
pub proof fn lemma_sync_idempotent(quarry: Quarry, now: i64, rewarder: Rewarder)
    requires
        quarry.spec_update_rewards(now, rewarder, payroll_of(quarry)) is Ok,
    ensures
        ({
            let q = quarry.spec_update_rewards(now, rewarder, payroll_of(quarry))->Ok_0;
            q.spec_update_rewards(now, rewarder, payroll_of(q)) == Ok::<Quarry, ErrorCode>(q)
        }),
{
    let q = quarry.spec_update_rewards(now, rewarder, payroll_of(quarry))->Ok_0;
    let p = payroll_of(q);
    assert(p.spec_time_worked(now) == Some(0int));
    if p.total_tokens_deposited != 0 {
        let rate = p.annual_rewards_rate as int;
        let m = crate::payroll::PRECISION_MULTIPLIER as int;
        assert(0 * m * rate == 0) by (nonlinear_arith);
        vstd::arithmetic::div_mod::lemma_div_basics(p.total_tokens_deposited as int);
        assert(crate::payroll::reward_increment(0, rate, p.total_tokens_deposited as int) == 0);
    }
}

/// Settles a depositor at each instant of `times` in turn and pays its
/// rewards out after each settlement: the pool, the record and the total
/// paid out, or `None` where a settlement fails.
pub open spec fn spec_settle_run(q: Quarry, m: Miner, rewarder: Rewarder, times: Seq<i64>) -> Option<(Quarry, Miner, int)>
    decreases times.len(),
{
    if times.len() == 0 {
        Some((q, m, 0))
    } else {
        match spec_settle_run(q, m, rewarder, times.drop_last()) {
            None => None,
            Some((q1, m1, paid)) => match q1.spec_update_rewards_and_miner(m1, rewarder, times.last()) {
                Err(_) => None,
                Ok((q2, m2)) => Some((q2, Miner { rewards_earned: 0, ..m2 }, paid + m2.rewards_earned)),
            },
        }
    }
}

/// A depositor alone in a pool, with the pool's rate fixed, settled and paid
/// out at a rising sequence of instants before the pool's expiry, is paid
/// at most the pool's rewards over the whole span, rounded down. The
/// shortfall is at most two units per settlement, and at most one unit per
/// settlement plus `settlements * (stake + 1) / 2^64`.
pub proof fn lemma_lone_depositor_run(q: Quarry, m: Miner, rewarder: Rewarder, times: Seq<i64>)
    requires
        m.balance == q.total_tokens_deposited,
        q.total_tokens_deposited > 0,
        m.rewards_per_token_paid == q.rewards_per_token_stored,
        m.rewards_earned == 0,
        q.rewards_share <= rewarder.total_rewards_shares,
        q.annual_rewards_rate == quarry_rate(
            rewarder.annual_rewards_rate as int,
            q.rewards_share as int,
            rewarder.total_rewards_shares as int,
        ),
        times.len() > 0,
        forall|i: int| 0 <= i < times.len() ==> q.last_update_ts <= #[trigger] times[i] <= q.famine_ts,
        forall|i: int, j: int| 0 <= i <= j < times.len() ==> times[i] <= times[j],
        spec_settle_run(q, m, rewarder, times) is Some,
    ensures
        ({
            let run = spec_settle_run(q, m, rewarder, times)->0;
            let paid = run.2;
            let exact = (times.last() - q.last_update_ts) * q.annual_rewards_rate / (crate::payroll::SECONDS_PER_YEAR as int);
            &&& exact - 2 * times.len() <= paid && paid <= exact
            &&& (exact - paid) * (crate::payroll::PRECISION_MULTIPLIER as int)
                <= times.len() * ((crate::payroll::PRECISION_MULTIPLIER as int) + q.total_tokens_deposited + 1)
        }),
{
    lemma_run_invariant(q, m, rewarder, times);
    let whole = spec_settle_run(q, m, rewarder, times)->0;
    let paid = whole.2;
    let y = crate::payroll::SECONDS_PER_YEAR as int;
    let mm = crate::payroll::PRECISION_MULTIPLIER as int;
    let big = (times.last() - q.last_update_ts) * q.annual_rewards_rate;
    let n = times.len() as int;
    let kk = q.total_tokens_deposited + mm + 1;
    vstd::arithmetic::div_mod::lemma_fundamental_div_mod(big, y);
    vstd::arithmetic::div_mod::lemma_mod_bound(big, y);
    let exact = big / y;
    assert(y * mm * exact <= big * mm) by (nonlinear_arith)
        requires big == y * exact + big % y, big % y >= 0, mm > 0;
    assert(y * (mm * (exact - paid)) <= y * (n * kk)) by (nonlinear_arith)
        requires y * mm * exact <= big * mm, y * mm * paid >= big * mm - n * y * kk;
    assert(mm * (exact - paid) <= n * kk) by (nonlinear_arith)
        requires y * (mm * (exact - paid)) <= y * (n * kk), y > 0;
}

proof fn lemma_run_invariant(q: Quarry, m: Miner, rewarder: Rewarder, times: Seq<i64>)
    requires
        m.balance == q.total_tokens_deposited,
        q.total_tokens_deposited > 0,
        m.rewards_per_token_paid == q.rewards_per_token_stored,
        m.rewards_earned == 0,
        q.rewards_share <= rewarder.total_rewards_shares,
        q.annual_rewards_rate == quarry_rate(
            rewarder.annual_rewards_rate as int,
            q.rewards_share as int,
            rewarder.total_rewards_shares as int,
        ),
        forall|i: int| 0 <= i < times.len() ==> q.last_update_ts <= #[trigger] times[i] <= q.famine_ts,
        forall|i: int, j: int| 0 <= i <= j < times.len() ==> times[i] <= times[j],
        spec_settle_run(q, m, rewarder, times) is Some,
    ensures
        ({
            let (qn, mn, paid) = spec_settle_run(q, m, rewarder, times)->0;
            let end = if times.len() == 0 { q.last_update_ts as int } else { times.last() as int };
            let exact = (end - q.last_update_ts) * q.annual_rewards_rate / (crate::payroll::SECONDS_PER_YEAR as int);
            &&& qn.total_tokens_deposited == q.total_tokens_deposited
            &&& mn.balance == m.balance
            &&& mn.rewards_per_token_paid == qn.rewards_per_token_stored
            &&& mn.rewards_earned == 0
            &&& qn.annual_rewards_rate == q.annual_rewards_rate
            &&& qn.rewards_share == q.rewards_share
            &&& qn.famine_ts == q.famine_ts
            &&& qn.last_update_ts == end
            &&& exact - 2 * times.len() <= paid && paid <= exact
            &&& (crate::payroll::SECONDS_PER_YEAR as int) * paid <= (end - q.last_update_ts) * q.annual_rewards_rate
            &&& (crate::payroll::SECONDS_PER_YEAR as int) * (crate::payroll::PRECISION_MULTIPLIER as int) * paid
                >= (end - q.last_update_ts) * q.annual_rewards_rate * (crate::payroll::PRECISION_MULTIPLIER as int)
                    - times.len() * (crate::payroll::SECONDS_PER_YEAR as int)
                    * (q.total_tokens_deposited + (crate::payroll::PRECISION_MULTIPLIER as int) + 1)
        }),
    decreases times.len(),
{
    if times.len() > 0 {
        let prefix = times.drop_last();
        assert forall|i: int| 0 <= i < prefix.len() implies q.last_update_ts <= #[trigger] prefix[i] <= q.famine_ts by {
            assert(prefix[i] == times[i]);
        }
        assert forall|i: int, j: int| 0 <= i <= j < prefix.len() implies prefix[i] <= prefix[j] by {
            assert(prefix[i] == times[i] && prefix[j] == times[j]);
        }
        lemma_run_invariant(q, m, rewarder, prefix);
        let (q1, m1, paid1) = spec_settle_run(q, m, rewarder, prefix)->0;
        let t = times.last();
        assert(t == times[times.len() - 1]);
        let start = if prefix.len() == 0 { q.last_update_ts as int } else { prefix.last() as int };
        if prefix.len() > 0 {
            assert(prefix.last() == times[prefix.len() - 1]);
        }
        assert(start <= t);
        let p = payroll_of(q1);
        assert(p.spec_time_worked(t) == Some(t - start));
        lemma_lone_depositor_accrual(p, t, 0);
        let y = crate::payroll::SECONDS_PER_YEAR as int;
        let rate = q.annual_rewards_rate as int;
        let a = (start - q.last_update_ts) * rate;
        let b = (t - start) * rate;
        assert(a >= 0 && b >= 0) by (nonlinear_arith)
            requires start - q.last_update_ts >= 0, t - start >= 0, rate >= 0,
                a == (start - q.last_update_ts) * rate, b == (t - start) * rate;
        assert(a + b == (t - q.last_update_ts) * rate) by (nonlinear_arith)
            requires a == (start - q.last_update_ts) * rate, b == (t - start) * rate;
        crate::payroll::lemma_floor_sum_bounds(a, b, y);
        let mm = crate::payroll::PRECISION_MULTIPLIER as int;
        let kk = q.total_tokens_deposited + mm + 1;
        let n1 = prefix.len() as int;
        let whole = spec_settle_run(q, m, rewarder, times)->0;
        let g = whole.2 - paid1;
        assert(y * mm * (paid1 + g) >= (a + b) * mm - (n1 + 1) * y * kk) by (nonlinear_arith)
            requires
                y * mm * paid1 >= a * mm - n1 * y * kk,
                y * mm * g >= b * mm - y * kk;
    }
}

} // verus!
