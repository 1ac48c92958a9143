//! Claiming a depositor's rewards: settle, split off the fee, and mint
//! both parts under the allocator's minter.
use vstd::prelude::*;
use crate::error::ErrorCode;
use crate::key::Pubkey;
use crate::mint_wrapper::{perform_mint, spec_perform_mint, MintWrapper, Minter, PerformMint};
use crate::rewarder::{claim_fee, split_claim, FEE_DENOMINATOR};
use crate::state::{Miner, Quarry, Rewarder};

verus! {

/// The records a depositor's claim reads and changes.
#[derive(Clone, Copy, Debug)]
pub struct UserClaimV2 {
    /// Who claims.
    pub authority: Pubkey,
    /// Whether the claimant signed the operation.
    pub authority_is_signer: bool,
    /// The depositor's record.
    pub miner: Miner,
    /// The pool.
    pub quarry: Quarry,
    /// Address of the pool.
    pub quarry_key: Pubkey,
    /// The pool's allocator.
    pub rewarder: Rewarder,
    /// Address of the allocator.
    pub rewarder_key: Pubkey,
}

/// A claim together with the records that mint its rewards.
#[derive(Clone, Copy, Debug)]
pub struct ClaimRewardsV2 {
    /// The wrapper that mints the reward token.
    pub mint_wrapper: MintWrapper,
    /// Address of the wrapper.
    pub mint_wrapper_key: Pubkey,
    /// The allocator's minter.
    pub minter: Minter,
    /// The reward token.
    pub rewards_token_mint: Pubkey,
    /// Current supply of the reward token.
    pub rewards_token_supply: u64,
    /// Account that receives the rewards.
    pub rewards_token_account: Pubkey,
    /// Account that receives the fee.
    pub claim_fee_token_account: Pubkey,
    /// The claimant's records.
    pub claim: UserClaimV2,
}

impl UserClaimV2 {
    /// Whether the claimant may claim from these records.
    pub open spec fn spec_is_valid(self) -> bool {
        &&& !self.rewarder.is_paused
        &&& self.authority_is_signer
        &&& self.authority.bytes@ == self.miner.authority.bytes@
        &&& self.miner.quarry.bytes@ == self.quarry_key.bytes@
        &&& self.quarry.rewarder.bytes@ == self.rewarder_key.bytes@
    }

    /// The outcome of validating the claimant.
    pub open spec fn spec_validate(self) -> Result<(), ErrorCode> {
        if self.rewarder.is_paused {
            Err(ErrorCode::Paused)
        } else if !self.authority_is_signer || self.authority.bytes@ != self.miner.authority.bytes@ {
            Err(ErrorCode::Unauthorized)
        } else if self.miner.quarry.bytes@ != self.quarry_key.bytes@
            || self.quarry.rewarder.bytes@ != self.rewarder_key.bytes@ {
            Err(ErrorCode::InvalidLinkage)
        } else {
            Ok(())
        }
    }

    /// Checks that the claimant signed, owns the record, and that the
    /// record, pool and allocator belong together.
    pub fn validate(&self) -> (r: Result<(), ErrorCode>)
        ensures
            r == self.spec_validate(),
            r is Ok <==> self.spec_is_valid(),
    {
        if self.rewarder.is_paused {
            return Err(ErrorCode::Paused);
        }
        if !self.authority_is_signer || self.authority != self.miner.authority {
            return Err(ErrorCode::Unauthorized);
        }
        if self.miner.quarry != self.quarry_key || self.quarry.rewarder != self.rewarder_key {
            return Err(ErrorCode::InvalidLinkage);
        }
        Ok(())
    }
}

impl ClaimRewardsV2 {
    /// Whether the claim and its minting records belong together.
    pub open spec fn spec_is_valid(self) -> bool {
        &&& self.claim.spec_is_valid()
        &&& self.mint_wrapper_key.bytes@ == self.claim.rewarder.mint_wrapper.bytes@
        &&& self.mint_wrapper.token_mint.bytes@ == self.rewards_token_mint.bytes@
        &&& self.minter.mint_wrapper.bytes@ == self.mint_wrapper_key.bytes@
        &&& self.minter.minter_authority.bytes@ == self.claim.rewarder_key.bytes@
        &&& self.rewards_token_mint.bytes@ == self.claim.rewarder.rewards_token_mint.bytes@
        &&& self.claim_fee_token_account.bytes@ == self.claim.rewarder.claim_fee_token_account.bytes@
    }

    /// The outcome of validating the claim and its minting records.
    pub open spec fn spec_validate(self) -> Result<(), ErrorCode> {
        match self.claim.spec_validate() {
            Err(e) => Err(e),
            Ok(_) => if self.spec_is_valid() { Ok(()) } else { Err(ErrorCode::InvalidLinkage) },
        }
    }

    /// Checks the claimant and the links between the claim, the wrapper,
    /// the minter, the reward token and the fee account.
    pub fn validate(&self) -> (r: Result<(), ErrorCode>)
        ensures
            r == self.spec_validate(),
            r is Ok <==> self.spec_is_valid(),
    {
        match self.claim.validate() {
            Ok(()) => {},
            Err(e) => return Err(e),
        }
        if self.mint_wrapper_key != self.claim.rewarder.mint_wrapper
            || self.mint_wrapper.token_mint != self.rewards_token_mint
            || self.minter.mint_wrapper != self.mint_wrapper_key
            || self.minter.minter_authority != self.claim.rewarder_key
            || self.rewards_token_mint != self.claim.rewarder.rewards_token_mint
            || self.claim_fee_token_account != self.claim.rewarder.claim_fee_token_account {
            return Err(ErrorCode::InvalidLinkage);
        }
        Ok(())
    }

    /// The minting records of the claim.
    pub open spec fn spec_mint_ctx(self) -> PerformMint {
        PerformMint {
            mint_wrapper: self.mint_wrapper,
            minter: self.minter,
            token_supply: self.rewards_token_supply,
        }
    }

    /// The records after paying out the settled rewards, with the amounts
    /// paid to the claimant and to the fee account.
    pub open spec fn spec_calculate_and_claim(self) -> Result<(ClaimRewardsV2, (u64, u64)), ErrorCode> {
        let claimable = self.claim.miner.rewards_earned;
        if claimable == 0 {
            Ok((self, (0u64, 0u64)))
        } else if self.claim.rewarder.max_claim_fee_millibps >= FEE_DENOMINATOR {
            Err(ErrorCode::InvalidMaxClaimFee)
        } else {
            let fee = claim_fee(claimable as int, self.claim.rewarder.max_claim_fee_millibps as int);
            let net = claimable - fee;
            match spec_perform_mint(self.spec_mint_ctx(), net as u64) {
                Err(e) => Err(e),
                Ok(c1) => match spec_perform_mint(c1, fee as u64) {
                    Err(e) => Err(e),
                    Ok(c2) => Ok((
                        ClaimRewardsV2 {
                            mint_wrapper: c2.mint_wrapper,
                            minter: c2.minter,
                            rewards_token_supply: c2.token_supply,
                            claim: UserClaimV2 {
                                miner: Miner { rewards_earned: 0, ..self.claim.miner },
                                ..self.claim
                            },
                            ..self
                        },
                        (net as u64, fee as u64),
                    )),
                },
            }
        }
    }

    /// The records after a whole claim at `now`: validation, settlement of
    /// the pool and the depositor, then the payout.
    pub open spec fn spec_claim(self, now: i64) -> Result<(ClaimRewardsV2, (u64, u64)), ErrorCode> {
        if let Err(e) = self.spec_validate() {
            Err(e)
        } else {
            match self.claim.quarry.spec_update_rewards_and_miner(self.claim.miner, self.claim.rewarder, now) {
                Err(e) => Err(e),
                Ok((q, m)) => (ClaimRewardsV2 {
                    claim: UserClaimV2 { quarry: q, miner: m, ..self.claim },
                    ..self
                }).spec_calculate_and_claim(),
            }
        }
    }

    /// Pays out the depositor's settled rewards: the fee goes to the fee
    /// account, the rest to the claimant, both minted under the minter's
    /// allowance, and the record's rewards drop to zero. Nothing happens
    /// when nothing is owed; on an error nothing changes. Returns the
    /// amounts paid to the claimant and to the fee account.
    pub fn calculate_and_claim_rewards(&mut self) -> (r: Result<(u64, u64), ErrorCode>)
        ensures
            match old(self).spec_calculate_and_claim() {
                Ok((c, amounts)) => r == Ok::<(u64, u64), ErrorCode>(amounts) && *final(self) == c,
                Err(e) => r == Err::<(u64, u64), _>(e) && *final(self) == *old(self),
            },
    {
        let amount_claimable = self.claim.miner.rewards_earned;
        if amount_claimable == 0 {
            return Ok((0, 0));
        }
        let (net, fee) = match split_claim(amount_claimable, self.claim.rewarder.max_claim_fee_millibps) {
            Ok(v) => v,
            Err(e) => return Err(e),
        };
        let mut mint = PerformMint {
            mint_wrapper: self.mint_wrapper,
            minter: self.minter,
            token_supply: self.rewards_token_supply,
        };
        match perform_mint(&mut mint, net) {
            Ok(()) => {},
            Err(e) => return Err(e),
        }
        match perform_mint(&mut mint, fee) {
            Ok(()) => {},
            Err(e) => return Err(e),
        }
        self.claim.miner.rewards_earned = 0;
        self.mint_wrapper = mint.mint_wrapper;
        self.minter = mint.minter;
        self.rewards_token_supply = mint.token_supply;
        Ok((net, fee))
    }
}

/// Claiming a second time at the same instant, with no stake or withdrawal
/// in between, pays nothing.
pub proof fn lemma_double_claim_pays_nothing(ctx: ClaimRewardsV2, now: i64)
    requires
        ctx.spec_claim(now) is Ok,
    ensures
        ctx.spec_claim(now)->Ok_0.0.spec_claim(now) matches Ok((_, amounts)) && amounts == (0u64, 0u64),
{
    let q = ctx.claim.quarry;
    let (q1, m1) = q.spec_update_rewards_and_miner(ctx.claim.miner, ctx.claim.rewarder, now)->Ok_0;
    let c1 = ctx.spec_claim(now)->Ok_0.0;
    assert(c1.claim.quarry == q1);
    assert(c1.claim.miner.rewards_earned == 0);
    assert(c1.spec_validate() is Ok);
    let p1 = crate::quarry::payroll_of(q1);
    let tw = p1.spec_time_worked(now);
    assert(tw == Some(0int));
    let rate = p1.annual_rewards_rate as int;
    let m = crate::payroll::PRECISION_MULTIPLIER as int;
    assert(0 * m * rate == 0) by (nonlinear_arith);
    if p1.total_tokens_deposited != 0 {
        let t = p1.total_tokens_deposited as int;
        assert(0int / 31_536_000int == 0);
        vstd::arithmetic::div_mod::lemma_div_basics(t);
        assert(crate::payroll::reward_increment(0, rate, t) == 0);
    }
    assert(p1.spec_reward_per_token(now) == Some(q1.rewards_per_token_stored as int));
    let b = c1.claim.miner.balance as int;
    assert(b * 0 == 0) by (nonlinear_arith);
    assert(crate::payroll::rewards_for(b, 0) == 0);
    assert(crate::payroll::rewards_for(p1.total_tokens_deposited as int, 0) == 0) by {
        assert(p1.total_tokens_deposited as int * 0 == 0) by (nonlinear_arith);
    }
    assert(0 * rate == 0) by (nonlinear_arith);
}

/// Claims at each instant of `times` in turn: the records after the last
/// claim and the total paid out, to the claimant and as fees, or `None`
/// where a claim fails.
pub open spec fn spec_claim_run(ctx: ClaimRewardsV2, times: Seq<i64>) -> Option<(ClaimRewardsV2, int)>
    decreases times.len(),
{
    if times.len() == 0 {
        Some((ctx, 0))
    } else {
        match spec_claim_run(ctx, times.drop_last()) {
            None => None,
            Some((c1, paid)) => match c1.spec_claim(times.last()) {
                Err(_) => None,
                Ok((c2, (net, fee))) => Some((c2, paid + net + fee)),
            },
        }
    }
}

proof fn lemma_fee_within_claim(claimable: int, fee_millibps: int)
    requires
        0 <= claimable,
        0 <= fee_millibps < FEE_DENOMINATOR,
    ensures
        0 <= claim_fee(claimable, fee_millibps) <= claimable,
{
    assert(claimable * fee_millibps <= claimable * 10_000_000) by (nonlinear_arith)
        requires 0 <= claimable, 0 <= fee_millibps < 10_000_000;
    assert(claimable * fee_millibps >= 0) by (nonlinear_arith) requires 0 <= claimable, 0 <= fee_millibps;
    vstd::arithmetic::div_mod::lemma_div_is_ordered(claimable * fee_millibps, claimable * 10_000_000, 10_000_000);
    vstd::arithmetic::div_mod::lemma_div_multiples_vanish(claimable, 10_000_000);
    assert(claimable * 10_000_000 == 10_000_000 * claimable) by (nonlinear_arith);
    vstd::arithmetic::div_mod::lemma_div_pos_is_pos(claimable * fee_millibps, 10_000_000);
}

proof fn lemma_claim_run_settles(ctx: ClaimRewardsV2, times: Seq<i64>)
    requires
        spec_claim_run(ctx, times) is Some,
    ensures
        ({
            let (c, paid) = spec_claim_run(ctx, times)->0;
            &&& c.claim.rewarder == ctx.claim.rewarder
            &&& crate::quarry::spec_settle_run(ctx.claim.quarry, ctx.claim.miner, ctx.claim.rewarder, times)
                == Some((c.claim.quarry, c.claim.miner, paid))
        }),
    decreases times.len(),
{
    if times.len() > 0 {
        lemma_claim_run_settles(ctx, times.drop_last());
        let (c1, paid1) = spec_claim_run(ctx, times.drop_last())->0;
        let t = times.last();
        let (q2, m2) = c1.claim.quarry.spec_update_rewards_and_miner(c1.claim.miner, c1.claim.rewarder, t)->Ok_0;
        let mid = ClaimRewardsV2 { claim: UserClaimV2 { quarry: q2, miner: m2, ..c1.claim }, ..c1 };
        let claimable = m2.rewards_earned;
        if claimable == 0 {
            assert(m2 == (Miner { rewards_earned: 0, ..m2 }));
        } else {
            lemma_fee_within_claim(claimable as int, c1.claim.rewarder.max_claim_fee_millibps as int);
        }
    }
}

/// A depositor alone in a pool, with the pool's rate fixed, that claims at
/// a rising sequence of instants before the pool's expiry, is paid in all,
/// to itself and as fees, at most the pool's rewards over the whole span,
/// rounded down. The shortfall is at most two units per claim, and at most
/// one unit per claim plus `claims * (stake + 1) / 2^64`.
pub proof fn lemma_lone_claimant_conservation(ctx: ClaimRewardsV2, times: Seq<i64>)
    requires
        ctx.claim.miner.balance == ctx.claim.quarry.total_tokens_deposited,
        ctx.claim.quarry.total_tokens_deposited > 0,
        ctx.claim.miner.rewards_per_token_paid == ctx.claim.quarry.rewards_per_token_stored,
        ctx.claim.miner.rewards_earned == 0,
        ctx.claim.quarry.rewards_share <= ctx.claim.rewarder.total_rewards_shares,
        ctx.claim.quarry.annual_rewards_rate == crate::rewarder::quarry_rate(
            ctx.claim.rewarder.annual_rewards_rate as int,
            ctx.claim.quarry.rewards_share as int,
            ctx.claim.rewarder.total_rewards_shares as int,
        ),
        times.len() > 0,
        forall|i: int| 0 <= i < times.len()
            ==> ctx.claim.quarry.last_update_ts <= #[trigger] times[i] <= ctx.claim.quarry.famine_ts,
        forall|i: int, j: int| 0 <= i <= j < times.len() ==> times[i] <= times[j],
        spec_claim_run(ctx, times) is Some,
    ensures
        ({
            let run = spec_claim_run(ctx, times)->0;
            let paid = run.1;
            let exact = (times.last() - ctx.claim.quarry.last_update_ts) * ctx.claim.quarry.annual_rewards_rate
                / (crate::payroll::SECONDS_PER_YEAR as int);
            &&& exact - 2 * times.len() <= paid && paid <= exact
            &&& (exact - paid) * (crate::payroll::PRECISION_MULTIPLIER as int)
                <= times.len() * ((crate::payroll::PRECISION_MULTIPLIER as int) + ctx.claim.quarry.total_tokens_deposited + 1)
        }),
{
    lemma_claim_run_settles(ctx, times);
    crate::quarry::lemma_lone_depositor_run(ctx.claim.quarry, ctx.claim.miner, ctx.claim.rewarder, times);
}

/// Claims a depositor's rewards at `now`. On an error nothing changes.
/// Returns the amounts paid to the claimant and to the fee account.
pub fn handler(ctx: &mut ClaimRewardsV2, now: i64) -> (r: Result<(u64, u64), ErrorCode>)
    ensures
        match old(ctx).spec_claim(now) {
            Ok((c, amounts)) => r == Ok::<(u64, u64), ErrorCode>(amounts) && *final(ctx) == c,
            Err(e) => r == Err::<(u64, u64), _>(e) && *final(ctx) == *old(ctx),
        },
{
    match ctx.validate() {
        Ok(()) => {},
        Err(e) => return Err(e),
    }
    let mut c = *ctx;
    match c.claim.quarry.update_rewards_and_miner(&mut c.claim.miner, &ctx.claim.rewarder, now) {
        Ok(()) => {},
        Err(e) => return Err(e),
    }
    match c.calculate_and_claim_rewards() {
        Ok(amounts) => {
            *ctx = c;
            Ok(amounts)
        },
        Err(e) => Err(e),
    }
}

} // verus!
