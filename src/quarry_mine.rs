//! The operations on allocators, pools and depositor records.
use vstd::prelude::*;
use crate::error::ErrorCode;
use crate::key::{key_eq, Pubkey};
use crate::payroll::Payroll;
use crate::quarry::{payroll_of, StakeAction};
use crate::rewarder::MAX_ANNUAL_REWARDS_RATE;
use crate::state::{Miner, Quarry, Rewarder, TokenAccount};

verus! {

/// Succeeds where `signer` is `expected`, else fails as unauthorized.
fn require_signer(expected: &Pubkey, signer: &Pubkey) -> (r: Result<(), ErrorCode>)
    ensures
        r is Ok <==> key_eq(*expected, *signer),
        r is Err ==> r == Err::<(), _>(ErrorCode::Unauthorized),
{
    if *expected == *signer {
        Ok(())
    } else {
        Err(ErrorCode::Unauthorized)
    }
}

/// Sets who may pause the allocator; only its authority may, and not while
/// it is paused.
pub fn set_pause_authority(rewarder: &mut Rewarder, signer: &Pubkey, new_pause_authority: Pubkey) -> (r: Result<(), ErrorCode>)
    ensures
        !key_eq(old(rewarder).authority, *signer) ==> r == Err::<(), _>(ErrorCode::Unauthorized),
        key_eq(old(rewarder).authority, *signer) && old(rewarder).is_paused ==> r == Err::<(), _>(ErrorCode::Paused),
        r is Ok <==> key_eq(old(rewarder).authority, *signer) && !old(rewarder).is_paused,
        r is Ok ==> *final(rewarder) == (Rewarder { pause_authority: new_pause_authority, ..*old(rewarder) }),
        r is Err ==> *final(rewarder) == *old(rewarder),
{
    match require_signer(&rewarder.authority, signer) {
        Ok(()) => {},
        Err(e) => return Err(e),
    }
    match rewarder.assert_not_paused() {
        Ok(()) => {},
        Err(e) => return Err(e),
    }
    rewarder.pause_authority = new_pause_authority;
    Ok(())
}

/// Pauses the allocator; only its pause authority may.
pub fn pause(rewarder: &mut Rewarder, signer: &Pubkey) -> (r: Result<(), ErrorCode>)
    ensures
        r is Ok <==> key_eq(old(rewarder).pause_authority, *signer),
        r is Ok ==> *final(rewarder) == (Rewarder { is_paused: true, ..*old(rewarder) }),
        r is Err ==> r == Err::<(), _>(ErrorCode::Unauthorized) && *final(rewarder) == *old(rewarder),
{
    match require_signer(&rewarder.pause_authority, signer) {
        Ok(()) => {},
        Err(e) => return Err(e),
    }
    rewarder.is_paused = true;
    Ok(())
}

/// Unpauses the allocator; only its pause authority may.
pub fn unpause(rewarder: &mut Rewarder, signer: &Pubkey) -> (r: Result<(), ErrorCode>)
    ensures
        r is Ok <==> key_eq(old(rewarder).pause_authority, *signer),
        r is Ok ==> *final(rewarder) == (Rewarder { is_paused: false, ..*old(rewarder) }),
        r is Err ==> r == Err::<(), _>(ErrorCode::Unauthorized) && *final(rewarder) == *old(rewarder),
{
    match require_signer(&rewarder.pause_authority, signer) {
        Ok(()) => {},
        Err(e) => return Err(e),
    }
    rewarder.is_paused = false;
    Ok(())
}

/// Proposes a new authority for the allocator; it takes over once it
/// accepts.
pub fn transfer_authority(rewarder: &mut Rewarder, signer: &Pubkey, new_authority: Pubkey) -> (r: Result<(), ErrorCode>)
    ensures
        old(rewarder).is_paused ==> r == Err::<(), _>(ErrorCode::Paused),
        !old(rewarder).is_paused && !key_eq(old(rewarder).authority, *signer) ==> r == Err::<(), _>(ErrorCode::Unauthorized),
        r is Ok <==> !old(rewarder).is_paused && key_eq(old(rewarder).authority, *signer),
        r is Ok ==> *final(rewarder) == (Rewarder { pending_authority: new_authority, ..*old(rewarder) }),
        r is Err ==> *final(rewarder) == *old(rewarder),
{
    match rewarder.assert_not_paused() {
        Ok(()) => {},
        Err(e) => return Err(e),
    }
    match require_signer(&rewarder.authority, signer) {
        Ok(()) => {},
        Err(e) => return Err(e),
    }
    rewarder.pending_authority = new_authority;
    Ok(())
}

/// The proposed authority takes over the allocator.
pub fn accept_authority(rewarder: &mut Rewarder, signer: &Pubkey) -> (r: Result<(), ErrorCode>)
    ensures
        old(rewarder).is_paused ==> r == Err::<(), _>(ErrorCode::Paused),
        !old(rewarder).is_paused && old(rewarder).pending_authority.is_zeroed()
            ==> r == Err::<(), _>(ErrorCode::PendingAuthorityNotSet),
        !old(rewarder).is_paused && !old(rewarder).pending_authority.is_zeroed()
            && !key_eq(old(rewarder).pending_authority, *signer) ==> r == Err::<(), _>(ErrorCode::Unauthorized),
        r is Ok <==> !old(rewarder).is_paused && !old(rewarder).pending_authority.is_zeroed()
            && key_eq(old(rewarder).pending_authority, *signer),
        r is Ok ==> final(rewarder).pending_authority.is_zeroed() && final(rewarder).authority == old(rewarder).pending_authority
            && *final(rewarder) == (Rewarder {
                authority: final(rewarder).authority,
                pending_authority: final(rewarder).pending_authority,
                ..*old(rewarder)
            }),
        r is Err ==> *final(rewarder) == *old(rewarder),
{
    match rewarder.assert_not_paused() {
        Ok(()) => {},
        Err(e) => return Err(e),
    }
    let none = Pubkey::zeroed();
    if rewarder.pending_authority == none {
        return Err(ErrorCode::PendingAuthorityNotSet);
    }
    match require_signer(&rewarder.pending_authority, signer) {
        Ok(()) => {},
        Err(e) => return Err(e),
    }
    rewarder.authority = rewarder.pending_authority;
    rewarder.pending_authority = none;
    Ok(())
}

/// Sets the allocator's annual rate; returns the previous rate.
pub fn set_annual_rewards(rewarder: &mut Rewarder, signer: &Pubkey, new_rate: u64) -> (r: Result<u64, ErrorCode>)
    ensures
        old(rewarder).is_paused ==> r == Err::<u64, _>(ErrorCode::Paused),
        !old(rewarder).is_paused && !key_eq(old(rewarder).authority, *signer) ==> r == Err::<u64, _>(ErrorCode::Unauthorized),
        !old(rewarder).is_paused && key_eq(old(rewarder).authority, *signer) && new_rate > MAX_ANNUAL_REWARDS_RATE
            ==> r == Err::<u64, _>(ErrorCode::MaxAnnualRewardsRateExceeded),
        r is Ok <==> !old(rewarder).is_paused && key_eq(old(rewarder).authority, *signer)
            && new_rate <= MAX_ANNUAL_REWARDS_RATE,
        r is Ok ==> r == Ok::<u64, ErrorCode>(old(rewarder).annual_rewards_rate)
            && *final(rewarder) == (Rewarder { annual_rewards_rate: new_rate, ..*old(rewarder) }),
        r is Err ==> *final(rewarder) == *old(rewarder),
{
    match rewarder.assert_not_paused() {
        Ok(()) => {},
        Err(e) => return Err(e),
    }
    match require_signer(&rewarder.authority, signer) {
        Ok(()) => {},
        Err(e) => return Err(e),
    }
    if new_rate > MAX_ANNUAL_REWARDS_RATE {
        return Err(ErrorCode::MaxAnnualRewardsRateExceeded);
    }
    let previous_rate = rewarder.annual_rewards_rate;
    rewarder.annual_rewards_rate = new_rate;
    Ok(previous_rate)
}

/// The outcome of checking an administrative change of a pool: the pool
/// belongs to the allocator, which is not paused, and the signer is its
/// authority.
pub open spec fn spec_check_pool_admin(rewarder: Rewarder, rewarder_key: Pubkey, quarry: Quarry, signer: Pubkey) -> Result<(), ErrorCode> {
    if !key_eq(quarry.rewarder, rewarder_key) {
        Err(ErrorCode::InvalidLinkage)
    } else if rewarder.is_paused {
        Err(ErrorCode::Paused)
    } else if !key_eq(rewarder.authority, signer) {
        Err(ErrorCode::Unauthorized)
    } else {
        Ok(())
    }
}

fn check_pool_admin(rewarder: &Rewarder, rewarder_key: &Pubkey, quarry: &Quarry, signer: &Pubkey) -> (r: Result<(), ErrorCode>)
    ensures
        r == spec_check_pool_admin(*rewarder, *rewarder_key, *quarry, *signer),
{
    if quarry.rewarder != *rewarder_key {
        return Err(ErrorCode::InvalidLinkage);
    }
    match rewarder.assert_not_paused() {
        Ok(()) => {},
        Err(e) => return Err(e),
    }
    match require_signer(&rewarder.authority, signer) {
        Ok(()) => Ok(()),
        Err(e) => Err(e),
    }
}

/// The allocator and pool after the pool's share becomes `new_share`: the
/// pool is synced at `now` first, the allocator's total swaps the old share
/// for the new one, and the pool's rate is taken from the new split.
pub open spec fn spec_set_rewards_share(rewarder: Rewarder, quarry: Quarry, now: i64, new_share: u64) -> Result<(Rewarder, Quarry), ErrorCode> {
    match quarry.spec_update_rewards(now, rewarder, payroll_of(quarry)) {
        Err(e) => Err(e),
        Ok(q) => {
            let t = rewarder.total_rewards_shares - q.rewards_share + new_share;
            if rewarder.total_rewards_shares < q.rewards_share || t > u64::MAX {
                Err(ErrorCode::IntegerOverflow)
            } else {
                let r2 = Rewarder { total_rewards_shares: t as u64, ..rewarder };
                Ok((r2, Quarry {
                    annual_rewards_rate: crate::rewarder::quarry_rate(
                        r2.annual_rewards_rate as int,
                        new_share as int,
                        r2.total_rewards_shares as int,
                    ) as u64,
                    rewards_share: new_share,
                    ..q
                }))
            }
        },
    }
}

/// Changes a pool's share of the allocator's rate. On an error nothing
/// changes.
pub fn set_rewards_share(
    rewarder: &mut Rewarder,
    rewarder_key: &Pubkey,
    quarry: &mut Quarry,
    signer: &Pubkey,
    now: i64,
    new_share: u64,
) -> (r: Result<(), ErrorCode>)
    ensures
        match spec_check_pool_admin(*old(rewarder), *rewarder_key, *old(quarry), *signer) {
            Err(e) => r == Err::<(), _>(e),
            Ok(_) => match spec_set_rewards_share(*old(rewarder), *old(quarry), now, new_share) {
                Err(e) => r == Err::<(), _>(e),
                Ok((rw, q)) => r is Ok && *final(rewarder) == rw && *final(quarry) == q,
            },
        },
        r is Err ==> *final(rewarder) == *old(rewarder) && *final(quarry) == *old(quarry),
{
    match check_pool_admin(rewarder, rewarder_key, quarry, signer) {
        Ok(()) => {},
        Err(e) => return Err(e),
    }
    let payroll = Payroll::new(
        quarry.famine_ts,
        quarry.last_update_ts,
        quarry.annual_rewards_rate,
        quarry.rewards_per_token_stored,
        quarry.total_tokens_deposited,
    );
    let mut q = *quarry;
    match q.update_rewards_internal(now, rewarder, &payroll) {
        Ok(()) => {},
        Err(e) => return Err(e),
    }
    let total = match rewarder.total_rewards_shares.checked_sub(q.rewards_share) {
        Some(v) => match v.checked_add(new_share) {
            Some(w) => w,
            None => return Err(ErrorCode::IntegerOverflow),
        },
        None => return Err(ErrorCode::IntegerOverflow),
    };
    let mut rw = *rewarder;
    rw.total_rewards_shares = total;
    let rate = match rw.compute_quarry_annual_rewards_rate(new_share) {
        Ok(v) => v,
        Err(e) => return Err(e),
    };
    q.annual_rewards_rate = rate;
    q.rewards_share = new_share;
    *rewarder = rw;
    *quarry = q;
    Ok(())
}

/// Sets the time after which the pool stops accruing rewards.
pub fn set_famine(rewarder: &Rewarder, rewarder_key: &Pubkey, quarry: &mut Quarry, signer: &Pubkey, famine_ts: i64) -> (r: Result<(), ErrorCode>)
    ensures
        r == spec_check_pool_admin(*rewarder, *rewarder_key, *old(quarry), *signer),
        r is Ok ==> *final(quarry) == (Quarry { famine_ts, ..*old(quarry) }),
        r is Err ==> *final(quarry) == *old(quarry),
{
    match check_pool_admin(rewarder, rewarder_key, quarry, signer) {
        Ok(()) => {},
        Err(e) => return Err(e),
    }
    quarry.famine_ts = famine_ts;
    Ok(())
}

/// Syncs a pool with its allocator at `now`; anyone may. On an error the
/// pool is left as it was.
pub fn update_quarry_rewards(quarry: &mut Quarry, rewarder: &Rewarder, rewarder_key: &Pubkey, now: i64) -> (r: Result<(), ErrorCode>)
    ensures
        !key_eq(old(quarry).rewarder, *rewarder_key) ==> r == Err::<(), _>(ErrorCode::InvalidLinkage),
        key_eq(old(quarry).rewarder, *rewarder_key) && rewarder.is_paused ==> r == Err::<(), _>(ErrorCode::Paused),
        key_eq(old(quarry).rewarder, *rewarder_key) && !rewarder.is_paused ==> match old(quarry).spec_update_rewards(now, *rewarder, payroll_of(*old(quarry))) {
            Ok(q) => r is Ok && *final(quarry) == q,
            Err(e) => r == Err::<(), _>(e),
        },
        r is Err ==> *final(quarry) == *old(quarry),
{
    if quarry.rewarder != *rewarder_key {
        return Err(ErrorCode::InvalidLinkage);
    }
    match rewarder.assert_not_paused() {
        Ok(()) => {},
        Err(e) => return Err(e),
    }
    let payroll = Payroll::new(
        quarry.famine_ts,
        quarry.last_update_ts,
        quarry.annual_rewards_rate,
        quarry.rewards_per_token_stored,
        quarry.total_tokens_deposited,
    );
    quarry.update_rewards_internal(now, rewarder, &payroll)
}

/// The records a depositor's stake or withdrawal reads and changes.
#[derive(Clone, Copy, Debug)]
pub struct UserStake {
    /// Who stakes.
    pub authority: Pubkey,
    /// Whether the staker signed the operation.
    pub authority_is_signer: bool,
    /// The depositor's record.
    pub miner: Miner,
    /// The pool.
    pub quarry: Quarry,
    /// Address of the pool.
    pub quarry_key: Pubkey,
    /// Tokens held in the record's vault.
    pub miner_vault_amount: u64,
    /// Tokens held in the staker's own token account.
    pub token_account_amount: u64,
    /// The pool's allocator.
    pub rewarder: Rewarder,
    /// Address of the allocator.
    pub rewarder_key: Pubkey,
}

impl UserStake {
    /// The outcome of checking the staker and the links between the
    /// record, the pool and the allocator.
    pub open spec fn spec_validate(self) -> Result<(), ErrorCode> {
        if self.rewarder.is_paused {
            Err(ErrorCode::Paused)
        } else if !self.authority_is_signer || !key_eq(self.authority, self.miner.authority) {
            Err(ErrorCode::Unauthorized)
        } else if !key_eq(self.miner.quarry, self.quarry_key) || !key_eq(self.quarry.rewarder, self.rewarder_key) {
            Err(ErrorCode::InvalidLinkage)
        } else {
            Ok(())
        }
    }

    /// Checks the staker and the links between record, pool and allocator.
    pub fn validate(&self) -> (r: Result<(), ErrorCode>)
        ensures
            r == self.spec_validate(),
    {
        match self.rewarder.assert_not_paused() {
            Ok(()) => {},
            Err(e) => return Err(e),
        }
        if !self.authority_is_signer || self.authority != self.miner.authority {
            return Err(ErrorCode::Unauthorized);
        }
        if self.miner.quarry != self.quarry_key || self.quarry.rewarder != self.rewarder_key {
            return Err(ErrorCode::InvalidLinkage);
        }
        Ok(())
    }

    /// The records after staking or withdrawing `amount` at `now`: the
    /// pool and record are settled and changed, and the tokens move between
    /// the staker's account and the vault. A zero amount changes nothing.
    pub open spec fn spec_stake_action(self, action: StakeAction, now: i64, amount: u64) -> Result<UserStake, ErrorCode> {
        match self.spec_validate() {
            Err(e) => Err(e),
            Ok(_) => {
                if amount == 0 {
                    Ok(self)
                } else if action == StakeAction::Withdraw && amount > self.miner_vault_amount {
                    Err(ErrorCode::InsufficientBalance)
                } else {
                    match self.quarry.spec_process_stake_action(action, now, self.rewarder, self.miner, amount) {
                        Err(e) => Err(e),
                        Ok((q, m)) => match action {
                            StakeAction::Stake => {
                                if amount > self.token_account_amount {
                                    Err(ErrorCode::InsufficientBalance)
                                } else if self.miner_vault_amount + amount > u64::MAX {
                                    Err(ErrorCode::IntegerOverflow)
                                } else {
                                    Ok(UserStake {
                                        quarry: q,
                                        miner: m,
                                        token_account_amount: (self.token_account_amount - amount) as u64,
                                        miner_vault_amount: (self.miner_vault_amount + amount) as u64,
                                        ..self
                                    })
                                }
                            },
                            StakeAction::Withdraw => {
                                if self.token_account_amount + amount > u64::MAX {
                                    Err(ErrorCode::IntegerOverflow)
                                } else {
                                    Ok(UserStake {
                                        quarry: q,
                                        miner: m,
                                        token_account_amount: (self.token_account_amount + amount) as u64,
                                        miner_vault_amount: (self.miner_vault_amount - amount) as u64,
                                        ..self
                                    })
                                }
                            },
                        },
                    }
                }
            },
        }
    }
}

/// Stakes `amount` into the pool at `now`, after settling the pool and the
/// record, and moves the tokens from the staker's account into the vault.
/// On an error nothing changes.
pub fn stake_tokens(ctx: &mut UserStake, now: i64, amount: u64) -> (r: Result<(), ErrorCode>)
    ensures
        match old(ctx).spec_stake_action(StakeAction::Stake, now, amount) {
            Ok(c) => r is Ok && *final(ctx) == c,
            Err(e) => r == Err::<(), _>(e) && *final(ctx) == *old(ctx),
        },
{
    match ctx.validate() {
        Ok(()) => {},
        Err(e) => return Err(e),
    }
    if amount == 0 {
        return Ok(());
    }
    let mut c = *ctx;
    match c.quarry.process_stake_action_internal(StakeAction::Stake, now, &ctx.rewarder, &mut c.miner, amount) {
        Ok(()) => {},
        Err(e) => return Err(e),
    }
    if amount > c.token_account_amount {
        return Err(ErrorCode::InsufficientBalance);
    }
    let vault = match c.miner_vault_amount.checked_add(amount) {
        Some(v) => v,
        None => return Err(ErrorCode::IntegerOverflow),
    };
    c.token_account_amount = c.token_account_amount - amount;
    c.miner_vault_amount = vault;
    *ctx = c;
    Ok(())
}

/// Withdraws `amount` from the pool at `now`, after settling the pool and
/// the record, and moves the tokens from the vault back to the staker's
/// account. On an error nothing changes.
pub fn withdraw_tokens(ctx: &mut UserStake, now: i64, amount: u64) -> (r: Result<(), ErrorCode>)
    ensures
        match old(ctx).spec_stake_action(StakeAction::Withdraw, now, amount) {
            Ok(c) => r is Ok && *final(ctx) == c,
            Err(e) => r == Err::<(), _>(e) && *final(ctx) == *old(ctx),
        },
{
    match ctx.validate() {
        Ok(()) => {},
        Err(e) => return Err(e),
    }
    if amount == 0 {
        return Ok(());
    }
    if amount > ctx.miner_vault_amount {
        return Err(ErrorCode::InsufficientBalance);
    }
    let mut c = *ctx;
    match c.quarry.process_stake_action_internal(StakeAction::Withdraw, now, &ctx.rewarder, &mut c.miner, amount) {
        Ok(()) => {},
        Err(e) => return Err(e),
    }
    let held = match c.token_account_amount.checked_add(amount) {
        Some(v) => v,
        None => return Err(ErrorCode::IntegerOverflow),
    };
    c.token_account_amount = held;
    c.miner_vault_amount = c.miner_vault_amount - amount;
    *ctx = c;
    Ok(())
}

/// The bytes of the owner of the account that fees are extracted to.
pub open spec fn fee_to_bytes() -> Seq<u8> {
    seq![
        49u8, 201, 235, 150, 87, 115, 54, 86, 49, 117, 227, 179, 66, 58, 249, 148,
        16, 166, 17, 163, 40, 170, 172, 75, 167, 102, 44, 242, 51, 32, 186, 121,
    ]
}

/// The owner of the account that fees are extracted to.
pub fn fee_to() -> (r: Pubkey)
    ensures
        r.bytes@ == fee_to_bytes(),
{
    let r = Pubkey::new([
        49u8, 201, 235, 150, 87, 115, 54, 86, 49, 117, 227, 179, 66, 58, 249, 148,
        16, 166, 17, 163, 40, 170, 172, 75, 167, 102, 44, 242, 51, 32, 186, 121,
    ]);
    assert(r.bytes@ =~= fee_to_bytes());
    r
}

/// The records that moving collected claim fees reads and changes.
#[derive(Clone, Copy, Debug)]
pub struct ExtractFees {
    /// The allocator whose fees are moved.
    pub rewarder: Rewarder,
    /// The account that collected the fees.
    pub claim_fee_token_account: TokenAccount,
    /// The account the fees go to.
    pub fee_to_token_account: TokenAccount,
}

impl ExtractFees {
    /// The outcome of checking both accounts against the allocator.
    pub open spec fn spec_validate(self) -> Result<(), ErrorCode> {
        let c = self.claim_fee_token_account;
        let f = self.fee_to_token_account;
        if self.rewarder.is_paused {
            Err(ErrorCode::Paused)
        } else if !key_eq(c.key, self.rewarder.claim_fee_token_account) || !key_eq(c.mint, self.rewarder.rewards_token_mint)
            || !key_eq(f.mint, self.rewarder.rewards_token_mint) || f.owner.bytes@ != fee_to_bytes() || key_eq(c.key, f.key) {
            Err(ErrorCode::InvalidLinkage)
        } else if c.has_delegate || c.has_close_authority || f.has_delegate || f.has_close_authority {
            Err(ErrorCode::InvariantFailed)
        } else {
            Ok(())
        }
    }
}

/// Moves every collected claim fee to the fee owner's account; anyone may.
/// Returns the amount moved. On an error nothing changes.
pub fn extract_fees(ctx: &mut ExtractFees) -> (r: Result<u64, ErrorCode>)
    ensures
        old(ctx).spec_validate() is Err ==> r == Err::<u64, _>(old(ctx).spec_validate()->Err_0),
        old(ctx).spec_validate() is Ok ==> match old(ctx).claim_fee_token_account.spec_transfer(
            old(ctx).fee_to_token_account,
            old(ctx).claim_fee_token_account.amount,
        ) {
            None => r == Err::<u64, _>(ErrorCode::IntegerOverflow),
            Some((c, f)) => r == Ok::<u64, ErrorCode>(old(ctx).claim_fee_token_account.amount)
                && *final(ctx) == (ExtractFees { claim_fee_token_account: c, fee_to_token_account: f, ..*old(ctx) }),
        },
        r is Err ==> *final(ctx) == *old(ctx),
{
    let owner = fee_to();
    let c = ctx.claim_fee_token_account;
    let f = ctx.fee_to_token_account;
    match ctx.rewarder.assert_not_paused() {
        Ok(()) => {},
        Err(e) => return Err(e),
    }
    if c.key != ctx.rewarder.claim_fee_token_account || c.mint != ctx.rewarder.rewards_token_mint
        || f.mint != ctx.rewarder.rewards_token_mint || f.owner != owner || c.key == f.key {
        return Err(ErrorCode::InvalidLinkage);
    }
    if c.has_delegate || c.has_close_authority || f.has_delegate || f.has_close_authority {
        return Err(ErrorCode::InvariantFailed);
    }
    let amount = c.amount;
    let to = match f.amount.checked_add(amount) {
        Some(v) => v,
        None => return Err(ErrorCode::IntegerOverflow),
    };
    ctx.claim_fee_token_account.amount = 0;
    ctx.fee_to_token_account.amount = to;
    Ok(amount)
}

/// The records that moving stray tokens out of a depositor's account reads
/// and changes.
#[derive(Clone, Copy, Debug)]
pub struct RescueTokens {
    /// The depositor record.
    pub miner: Miner,
    /// Address of the depositor record.
    pub miner_key: Pubkey,
    /// Who asks for the rescue.
    pub authority: Pubkey,
    /// An account of the record other than its vault.
    pub miner_token_account: TokenAccount,
    /// Where the tokens go.
    pub destination_token_account: TokenAccount,
}

impl RescueTokens {
    /// The outcome of checking the owner and the accounts.
    pub open spec fn spec_validate(self) -> Result<(), ErrorCode> {
        if !key_eq(self.miner.authority, self.authority) {
            Err(ErrorCode::Unauthorized)
        } else if key_eq(self.miner.token_vault_key, self.miner_token_account.key)
            || key_eq(self.miner.token_vault_key, self.destination_token_account.key)
            || !key_eq(self.miner_token_account.owner, self.miner_key)
            || !key_eq(self.miner_token_account.mint, self.destination_token_account.mint) {
            Err(ErrorCode::InvalidLinkage)
        } else {
            Ok(())
        }
    }

    /// Checks that the owner asks, that neither account is the vault, and
    /// that the tokens belong to the record and match the destination.
    pub fn validate(&self) -> (r: Result<(), ErrorCode>)
        ensures
            r == self.spec_validate(),
    {
        if self.miner.authority != self.authority {
            return Err(ErrorCode::Unauthorized);
        }
        if self.miner.token_vault_key == self.miner_token_account.key
            || self.miner.token_vault_key == self.destination_token_account.key
            || self.miner_token_account.owner != self.miner_key
            || self.miner_token_account.mint != self.destination_token_account.mint {
            return Err(ErrorCode::InvalidLinkage);
        }
        Ok(())
    }
}

/// Moves every token of a record's account other than its vault to the
/// destination. Returns the amount moved. On an error nothing changes.
pub fn rescue_tokens(ctx: &mut RescueTokens) -> (r: Result<u64, ErrorCode>)
    ensures
        old(ctx).spec_validate() is Err ==> r == Err::<u64, _>(old(ctx).spec_validate()->Err_0),
        old(ctx).spec_validate() is Ok ==> match old(ctx).miner_token_account.spec_transfer(
            old(ctx).destination_token_account,
            old(ctx).miner_token_account.amount,
        ) {
            None => r == Err::<u64, _>(ErrorCode::IntegerOverflow),
            Some((s, d)) => r == Ok::<u64, ErrorCode>(old(ctx).miner_token_account.amount)
                && *final(ctx) == (RescueTokens { miner_token_account: s, destination_token_account: d, ..*old(ctx) }),
        },
        r is Err ==> *final(ctx) == *old(ctx),
{
    match ctx.validate() {
        Ok(()) => {},
        Err(e) => return Err(e),
    }
    let amount = ctx.miner_token_account.amount;
    let to = match ctx.destination_token_account.amount.checked_add(amount) {
        Some(v) => v,
        None => return Err(ErrorCode::IntegerOverflow),
    };
    ctx.miner_token_account.amount = 0;
    ctx.destination_token_account.amount = to;
    Ok(amount)
}

} // verus!

verus! {

/// Creates a pool for a token under the allocator, which counts it; only
/// the allocator's authority may, and not while it is paused. The pool
/// starts with no share and no expiry. On an error nothing changes.
pub fn create_quarry(
    rewarder: &mut Rewarder,
    rewarder_key: Pubkey,
    signer: &Pubkey,
    token_mint_key: Pubkey,
    token_mint_decimals: u8,
    bump: u8,
) -> (r: Result<Quarry, ErrorCode>)
    ensures
        old(rewarder).is_paused ==> r == Err::<Quarry, _>(ErrorCode::Paused),
        !old(rewarder).is_paused && !key_eq(old(rewarder).authority, *signer) ==> r == Err::<Quarry, _>(ErrorCode::Unauthorized),
        !old(rewarder).is_paused && key_eq(old(rewarder).authority, *signer) && old(rewarder).num_quarries == u16::MAX
            ==> r == Err::<Quarry, _>(ErrorCode::IntegerOverflow),
        r is Err ==> *final(rewarder) == *old(rewarder),
        !old(rewarder).is_paused && key_eq(old(rewarder).authority, *signer) && old(rewarder).num_quarries < u16::MAX
            ==> r == Ok::<Quarry, ErrorCode>(Quarry {
                rewarder: rewarder_key,
                token_mint_key,
                bump,
                index: old(rewarder).num_quarries,
                token_mint_decimals,
                famine_ts: i64::MAX,
                last_update_ts: 0,
                rewards_per_token_stored: 0,
                annual_rewards_rate: 0,
                rewards_share: 0,
                total_tokens_deposited: 0,
                num_miners: 0,
            }) && *final(rewarder) == (Rewarder { num_quarries: (old(rewarder).num_quarries + 1) as u16, ..*old(rewarder) }),
{
    match rewarder.assert_not_paused() {
        Ok(()) => {},
        Err(e) => return Err(e),
    }
    match require_signer(&rewarder.authority, signer) {
        Ok(()) => {},
        Err(e) => return Err(e),
    }
    let index = rewarder.num_quarries;
    let next = match index.checked_add(1) {
        Some(v) => v,
        None => return Err(ErrorCode::IntegerOverflow),
    };
    rewarder.num_quarries = next;
    Ok(Quarry {
        rewarder: rewarder_key,
        token_mint_key,
        bump,
        index,
        token_mint_decimals,
        famine_ts: i64::MAX,
        last_update_ts: 0,
        rewards_per_token_stored: 0,
        annual_rewards_rate: 0,
        rewards_share: 0,
        total_tokens_deposited: 0,
        num_miners: 0,
    })
}

} // verus!
