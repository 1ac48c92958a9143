//! The operator: an allocator authority that hands its powers out to
//! separate roles.
use vstd::prelude::*;
use crate::error::ErrorCode;
use crate::key::{key_eq, Pubkey};
use crate::quarry_mine::{create_quarry, set_annual_rewards, set_famine, set_rewards_share};
use crate::state::{Quarry, Rewarder};

verus! {

/// An allocator's authority split into roles.
#[derive(Clone, Copy, Debug)]
pub struct Operator {
    /// Random address the record's own address derives from.
    pub base: Pubkey,
    /// Bump seed of the record's address.
    pub bump: u8,
    /// The allocator operated.
    pub rewarder: Pubkey,
    /// Who may assign the roles.
    pub admin: Pubkey,
    /// Who may set the annual rate.
    pub rate_setter: Pubkey,
    /// Who may create pools.
    pub quarry_creator: Pubkey,
    /// Who may set pool shares and expiries.
    pub share_allocator: Pubkey,
    /// Time of the last change.
    pub last_modified_ts: i64,
    /// Number of changes.
    pub generation: u64,
}

/// A role of an operator.
#[derive(Clone, Copy, Debug, PartialEq, Eq, Structural)]
pub enum Role {
    /// Assigns the roles.
    Admin,
    /// Sets the annual rate.
    RateSetter,
    /// Creates pools.
    QuarryCreator,
    /// Sets pool shares and expiries.
    ShareAllocator,
}

impl Operator {
    /// Serialized size of the record.
    pub const LEN: usize = 32 + 1 + 32 + 32 + 32 + 32 + 32 + 8 + 8;

    /// Stamps a change at `now`. On an error nothing changes.
    pub fn record_update(&mut self, now: i64) -> (r: Result<(), ErrorCode>)
        ensures
            old(self).generation == u64::MAX ==> r == Err::<(), _>(ErrorCode::IntegerOverflow) && *final(self) == *old(self),
            old(self).generation < u64::MAX ==> r is Ok && *final(self) == (Operator {
                last_modified_ts: now,
                generation: (old(self).generation + 1) as u64,
                ..*old(self)
            }),
    {
        let next = match self.generation.checked_add(1) {
            Some(v) => v,
            None => return Err(ErrorCode::IntegerOverflow),
        };
        self.last_modified_ts = now;
        self.generation = next;
        Ok(())
    }

    /// The operator with `role` given to `delegate`.
    pub open spec fn spec_with_role(self, role: Role, delegate: Pubkey) -> Operator {
        match role {
            Role::Admin => Operator { admin: delegate, ..self },
            Role::RateSetter => Operator { rate_setter: delegate, ..self },
            Role::QuarryCreator => Operator { quarry_creator: delegate, ..self },
            Role::ShareAllocator => Operator { share_allocator: delegate, ..self },
        }
    }

    /// Gives `role` to `delegate`; only the admin may. On an error nothing
    /// changes.
    pub fn set_role(&mut self, signer: &Pubkey, role: Role, delegate: Pubkey, now: i64) -> (r: Result<(), ErrorCode>)
        ensures
            !key_eq(old(self).admin, *signer) ==> r == Err::<(), _>(ErrorCode::Unauthorized) && *final(self) == *old(self),
            key_eq(old(self).admin, *signer) && old(self).generation == u64::MAX
                ==> r == Err::<(), _>(ErrorCode::IntegerOverflow) && *final(self) == *old(self),
            key_eq(old(self).admin, *signer) && old(self).generation < u64::MAX ==> r is Ok
                && *final(self) == (Operator {
                    last_modified_ts: now,
                    generation: (old(self).generation + 1) as u64,
                    ..old(self).spec_with_role(role, delegate)
                }),
    {
        if self.admin != *signer {
            return Err(ErrorCode::Unauthorized);
        }
        let mut op = *self;
        match role {
            Role::Admin => op.admin = delegate,
            Role::RateSetter => op.rate_setter = delegate,
            Role::QuarryCreator => op.quarry_creator = delegate,
            Role::ShareAllocator => op.share_allocator = delegate,
        }
        match op.record_update(now) {
            Ok(()) => {},
            Err(e) => return Err(e),
        }
        *self = op;
        Ok(())
    }

    /// Gives the admin role to `delegate`; only the admin may.
    pub fn set_admin(&mut self, signer: &Pubkey, delegate: Pubkey, now: i64) -> (r: Result<(), ErrorCode>)
        ensures
            !key_eq(old(self).admin, *signer) ==> r == Err::<(), _>(ErrorCode::Unauthorized) && *final(self) == *old(self),
            key_eq(old(self).admin, *signer) && old(self).generation == u64::MAX
                ==> r == Err::<(), _>(ErrorCode::IntegerOverflow) && *final(self) == *old(self),
            key_eq(old(self).admin, *signer) && old(self).generation < u64::MAX ==> r is Ok
                && *final(self) == (Operator {
                    last_modified_ts: now,
                    generation: (old(self).generation + 1) as u64,
                    ..old(self).spec_with_role(Role::Admin, delegate)
                }),
    {
        self.set_role(signer, Role::Admin, delegate, now)
    }

    /// Gives the rate-setter role to `delegate`; only the admin may.
    pub fn set_rate_setter(&mut self, signer: &Pubkey, delegate: Pubkey, now: i64) -> (r: Result<(), ErrorCode>)
        ensures
            !key_eq(old(self).admin, *signer) ==> r == Err::<(), _>(ErrorCode::Unauthorized) && *final(self) == *old(self),
            key_eq(old(self).admin, *signer) && old(self).generation == u64::MAX
                ==> r == Err::<(), _>(ErrorCode::IntegerOverflow) && *final(self) == *old(self),
            key_eq(old(self).admin, *signer) && old(self).generation < u64::MAX ==> r is Ok
                && *final(self) == (Operator {
                    last_modified_ts: now,
                    generation: (old(self).generation + 1) as u64,
                    ..old(self).spec_with_role(Role::RateSetter, delegate)
                }),
    {
        self.set_role(signer, Role::RateSetter, delegate, now)
    }

    /// Gives the pool-creator role to `delegate`; only the admin may.
    pub fn set_quarry_creator(&mut self, signer: &Pubkey, delegate: Pubkey, now: i64) -> (r: Result<(), ErrorCode>)
        ensures
            !key_eq(old(self).admin, *signer) ==> r == Err::<(), _>(ErrorCode::Unauthorized) && *final(self) == *old(self),
            key_eq(old(self).admin, *signer) && old(self).generation == u64::MAX
                ==> r == Err::<(), _>(ErrorCode::IntegerOverflow) && *final(self) == *old(self),
            key_eq(old(self).admin, *signer) && old(self).generation < u64::MAX ==> r is Ok
                && *final(self) == (Operator {
                    last_modified_ts: now,
                    generation: (old(self).generation + 1) as u64,
                    ..old(self).spec_with_role(Role::QuarryCreator, delegate)
                }),
    {
        self.set_role(signer, Role::QuarryCreator, delegate, now)
    }

    /// Gives the share-allocator role to `delegate`; only the admin may.
    pub fn set_share_allocator(&mut self, signer: &Pubkey, delegate: Pubkey, now: i64) -> (r: Result<(), ErrorCode>)
        ensures
            !key_eq(old(self).admin, *signer) ==> r == Err::<(), _>(ErrorCode::Unauthorized) && *final(self) == *old(self),
            key_eq(old(self).admin, *signer) && old(self).generation == u64::MAX
                ==> r == Err::<(), _>(ErrorCode::IntegerOverflow) && *final(self) == *old(self),
            key_eq(old(self).admin, *signer) && old(self).generation < u64::MAX ==> r is Ok
                && *final(self) == (Operator {
                    last_modified_ts: now,
                    generation: (old(self).generation + 1) as u64,
                    ..old(self).spec_with_role(Role::ShareAllocator, delegate)
                }),
    {
        self.set_role(signer, Role::ShareAllocator, delegate, now)
    }

    /// The outcome of checking that the operator runs the allocator.
    pub open spec fn spec_check_delegate(self, operator_key: Pubkey, rewarder: Rewarder, rewarder_key: Pubkey) -> Result<(), ErrorCode> {
        if !key_eq(self.rewarder, rewarder_key) || !key_eq(operator_key, rewarder.authority) {
            Err(ErrorCode::InvalidLinkage)
        } else {
            Ok(())
        }
    }

    fn check_delegate(&self, operator_key: &Pubkey, rewarder: &Rewarder, rewarder_key: &Pubkey) -> (r: Result<(), ErrorCode>)
        ensures
            r == self.spec_check_delegate(*operator_key, *rewarder, *rewarder_key),
    {
        if self.rewarder != *rewarder_key || *operator_key != rewarder.authority {
            return Err(ErrorCode::InvalidLinkage);
        }
        Ok(())
    }

    /// Sets the allocator's annual rate on behalf of the rate setter;
    /// returns the previous rate. On an error nothing changes.
    pub fn delegate_set_annual_rewards(
        &self,
        operator_key: &Pubkey,
        signer: &Pubkey,
        rewarder: &mut Rewarder,
        rewarder_key: &Pubkey,
        new_rate: u64,
    ) -> (r: Result<u64, ErrorCode>)
        ensures
            !key_eq(self.rate_setter, *signer) ==> r == Err::<u64, _>(ErrorCode::Unauthorized),
            key_eq(self.rate_setter, *signer) && self.spec_check_delegate(*operator_key, *old(rewarder), *rewarder_key) is Err
                ==> r == Err::<u64, _>(ErrorCode::InvalidLinkage),
            key_eq(self.rate_setter, *signer) && self.spec_check_delegate(*operator_key, *old(rewarder), *rewarder_key) is Ok
                ==> {
                &&& old(rewarder).is_paused ==> r == Err::<u64, _>(ErrorCode::Paused)
                &&& !old(rewarder).is_paused && new_rate > crate::rewarder::MAX_ANNUAL_REWARDS_RATE
                    ==> r == Err::<u64, _>(ErrorCode::MaxAnnualRewardsRateExceeded)
                &&& !old(rewarder).is_paused && new_rate <= crate::rewarder::MAX_ANNUAL_REWARDS_RATE
                    ==> r == Ok::<u64, ErrorCode>(old(rewarder).annual_rewards_rate)
                        && *final(rewarder) == (Rewarder { annual_rewards_rate: new_rate, ..*old(rewarder) })
            },
            r is Err ==> *final(rewarder) == *old(rewarder),
    {
        if self.rate_setter != *signer {
            return Err(ErrorCode::Unauthorized);
        }
        match self.check_delegate(operator_key, rewarder, rewarder_key) {
            Ok(()) => {},
            Err(e) => return Err(e),
        }
        set_annual_rewards(rewarder, operator_key, new_rate)
    }

    /// The outcome of checking the share allocator and the pool.
    pub open spec fn spec_check_share_allocator(self, operator_key: Pubkey, signer: Pubkey, rewarder: Rewarder, rewarder_key: Pubkey, quarry: Quarry) -> Result<(), ErrorCode> {
        if !key_eq(quarry.rewarder, rewarder_key) || !key_eq(self.share_allocator, signer) {
            Err(ErrorCode::Unauthorized)
        } else {
            self.spec_check_delegate(operator_key, rewarder, rewarder_key)
        }
    }

    /// Changes a pool's share on behalf of the share allocator. On an
    /// error nothing changes.
    pub fn delegate_set_rewards_share(
        &self,
        operator_key: &Pubkey,
        signer: &Pubkey,
        rewarder: &mut Rewarder,
        rewarder_key: &Pubkey,
        quarry: &mut Quarry,
        now: i64,
        new_share: u64,
    ) -> (r: Result<(), ErrorCode>)
        ensures
            self.spec_check_share_allocator(*operator_key, *signer, *old(rewarder), *rewarder_key, *old(quarry)) is Err
                ==> r == Err::<(), _>(self.spec_check_share_allocator(*operator_key, *signer, *old(rewarder), *rewarder_key, *old(quarry))->Err_0),
            self.spec_check_share_allocator(*operator_key, *signer, *old(rewarder), *rewarder_key, *old(quarry)) is Ok
                ==> match crate::quarry_mine::spec_check_pool_admin(*old(rewarder), *rewarder_key, *old(quarry), *operator_key) {
                Err(e) => r == Err::<(), _>(e),
                Ok(_) => match crate::quarry_mine::spec_set_rewards_share(*old(rewarder), *old(quarry), now, new_share) {
                    Err(e) => r == Err::<(), _>(e),
                    Ok((rw, q)) => r is Ok && *final(rewarder) == rw && *final(quarry) == q,
                },
            },
            r is Err ==> *final(rewarder) == *old(rewarder) && *final(quarry) == *old(quarry),
    {
        if quarry.rewarder != *rewarder_key || self.share_allocator != *signer {
            return Err(ErrorCode::Unauthorized);
        }
        match self.check_delegate(operator_key, rewarder, rewarder_key) {
            Ok(()) => {},
            Err(e) => return Err(e),
        }
        set_rewards_share(rewarder, rewarder_key, quarry, operator_key, now, new_share)
    }

    /// Sets a pool's expiry on behalf of the share allocator. On an error
    /// nothing changes.
    pub fn delegate_set_famine(
        &self,
        operator_key: &Pubkey,
        signer: &Pubkey,
        rewarder: &Rewarder,
        rewarder_key: &Pubkey,
        quarry: &mut Quarry,
        famine_ts: i64,
    ) -> (r: Result<(), ErrorCode>)
        ensures
            self.spec_check_share_allocator(*operator_key, *signer, *rewarder, *rewarder_key, *old(quarry)) is Err
                ==> r == Err::<(), _>(self.spec_check_share_allocator(*operator_key, *signer, *rewarder, *rewarder_key, *old(quarry))->Err_0),
            self.spec_check_share_allocator(*operator_key, *signer, *rewarder, *rewarder_key, *old(quarry)) is Ok
                ==> r == crate::quarry_mine::spec_check_pool_admin(*rewarder, *rewarder_key, *old(quarry), *operator_key),
            r is Ok ==> *final(quarry) == (Quarry { famine_ts, ..*old(quarry) }),
            r is Err ==> *final(quarry) == *old(quarry),
    {
        if quarry.rewarder != *rewarder_key || self.share_allocator != *signer {
            return Err(ErrorCode::Unauthorized);
        }
        match self.check_delegate(operator_key, rewarder, rewarder_key) {
            Ok(()) => {},
            Err(e) => return Err(e),
        }
        set_famine(rewarder, rewarder_key, quarry, operator_key, famine_ts)
    }

    /// Creates a pool on behalf of the pool creator. On an error nothing
    /// changes.
    pub fn delegate_create_quarry(
        &self,
        operator_key: &Pubkey,
        signer: &Pubkey,
        rewarder: &mut Rewarder,
        rewarder_key: &Pubkey,
        token_mint_key: Pubkey,
        token_mint_decimals: u8,
        bump: u8,
    ) -> (r: Result<Quarry, ErrorCode>)
        ensures
            !key_eq(self.quarry_creator, *signer) ==> r == Err::<Quarry, _>(ErrorCode::Unauthorized),
            key_eq(self.quarry_creator, *signer) && self.spec_check_delegate(*operator_key, *old(rewarder), *rewarder_key) is Err
                ==> r == Err::<Quarry, _>(ErrorCode::InvalidLinkage),
            key_eq(self.quarry_creator, *signer) && self.spec_check_delegate(*operator_key, *old(rewarder), *rewarder_key) is Ok
                ==> {
                &&& old(rewarder).is_paused ==> r == Err::<Quarry, _>(ErrorCode::Paused)
                &&& !old(rewarder).is_paused && old(rewarder).num_quarries == u16::MAX
                    ==> r == Err::<Quarry, _>(ErrorCode::IntegerOverflow)
                &&& !old(rewarder).is_paused && old(rewarder).num_quarries < u16::MAX ==> r == Ok::<Quarry, ErrorCode>(Quarry {
                    rewarder: *rewarder_key,
                    token_mint_key,
                    bump,
                    index: old(rewarder).num_quarries,
                    token_mint_decimals,
                    famine_ts: i64::MAX,
                    last_update_ts: 0,
                    rewards_per_token_stored: 0,
                    annual_rewards_rate: 0,
                    rewards_share: 0,
                    total_tokens_deposited: 0,
                    num_miners: 0,
                }) && *final(rewarder) == (Rewarder { num_quarries: (old(rewarder).num_quarries + 1) as u16, ..*old(rewarder) })
            },
            r is Err ==> *final(rewarder) == *old(rewarder),
    {
        if self.quarry_creator != *signer {
            return Err(ErrorCode::Unauthorized);
        }
        match self.check_delegate(operator_key, rewarder, rewarder_key) {
            Ok(()) => {},
            Err(e) => return Err(e),
        }
        create_quarry(rewarder, *rewarder_key, operator_key, token_mint_key, token_mint_decimals, bump)
    }
}

} // verus!
