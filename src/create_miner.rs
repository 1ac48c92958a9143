//! Creating a depositor record in a pool.
use vstd::prelude::*;
use crate::error::ErrorCode;
use crate::key::{key_eq, Pubkey};
use crate::state::{Miner, Quarry, Rewarder};

verus! {

/// What creating a depositor record reads and changes.
#[derive(Clone, Copy, Debug)]
pub struct CreateMiner {
    /// Owner of the new record.
    pub authority: Pubkey,
    /// Address of the new record.
    pub miner_key: Pubkey,
    /// Bump seed of the record's address.
    pub bump: u8,
    /// The pool, which counts its records.
    pub quarry: Quarry,
    /// Address of the pool.
    pub quarry_key: Pubkey,
    /// The pool's allocator.
    pub rewarder: Rewarder,
    /// Address of the allocator.
    pub rewarder_key: Pubkey,
    /// The vault that will hold the record's stake.
    pub miner_vault_key: Pubkey,
    /// Owner of the vault.
    pub miner_vault_owner: Pubkey,
    /// Token of the vault.
    pub miner_vault_mint: Pubkey,
}

/// A depositor record was created.
#[derive(Clone, Copy, Debug, PartialEq, Eq)]
pub struct MinerCreateEvent {
    pub authority: Pubkey,
    pub quarry: Pubkey,
    pub miner: Pubkey,
}

impl CreateMiner {
    /// The outcome of checking the allocator, the pool and the vault.
    pub open spec fn spec_validate(self) -> Result<(), ErrorCode> {
        if self.rewarder.is_paused {
            Err(ErrorCode::Paused)
        } else if !key_eq(self.miner_vault_owner, self.miner_key)
            || !key_eq(self.miner_vault_mint, self.quarry.token_mint_key)
            || !key_eq(self.quarry.rewarder, self.rewarder_key) {
            Err(ErrorCode::InvalidLinkage)
        } else {
            Ok(())
        }
    }

    /// Checks that the allocator runs, that the vault belongs to the new
    /// record and holds the pool's token, and that the pool belongs to the
    /// allocator.
    pub fn validate(&self) -> (r: Result<(), ErrorCode>)
        ensures
            r == self.spec_validate(),
    {
        match self.rewarder.assert_not_paused() {
            Ok(()) => {},
            Err(e) => return Err(e),
        }
        if self.miner_vault_owner != self.miner_key || self.miner_vault_mint != self.quarry.token_mint_key
            || self.quarry.rewarder != self.rewarder_key {
            return Err(ErrorCode::InvalidLinkage);
        }
        Ok(())
    }
}

/// Creates an empty depositor record, indexed by the pool's count of
/// records, which grows by one. On an error nothing changes.
pub fn handler(ctx: &mut CreateMiner) -> (r: Result<(Miner, MinerCreateEvent), ErrorCode>)
    ensures
        old(ctx).spec_validate() is Err ==> r == Err::<(Miner, MinerCreateEvent), _>(old(ctx).spec_validate()->Err_0)
            && *final(ctx) == *old(ctx),
        old(ctx).spec_validate() is Ok && old(ctx).quarry.num_miners == u64::MAX
            ==> r == Err::<(Miner, MinerCreateEvent), _>(ErrorCode::IntegerOverflow) && *final(ctx) == *old(ctx),
        old(ctx).spec_validate() is Ok && old(ctx).quarry.num_miners < u64::MAX ==> r == Ok::<(Miner, MinerCreateEvent), ErrorCode>((
            Miner {
                quarry: old(ctx).quarry_key,
                authority: old(ctx).authority,
                bump: old(ctx).bump,
                token_vault_key: old(ctx).miner_vault_key,
                rewards_earned: 0,
                rewards_per_token_paid: 0,
                balance: 0,
                index: old(ctx).quarry.num_miners,
            },
            MinerCreateEvent { authority: old(ctx).authority, quarry: old(ctx).quarry_key, miner: old(ctx).miner_key },
        )) && *final(ctx) == (CreateMiner {
            quarry: Quarry { num_miners: (old(ctx).quarry.num_miners + 1) as u64, ..old(ctx).quarry },
            ..*old(ctx)
        }),
{
    match ctx.validate() {
        Ok(()) => {},
        Err(e) => return Err(e),
    }
    let index = ctx.quarry.num_miners;
    let next = match index.checked_add(1) {
        Some(v) => v,
        None => return Err(ErrorCode::IntegerOverflow),
    };
    ctx.quarry.num_miners = next;
    let miner = Miner {
        quarry: ctx.quarry_key,
        authority: ctx.authority,
        bump: ctx.bump,
        token_vault_key: ctx.miner_vault_key,
        rewards_earned: 0,
        rewards_per_token_paid: 0,
        balance: 0,
        index,
    };
    Ok((miner, MinerCreateEvent { authority: ctx.authority, quarry: ctx.quarry_key, miner: ctx.miner_key }))
}

} // verus!
