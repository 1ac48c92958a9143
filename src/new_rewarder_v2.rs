//! Creating an allocator.
use vstd::prelude::*;
use crate::error::ErrorCode;
use crate::key::{key_eq, Pubkey};
use crate::mint_wrapper::MintWrapper;
use crate::rewarder::DEFAULT_CLAIM_FEE_MILLIBPS;
use crate::state::Rewarder;

verus! {

/// What creating an allocator reads.
#[derive(Clone, Copy, Debug)]
pub struct NewRewarderV2 {
    /// Random address the allocator's address derives from.
    pub base: Pubkey,
    /// Whether the base signed the operation.
    pub base_is_signer: bool,
    /// Address of the new allocator.
    pub rewarder_key: Pubkey,
    /// Bump seed of the allocator's address.
    pub bump: u8,
    /// First authority of the allocator.
    pub initial_authority: Pubkey,
    /// Address of the mint wrapper of the reward token.
    pub mint_wrapper_key: Pubkey,
    /// The mint wrapper of the reward token.
    pub mint_wrapper: MintWrapper,
    /// The reward token.
    pub rewards_token_mint: Pubkey,
    /// Account that will collect claim fees.
    pub claim_fee_token_account: Pubkey,
    /// Owner of the fee account.
    pub claim_fee_token_account_owner: Pubkey,
    /// Token of the fee account.
    pub claim_fee_token_account_mint: Pubkey,
}

/// An allocator was created.
#[derive(Clone, Copy, Debug, PartialEq, Eq)]
pub struct NewRewarderEvent {
    pub authority: Pubkey,
    pub timestamp: i64,
}

impl NewRewarderV2 {
    /// The outcome of checking the base, the wrapper and the fee account.
    pub open spec fn spec_validate(self) -> Result<(), ErrorCode> {
        if !self.base_is_signer {
            Err(ErrorCode::Unauthorized)
        } else if !key_eq(self.mint_wrapper.token_mint, self.rewards_token_mint)
            || !key_eq(self.claim_fee_token_account_owner, self.rewarder_key)
            || !key_eq(self.claim_fee_token_account_mint, self.rewards_token_mint) {
            Err(ErrorCode::InvalidLinkage)
        } else {
            Ok(())
        }
    }

    /// Checks that the base signed, that the wrapper mints the reward
    /// token, and that the fee account holds it and belongs to the new
    /// allocator.
    pub fn validate(&self) -> (r: Result<(), ErrorCode>)
        ensures
            r == self.spec_validate(),
    {
        if !self.base_is_signer {
            return Err(ErrorCode::Unauthorized);
        }
        if self.mint_wrapper.token_mint != self.rewards_token_mint
            || self.claim_fee_token_account_owner != self.rewarder_key
            || self.claim_fee_token_account_mint != self.rewards_token_mint {
            return Err(ErrorCode::InvalidLinkage);
        }
        Ok(())
    }
}

/// Creates an allocator with no pools, no shares, a zero rate, the default
/// claim fee and no pause authority.
pub fn handler(ctx: &NewRewarderV2, now: i64) -> (r: Result<(Rewarder, NewRewarderEvent), ErrorCode>)
    ensures
        ctx.spec_validate() is Err ==> r == Err::<(Rewarder, NewRewarderEvent), _>(ctx.spec_validate()->Err_0),
        ctx.spec_validate() is Ok ==> r is Ok,
        r matches Ok((rw, ev)) ==> {
            &&& rw.base == ctx.base && rw.bump == ctx.bump && rw.authority == ctx.initial_authority
            &&& rw.pending_authority.is_zeroed() && rw.pause_authority.is_zeroed() && !rw.is_paused
            &&& rw.num_quarries == 0 && rw.annual_rewards_rate == 0 && rw.total_rewards_shares == 0
            &&& rw.mint_wrapper == ctx.mint_wrapper_key && rw.rewards_token_mint == ctx.rewards_token_mint
            &&& rw.claim_fee_token_account == ctx.claim_fee_token_account
            &&& rw.max_claim_fee_millibps == DEFAULT_CLAIM_FEE_MILLIBPS
            &&& ev == (NewRewarderEvent { authority: ctx.initial_authority, timestamp: now })
        },
{
    match ctx.validate() {
        Ok(()) => {},
        Err(e) => return Err(e),
    }
    let rewarder = Rewarder {
        base: ctx.base,
        bump: ctx.bump,
        authority: ctx.initial_authority,
        pending_authority: Pubkey::zeroed(),
        num_quarries: 0,
        annual_rewards_rate: 0,
        total_rewards_shares: 0,
        mint_wrapper: ctx.mint_wrapper_key,
        rewards_token_mint: ctx.rewards_token_mint,
        claim_fee_token_account: ctx.claim_fee_token_account,
        max_claim_fee_millibps: DEFAULT_CLAIM_FEE_MILLIBPS,
        pause_authority: Pubkey::zeroed(),
        is_paused: false,
    };
    Ok((rewarder, NewRewarderEvent { authority: ctx.initial_authority, timestamp: now }))
}

} // verus!
