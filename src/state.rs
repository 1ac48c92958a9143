//! The records of the engine: allocator, pool and depositor.
use vstd::prelude::*;
use crate::key::Pubkey;

verus! {

/// The allocator: owns the global annual reward rate and the split of it
/// into pool shares.
#[derive(Clone, Copy, Debug)]
pub struct Rewarder {
    /// Random address the record's own address derives from.
    pub base: Pubkey,
    /// Bump seed of the record's address.
    pub bump: u8,
    /// Authority who controls the allocator.
    pub authority: Pubkey,
    /// Authority proposed to take over; zero when none is.
    pub pending_authority: Pubkey,
    /// Number of pools the allocator manages.
    pub num_quarries: u16,
    /// Reward tokens distributed per year over all pools.
    pub annual_rewards_rate: u64,
    /// Sum of the shares of all pools.
    pub total_rewards_shares: u64,
    /// Mint wrapper the rewards are minted through.
    pub mint_wrapper: Pubkey,
    /// Mint of the reward token.
    pub rewards_token_mint: Pubkey,
    /// Token account that collects claim fees.
    pub claim_fee_token_account: Pubkey,
    /// Claim fee in thousandths of a basis point.
    pub max_claim_fee_millibps: u64,
    /// Authority allowed to pause the allocator.
    pub pause_authority: Pubkey,
    /// Whether all operations but unpausing are stopped.
    pub is_paused: bool,
}

/// A pool ("quarry") into which one token is staked.
#[derive(Clone, Copy, Debug)]
pub struct Quarry {
    /// Allocator of the pool.
    pub rewarder: Pubkey,
    /// Mint of the staked token.
    pub token_mint_key: Pubkey,
    /// Bump seed of the record's address.
    pub bump: u8,
    /// Index of the pool within its allocator.
    pub index: u16,
    /// Decimals of the staked token.
    pub token_mint_decimals: u8,
    /// Time after which rewards stop accruing.
    pub famine_ts: i64,
    /// Time of the last checkpoint.
    pub last_update_ts: i64,
    /// Rewards per staked token since inception, scaled by the precision.
    pub rewards_per_token_stored: u128,
    /// Rewards distributed to the pool per year.
    pub annual_rewards_rate: u64,
    /// Share of the allocator's rate given to the pool.
    pub rewards_share: u64,
    /// Tokens staked in the pool.
    pub total_tokens_deposited: u64,
    /// Number of depositors.
    pub num_miners: u64,
}

/// A depositor's record ("miner") in one pool.
#[derive(Clone, Copy, Debug)]
pub struct Miner {
    /// The pool the record stakes into.
    pub quarry: Pubkey,
    /// The owner of the stake.
    pub authority: Pubkey,
    /// Bump seed of the record's address.
    pub bump: u8,
    /// Token account that holds the staked tokens.
    pub token_vault_key: Pubkey,
    /// Rewards accrued and not yet claimed.
    pub rewards_earned: u64,
    /// The pool's rewards per token at the record's last checkpoint.
    pub rewards_per_token_paid: u128,
    /// Tokens staked.
    pub balance: u64,
    /// Index of the record within its pool.
    pub index: u64,
}

/// What the engine reads of a token account.
#[derive(Clone, Copy, Debug)]
pub struct TokenAccount {
    /// Address of the account.
    pub key: Pubkey,
    /// The token held.
    pub mint: Pubkey,
    /// Owner of the account.
    pub owner: Pubkey,
    /// Tokens held.
    pub amount: u64,
    /// Whether a delegate may move the tokens.
    pub has_delegate: bool,
    /// Whether someone other than the owner may close the account.
    pub has_close_authority: bool,
}

impl TokenAccount {
    /// The account after moving `amount` tokens to `to`: the destination,
    /// or `None` where the source holds too little or the destination
    /// would overflow.
    pub open spec fn spec_transfer(self, to: TokenAccount, amount: u64) -> Option<(TokenAccount, TokenAccount)> {
        if amount > self.amount || to.amount + amount > u64::MAX {
            None
        } else {
            Some((TokenAccount { amount: (self.amount - amount) as u64, ..self }, TokenAccount { amount: (to.amount + amount) as u64, ..to }))
        }
    }
}

impl Rewarder {
    /// Serialized size of the record.
    pub const LEN: usize = 32 + 1 + 32 + 32 + 2 + 8 + 8 + 32 + 32 + 32 + 8 + 32 + 1;

    /// Fails when the allocator is paused.
    pub fn assert_not_paused(&self) -> (r: Result<(), crate::error::ErrorCode>)
        ensures
            r is Ok <==> !self.is_paused,
            r is Err ==> r == Err::<(), _>(crate::error::ErrorCode::Paused),
    {
        if self.is_paused {
            Err(crate::error::ErrorCode::Paused)
        } else {
            Ok(())
        }
    }
}

impl Quarry {
    /// Serialized size of the record.
    pub const LEN: usize = 32 + 32 + 1 + 2 + 1 + 8 + 8 + 16 + 8 + 8 + 8 + 8;
}

impl Miner {
    /// Serialized size of the record.
    pub const LEN: usize = 32 + 32 + 1 + 32 + 8 + 16 + 8 + 8;
}

impl Default for Rewarder {
    fn default() -> (r: Rewarder)
        ensures
            r.base.is_zeroed() && r.authority.is_zeroed() && r.pending_authority.is_zeroed(),
            r.mint_wrapper.is_zeroed() && r.rewards_token_mint.is_zeroed(),
            r.claim_fee_token_account.is_zeroed() && r.pause_authority.is_zeroed(),
            r.bump == 0 && r.num_quarries == 0 && r.annual_rewards_rate == 0,
            r.total_rewards_shares == 0 && r.max_claim_fee_millibps == 0 && !r.is_paused,
    {
        Rewarder {
            base: Pubkey::zeroed(),
            bump: 0,
            authority: Pubkey::zeroed(),
            pending_authority: Pubkey::zeroed(),
            num_quarries: 0,
            annual_rewards_rate: 0,
            total_rewards_shares: 0,
            mint_wrapper: Pubkey::zeroed(),
            rewards_token_mint: Pubkey::zeroed(),
            claim_fee_token_account: Pubkey::zeroed(),
            max_claim_fee_millibps: 0,
            pause_authority: Pubkey::zeroed(),
            is_paused: false,
        }
    }
}

impl Default for Quarry {
    fn default() -> (r: Quarry)
        ensures
            r.rewarder.is_zeroed() && r.token_mint_key.is_zeroed(),
            r.bump == 0 && r.index == 0 && r.token_mint_decimals == 0,
            r.famine_ts == 0 && r.last_update_ts == 0 && r.rewards_per_token_stored == 0,
            r.annual_rewards_rate == 0 && r.rewards_share == 0,
            r.total_tokens_deposited == 0 && r.num_miners == 0,
    {
        Quarry {
            rewarder: Pubkey::zeroed(),
            token_mint_key: Pubkey::zeroed(),
            bump: 0,
            index: 0,
            token_mint_decimals: 0,
            famine_ts: 0,
            last_update_ts: 0,
            rewards_per_token_stored: 0,
            annual_rewards_rate: 0,
            rewards_share: 0,
            total_tokens_deposited: 0,
            num_miners: 0,
        }
    }
}

impl Default for Miner {
    fn default() -> (r: Miner)
        ensures
            r.quarry.is_zeroed() && r.authority.is_zeroed() && r.token_vault_key.is_zeroed(),
            r.bump == 0 && r.rewards_earned == 0 && r.rewards_per_token_paid == 0,
            r.balance == 0 && r.index == 0,
    {
        Miner {
            quarry: Pubkey::zeroed(),
            authority: Pubkey::zeroed(),
            bump: 0,
            token_vault_key: Pubkey::zeroed(),
            rewards_earned: 0,
            rewards_per_token_paid: 0,
            balance: 0,
            index: 0,
        }
    }
}

} // verus!
