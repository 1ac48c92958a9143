//! Merge mining: one primary stake backs replica tokens, minted one to one,
//! that stake in further pools at the same time.
use vstd::prelude::*;
use crate::error::{ErrorCode, ErrorKind};
use crate::claim_rewards_v2::{handler as claim_handler, ClaimRewardsV2};
use crate::create_miner::{handler as create_miner_handler, CreateMiner, MinerCreateEvent};
use crate::events::{
    ClaimEvent, InitMergeMinerEvent, InitMinerEvent, NewMergePoolEvent, StakePrimaryEvent, StakeReplicaEvent,
    UnstakePrimaryEvent, UnstakeReplicaEvent, WithdrawTokensEvent,
};
use crate::key::{key_eq, Pubkey};
use crate::quarry::StakeAction;
use crate::state::TokenAccount;
use crate::quarry_mine::{
    rescue_tokens as rescue_miner_tokens, stake_tokens, withdraw_tokens as withdraw_staked, RescueTokens as MinerRescue,
    UserStake,
};

verus! {

/// A family of pools around one primary token and its replica token.
#[derive(Clone, Copy, Debug)]
pub struct MergePool {
    /// The primary token.
    pub primary_mint: Pubkey,
    /// Bump seed of the record's address.
    pub bump: u8,
    /// The replica token, minted by the pool.
    pub replica_mint: Pubkey,
    /// Number of positions.
    pub mm_count: u64,
    /// Primary tokens staked over all positions.
    pub total_primary_balance: u64,
    /// Replica tokens staked over all positions.
    pub total_replica_balance: u64,
    /// Space kept for later fields.
    pub reserved: [u64; 16],
}

/// A merge-mining position of one owner in a merge pool.
#[derive(Clone, Copy, Debug)]
pub struct MergeMiner {
    /// The merge pool.
    pub pool: Pubkey,
    /// The owner of the position.
    pub owner: Pubkey,
    /// Bump seed of the record's address.
    pub bump: u8,
    /// Index of the position within its pool.
    pub index: u64,
    /// Primary tokens staked.
    pub primary_balance: u64,
    /// Replica tokens staked, over all replica pools.
    pub replica_balance: u64,
}

impl MergePool {
    /// Serialized size of the record.
    pub const LEN: usize = 32 + 1 + 32 + 8 + 8 + 8 + 8 * 16;
}

impl MergeMiner {
    /// Serialized size of the record.
    pub const LEN: usize = 32 + 32 + 1 + 8 + 8 + 8;
}

impl Default for MergePool {
    fn default() -> (r: MergePool)
        ensures
            r.primary_mint.is_zeroed() && r.replica_mint.is_zeroed() && r.bump == 0,
            r.mm_count == 0 && r.total_primary_balance == 0 && r.total_replica_balance == 0,
            forall|i: int| 0 <= i < 16 ==> r.reserved[i] == 0,
    {
        MergePool {
            primary_mint: Pubkey::zeroed(),
            bump: 0,
            replica_mint: Pubkey::zeroed(),
            mm_count: 0,
            total_primary_balance: 0,
            total_replica_balance: 0,
            reserved: [0u64; 16],
        }
    }
}

impl Default for MergeMiner {
    fn default() -> (r: MergeMiner)
        ensures
            r.pool.is_zeroed() && r.owner.is_zeroed(),
            r.bump == 0 && r.index == 0 && r.primary_balance == 0 && r.replica_balance == 0,
    {
        MergeMiner {
            pool: Pubkey::zeroed(),
            owner: Pubkey::zeroed(),
            bump: 0,
            index: 0,
            primary_balance: 0,
            replica_balance: 0,
        }
    }
}

/// Creates a merge pool for a primary token and its replica token.
pub fn new_pool(pool_key: Pubkey, primary_mint: Pubkey, replica_mint: Pubkey, bump: u8) -> (r: (MergePool, NewMergePoolEvent))
    ensures
        r.0.primary_mint == primary_mint && r.0.replica_mint == replica_mint && r.0.bump == bump,
        r.0.mm_count == 0 && r.0.total_primary_balance == 0 && r.0.total_replica_balance == 0,
        forall|i: int| 0 <= i < 16 ==> r.0.reserved[i] == 0,
        r.1 == (NewMergePoolEvent { pool: pool_key, primary_mint }),
{
    let pool = MergePool {
        primary_mint,
        bump,
        replica_mint,
        mm_count: 0,
        total_primary_balance: 0,
        total_replica_balance: 0,
        reserved: [0u64; 16],
    };
    (pool, NewMergePoolEvent { pool: pool_key, primary_mint })
}

/// Creates an owner's position in a merge pool, which counts it. On an
/// error nothing changes.
pub fn init_merge_miner(pool: &mut MergePool, pool_key: Pubkey, mm_key: Pubkey, owner: Pubkey, bump: u8) -> (r: Result<(MergeMiner, InitMergeMinerEvent), ErrorCode>)
    ensures
        old(pool).mm_count == u64::MAX ==> r == Err::<(MergeMiner, InitMergeMinerEvent), _>(ErrorCode::IntegerOverflow)
            && *final(pool) == *old(pool),
        old(pool).mm_count < u64::MAX ==> r == Ok::<(MergeMiner, InitMergeMinerEvent), ErrorCode>((
            MergeMiner { pool: pool_key, owner, bump, index: old(pool).mm_count, primary_balance: 0, replica_balance: 0 },
            InitMergeMinerEvent { pool: pool_key, mm: mm_key, primary_mint: old(pool).primary_mint, owner },
        )) && *final(pool) == (MergePool { mm_count: (old(pool).mm_count + 1) as u64, ..*old(pool) }),
{
    let index = pool.mm_count;
    let next = match index.checked_add(1) {
        Some(v) => v,
        None => return Err(ErrorCode::IntegerOverflow),
    };
    pool.mm_count = next;
    let mm = MergeMiner { pool: pool_key, owner, bump, index, primary_balance: 0, replica_balance: 0 };
    Ok((mm, InitMergeMinerEvent { pool: pool_key, mm: mm_key, primary_mint: pool.primary_mint, owner }))
}

/// A position staking into the pool of the primary token.
#[derive(Clone, Copy, Debug)]
pub struct QuarryStakePrimary {
    /// The position.
    pub mm: MergeMiner,
    /// Address of the position, the authority of its depositor records.
    pub mm_key: Pubkey,
    /// The merge pool.
    pub pool: MergePool,
    /// Address of the merge pool.
    pub pool_key: Pubkey,
    /// Who asks for the operation.
    pub mm_owner: Pubkey,
    /// Address of the depositor record.
    pub miner_key: Pubkey,
    /// The depositor record in the primary pool, with the position's
    /// primary token account as the staker's account.
    pub stake: UserStake,
}

/// A position staking into a pool of the replica token.
#[derive(Clone, Copy, Debug)]
pub struct QuarryStakeReplica {
    /// The position.
    pub mm: MergeMiner,
    /// Address of the position, the authority of its depositor records.
    pub mm_key: Pubkey,
    /// The merge pool.
    pub pool: MergePool,
    /// Address of the merge pool.
    pub pool_key: Pubkey,
    /// Who asks for the operation.
    pub mm_owner: Pubkey,
    /// Address of the depositor record.
    pub miner_key: Pubkey,
    /// Supply of the replica token.
    pub replica_mint_supply: u64,
    /// The depositor record in the replica pool, with the position's
    /// replica token account as the staker's account.
    pub stake: UserStake,
}

impl QuarryStakePrimary {
    /// The outcome of checking the owner and the links of the position.
    pub open spec fn spec_validate(self) -> Result<(), ErrorCode> {
        if !key_eq(self.mm_owner, self.mm.owner) {
            Err(ErrorCode::Unauthorized)
        } else if !key_eq(self.mm.pool, self.pool_key) || !key_eq(self.stake.authority, self.mm_key)
            || !key_eq(self.stake.quarry.token_mint_key, self.pool.primary_mint) {
            Err(ErrorCode::InvalidLinkage)
        } else {
            Ok(())
        }
    }

    /// Checks the owner, and that the record stakes the primary token for
    /// this position.
    pub fn validate(&self) -> (r: Result<(), ErrorCode>)
        ensures
            r == self.spec_validate(),
    {
        if self.mm_owner != self.mm.owner {
            return Err(ErrorCode::Unauthorized);
        }
        if self.mm.pool != self.pool_key || self.stake.authority != self.mm_key
            || self.stake.quarry.token_mint_key != self.pool.primary_mint {
            return Err(ErrorCode::InvalidLinkage);
        }
        Ok(())
    }

    /// The records after staking all primary tokens the position holds,
    /// with the amount staked.
    pub open spec fn spec_stake_primary(self, now: i64) -> Result<(QuarryStakePrimary, u64), ErrorCode> {
        match self.spec_validate() {
            Err(e) => Err(e),
            Ok(_) => {
                let amount = self.stake.token_account_amount;
                match (if amount == 0 { Ok::<UserStake, ErrorCode>(self.stake) } else { self.stake.spec_stake_action(StakeAction::Stake, now, amount) }) {
                    Err(e) => Err(e),
                    Ok(st) => {
                        if self.mm.primary_balance + amount > u64::MAX
                            || self.pool.total_primary_balance + amount > u64::MAX {
                            Err(ErrorCode::IntegerOverflow)
                        } else if self.mm.primary_balance + amount != st.miner.balance {
                            Err(ErrorCode::InvariantFailed)
                        } else {
                            Ok((QuarryStakePrimary {
                                mm: MergeMiner { primary_balance: (self.mm.primary_balance + amount) as u64, ..self.mm },
                                pool: MergePool {
                                    total_primary_balance: (self.pool.total_primary_balance + amount) as u64,
                                    ..self.pool
                                },
                                stake: st,
                                ..self
                            }, amount))
                        }
                    },
                }
            },
        }
    }

    /// The records after unstaking `amount` primary tokens. Refused while
    /// any replica tokens of the position are staked.
    pub open spec fn spec_unstake_primary(self, now: i64, amount: u64) -> Result<QuarryStakePrimary, ErrorCode> {
        if self.mm.replica_balance != 0 {
            Err(ErrorCode::OutstandingReplicaTokens)
        } else {
            match self.spec_validate() {
                Err(e) => Err(e),
                Ok(_) => {
                    if amount > self.mm.primary_balance || amount > self.stake.miner.balance {
                        Err(ErrorCode::InsufficientBalance)
                    } else {
                        match (if amount == 0 { Ok::<UserStake, ErrorCode>(self.stake) } else { self.stake.spec_stake_action(StakeAction::Withdraw, now, amount) }) {
                            Err(e) => Err(e),
                            Ok(st) => {
                                if self.pool.total_primary_balance < amount {
                                    Err(ErrorCode::IntegerOverflow)
                                } else if self.mm.primary_balance - amount != st.miner.balance {
                                    Err(ErrorCode::InvariantFailed)
                                } else {
                                    Ok(QuarryStakePrimary {
                                        mm: MergeMiner { primary_balance: (self.mm.primary_balance - amount) as u64, ..self.mm },
                                        pool: MergePool {
                                            total_primary_balance: (self.pool.total_primary_balance - amount) as u64,
                                            ..self.pool
                                        },
                                        stake: st,
                                        ..self
                                    })
                                }
                            },
                        }
                    }
                },
            }
        }
    }
}

impl QuarryStakeReplica {
    /// The outcome of checking the owner and the links of the position.
    pub open spec fn spec_validate(self) -> Result<(), ErrorCode> {
        if !key_eq(self.mm_owner, self.mm.owner) {
            Err(ErrorCode::Unauthorized)
        } else if !key_eq(self.mm.pool, self.pool_key) || !key_eq(self.stake.authority, self.mm_key)
            || !key_eq(self.stake.quarry.token_mint_key, self.pool.replica_mint) {
            Err(ErrorCode::InvalidLinkage)
        } else {
            Ok(())
        }
    }

    /// Checks the owner, and that the record stakes the replica token for
    /// this position.
    pub fn validate(&self) -> (r: Result<(), ErrorCode>)
        ensures
            r == self.spec_validate(),
    {
        if self.mm_owner != self.mm.owner {
            return Err(ErrorCode::Unauthorized);
        }
        if self.mm.pool != self.pool_key || self.stake.authority != self.mm_key
            || self.stake.quarry.token_mint_key != self.pool.replica_mint {
            return Err(ErrorCode::InvalidLinkage);
        }
        Ok(())
    }

    /// The records after topping the replica stake up to the primary
    /// balance: replica tokens are minted to the position and staked at
    /// once. Returns the amount minted and staked.
    pub open spec fn spec_stake_replica(self, now: i64) -> Result<(QuarryStakeReplica, u64), ErrorCode> {
        match self.spec_validate() {
            Err(e) => Err(e),
            Ok(_) => {
                if self.stake.miner.balance != self.stake.miner_vault_amount {
                    Err(ErrorCode::InvariantFailed)
                } else if self.mm.primary_balance < self.stake.miner.balance {
                    Err(ErrorCode::IntegerOverflow)
                } else {
                    let amount = (self.mm.primary_balance - self.stake.miner.balance) as u64;
                    if self.replica_mint_supply + amount > u64::MAX
                        || self.stake.token_account_amount + amount > u64::MAX {
                        Err(ErrorCode::IntegerOverflow)
                    } else {
                        let minted = UserStake {
                            token_account_amount: (self.stake.token_account_amount + amount) as u64,
                            ..self.stake
                        };
                        match (if amount == 0 { Ok::<UserStake, ErrorCode>(minted) } else { minted.spec_stake_action(StakeAction::Stake, now, amount) }) {
                            Err(e) => Err(e),
                            Ok(st) => {
                                if self.mm.replica_balance + amount > u64::MAX
                                    || self.pool.total_replica_balance + amount > u64::MAX {
                                    Err(ErrorCode::IntegerOverflow)
                                } else if self.mm.primary_balance != st.miner.balance
                                    || st.miner.balance != st.miner_vault_amount
                                    || st.token_account_amount != 0 {
                                    Err(ErrorCode::InvariantFailed)
                                } else {
                                    Ok((QuarryStakeReplica {
                                        mm: MergeMiner { replica_balance: (self.mm.replica_balance + amount) as u64, ..self.mm },
                                        pool: MergePool {
                                            total_replica_balance: (self.pool.total_replica_balance + amount) as u64,
                                            ..self.pool
                                        },
                                        replica_mint_supply: (self.replica_mint_supply + amount) as u64,
                                        stake: st,
                                        ..self
                                    }, amount))
                                }
                            },
                        }
                    }
                }
            },
        }
    }

    /// The records after unstaking the whole replica stake and burning the
    /// replica tokens. Returns the amount unstaked and burned.
    pub open spec fn spec_unstake_all_replica(self, now: i64) -> Result<(QuarryStakeReplica, u64), ErrorCode> {
        match self.spec_validate() {
            Err(e) => Err(e),
            Ok(_) => {
                if self.stake.miner.balance != self.stake.miner_vault_amount {
                    Err(ErrorCode::InvariantFailed)
                } else {
                    let amount = self.stake.miner.balance;
                    match (if amount == 0 { Ok::<UserStake, ErrorCode>(self.stake) } else { self.stake.spec_stake_action(StakeAction::Withdraw, now, amount) }) {
                        Err(e) => Err(e),
                        Ok(st) => {
                            if st.token_account_amount < amount {
                                Err(ErrorCode::InsufficientBalance)
                            } else if self.replica_mint_supply < amount || self.mm.replica_balance < amount
                                || self.pool.total_replica_balance < amount {
                                Err(ErrorCode::IntegerOverflow)
                            } else if st.miner.balance != 0 || st.miner_vault_amount != 0
                                || st.token_account_amount != amount {
                                Err(ErrorCode::InvariantFailed)
                            } else {
                                Ok((QuarryStakeReplica {
                                    mm: MergeMiner { replica_balance: (self.mm.replica_balance - amount) as u64, ..self.mm },
                                    pool: MergePool {
                                        total_replica_balance: (self.pool.total_replica_balance - amount) as u64,
                                        ..self.pool
                                    },
                                    replica_mint_supply: (self.replica_mint_supply - amount) as u64,
                                    stake: UserStake { token_account_amount: 0, ..st },
                                    ..self
                                }, amount))
                            }
                        },
                    }
                }
            },
        }
    }
}

/// Stakes all primary tokens the position holds into the primary pool at
/// `now`, and checks that the position's primary balance equals the
/// record's balance afterwards. On an error nothing changes.
pub fn stake_primary_miner(ctx: &mut QuarryStakePrimary, now: i64) -> (r: Result<StakePrimaryEvent, ErrorCode>)
    ensures
        match old(ctx).spec_stake_primary(now) {
            Ok((c, amount)) => *final(ctx) == c && r == Ok::<StakePrimaryEvent, ErrorCode>(StakePrimaryEvent {
                pool: old(ctx).pool_key,
                mm: old(ctx).mm_key,
                miner: old(ctx).miner_key,
                owner: old(ctx).mm.owner,
                amount,
            }),
            Err(e) => r == Err::<StakePrimaryEvent, _>(e) && *final(ctx) == *old(ctx),
        },
{
    match ctx.validate() {
        Ok(()) => {},
        Err(e) => return Err(e),
    }
    let amount = ctx.stake.token_account_amount;
    let mut st = ctx.stake;
    if amount > 0 {
        match stake_tokens(&mut st, now, amount) {
            Ok(()) => {},
            Err(e) => return Err(e),
        }
    }
    let primary = match ctx.mm.primary_balance.checked_add(amount) {
        Some(v) => v,
        None => return Err(ErrorCode::IntegerOverflow),
    };
    let total = match ctx.pool.total_primary_balance.checked_add(amount) {
        Some(v) => v,
        None => return Err(ErrorCode::IntegerOverflow),
    };
    if primary != st.miner.balance {
        return Err(ErrorCode::InvariantFailed);
    }
    ctx.mm.primary_balance = primary;
    ctx.pool.total_primary_balance = total;
    ctx.stake = st;
    Ok(StakePrimaryEvent { pool: ctx.pool_key, mm: ctx.mm_key, miner: ctx.miner_key, owner: ctx.mm.owner, amount })
}

/// Tops the replica stake up to the primary balance at `now`: mints the
/// missing replica tokens to the position and stakes them, then checks that
/// the record's balance equals the primary balance and that the position
/// holds no replica tokens. On an error nothing changes.
pub fn stake_replica_miner(ctx: &mut QuarryStakeReplica, now: i64) -> (r: Result<StakeReplicaEvent, ErrorCode>)
    ensures
        match old(ctx).spec_stake_replica(now) {
            Ok((c, amount)) => *final(ctx) == c && r == Ok::<StakeReplicaEvent, ErrorCode>(StakeReplicaEvent {
                pool: old(ctx).pool_key,
                mm: old(ctx).mm_key,
                miner: old(ctx).miner_key,
                owner: old(ctx).mm.owner,
                amount,
            }),
            Err(e) => r == Err::<StakeReplicaEvent, _>(e) && *final(ctx) == *old(ctx),
        },
{
    match ctx.validate() {
        Ok(()) => {},
        Err(e) => return Err(e),
    }
    if ctx.stake.miner.balance != ctx.stake.miner_vault_amount {
        return Err(ErrorCode::InvariantFailed);
    }
    let amount = match ctx.mm.primary_balance.checked_sub(ctx.stake.miner.balance) {
        Some(v) => v,
        None => return Err(ErrorCode::IntegerOverflow),
    };
    let supply = match ctx.replica_mint_supply.checked_add(amount) {
        Some(v) => v,
        None => return Err(ErrorCode::IntegerOverflow),
    };
    let held = match ctx.stake.token_account_amount.checked_add(amount) {
        Some(v) => v,
        None => return Err(ErrorCode::IntegerOverflow),
    };
    let mut st = ctx.stake;
    st.token_account_amount = held;
    if amount > 0 {
        match stake_tokens(&mut st, now, amount) {
            Ok(()) => {},
            Err(e) => return Err(e),
        }
    }
    let replica = match ctx.mm.replica_balance.checked_add(amount) {
        Some(v) => v,
        None => return Err(ErrorCode::IntegerOverflow),
    };
    let total = match ctx.pool.total_replica_balance.checked_add(amount) {
        Some(v) => v,
        None => return Err(ErrorCode::IntegerOverflow),
    };
    if ctx.mm.primary_balance != st.miner.balance || st.miner.balance != st.miner_vault_amount
        || st.token_account_amount != 0 {
        return Err(ErrorCode::InvariantFailed);
    }
    ctx.mm.replica_balance = replica;
    ctx.pool.total_replica_balance = total;
    ctx.replica_mint_supply = supply;
    ctx.stake = st;
    Ok(StakeReplicaEvent { pool: ctx.pool_key, mm: ctx.mm_key, miner: ctx.miner_key, owner: ctx.mm.owner, amount })
}

/// Unstakes `amount` primary tokens at `now`, back to the position's
/// account. Refused while any replica tokens of the position are staked.
/// On an error nothing changes.
pub fn unstake_primary_miner(ctx: &mut QuarryStakePrimary, now: i64, amount: u64) -> (r: Result<UnstakePrimaryEvent, ErrorCode>)
    ensures
        match old(ctx).spec_unstake_primary(now, amount) {
            Ok(c) => *final(ctx) == c && r == Ok::<UnstakePrimaryEvent, ErrorCode>(UnstakePrimaryEvent {
                pool: old(ctx).pool_key,
                mm: old(ctx).mm_key,
                miner: old(ctx).miner_key,
                owner: old(ctx).mm.owner,
                amount,
            }),
            Err(e) => r == Err::<UnstakePrimaryEvent, _>(e) && *final(ctx) == *old(ctx),
        },
{
    if ctx.mm.replica_balance != 0 {
        return Err(ErrorCode::OutstandingReplicaTokens);
    }
    match ctx.validate() {
        Ok(()) => {},
        Err(e) => return Err(e),
    }
    if amount > ctx.mm.primary_balance || amount > ctx.stake.miner.balance {
        return Err(ErrorCode::InsufficientBalance);
    }
    let mut st = ctx.stake;
    if amount > 0 {
        match withdraw_staked(&mut st, now, amount) {
            Ok(()) => {},
            Err(e) => return Err(e),
        }
    }
    let total = match ctx.pool.total_primary_balance.checked_sub(amount) {
        Some(v) => v,
        None => return Err(ErrorCode::IntegerOverflow),
    };
    let primary = ctx.mm.primary_balance - amount;
    if primary != st.miner.balance {
        return Err(ErrorCode::InvariantFailed);
    }
    ctx.mm.primary_balance = primary;
    ctx.pool.total_primary_balance = total;
    ctx.stake = st;
    Ok(UnstakePrimaryEvent { pool: ctx.pool_key, mm: ctx.mm_key, miner: ctx.miner_key, owner: ctx.mm.owner, amount })
}

/// Unstakes the whole replica stake of the position from one replica pool
/// at `now` and burns the replica tokens, then checks that nothing is left
/// staked or held. On an error nothing changes.
pub fn unstake_all_replica_miner(ctx: &mut QuarryStakeReplica, now: i64) -> (r: Result<UnstakeReplicaEvent, ErrorCode>)
    ensures
        match old(ctx).spec_unstake_all_replica(now) {
            Ok((c, amount)) => *final(ctx) == c && r == Ok::<UnstakeReplicaEvent, ErrorCode>(UnstakeReplicaEvent {
                pool: old(ctx).pool_key,
                mm: old(ctx).mm_key,
                miner: old(ctx).miner_key,
                owner: old(ctx).mm.owner,
                amount,
            }),
            Err(e) => r == Err::<UnstakeReplicaEvent, _>(e) && *final(ctx) == *old(ctx),
        },
{
    match ctx.validate() {
        Ok(()) => {},
        Err(e) => return Err(e),
    }
    if ctx.stake.miner.balance != ctx.stake.miner_vault_amount {
        return Err(ErrorCode::InvariantFailed);
    }
    let amount = ctx.stake.miner.balance;
    let mut st = ctx.stake;
    if amount > 0 {
        match withdraw_staked(&mut st, now, amount) {
            Ok(()) => {},
            Err(e) => return Err(e),
        }
    }
    if st.token_account_amount < amount {
        return Err(ErrorCode::InsufficientBalance);
    }
    if ctx.replica_mint_supply < amount || ctx.mm.replica_balance < amount
        || ctx.pool.total_replica_balance < amount {
        return Err(ErrorCode::IntegerOverflow);
    }
    if st.miner.balance != 0 || st.miner_vault_amount != 0 || st.token_account_amount != amount {
        return Err(ErrorCode::InvariantFailed);
    }
    st.token_account_amount = 0;
    ctx.replica_mint_supply = ctx.replica_mint_supply - amount;
    ctx.mm.replica_balance = ctx.mm.replica_balance - amount;
    ctx.pool.total_replica_balance = ctx.pool.total_replica_balance - amount;
    ctx.stake = st;
    Ok(UnstakeReplicaEvent { pool: ctx.pool_key, mm: ctx.mm_key, miner: ctx.miner_key, owner: ctx.mm.owner, amount })
}

/// Tokens a position holds outside any pool, sent to an account of its
/// owner.
#[derive(Clone, Copy, Debug)]
pub struct WithdrawTokens {
    /// The position.
    pub mm: MergeMiner,
    /// Address of the position.
    pub mm_key: Pubkey,
    /// The merge pool.
    pub pool: MergePool,
    /// Address of the merge pool.
    pub pool_key: Pubkey,
    /// Who asks for the withdrawal.
    pub owner: Pubkey,
    /// The token withdrawn.
    pub withdraw_mint: Pubkey,
    /// The position's account of that token.
    pub mm_token_account: TokenAccount,
    /// The account that receives the tokens.
    pub token_destination: TokenAccount,
}

impl WithdrawTokens {
    /// The outcome of checking the owner, the pool, the token and both
    /// accounts.
    pub open spec fn spec_validate(self) -> Result<(), ErrorCode> {
        let src = self.mm_token_account;
        let dst = self.token_destination;
        if !key_eq(self.owner, self.mm.owner) {
            Err(ErrorCode::Unauthorized)
        } else if !key_eq(self.pool_key, self.mm.pool) || !key_eq(self.withdraw_mint, src.mint) {
            Err(ErrorCode::InvalidLinkage)
        } else if key_eq(self.withdraw_mint, self.pool.replica_mint) {
            Err(ErrorCode::CannotWithdrawReplicaMint)
        } else if key_eq(src.key, dst.key) {
            Err(ErrorCode::InvalidLinkage)
        } else if key_eq(self.withdraw_mint, self.pool.primary_mint) && self.mm.replica_balance != 0 {
            Err(ErrorCode::OutstandingReplicaTokens)
        } else if !key_eq(src.owner, self.mm_key) {
            Err(ErrorCode::InvalidLinkage)
        } else if src.has_delegate || src.has_close_authority {
            Err(ErrorCode::InvariantFailed)
        } else if !key_eq(dst.mint, self.withdraw_mint) {
            Err(ErrorCode::InvalidLinkage)
        } else {
            Ok(())
        }
    }

    /// Checks the owner and the pool, refuses the replica token, refuses
    /// the primary token while replica tokens are staked, and checks that
    /// the two accounts differ, hold the token, and that the position owns
    /// the source outright.
    pub fn validate(&self) -> (r: Result<(), ErrorCode>)
        ensures
            r == self.spec_validate(),
    {
        let src = &self.mm_token_account;
        let dst = &self.token_destination;
        if self.owner != self.mm.owner {
            return Err(ErrorCode::Unauthorized);
        }
        if self.pool_key != self.mm.pool || self.withdraw_mint != src.mint {
            return Err(ErrorCode::InvalidLinkage);
        }
        if self.withdraw_mint == self.pool.replica_mint {
            return Err(ErrorCode::CannotWithdrawReplicaMint);
        }
        if src.key == dst.key {
            return Err(ErrorCode::InvalidLinkage);
        }
        if self.withdraw_mint == self.pool.primary_mint && self.mm.replica_balance != 0 {
            return Err(ErrorCode::OutstandingReplicaTokens);
        }
        if src.owner != self.mm_key {
            return Err(ErrorCode::InvalidLinkage);
        }
        if src.has_delegate || src.has_close_authority {
            return Err(ErrorCode::InvariantFailed);
        }
        if dst.mint != self.withdraw_mint {
            return Err(ErrorCode::InvalidLinkage);
        }
        Ok(())
    }
}

/// Sends all tokens the position holds of one token to its owner's
/// account. Nothing happens when it holds none; on an error nothing
/// changes.
pub fn withdraw_tokens(ctx: &mut WithdrawTokens) -> (r: Result<Option<WithdrawTokensEvent>, ErrorCode>)
    ensures
        old(ctx).spec_validate() is Err ==> r == Err::<Option<WithdrawTokensEvent>, _>(old(ctx).spec_validate()->Err_0),
        r is Err ==> *final(ctx) == *old(ctx),
        old(ctx).spec_validate() is Ok && old(ctx).mm_token_account.amount == 0
            ==> r == Ok::<Option<WithdrawTokensEvent>, ErrorCode>(None) && *final(ctx) == *old(ctx),
        old(ctx).spec_validate() is Ok && old(ctx).mm_token_account.amount != 0 ==> match old(ctx).mm_token_account.spec_transfer(
            old(ctx).token_destination,
            old(ctx).mm_token_account.amount,
        ) {
            None => r == Err::<Option<WithdrawTokensEvent>, _>(ErrorCode::IntegerOverflow),
            Some((s, d)) => r == Ok::<Option<WithdrawTokensEvent>, ErrorCode>(Some(WithdrawTokensEvent {
                pool: old(ctx).pool_key,
                mm: old(ctx).mm_key,
                owner: old(ctx).mm.owner,
                mint: old(ctx).withdraw_mint,
                amount: old(ctx).mm_token_account.amount,
            })) && *final(ctx) == (WithdrawTokens { mm_token_account: s, token_destination: d, ..*old(ctx) }),
        },
{
    match ctx.validate() {
        Ok(()) => {},
        Err(e) => return Err(e),
    }
    let amount = ctx.mm_token_account.amount;
    if amount == 0 {
        return Ok(None);
    }
    let dest = match ctx.token_destination.amount.checked_add(amount) {
        Some(v) => v,
        None => return Err(ErrorCode::IntegerOverflow),
    };
    ctx.mm_token_account.amount = 0;
    ctx.token_destination.amount = dest;
    Ok(Some(WithdrawTokensEvent {
        pool: ctx.pool_key,
        mm: ctx.mm_key,
        owner: ctx.mm.owner,
        mint: ctx.withdraw_mint,
        amount,
    }))
}

/// After replica staking succeeds, the replica record's balance equals the
/// position's primary balance, the vault holds exactly that balance, the
/// position holds no replica tokens, and the replica supply grew by exactly
/// the amount staked.
pub proof fn lemma_stake_replica_one_to_one(ctx: QuarryStakeReplica, now: i64)
    requires
        ctx.spec_stake_replica(now) is Ok,
    ensures
        ({
            let (c, amount) = ctx.spec_stake_replica(now)->Ok_0;
            &&& c.stake.miner.balance == c.mm.primary_balance
            &&& c.stake.miner_vault_amount == c.stake.miner.balance
            &&& c.stake.token_account_amount == 0
            &&& c.replica_mint_supply == ctx.replica_mint_supply + amount
            &&& c.mm.replica_balance == ctx.mm.replica_balance + amount
        }),
{
}

/// Unstaking primary tokens fails, as an invariant violation, whenever the
/// position has replica tokens staked.
pub proof fn lemma_unstake_primary_gated(ctx: QuarryStakePrimary, now: i64, amount: u64)
    requires
        ctx.mm.replica_balance != 0,
    ensures
        ctx.spec_unstake_primary(now, amount) == Err::<QuarryStakePrimary, _>(ErrorCode::OutstandingReplicaTokens),
        ErrorCode::OutstandingReplicaTokens.spec_kind() == ErrorKind::InvariantViolation,
{
}

/// A position creating its depositor record in a pool of the primary or
/// the replica token.
#[derive(Clone, Copy, Debug)]
pub struct InitMiner {
    /// The position.
    pub mm: MergeMiner,
    /// Address of the position.
    pub mm_key: Pubkey,
    /// The merge pool.
    pub pool: MergePool,
    /// Address of the merge pool.
    pub pool_key: Pubkey,
    /// The record's creation, with the position as its owner.
    pub create: CreateMiner,
}

impl InitMiner {
    /// The outcome of checking the pool's token and the position.
    pub open spec fn spec_validate(self) -> Result<(), ErrorCode> {
        if !key_eq(self.create.quarry.token_mint_key, self.pool.primary_mint)
            && !key_eq(self.create.quarry.token_mint_key, self.pool.replica_mint) {
            Err(ErrorCode::InvalidMiner)
        } else if !key_eq(self.mm.pool, self.pool_key) || !key_eq(self.create.authority, self.mm_key) {
            Err(ErrorCode::InvalidLinkage)
        } else {
            Ok(())
        }
    }
}

/// Creates the position's depositor record in a pool that stakes the
/// primary or the replica token. On an error nothing changes.
pub fn init_miner(ctx: &mut InitMiner) -> (r: Result<(crate::state::Miner, InitMinerEvent), ErrorCode>)
    ensures
        old(ctx).spec_validate() is Err ==> r == Err::<(crate::state::Miner, InitMinerEvent), _>(old(ctx).spec_validate()->Err_0),
        r is Err ==> *final(ctx) == *old(ctx),
        old(ctx).spec_validate() is Ok && old(ctx).create.spec_validate() is Err
            ==> r == Err::<(crate::state::Miner, InitMinerEvent), _>(old(ctx).create.spec_validate()->Err_0),
        old(ctx).spec_validate() is Ok && old(ctx).create.spec_validate() is Ok
            && old(ctx).create.quarry.num_miners == u64::MAX
            ==> r == Err::<(crate::state::Miner, InitMinerEvent), _>(ErrorCode::IntegerOverflow),
        old(ctx).spec_validate() is Ok && old(ctx).create.spec_validate() is Ok
            && old(ctx).create.quarry.num_miners < u64::MAX ==> r == Ok::<(crate::state::Miner, InitMinerEvent), ErrorCode>((
                crate::state::Miner {
                    quarry: old(ctx).create.quarry_key,
                    authority: old(ctx).create.authority,
                    bump: old(ctx).create.bump,
                    token_vault_key: old(ctx).create.miner_vault_key,
                    rewards_earned: 0,
                    rewards_per_token_paid: 0,
                    balance: 0,
                    index: old(ctx).create.quarry.num_miners,
                },
                InitMinerEvent { pool: old(ctx).mm.pool, mm: old(ctx).mm_key, miner: old(ctx).create.miner_key },
            )) && *final(ctx) == (InitMiner {
                create: CreateMiner {
                    quarry: crate::state::Quarry {
                        num_miners: (old(ctx).create.quarry.num_miners + 1) as u64,
                        ..old(ctx).create.quarry
                    },
                    ..old(ctx).create
                },
                ..*old(ctx)
            }),
        r matches Ok((m, _)) ==> key_eq(m.authority, old(ctx).mm_key),
{
    if ctx.create.quarry.token_mint_key != ctx.pool.primary_mint
        && ctx.create.quarry.token_mint_key != ctx.pool.replica_mint {
        return Err(ErrorCode::InvalidMiner);
    }
    if ctx.mm.pool != ctx.pool_key || ctx.create.authority != ctx.mm_key {
        return Err(ErrorCode::InvalidLinkage);
    }
    let created: Result<(crate::state::Miner, MinerCreateEvent), ErrorCode> = create_miner_handler(&mut ctx.create);
    match created {
        Ok((miner, _)) => Ok((miner, InitMinerEvent { pool: ctx.mm.pool, mm: ctx.mm_key, miner: ctx.create.miner_key })),
        Err(e) => Err(e),
    }
}

/// A position claiming the rewards of one of its depositor records.
#[derive(Clone, Copy, Debug)]
pub struct ClaimRewards {
    /// The position.
    pub mm: MergeMiner,
    /// Address of the position.
    pub mm_key: Pubkey,
    /// The claim, made by the position.
    pub claim: ClaimRewardsV2,
    /// Reward tokens in the position's reward account.
    pub rewards_token_account_amount: u64,
}

/// Claims the rewards of a position's record into the position's reward
/// account, and reports its balance before and after. On an error nothing
/// changes.
pub fn claim_rewards(ctx: &mut ClaimRewards, now: i64) -> (r: Result<ClaimEvent, ErrorCode>)
    ensures
        !key_eq(old(ctx).claim.claim.authority, old(ctx).mm_key) ==> r == Err::<ClaimEvent, _>(ErrorCode::InvalidLinkage),
        r is Err ==> *final(ctx) == *old(ctx),
        key_eq(old(ctx).claim.claim.authority, old(ctx).mm_key) ==> match old(ctx).claim.spec_claim(now) {
            Err(e) => r == Err::<ClaimEvent, _>(e),
            Ok((c, (net, fee))) => {
                if old(ctx).rewards_token_account_amount + net > u64::MAX {
                    r == Err::<ClaimEvent, _>(ErrorCode::IntegerOverflow)
                } else {
                    &&& r == Ok::<ClaimEvent, ErrorCode>(ClaimEvent {
                        pool: old(ctx).mm.pool,
                        mm: old(ctx).mm_key,
                        mint: old(ctx).claim.rewards_token_mint,
                        amount: net,
                        initial_balance: old(ctx).rewards_token_account_amount,
                        end_balance: (old(ctx).rewards_token_account_amount + net) as u64,
                    })
                    &&& final(ctx).claim == c
                    &&& final(ctx).rewards_token_account_amount == old(ctx).rewards_token_account_amount + net
                    &&& final(ctx).mm == old(ctx).mm
                }
            },
        },
{
    if ctx.claim.claim.authority != ctx.mm_key {
        return Err(ErrorCode::InvalidLinkage);
    }
    let initial_balance = ctx.rewards_token_account_amount;
    let mut c = ctx.claim;
    let (net, _fee) = match claim_handler(&mut c, now) {
        Ok(v) => v,
        Err(e) => return Err(e),
    };
    let end_balance = match initial_balance.checked_add(net) {
        Some(v) => v,
        None => return Err(ErrorCode::IntegerOverflow),
    };
    ctx.claim = c;
    ctx.rewards_token_account_amount = end_balance;
    Ok(ClaimEvent {
        pool: ctx.mm.pool,
        mm: ctx.mm_key,
        mint: ctx.claim.rewards_token_mint,
        amount: net,
        initial_balance,
        end_balance,
    })
}

/// A position rescuing stray tokens from one of its depositor records.
#[derive(Clone, Copy, Debug)]
pub struct RescueTokens {
    /// Who asks for the rescue.
    pub mm_owner: Pubkey,
    /// The position.
    pub mm: MergeMiner,
    /// Address of the position.
    pub mm_key: Pubkey,
    /// The merge pool.
    pub merge_pool: MergePool,
    /// Address of the merge pool.
    pub merge_pool_key: Pubkey,
    /// The rescue from the record, made by the position.
    pub rescue: MinerRescue,
}

impl RescueTokens {
    /// The outcome of checking the owner, the pool and the token.
    pub open spec fn spec_validate(self) -> Result<(), ErrorCode> {
        if !key_eq(self.mm_owner, self.mm.owner) {
            Err(ErrorCode::Unauthorized)
        } else if !key_eq(self.merge_pool_key, self.mm.pool) || !key_eq(self.rescue.miner.authority, self.mm_key)
            || !key_eq(self.rescue.authority, self.mm_key) {
            Err(ErrorCode::InvalidLinkage)
        } else if key_eq(self.merge_pool.primary_mint, self.rescue.miner_token_account.mint)
            || key_eq(self.merge_pool.replica_mint, self.rescue.miner_token_account.mint) {
            Err(ErrorCode::CannotWithdrawReplicaMint)
        } else {
            Ok(())
        }
    }
}

/// Moves stray tokens out of one of the position's records; never the
/// primary or the replica token. Returns the amount moved. On an error
/// nothing changes.
pub fn rescue_tokens(ctx: &mut RescueTokens) -> (r: Result<u64, ErrorCode>)
    ensures
        old(ctx).spec_validate() is Err ==> r == Err::<u64, _>(old(ctx).spec_validate()->Err_0),
        old(ctx).spec_validate() is Ok && old(ctx).rescue.spec_validate() is Err
            ==> r == Err::<u64, _>(old(ctx).rescue.spec_validate()->Err_0),
        old(ctx).spec_validate() is Ok && old(ctx).rescue.spec_validate() is Ok ==> match old(ctx).rescue.miner_token_account.spec_transfer(
            old(ctx).rescue.destination_token_account,
            old(ctx).rescue.miner_token_account.amount,
        ) {
            None => r == Err::<u64, _>(ErrorCode::IntegerOverflow),
            Some((s, d)) => r == Ok::<u64, ErrorCode>(old(ctx).rescue.miner_token_account.amount)
                && final(ctx).rescue.miner_token_account == s && final(ctx).rescue.destination_token_account == d,
        },
        r is Err ==> *final(ctx) == *old(ctx),
        final(ctx).mm == old(ctx).mm && final(ctx).merge_pool == old(ctx).merge_pool,
{
    if ctx.mm_owner != ctx.mm.owner {
        return Err(ErrorCode::Unauthorized);
    }
    if ctx.merge_pool_key != ctx.mm.pool || ctx.rescue.miner.authority != ctx.mm_key || ctx.rescue.authority != ctx.mm_key {
        return Err(ErrorCode::InvalidLinkage);
    }
    if ctx.merge_pool.primary_mint == ctx.rescue.miner_token_account.mint
        || ctx.merge_pool.replica_mint == ctx.rescue.miner_token_account.mint {
        return Err(ErrorCode::CannotWithdrawReplicaMint);
    }
    rescue_miner_tokens(&mut ctx.rescue)
}

} // verus!
