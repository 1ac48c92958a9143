//! Records of the state changes of merge mining, returned to the caller.
use vstd::prelude::*;
use crate::key::Pubkey;

verus! {

/// A merge pool was created.
#[derive(Clone, Copy, Debug, PartialEq, Eq)]
pub struct NewMergePoolEvent {
    pub pool: Pubkey,
    pub primary_mint: Pubkey,
}

/// A merge-mining position was created.
#[derive(Clone, Copy, Debug, PartialEq, Eq)]
pub struct InitMergeMinerEvent {
    pub pool: Pubkey,
    pub mm: Pubkey,
    pub primary_mint: Pubkey,
    pub owner: Pubkey,
}

/// A depositor record was created for a position.
#[derive(Clone, Copy, Debug, PartialEq, Eq)]
pub struct InitMinerEvent {
    pub pool: Pubkey,
    pub mm: Pubkey,
    pub miner: Pubkey,
}

/// Primary tokens were staked.
#[derive(Clone, Copy, Debug, PartialEq, Eq)]
pub struct StakePrimaryEvent {
    pub pool: Pubkey,
    pub mm: Pubkey,
    pub miner: Pubkey,
    pub owner: Pubkey,
    pub amount: u64,
}

/// Replica tokens were minted and staked.
#[derive(Clone, Copy, Debug, PartialEq, Eq)]
pub struct StakeReplicaEvent {
    pub pool: Pubkey,
    pub mm: Pubkey,
    pub miner: Pubkey,
    pub owner: Pubkey,
    pub amount: u64,
}

/// Primary tokens were unstaked.
#[derive(Clone, Copy, Debug, PartialEq, Eq)]
pub struct UnstakePrimaryEvent {
    pub pool: Pubkey,
    pub mm: Pubkey,
    pub miner: Pubkey,
    pub owner: Pubkey,
    pub amount: u64,
}

/// Replica tokens were unstaked and burned.
#[derive(Clone, Copy, Debug, PartialEq, Eq)]
pub struct UnstakeReplicaEvent {
    pub pool: Pubkey,
    pub mm: Pubkey,
    pub miner: Pubkey,
    pub owner: Pubkey,
    pub amount: u64,
}

/// Tokens held by a position were sent to its owner.
#[derive(Clone, Copy, Debug, PartialEq, Eq)]
pub struct WithdrawTokensEvent {
    pub pool: Pubkey,
    pub mm: Pubkey,
    pub owner: Pubkey,
    pub mint: Pubkey,
    pub amount: u64,
}

/// A position claimed rewards.
#[derive(Clone, Copy, Debug, PartialEq, Eq)]
pub struct ClaimEvent {
    pub pool: Pubkey,
    pub mm: Pubkey,
    pub mint: Pubkey,
    pub amount: u64,
    pub initial_balance: u64,
    pub end_balance: u64,
}

} // verus!
