//! Time-weighted reward accrual for staking pools, with merge mining.
//!
//! The library holds the accounting engine: the reward-per-token payroll,
//! pool and depositor checkpoints, the allocator's share split, claim fees,
//! mint allowances and the merge-mining overlay that backs replica tokens
//! one to one with a primary stake.
use vstd::prelude::*;

pub mod claim_rewards_v2;
pub mod codec;
pub mod create_miner;
pub mod create_operator;
pub mod error;
pub mod events;
pub mod key;
pub mod merge_mine;
pub mod new_rewarder_v2;
pub mod new_wrapper;
pub mod mint_wrapper;
pub mod operator;
pub mod payroll;
pub mod quarry;
pub mod quarry_mine;
pub mod redeemer;
pub mod registry;
pub mod rewarder;
pub mod state;
pub mod wide;

verus! {

} // verus!
