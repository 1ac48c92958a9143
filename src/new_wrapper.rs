//! Creating a mint wrapper.
use vstd::prelude::*;
use crate::key::Pubkey;
use crate::mint_wrapper::MintWrapper;

verus! {

/// What creating a mint wrapper reads.
#[derive(Clone, Copy, Debug)]
pub struct NewWrapper {
    /// Random address the wrapper's address derives from.
    pub base: Pubkey,
    /// Bump seed of the wrapper's address.
    pub bump: u8,
    /// Administrator of the wrapper.
    pub admin: Pubkey,
    /// The token the wrapper mints.
    pub token_mint: Pubkey,
}

/// Creates a mint wrapper with the given hard cap, no minters and nothing
/// minted or allowed yet.
pub fn handler(ctx: &NewWrapper, hard_cap: u64) -> (r: MintWrapper)
    ensures
        r.base == ctx.base && r.bump == ctx.bump && r.hard_cap == hard_cap,
        r.admin == ctx.admin && r.pending_admin.is_zeroed() && r.token_mint == ctx.token_mint,
        r.num_minters == 0 && r.total_allowance == 0 && r.total_minted == 0,
{
    MintWrapper {
        base: ctx.base,
        bump: ctx.bump,
        hard_cap,
        admin: ctx.admin,
        pending_admin: Pubkey::zeroed(),
        token_mint: ctx.token_mint,
        num_minters: 0,
        total_allowance: 0,
        total_minted: 0,
    }
}

} // verus!
