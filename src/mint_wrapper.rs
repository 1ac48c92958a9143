//! The mint wrapper: a hard-capped token supply minted by minters under
//! allowances.
use vstd::prelude::*;
use crate::error::ErrorCode;
use crate::key::Pubkey;

verus! {

/// A wrapper that owns the minting of one token.
#[derive(Clone, Copy, Debug)]
pub struct MintWrapper {
    /// Random address the record's own address derives from.
    pub base: Pubkey,
    /// Bump seed of the record's address.
    pub bump: u8,
    /// Largest supply the token may reach.
    pub hard_cap: u64,
    /// Administrator of the wrapper.
    pub admin: Pubkey,
    /// Administrator proposed to take over; zero when none is.
    pub pending_admin: Pubkey,
    /// The token minted.
    pub token_mint: Pubkey,
    /// Number of minters.
    pub num_minters: u64,
    /// Sum of the minters' allowances.
    pub total_allowance: u64,
    /// Tokens minted through the wrapper.
    pub total_minted: u64,
}

/// A party allowed to mint through a wrapper.
#[derive(Clone, Copy, Debug)]
pub struct Minter {
    /// The wrapper minted through.
    pub mint_wrapper: Pubkey,
    /// Who may mint.
    pub minter_authority: Pubkey,
    /// Bump seed of the record's address.
    pub bump: u8,
    /// Index of the minter within its wrapper.
    pub index: u64,
    /// Tokens the minter may still mint.
    pub allowance: u64,
    /// Tokens the minter has minted.
    pub total_minted: u64,
}

impl MintWrapper {
    /// Serialized size of the record.
    pub const LEN: usize = 32 + 1 + 8 + 32 + 32 + 32 + 8 + 8 + 8;
}

impl Minter {
    /// Serialized size of the record.
    pub const LEN: usize = 32 + 32 + 1 + 8 + 8 + 8;
}

impl Default for MintWrapper {
    fn default() -> (r: MintWrapper)
        ensures
            r.base.is_zeroed() && r.admin.is_zeroed() && r.pending_admin.is_zeroed() && r.token_mint.is_zeroed(),
            r.bump == 0 && r.hard_cap == 0 && r.num_minters == 0 && r.total_allowance == 0 && r.total_minted == 0,
    {
        MintWrapper {
            base: Pubkey::zeroed(),
            bump: 0,
            hard_cap: 0,
            admin: Pubkey::zeroed(),
            pending_admin: Pubkey::zeroed(),
            token_mint: Pubkey::zeroed(),
            num_minters: 0,
            total_allowance: 0,
            total_minted: 0,
        }
    }
}

impl Default for Minter {
    fn default() -> (r: Minter)
        ensures
            r.mint_wrapper.is_zeroed() && r.minter_authority.is_zeroed(),
            r.bump == 0 && r.index == 0 && r.allowance == 0 && r.total_minted == 0,
    {
        Minter {
            mint_wrapper: Pubkey::zeroed(),
            minter_authority: Pubkey::zeroed(),
            bump: 0,
            index: 0,
            allowance: 0,
            total_minted: 0,
        }
    }
}

/// What a mint reads and changes: the wrapper, the minter and the supply
/// of the token.
#[derive(Clone, Copy, Debug)]
pub struct PerformMint {
    /// The wrapper minted through.
    pub mint_wrapper: MintWrapper,
    /// The minter.
    pub minter: Minter,
    /// Current supply of the token.
    pub token_supply: u64,
}

/// The records after a mint of `amount`, or the error that stops it.
pub open spec fn spec_perform_mint(ctx: PerformMint, amount: u64) -> Result<PerformMint, ErrorCode> {
    if ctx.minter.allowance < amount {
        Err(ErrorCode::MinterAllowanceExceeded)
    } else if ctx.token_supply + amount > u64::MAX {
        Err(ErrorCode::IntegerOverflow)
    } else if ctx.token_supply + amount > ctx.mint_wrapper.hard_cap {
        Err(ErrorCode::HardcapExceeded)
    } else if ctx.minter.total_minted + amount > u64::MAX
        || ctx.mint_wrapper.total_allowance < amount
        || ctx.mint_wrapper.total_minted + amount > u64::MAX {
        Err(ErrorCode::IntegerOverflow)
    } else {
        Ok(PerformMint {
            mint_wrapper: MintWrapper {
                total_allowance: (ctx.mint_wrapper.total_allowance - amount) as u64,
                total_minted: (ctx.mint_wrapper.total_minted + amount) as u64,
                ..ctx.mint_wrapper
            },
            minter: Minter {
                allowance: (ctx.minter.allowance - amount) as u64,
                total_minted: (ctx.minter.total_minted + amount) as u64,
                ..ctx.minter
            },
            token_supply: (ctx.token_supply + amount) as u64,
        })
    }
}

/// Mints `amount` under the minter's allowance and the wrapper's hard cap.
/// The supply in `ctx` becomes the supply that the token service is asked
/// to reach. On an error nothing changes.
pub fn perform_mint(ctx: &mut PerformMint, amount: u64) -> (r: Result<(), ErrorCode>)
    ensures
        match spec_perform_mint(*old(ctx), amount) {
            Ok(c) => r is Ok && *final(ctx) == c,
            Err(e) => r == Err::<(), _>(e) && *final(ctx) == *old(ctx),
        },
{
    if ctx.minter.allowance < amount {
        return Err(ErrorCode::MinterAllowanceExceeded);
    }
    let new_supply = match ctx.token_supply.checked_add(amount) {
        Some(v) => v,
        None => return Err(ErrorCode::IntegerOverflow),
    };
    if new_supply > ctx.mint_wrapper.hard_cap {
        return Err(ErrorCode::HardcapExceeded);
    }
    let minter_minted = match ctx.minter.total_minted.checked_add(amount) {
        Some(v) => v,
        None => return Err(ErrorCode::IntegerOverflow),
    };
    let total_allowance = match ctx.mint_wrapper.total_allowance.checked_sub(amount) {
        Some(v) => v,
        None => return Err(ErrorCode::IntegerOverflow),
    };
    let wrapper_minted = match ctx.mint_wrapper.total_minted.checked_add(amount) {
        Some(v) => v,
        None => return Err(ErrorCode::IntegerOverflow),
    };
    ctx.minter.allowance = ctx.minter.allowance - amount;
    ctx.minter.total_minted = minter_minted;
    ctx.mint_wrapper.total_allowance = total_allowance;
    ctx.mint_wrapper.total_minted = wrapper_minted;
    ctx.token_supply = new_supply;
    Ok(())
}

/// Sets a minter's allowance, keeping the wrapper's total of allowances
/// in step. On an error nothing changes.
pub fn minter_update(mint_wrapper: &mut MintWrapper, minter: &mut Minter, allowance: u64) -> (r: Result<(), ErrorCode>)
    ensures
        ({
            let t = old(mint_wrapper).total_allowance + allowance - old(minter).allowance;
            if old(mint_wrapper).total_allowance + allowance > u64::MAX || t < 0 {
                r == Err::<(), _>(ErrorCode::IntegerOverflow) && *final(mint_wrapper) == *old(mint_wrapper)
                    && *final(minter) == *old(minter)
            } else {
                r is Ok && *final(minter) == (Minter { allowance, ..*old(minter) })
                    && *final(mint_wrapper) == (MintWrapper { total_allowance: t as u64, ..*old(mint_wrapper) })
            }
        }),
{
    let previous_allowance = minter.allowance;
    let total = match mint_wrapper.total_allowance.checked_add(allowance) {
        Some(v) => match v.checked_sub(previous_allowance) {
            Some(w) => w,
            None => return Err(ErrorCode::IntegerOverflow),
        },
        None => return Err(ErrorCode::IntegerOverflow),
    };
    minter.allowance = allowance;
    mint_wrapper.total_allowance = total;
    Ok(())
}

/// Registers a new minter with a zero allowance under the wrapper, which
/// counts it. On an error nothing changes.
pub fn new_minter(mint_wrapper: &mut MintWrapper, mint_wrapper_key: Pubkey, minter_authority: Pubkey, bump: u8) -> (r: Result<Minter, ErrorCode>)
    ensures
        old(mint_wrapper).num_minters == u64::MAX ==> r == Err::<Minter, _>(ErrorCode::IntegerOverflow)
            && *final(mint_wrapper) == *old(mint_wrapper),
        old(mint_wrapper).num_minters < u64::MAX ==> r == Ok::<Minter, ErrorCode>(
            Minter {
                mint_wrapper: mint_wrapper_key,
                minter_authority,
                bump,
                index: old(mint_wrapper).num_minters,
                allowance: 0,
                total_minted: 0,
            },
        ) && *final(mint_wrapper) == (MintWrapper { num_minters: (old(mint_wrapper).num_minters + 1) as u64, ..*old(mint_wrapper) }),
{
    let index = mint_wrapper.num_minters;
    let next = match index.checked_add(1) {
        Some(v) => v,
        None => return Err(ErrorCode::IntegerOverflow),
    };
    mint_wrapper.num_minters = next;
    Ok(Minter { mint_wrapper: mint_wrapper_key, minter_authority, bump, index, allowance: 0, total_minted: 0 })
}

/// Proposes a new administrator of the wrapper; only the administrator
/// may, and not itself.
pub fn transfer_admin(mint_wrapper: &mut MintWrapper, signer: &Pubkey, next_admin: Pubkey) -> (r: Result<(), ErrorCode>)
    ensures
        !crate::key::key_eq(old(mint_wrapper).admin, *signer) ==> r == Err::<(), _>(ErrorCode::Unauthorized),
        crate::key::key_eq(old(mint_wrapper).admin, *signer) && crate::key::key_eq(next_admin, old(mint_wrapper).admin)
            ==> r == Err::<(), _>(ErrorCode::InvalidLinkage),
        r is Ok <==> crate::key::key_eq(old(mint_wrapper).admin, *signer) && !crate::key::key_eq(next_admin, old(mint_wrapper).admin),
        r is Ok ==> *final(mint_wrapper) == (MintWrapper { pending_admin: next_admin, ..*old(mint_wrapper) }),
        r is Err ==> *final(mint_wrapper) == *old(mint_wrapper),
{
    if mint_wrapper.admin != *signer {
        return Err(ErrorCode::Unauthorized);
    }
    if next_admin == mint_wrapper.admin {
        return Err(ErrorCode::InvalidLinkage);
    }
    mint_wrapper.pending_admin = next_admin;
    Ok(())
}

/// The proposed administrator takes over the wrapper.
pub fn accept_admin(mint_wrapper: &mut MintWrapper, signer: &Pubkey) -> (r: Result<(), ErrorCode>)
    ensures
        r is Ok <==> crate::key::key_eq(old(mint_wrapper).pending_admin, *signer),
        r is Err ==> r == Err::<(), _>(ErrorCode::Unauthorized) && *final(mint_wrapper) == *old(mint_wrapper),
        r is Ok ==> final(mint_wrapper).admin == old(mint_wrapper).pending_admin && final(mint_wrapper).pending_admin.is_zeroed()
            && *final(mint_wrapper) == (MintWrapper {
                admin: final(mint_wrapper).admin,
                pending_admin: final(mint_wrapper).pending_admin,
                ..*old(mint_wrapper)
            }),
{
    if mint_wrapper.pending_admin != *signer {
        return Err(ErrorCode::Unauthorized);
    }
    mint_wrapper.admin = mint_wrapper.pending_admin;
    mint_wrapper.pending_admin = Pubkey::zeroed();
    Ok(())
}

} // verus!
