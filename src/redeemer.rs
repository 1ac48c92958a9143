//! The redeemer: burns IOU tokens and pays out the same amount of a
//! redemption token from a vault.
use vstd::prelude::*;
use crate::error::ErrorCode;
use crate::key::{key_eq, Pubkey};
use crate::state::TokenAccount;

verus! {

/// Exchanges an IOU token one to one for a redemption token.
#[derive(Clone, Copy, Debug)]
pub struct Redeemer {
    /// The IOU token burned.
    pub iou_mint: Pubkey,
    /// The token paid out.
    pub redemption_mint: Pubkey,
    /// Bump seed of the record's address.
    pub bump: u8,
    /// Tokens redeemed so far.
    pub total_tokens_redeemed: u64,
}

impl Redeemer {
    /// Serialized size of the record.
    pub const LEN: usize = 32 + 32 + 1 + 8;
}

impl Default for Redeemer {
    fn default() -> (r: Redeemer)
        ensures
            r.iou_mint.is_zeroed() && r.redemption_mint.is_zeroed() && r.bump == 0 && r.total_tokens_redeemed == 0,
    {
        Redeemer { iou_mint: Pubkey::zeroed(), redemption_mint: Pubkey::zeroed(), bump: 0, total_tokens_redeemed: 0 }
    }
}

/// Creates a redeemer between two tokens.
pub fn create_redeemer(iou_mint: Pubkey, redemption_mint: Pubkey, bump: u8) -> (r: Redeemer)
    ensures
        r == (Redeemer { iou_mint, redemption_mint, bump, total_tokens_redeemed: 0 }),
{
    Redeemer { iou_mint, redemption_mint, bump, total_tokens_redeemed: 0 }
}

/// What a redemption reads and changes.
#[derive(Clone, Copy, Debug)]
pub struct RedeemTokens {
    /// The redeemer.
    pub redeemer: Redeemer,
    /// Address of the redeemer.
    pub redeemer_key: Pubkey,
    /// Who redeems.
    pub source_authority: Pubkey,
    /// Whether the redeemer of tokens signed the operation.
    pub source_is_signer: bool,
    /// Supply of the IOU token.
    pub iou_mint_supply: u64,
    /// The user's IOU tokens.
    pub iou_source: TokenAccount,
    /// The redeemer's vault of redemption tokens.
    pub redemption_vault: TokenAccount,
    /// The user's account that receives the redemption tokens.
    pub redemption_destination: TokenAccount,
}

impl RedeemTokens {
    /// The outcome of checking the user and the three accounts.
    pub open spec fn spec_validate(self) -> Result<(), ErrorCode> {
        if !self.source_is_signer {
            Err(ErrorCode::Unauthorized)
        } else if !key_eq(self.iou_source.mint, self.redeemer.iou_mint)
            || !key_eq(self.iou_source.owner, self.source_authority)
            || !key_eq(self.redemption_vault.owner, self.redeemer_key)
            || !key_eq(self.redemption_vault.mint, self.redeemer.redemption_mint)
            || key_eq(self.redemption_destination.key, self.redemption_vault.key)
            || !key_eq(self.redemption_destination.mint, self.redeemer.redemption_mint)
            || !key_eq(self.redemption_destination.owner, self.source_authority) {
            Err(ErrorCode::InvalidLinkage)
        } else if self.redemption_vault.has_delegate || self.redemption_vault.has_close_authority {
            Err(ErrorCode::InvariantFailed)
        } else {
            Ok(())
        }
    }

    /// Checks that the user signed and owns both of its accounts, and that
    /// the accounts hold the redeemer's tokens.
    pub fn validate(&self) -> (r: Result<(), ErrorCode>)
        ensures
            r == self.spec_validate(),
    {
        if !self.source_is_signer {
            return Err(ErrorCode::Unauthorized);
        }
        if self.iou_source.mint != self.redeemer.iou_mint || self.iou_source.owner != self.source_authority
            || self.redemption_vault.owner != self.redeemer_key
            || self.redemption_vault.mint != self.redeemer.redemption_mint
            || self.redemption_destination.key == self.redemption_vault.key
            || self.redemption_destination.mint != self.redeemer.redemption_mint
            || self.redemption_destination.owner != self.source_authority {
            return Err(ErrorCode::InvalidLinkage);
        }
        if self.redemption_vault.has_delegate || self.redemption_vault.has_close_authority {
            return Err(ErrorCode::InvariantFailed);
        }
        Ok(())
    }
}

/// The records after redeeming `amount`: the IOU tokens are burned, as
/// many redemption tokens move from the vault to the user, and the
/// redeemer counts them.
pub open spec fn spec_redeem(ctx: RedeemTokens, amount: u64) -> Result<RedeemTokens, ErrorCode> {
    match ctx.spec_validate() {
        Err(e) => Err(e),
        Ok(_) => {
            if amount > ctx.iou_source.amount || amount > ctx.redemption_vault.amount {
                Err(ErrorCode::InsufficientBalance)
            } else if amount > ctx.iou_mint_supply || ctx.redemption_destination.amount + amount > u64::MAX
                || ctx.redeemer.total_tokens_redeemed + amount > u64::MAX {
                Err(ErrorCode::IntegerOverflow)
            } else {
                Ok(RedeemTokens {
                    redeemer: Redeemer {
                        total_tokens_redeemed: (ctx.redeemer.total_tokens_redeemed + amount) as u64,
                        ..ctx.redeemer
                    },
                    iou_mint_supply: (ctx.iou_mint_supply - amount) as u64,
                    iou_source: TokenAccount { amount: (ctx.iou_source.amount - amount) as u64, ..ctx.iou_source },
                    redemption_vault: TokenAccount {
                        amount: (ctx.redemption_vault.amount - amount) as u64,
                        ..ctx.redemption_vault
                    },
                    redemption_destination: TokenAccount {
                        amount: (ctx.redemption_destination.amount + amount) as u64,
                        ..ctx.redemption_destination
                    },
                    ..ctx
                })
            }
        },
    }
}

/// Redeems `amount` IOU tokens. On an error nothing changes.
pub fn redeem_tokens(ctx: &mut RedeemTokens, amount: u64) -> (r: Result<(), ErrorCode>)
    ensures
        match spec_redeem(*old(ctx), amount) {
            Ok(c) => r is Ok && *final(ctx) == c,
            Err(e) => r == Err::<(), _>(e) && *final(ctx) == *old(ctx),
        },
{
    match ctx.validate() {
        Ok(()) => {},
        Err(e) => return Err(e),
    }
    if amount > ctx.iou_source.amount || amount > ctx.redemption_vault.amount {
        return Err(ErrorCode::InsufficientBalance);
    }
    if amount > ctx.iou_mint_supply {
        return Err(ErrorCode::IntegerOverflow);
    }
    let dest = match ctx.redemption_destination.amount.checked_add(amount) {
        Some(v) => v,
        None => return Err(ErrorCode::IntegerOverflow),
    };
    let total = match ctx.redeemer.total_tokens_redeemed.checked_add(amount) {
        Some(v) => v,
        None => return Err(ErrorCode::IntegerOverflow),
    };
    ctx.iou_source.amount = ctx.iou_source.amount - amount;
    ctx.iou_mint_supply = ctx.iou_mint_supply - amount;
    ctx.redemption_vault.amount = ctx.redemption_vault.amount - amount;
    ctx.redemption_destination.amount = dest;
    ctx.redeemer.total_tokens_redeemed = total;
    Ok(())
}

/// Redeems every IOU token the user holds. On an error nothing changes.
pub fn redeem_all_tokens(ctx: &mut RedeemTokens) -> (r: Result<(), ErrorCode>)
    ensures
        match spec_redeem(*old(ctx), old(ctx).iou_source.amount) {
            Ok(c) => r is Ok && *final(ctx) == c,
            Err(e) => r == Err::<(), _>(e) && *final(ctx) == *old(ctx),
        },
{
    let amount = ctx.iou_source.amount;
    redeem_tokens(ctx, amount)
}

} // verus!
