//! Creating an operator, which takes over an allocator's authority.
use vstd::prelude::*;
use crate::error::ErrorCode;
use crate::key::{key_eq, Pubkey};
use crate::operator::Operator;
use crate::quarry_mine::accept_authority;
use crate::state::Rewarder;

verus! {

/// What creating an operator reads and changes.
#[derive(Clone, Copy, Debug)]
pub struct CreateOperator {
    /// Random address the operator's address derives from.
    pub base: Pubkey,
    /// Bump seed of the operator's address.
    pub bump: u8,
    /// Address of the new operator.
    pub operator_key: Pubkey,
    /// First admin; also takes every other role.
    pub admin: Pubkey,
    /// The allocator, whose proposed authority must be the operator.
    pub rewarder: Rewarder,
    /// Address of the allocator.
    pub rewarder_key: Pubkey,
}

/// Creates an operator whose admin holds every role, stamps it at `now`,
/// and has it accept the allocator's authority. On an error nothing
/// changes.
pub fn handler(ctx: &mut CreateOperator, now: i64) -> (r: Result<Operator, ErrorCode>)
    ensures
        !key_eq(old(ctx).operator_key, old(ctx).rewarder.pending_authority)
            ==> r == Err::<Operator, _>(ErrorCode::PendingAuthorityNotSet),
        r is Err ==> *final(ctx) == *old(ctx),
        key_eq(old(ctx).operator_key, old(ctx).rewarder.pending_authority) && old(ctx).rewarder.is_paused
            ==> r == Err::<Operator, _>(ErrorCode::Paused),
        key_eq(old(ctx).operator_key, old(ctx).rewarder.pending_authority) && !old(ctx).rewarder.is_paused
            && old(ctx).rewarder.pending_authority.is_zeroed() ==> r == Err::<Operator, _>(ErrorCode::PendingAuthorityNotSet),
        key_eq(old(ctx).operator_key, old(ctx).rewarder.pending_authority) && !old(ctx).rewarder.is_paused
            && !old(ctx).rewarder.pending_authority.is_zeroed() ==> r == Ok::<Operator, ErrorCode>(Operator {
                base: old(ctx).base,
                bump: old(ctx).bump,
                rewarder: old(ctx).rewarder_key,
                admin: old(ctx).admin,
                rate_setter: old(ctx).admin,
                quarry_creator: old(ctx).admin,
                share_allocator: old(ctx).admin,
                last_modified_ts: now,
                generation: 1,
            }) && final(ctx).rewarder.authority == old(ctx).rewarder.pending_authority
            && final(ctx).rewarder.pending_authority.is_zeroed()
            && *final(ctx) == (CreateOperator {
                rewarder: Rewarder {
                    authority: final(ctx).rewarder.authority,
                    pending_authority: final(ctx).rewarder.pending_authority,
                    ..old(ctx).rewarder
                },
                ..*old(ctx)
            }),
        r is Ok ==> key_eq(final(ctx).rewarder.authority, old(ctx).operator_key),
{
    if ctx.operator_key != ctx.rewarder.pending_authority {
        return Err(ErrorCode::PendingAuthorityNotSet);
    }
    let mut operator = Operator {
        base: ctx.base,
        bump: ctx.bump,
        rewarder: ctx.rewarder_key,
        admin: ctx.admin,
        rate_setter: ctx.admin,
        quarry_creator: ctx.admin,
        share_allocator: ctx.admin,
        last_modified_ts: 0,
        generation: 0,
    };
    match operator.record_update(now) {
        Ok(()) => {},
        Err(e) => return Err(e),
    }
    let mut rw = ctx.rewarder;
    match accept_authority(&mut rw, &ctx.operator_key) {
        Ok(()) => {},
        Err(e) => return Err(e),
    }
    ctx.rewarder = rw;
    Ok(operator)
}

} // verus!
