//! Setting up the configuration.

use crate::error::ErrorCode;
use crate::pubkey::Pubkey;
use crate::state::Vesting;
use vstd::prelude::*;

verus! {

/// The accounts of an initialization: the configuration to be filled, the
/// caller, and the account that will be paid the creation fees.
#[derive(Clone, Copy, Debug, PartialEq, Eq)]
pub struct Initialize {
    pub vesting: Vesting,
    pub owner: Pubkey,
    pub treasury: Pubkey,
}

/// The accounts after an initialization with `creation_fee`, and its result:
/// a fee of zero is refused, any other is installed, with the caller as the
/// authority and `treasury` as the fee destination.
pub open spec fn initialize_outcome(ctx: Initialize, creation_fee: u64) -> (
    Initialize,
    Result<(), ErrorCode>,
) {
    if creation_fee == 0 {
        (ctx, Err(ErrorCode::InvalidAmount))
    } else {
        (
            Initialize {
                vesting: Vesting { owner: ctx.owner, treasury: ctx.treasury, creation_fee },
                ..ctx
            },
            Ok(()),
        )
    }
}

/// Fills the configuration: the caller becomes its authority, `treasury` its
/// fee destination. A fee of zero is refused.
pub fn handler(ctx: &mut Initialize, creation_fee: u64) -> (r: Result<(), ErrorCode>)
    ensures
        (*final(ctx), r) == initialize_outcome(*old(ctx), creation_fee),
        r is Ok && !old(ctx).owner.is_zero() && !old(ctx).treasury.is_zero()
            ==> final(ctx).vesting.wf(),
{
    if creation_fee == 0 {
        return Err(ErrorCode::InvalidAmount);
    }
    ctx.vesting.owner = ctx.owner;
    ctx.vesting.treasury = ctx.treasury;
    ctx.vesting.creation_fee = creation_fee;

    Ok(())
}

} // verus!
