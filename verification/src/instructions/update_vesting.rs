//! Changing the configuration. Only its authority may.

use crate::error::ErrorCode;
use crate::pubkey::Pubkey;
use crate::state::Vesting;
use vstd::prelude::*;

verus! {

/// The accounts of a change of the creation fee.
#[derive(Clone, Copy, Debug, PartialEq, Eq)]
pub struct UpdateCreationFee {
    pub vesting: Vesting,
    pub owner: Pubkey,
}

/// The accounts of a change of the fee destination.
#[derive(Clone, Copy, Debug, PartialEq, Eq)]
pub struct UpdateTreasury {
    pub vesting: Vesting,
    pub owner: Pubkey,
}

/// The accounts of a handover of the authority.
#[derive(Clone, Copy, Debug, PartialEq, Eq)]
pub struct TransferOwnership {
    pub vesting: Vesting,
    pub owner: Pubkey,
}

/// The accounts after a change of the creation fee to `new_fee`, and its
/// result: only the authority may, and it may set any fee, zero included.
pub open spec fn update_creation_fee_outcome(ctx: UpdateCreationFee, new_fee: u64) -> (
    UpdateCreationFee,
    Result<(), ErrorCode>,
) {
    if ctx.owner != ctx.vesting.owner {
        (ctx, Err(ErrorCode::Unauthorized))
    } else {
        (
            UpdateCreationFee { vesting: Vesting { creation_fee: new_fee, ..ctx.vesting }, ..ctx },
            Ok(()),
        )
    }
}

/// The accounts after a change of the fee destination to `new_treasury`, and
/// its result: only the authority may, and not to the null identity.
pub open spec fn update_treasury_outcome(ctx: UpdateTreasury, new_treasury: Pubkey) -> (
    UpdateTreasury,
    Result<(), ErrorCode>,
) {
    if ctx.owner != ctx.vesting.owner {
        (ctx, Err(ErrorCode::Unauthorized))
    } else if new_treasury.is_zero() {
        (ctx, Err(ErrorCode::ZeroAddress))
    } else {
        (
            UpdateTreasury { vesting: Vesting { treasury: new_treasury, ..ctx.vesting }, ..ctx },
            Ok(()),
        )
    }
}

/// The accounts after a handover of the authority to `new_owner`, and its
/// result: only the authority may, and not to the null identity.
pub open spec fn transfer_ownership_outcome(ctx: TransferOwnership, new_owner: Pubkey) -> (
    TransferOwnership,
    Result<(), ErrorCode>,
) {
    if ctx.owner != ctx.vesting.owner {
        (ctx, Err(ErrorCode::Unauthorized))
    } else if new_owner.is_zero() {
        (ctx, Err(ErrorCode::ZeroAddress))
    } else {
        (
            TransferOwnership { vesting: Vesting { owner: new_owner, ..ctx.vesting }, ..ctx },
            Ok(()),
        )
    }
}

/// A handover is final: once the authority has passed to another identity,
/// the old authority can change neither the fee, nor the fee destination,
/// nor the authority.
pub proof fn lemma_handover_is_final(
    ctx: TransferOwnership,
    new_owner: Pubkey,
    new_fee: u64,
    new_treasury: Pubkey,
    next_owner: Pubkey,
)
    requires
        transfer_ownership_outcome(ctx, new_owner).1 is Ok,
        new_owner != ctx.owner,
    ensures
        ({
            let vesting = transfer_ownership_outcome(ctx, new_owner).0.vesting;
            let unauthorized = Err::<(), ErrorCode>(ErrorCode::Unauthorized);
            &&& vesting.owner == new_owner
            &&& update_creation_fee_outcome(UpdateCreationFee { vesting, owner: ctx.owner }, new_fee)
                == (UpdateCreationFee { vesting, owner: ctx.owner }, unauthorized)
            &&& update_treasury_outcome(UpdateTreasury { vesting, owner: ctx.owner }, new_treasury)
                == (UpdateTreasury { vesting, owner: ctx.owner }, unauthorized)
            &&& transfer_ownership_outcome(TransferOwnership { vesting, owner: ctx.owner }, next_owner)
                == (TransferOwnership { vesting, owner: ctx.owner }, unauthorized)
        }),
{
}

/// Sets the creation fee to `new_fee`, whatever it is.
pub fn update_creation_fee_handler(ctx: &mut UpdateCreationFee, new_fee: u64) -> (r: Result<
    (),
    ErrorCode,
>)
    ensures
        (*final(ctx), r) == update_creation_fee_outcome(*old(ctx), new_fee),
        old(ctx).vesting.wf() ==> final(ctx).vesting.wf(),
{
    if ctx.vesting.owner != ctx.owner {
        return Err(ErrorCode::Unauthorized);
    }
    ctx.vesting.creation_fee = new_fee;
    Ok(())
}

/// Makes `new_treasury` the fee destination, unless it is the null identity.
pub fn update_treasury_handler(ctx: &mut UpdateTreasury, new_treasury: Pubkey) -> (r: Result<
    (),
    ErrorCode,
>)
    ensures
        (*final(ctx), r) == update_treasury_outcome(*old(ctx), new_treasury),
        old(ctx).vesting.wf() ==> final(ctx).vesting.wf(),
{
    if ctx.vesting.owner != ctx.owner {
        return Err(ErrorCode::Unauthorized);
    }
    let null = Pubkey::default();
    proof {
        Pubkey::lemma_view(new_treasury, null);
    }
    if new_treasury == null {
        return Err(ErrorCode::ZeroAddress);
    }
    ctx.vesting.treasury = new_treasury;
    Ok(())
}

/// Makes `new_owner` the authority, unless it is the null identity. The old
/// authority has no say from then on.
pub fn transfer_ownership_handler(ctx: &mut TransferOwnership, new_owner: Pubkey) -> (r: Result<
    (),
    ErrorCode,
>)
    ensures
        (*final(ctx), r) == transfer_ownership_outcome(*old(ctx), new_owner),
        old(ctx).vesting.wf() ==> final(ctx).vesting.wf(),
{
    if ctx.vesting.owner != ctx.owner {
        return Err(ErrorCode::Unauthorized);
    }
    let null = Pubkey::default();
    proof {
        Pubkey::lemma_view(new_owner, null);
    }
    if new_owner == null {
        return Err(ErrorCode::ZeroAddress);
    }
    ctx.vesting.owner = new_owner;
    Ok(())
}

} // verus!
