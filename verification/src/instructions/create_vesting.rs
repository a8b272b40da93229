//! Creating a grant and its vault.

use crate::error::ErrorCode;
use crate::instructions::Transfer;
use crate::pubkey::Pubkey;
use crate::state::{valid_terms, Vesting, VestingRecord, VestingStorage};
use vstd::prelude::*;

verus! {

/// The accounts of a creation: the grantor and its balance, the beneficiary,
/// the record and the vault to be filled, the bump of the vault's address,
/// and the configuration.
#[derive(Clone, Copy, Debug, PartialEq, Eq)]
pub struct CreateVesting {
    pub owner: Pubkey,
    pub owner_lamports: u64,
    pub beneficiary: Pubkey,
    pub vesting_record_key: Pubkey,
    pub vesting_record: VestingRecord,
    pub vesting_storage_key: Pubkey,
    pub vesting_storage_bump: u8,
    pub vesting_storage: VestingStorage,
    pub vesting: Vesting,
}

/// What an accepted creation asks for: the fee to be paid, the vault to be
/// funded, and the record and vault to be written once both are done.
#[derive(Clone, Copy, Debug, PartialEq, Eq)]
pub struct Grant {
    pub fee: Transfer,
    pub deposit: Transfer,
    pub vesting_record: VestingRecord,
    pub vesting_storage: VestingStorage,
}

/// What a creation on `ctx` at `current_time` comes to: the grant, or the
/// reason why there is none. The first failing check decides.
pub open spec fn create_outcome(
    ctx: CreateVesting,
    amount: u64,
    start_time: u64,
    end_time: u64,
    periods: u64,
    period_duration: u64,
    amount_per_period: u64,
    current_time: u64,
) -> Result<Grant, ErrorCode> {
    if amount == 0 {
        Err(ErrorCode::InvalidAmount)
    } else if start_time < current_time {
        Err(ErrorCode::InvalidStartTimestamp)
    } else if end_time <= start_time {
        Err(ErrorCode::InvalidEndTimestamp)
    } else if periods == 0 || period_duration == 0 || periods * amount_per_period != amount {
        Err(ErrorCode::InvalidPeriodsConfiguration)
    } else if ctx.owner_lamports < ctx.vesting.creation_fee + amount {
        Err(ErrorCode::InsufficientBalance)
    } else {
        Ok(
            Grant {
                fee: Transfer {
                    from: ctx.owner,
                    to: ctx.vesting.treasury,
                    lamports: ctx.vesting.creation_fee,
                },
                deposit: Transfer { from: ctx.owner, to: ctx.vesting_storage_key, lamports: amount },
                vesting_record: VestingRecord {
                    owner: ctx.beneficiary,
                    amount,
                    start_time,
                    end_time,
                    periods,
                    period_duration,
                    amount_per_period,
                    storage_pda: ctx.vesting_storage_key,
                    claimed_amount: 0,
                },
                vesting_storage: VestingStorage {
                    vesting_record: ctx.vesting_record_key,
                    bump: ctx.vesting_storage_bump,
                },
            },
        )
    }
}

/// Decides the creation of a grant at `current_time`. Nothing is changed:
/// the record and the vault are written by `settle` once the fee is paid and
/// the vault is funded.
pub fn handler(
    ctx: &CreateVesting,
    amount: u64,
    start_time: u64,
    end_time: u64,
    periods: u64,
    period_duration: u64,
    amount_per_period: u64,
    current_time: u64,
) -> (r: Result<Grant, ErrorCode>)
    ensures
        r == create_outcome(
            *ctx,
            amount,
            start_time,
            end_time,
            periods,
            period_duration,
            amount_per_period,
            current_time,
        ),
        r is Ok ==> valid_terms(
            amount,
            start_time,
            end_time,
            periods,
            period_duration,
            amount_per_period,
        ) && start_time >= current_time && r->Ok_0.vesting_record.wf(),
        periods * amount_per_period != amount ==> r is Err,
{
    let vesting = &ctx.vesting;

    if amount == 0 {
        return Err(ErrorCode::InvalidAmount);
    }
    if start_time < current_time {
        return Err(ErrorCode::InvalidStartTimestamp);
    }
    if end_time <= start_time {
        return Err(ErrorCode::InvalidEndTimestamp);
    }
    if periods == 0 {
        return Err(ErrorCode::InvalidPeriodsConfiguration);
    }
    match periods.checked_mul(amount_per_period) {
        Some(total) => {
            if total != amount {
                return Err(ErrorCode::InvalidPeriodsConfiguration);
            }
        },
        None => {
            return Err(ErrorCode::InvalidPeriodsConfiguration);
        },
    }
    if period_duration == 0 {
        return Err(ErrorCode::InvalidPeriodsConfiguration);
    }
    match vesting.creation_fee.checked_add(amount) {
        Some(needed) => {
            if ctx.owner_lamports < needed {
                return Err(ErrorCode::InsufficientBalance);
            }
        },
        None => {
            return Err(ErrorCode::InsufficientBalance);
        },
    }

    Ok(
        Grant {
            fee: Transfer { from: ctx.owner, to: vesting.treasury, lamports: vesting.creation_fee },
            deposit: Transfer { from: ctx.owner, to: ctx.vesting_storage_key, lamports: amount },
            vesting_record: VestingRecord {
                owner: ctx.beneficiary,
                amount,
                start_time,
                end_time,
                periods,
                period_duration,
                amount_per_period,
                storage_pda: ctx.vesting_storage_key,
                claimed_amount: 0,
            },
            vesting_storage: VestingStorage {
                vesting_record: ctx.vesting_record_key,
                bump: ctx.vesting_storage_bump,
            },
        },
    )
}

/// Records the outcome of a grant's two transfers: where the fee was paid
/// and the vault was funded, the record and the vault are written; where
/// either failed, nothing changes.
pub fn settle(ctx: &mut CreateVesting, grant: &Grant, fee_paid: bool, vault_funded: bool)
    ensures
        *final(ctx) == if fee_paid && vault_funded {
            (CreateVesting {
                vesting_record: grant.vesting_record,
                vesting_storage: grant.vesting_storage,
                ..*old(ctx)
            })
        } else {
            *old(ctx)
        },
{
    if fee_paid && vault_funded {
        ctx.vesting_record = grant.vesting_record;
        ctx.vesting_storage = grant.vesting_storage;
    }
}

} // verus!
