//! A linear, periodic vesting ledger: a grantor locks an amount under a
//! schedule, and the beneficiary withdraws what has unlocked as time passes.
//!
//! The accounts that an instruction works on are held as plain values, so that
//! every rule of the ledger is a function from values to values with a
//! contract. Moving funds and reading the clock are left to the caller: an
//! instruction hands back the transfers it asks for, and takes their outcome.

use crate::error::ErrorCode;
use crate::instructions::claim::{claim_outcome, vault_seeds, Claim, Payout};
use crate::instructions::create_vesting::{create_outcome, CreateVesting, Grant};
use crate::instructions::initialize::{initialize_outcome, Initialize};
use crate::instructions::update_vesting::{
    transfer_ownership_outcome, update_creation_fee_outcome, update_treasury_outcome,
    TransferOwnership, UpdateCreationFee, UpdateTreasury,
};
use crate::instructions::Transfer;
use crate::pubkey::Pubkey;
use vstd::prelude::*;

pub mod clock;
pub mod constants;
pub mod error;
pub mod instructions;
pub mod pubkey;
pub mod state;

verus! {

/// Fills the configuration of the deployment.
pub fn initialize(ctx: &mut Initialize, creation_fee: u64) -> (r: Result<(), ErrorCode>)
    ensures
        (*final(ctx), r) == initialize_outcome(*old(ctx), creation_fee),
{
    instructions::initialize::handler(ctx, creation_fee)
}

/// Decides the creation of a grant at `current_time`.
pub fn create_vesting(
    ctx: &CreateVesting,
    amount: u64,
    start_time: u64,
    end_time: u64,
    periods: u64,
    period_duration: u64,
    amount_per_period: u64,
    current_time: u64,
) -> (r: Result<Grant, ErrorCode>)
    ensures
        r == create_outcome(
            *ctx,
            amount,
            start_time,
            end_time,
            periods,
            period_duration,
            amount_per_period,
            current_time,
        ),
{
    instructions::create_vesting::handler(
        ctx,
        amount,
        start_time,
        end_time,
        periods,
        period_duration,
        amount_per_period,
        current_time,
    )
}

/// Decides a claim at `current_time`.
pub fn claim(ctx: &Claim, current_time: u64) -> (r: Result<Payout, ErrorCode>)
    requires
        ctx.vesting_record.period_duration > 0,
        ctx.vesting_record.periods * ctx.vesting_record.amount_per_period <= u64::MAX,
    ensures
        match r {
            Ok(payout) => {
                &&& claim_outcome(*ctx, current_time) == Ok::<Transfer, ErrorCode>(payout.transfer)
                &&& payout.signer_seeds.deep_view() == vault_seeds(
                    ctx.vesting_record_key,
                    ctx.vesting_storage.bump,
                )
            },
            Err(e) => claim_outcome(*ctx, current_time) == Err::<Transfer, ErrorCode>(e),
        },
{
    instructions::claim::handler(ctx, current_time)
}

/// Sets the creation fee.
pub fn update_creation_fee(ctx: &mut UpdateCreationFee, new_fee: u64) -> (r: Result<(), ErrorCode>)
    ensures
        (*final(ctx), r) == update_creation_fee_outcome(*old(ctx), new_fee),
{
    instructions::update_vesting::update_creation_fee_handler(ctx, new_fee)
}

/// Sets the fee destination.
pub fn update_treasury(ctx: &mut UpdateTreasury, new_treasury: Pubkey) -> (r: Result<
    (),
    ErrorCode,
>)
    ensures
        (*final(ctx), r) == update_treasury_outcome(*old(ctx), new_treasury),
{
    instructions::update_vesting::update_treasury_handler(ctx, new_treasury)
}

/// Hands the authority over.
pub fn transfer_ownership(ctx: &mut TransferOwnership, new_owner: Pubkey) -> (r: Result<
    (),
    ErrorCode,
>)
    ensures
        (*final(ctx), r) == transfer_ownership_outcome(*old(ctx), new_owner),
{
    instructions::update_vesting::transfer_ownership_handler(ctx, new_owner)
}

} // verus!
