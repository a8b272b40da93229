//! Claiming what has unlocked.

use crate::constants::VESTING_STORAGE_SEED;
use crate::error::ErrorCode;
use crate::instructions::create_vesting::{create_outcome, CreateVesting};
use crate::instructions::Transfer;
use crate::pubkey::Pubkey;
use crate::state::{VestingRecord, VestingStorage};
use vstd::prelude::*;
use vstd::string::{StrSliceExecFns, StringSliceAdditionalSpecFns};

verus! {

/// The accounts of a claim: the caller, the record claimed from, and its
/// vault.
#[derive(Clone, Copy, Debug, PartialEq, Eq)]
pub struct Claim {
    pub owner: Pubkey,
    pub vesting_record_key: Pubkey,
    pub vesting_record: VestingRecord,
    pub vesting_storage_key: Pubkey,
    pub vesting_storage: VestingStorage,
}

/// What an accepted claim asks for: a transfer out of the vault, signed with
/// the seeds from which the vault's address derives.
#[derive(Debug, PartialEq, Eq)]
pub struct Payout {
    pub transfer: Transfer,
    pub signer_seeds: Vec<Vec<u8>>,
}

/// The seeds that sign for the vault of the record at `vesting_record_key`:
/// the fixed seed, the record's address, and the vault's bump.
pub open spec fn vault_seeds(vesting_record_key: Pubkey, bump: u8) -> Seq<Seq<u8>> {
    seq![VESTING_STORAGE_SEED.spec_bytes(), vesting_record_key@, seq![bump]]
}

/// What a claim on `ctx` at `current_time` comes to: the transfer that pays
/// it, or the reason why nothing is paid. The first failing check decides.
pub open spec fn claim_outcome(ctx: Claim, current_time: u64) -> Result<Transfer, ErrorCode> {
    if ctx.owner != ctx.vesting_record.owner {
        Err(ErrorCode::Unauthorized)
    } else if current_time < ctx.vesting_record.start_time {
        Err(ErrorCode::InvalidStartTimestamp)
    } else if ctx.vesting_record.claimable_at(current_time as int) == 0 {
        Err(ErrorCode::InvalidAmount)
    } else {
        Ok(
            Transfer {
                from: ctx.vesting_storage_key,
                to: ctx.owner,
                lamports: ctx.vesting_record.claimable_at(current_time as int) as u64,
            },
        )
    }
}

/// `n` is at most `m`, so `n` steps of `per` are at most `m` steps of it.
proof fn lemma_steps_bounded(n: int, m: int, per: int)
    by (nonlinear_arith)
    requires
        0 <= n <= m,
        0 <= per,
    ensures
        0 <= n * per <= m * per,
{
}

/// Decides a claim on `ctx` at `current_time`. Nothing is changed: the
/// payout is recorded by `settle` once its transfer has been made.
pub fn handler(ctx: &Claim, current_time: u64) -> (r: Result<Payout, ErrorCode>)
    requires
        ctx.vesting_record.period_duration > 0,
        ctx.vesting_record.periods * ctx.vesting_record.amount_per_period <= u64::MAX,
    ensures
        match r {
            Ok(payout) => {
                &&& claim_outcome(*ctx, current_time) == Ok::<Transfer, ErrorCode>(payout.transfer)
                &&& payout.signer_seeds.deep_view() == vault_seeds(
                    ctx.vesting_record_key,
                    ctx.vesting_storage.bump,
                )
            },
            Err(e) => claim_outcome(*ctx, current_time) == Err::<Transfer, ErrorCode>(e),
        },
        ctx.owner == ctx.vesting_record.owner && current_time < ctx.vesting_record.start_time
            ==> r is Err && r->Err_0 == ErrorCode::InvalidStartTimestamp,
{
    let vesting_record = &ctx.vesting_record;
    let vesting_storage = &ctx.vesting_storage;

    if ctx.owner != vesting_record.owner {
        return Err(ErrorCode::Unauthorized);
    }
    if current_time < vesting_record.start_time {
        return Err(ErrorCode::InvalidStartTimestamp);
    }
    let elapsed_time: u64 = current_time.saturating_sub(vesting_record.start_time);
    let periods_passed: u64 = elapsed_time.checked_div(vesting_record.period_duration).unwrap();
    let claimable_periods: u64 = if periods_passed < vesting_record.periods {
        periods_passed
    } else {
        vesting_record.periods
    };
    proof {
        lemma_steps_bounded(
            claimable_periods as int,
            vesting_record.periods as int,
            vesting_record.amount_per_period as int,
        );
    }
    let total_claimable: u64 = claimable_periods.checked_mul(
        vesting_record.amount_per_period,
    ).unwrap();

    let claimable_amount: u64 = total_claimable.saturating_sub(vesting_record.claimed_amount);
    if claimable_amount == 0 {
        return Err(ErrorCode::InvalidAmount);
    }
    let mut signer_seeds: Vec<Vec<u8>> = Vec::new();
    signer_seeds.push(VESTING_STORAGE_SEED.as_bytes_vec());
    signer_seeds.push(key_bytes(&ctx.vesting_record_key));
    signer_seeds.push(vec![vesting_storage.bump]);
    assert(signer_seeds.deep_view() =~~= vault_seeds(
        ctx.vesting_record_key,
        ctx.vesting_storage.bump,
    ));

    Ok(
        Payout {
            transfer: Transfer {
                from: ctx.vesting_storage_key,
                to: ctx.owner,
                lamports: claimable_amount,
            },
            signer_seeds,
        },
    )
}

/// Records the outcome of a payout of `lamports`: where the transfer was
/// made, that much more counts as claimed; where it failed, nothing changes.
pub fn settle(ctx: &mut Claim, lamports: u64, transferred: bool)
    requires
        old(ctx).vesting_record.claimed_amount + lamports <= u64::MAX,
    ensures
        *final(ctx) == if transferred {
            (Claim { vesting_record: old(ctx).vesting_record.paid(lamports as int), ..*old(ctx) })
        } else {
            *old(ctx)
        },
{
    if transferred {
        ctx.vesting_record.claimed_amount = ctx.vesting_record.claimed_amount.checked_add(
            lamports,
        ).unwrap();
    }
}

/// The accounts after a claim at `current_time` whose transfer was made, and
/// what it paid; after a refused claim, the accounts as they were, and zero.
pub open spec fn claim_step(ctx: Claim, current_time: u64) -> (Claim, int) {
    match claim_outcome(ctx, current_time) {
        Ok(transfer) => (
            Claim { vesting_record: ctx.vesting_record.paid(transfer.lamports as int), ..ctx },
            transfer.lamports as int,
        ),
        Err(_) => (ctx, 0),
    }
}

/// The accounts after one claim at each of `times`, in that order, and what
/// the claims paid together.
pub open spec fn claims(ctx: Claim, times: Seq<u64>) -> (Claim, int)
    decreases times.len(),
{
    if times.len() == 0 {
        (ctx, 0)
    } else {
        let before = claims(ctx, times.drop_last());
        let after = claim_step(before.0, times.last());
        (after.0, before.1 + after.1)
    }
}

/// A claim on a valid record pays what is claimable and no more than the
/// grant still holds, and the record stays valid when the payout is recorded.
pub proof fn lemma_claim_keeps_valid(ctx: Claim, current_time: u64)
    requires
        ctx.vesting_record.wf(),
    ensures
        claim_step(ctx, current_time).0.vesting_record.wf(),
        claim_step(ctx, current_time).0 == (Claim {
            vesting_record: ctx.vesting_record.paid(claim_step(ctx, current_time).1),
            ..ctx
        }),
        0 <= claim_step(ctx, current_time).1 <= ctx.vesting_record.amount
            - ctx.vesting_record.claimed_amount,
        ctx.owner == ctx.vesting_record.owner ==> claim_step(ctx, current_time).1
            == ctx.vesting_record.claimable_at(current_time as int),
{
    ctx.vesting_record.lemma_unlocked_bounds(current_time as int);
}

/// A vault that holds what its grant has not paid out yet can pay every
/// claim, and still holds what is not paid out after it.
pub proof fn lemma_vault_stays_funded(ctx: Claim, current_time: u64, balance: int)
    requires
        ctx.vesting_record.wf(),
        balance >= ctx.vesting_record.amount - ctx.vesting_record.claimed_amount,
    ensures
        0 <= claim_step(ctx, current_time).1 <= balance,
        balance - claim_step(ctx, current_time).1 >= claim_step(
            ctx,
            current_time,
        ).0.vesting_record.amount - claim_step(ctx, current_time).0.vesting_record.claimed_amount,
{
    lemma_claim_keeps_valid(ctx, current_time);
}

/// Nothing is paid twice: after a claim was paid, a second claim at the same
/// time finds nothing claimable.
pub proof fn lemma_no_double_pay(ctx: Claim, current_time: u64)
    requires
        ctx.vesting_record.wf(),
        claim_outcome(ctx, current_time) is Ok,
    ensures
        claim_outcome(claim_step(ctx, current_time).0, current_time) == Err::<Transfer, ErrorCode>(
            ErrorCode::InvalidAmount,
        ),
{
    ctx.vesting_record.lemma_unlocked_bounds(current_time as int);
}

/// Claims converge: whatever their number and cadence, the claims that the
/// beneficiary makes at times in order pay together what a single claim at
/// the last of these times would have paid, which is never more than the
/// grant still held. On a record from which nothing was paid before, that is
/// what has unlocked at the time of the last claim.
pub proof fn lemma_claims_converge(ctx: Claim, times: Seq<u64>)
    requires
        ctx.vesting_record.wf(),
        ctx.owner == ctx.vesting_record.owner,
        times.len() > 0,
        forall|i: int, j: int| 0 <= i <= j < times.len() ==> times[i] <= times[j],
    ensures
        claims(ctx, times).1 == ctx.vesting_record.claimable_at(times.last() as int),
        claims(ctx, times).1 <= ctx.vesting_record.amount - ctx.vesting_record.claimed_amount,
        claims(ctx, times).0 == (Claim {
            vesting_record: ctx.vesting_record.paid(claims(ctx, times).1),
            ..ctx
        }),
        claims(ctx, times).0.vesting_record.wf(),
        ctx.vesting_record.claimed_amount == 0 ==> claims(ctx, times).1
            == ctx.vesting_record.unlocked_at(times.last() as int),
    decreases times.len(),
{
    let record = ctx.vesting_record;
    let last = times.last();
    let earlier = times.drop_last();
    record.lemma_unlocked_bounds(last as int);
    if earlier.len() == 0 {
        assert(claims(ctx, earlier) == (ctx, 0int));
        lemma_claim_keeps_valid(ctx, last);
    } else {
        assert forall|i: int, j: int| 0 <= i <= j < earlier.len() implies earlier[i]
            <= earlier[j] by {
            assert(earlier[i] == times[i] && earlier[j] == times[j]);
        }
        lemma_claims_converge(ctx, earlier);
        let before = claims(ctx, earlier);
        record.lemma_unlocked_bounds(earlier.last() as int);
        record.lemma_unlocking_monotonic(earlier.last() as int, last as int);
        lemma_claim_keeps_valid(before.0, last);
    }
}

/// A grant pays out in full and no more: the claims that the beneficiary of
/// a new grant makes at times in order, the last of them no earlier than the
/// end of the last period, pay together exactly what was deposited into its
/// vault.
pub proof fn lemma_grant_pays_out_in_full(
    created: CreateVesting,
    amount: u64,
    start_time: u64,
    end_time: u64,
    periods: u64,
    period_duration: u64,
    amount_per_period: u64,
    current_time: u64,
    ctx: Claim,
    times: Seq<u64>,
)
    requires
        create_outcome(
            created,
            amount,
            start_time,
            end_time,
            periods,
            period_duration,
            amount_per_period,
            current_time,
        ) matches Ok(grant) && ctx.vesting_record == grant.vesting_record,
        ctx.owner == created.beneficiary,
        times.len() > 0,
        forall|i: int, j: int| 0 <= i <= j < times.len() ==> times[i] <= times[j],
        times.last() >= start_time + periods * period_duration,
    ensures
        claims(ctx, times).1 == amount,
        claims(ctx, times).0.vesting_record.claimed_amount == amount,
        create_outcome(
            created,
            amount,
            start_time,
            end_time,
            periods,
            period_duration,
            amount_per_period,
            current_time,
        ) matches Ok(grant) && grant.deposit.lamports == claims(ctx, times).1,
{
    lemma_claims_converge(ctx, times);
    ctx.vesting_record.lemma_unlocked_caps(times.last() as int);
}

/// The bytes of `key`, as a vector.
fn key_bytes(key: &Pubkey) -> (bytes: Vec<u8>)
    ensures
        bytes@ == key@,
{
    let array = key.to_bytes();
    let mut bytes: Vec<u8> = Vec::new();
    let mut i: usize = 0;
    while i < 32
        invariant
            0 <= i <= 32,
            array@ == key@,
            bytes@ == array@.subrange(0, i as int),
        decreases 32 - i,
    {
        bytes.push(array[i]);
        i += 1;
        assert(bytes@ =~= array@.subrange(0, i as int));
    }
    assert(bytes@ =~= array@);
    bytes
}

} // verus!
