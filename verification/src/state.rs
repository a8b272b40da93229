//! The records that the ledger keeps.

use crate::pubkey::Pubkey;
use vstd::arithmetic::div_mod::{lemma_div_by_multiple, lemma_div_is_ordered, lemma_div_pos_is_pos};
use vstd::arithmetic::mul::lemma_mul_inequality;
use vstd::prelude::*;

verus! {

/// The configuration of a deployment: who controls it, who is paid the
/// creation fee, and how much that fee is.
#[derive(Clone, Copy, Debug, PartialEq, Eq)]
pub struct Vesting {
    pub owner: Pubkey,
    pub treasury: Pubkey,
    pub creation_fee: u64,
}

/// One grant: its beneficiary, its terms, and what has been paid out of it.
#[derive(Clone, Copy, Debug, PartialEq, Eq)]
pub struct VestingRecord {
    pub owner: Pubkey,
    pub amount: u64,
    pub start_time: u64,
    pub end_time: u64,
    pub periods: u64,
    pub period_duration: u64,
    pub amount_per_period: u64,
    pub storage_pda: Pubkey,
    pub claimed_amount: u64,
}

/// The vault of one grant: the record it funds, and the bump seed from which
/// the program signs for it.
#[derive(Clone, Copy, Debug, PartialEq, Eq)]
pub struct VestingStorage {
    pub vesting_record: Pubkey,
    pub bump: u8,
}

/// Whether a grant of `amount`, unlocking in `periods` steps of
/// `amount_per_period` every `period_duration`, from `start_time` to
/// `end_time`, is one that the ledger accepts.
pub open spec fn valid_terms(
    amount: u64,
    start_time: u64,
    end_time: u64,
    periods: u64,
    period_duration: u64,
    amount_per_period: u64,
) -> bool {
    &&& amount > 0
    &&& end_time > start_time
    &&& periods > 0
    &&& period_duration > 0
    &&& periods * amount_per_period == amount
}

/// `periods` installments of `per` each, added up one after the other.
pub open spec fn installments(periods: nat, per: nat) -> nat
    decreases periods,
{
    if periods == 0 {
        0
    } else {
        installments((periods - 1) as nat, per) + per
    }
}

/// Installments of one size add up to their number times that size.
pub proof fn lemma_installments(periods: nat, per: nat)
    ensures
        installments(periods, per) == periods * per,
    decreases periods,
{
    if periods > 0 {
        let fewer = (periods - 1) as nat;
        lemma_installments(fewer, per);
        assert(fewer * per + per == periods * per) by (nonlinear_arith)
            requires
                fewer + 1 == periods,
        ;
    } else {
        assert(periods * per == 0) by (nonlinear_arith)
            requires
                periods == 0,
        ;
    }
}

impl Vesting {
    /// Neither the authority nor the fee destination is the null identity.
    pub open spec fn wf(&self) -> bool {
        !self.owner.is_zero() && !self.treasury.is_zero()
    }
}

impl VestingRecord {
    /// The terms are those of an accepted grant, and no more has been paid
    /// out than was granted.
    pub open spec fn wf(&self) -> bool {
        &&& valid_terms(
            self.amount,
            self.start_time,
            self.end_time,
            self.periods,
            self.period_duration,
            self.amount_per_period,
        )
        &&& self.claimed_amount <= self.amount
    }

    /// The periods that count as passed at time `t`: none before the start,
    /// then one for every full `period_duration`, and never more than
    /// `periods`. The end time plays no part.
    pub open spec fn periods_passed(&self, t: int) -> int {
        if t < self.start_time {
            0
        } else if (t - self.start_time) / (self.period_duration as int) < self.periods {
            (t - self.start_time) / (self.period_duration as int)
        } else {
            self.periods as int
        }
    }

    /// The part of the grant that has unlocked at time `t`.
    pub open spec fn unlocked_at(&self, t: int) -> int {
        self.periods_passed(t) * self.amount_per_period
    }

    /// What a claim at time `t` pays: what has unlocked and was not yet paid.
    pub open spec fn claimable_at(&self, t: int) -> int {
        if self.unlocked_at(t) > self.claimed_amount {
            self.unlocked_at(t) - self.claimed_amount
        } else {
            0
        }
    }

    /// The record after `lamports` more have been paid out.
    pub open spec fn paid(&self, lamports: int) -> VestingRecord {
        VestingRecord { claimed_amount: (self.claimed_amount + lamports) as u64, ..*self }
    }

    /// The installments of a valid record add up to its amount, with
    /// nothing left over.
    pub proof fn lemma_installments_add_up(self)
        requires
            self.wf(),
        ensures
            installments(self.periods as nat, self.amount_per_period as nat) == self.amount,
    {
        lemma_installments(self.periods as nat, self.amount_per_period as nat);
    }

    /// At every time, between nothing and the whole amount has unlocked,
    /// and what is claimable is no more than what the grant still holds.
    pub proof fn lemma_unlocked_bounds(self, t: int)
        requires
            self.wf(),
        ensures
            0 <= self.periods_passed(t) <= self.periods,
            0 <= self.unlocked_at(t) <= self.amount,
            0 <= self.claimable_at(t) <= self.amount - self.claimed_amount,
            t < self.start_time ==> self.unlocked_at(t) == 0,
    {
        if t >= self.start_time {
            lemma_div_pos_is_pos(t - self.start_time, self.period_duration as int);
        }
        lemma_mul_inequality(0, self.periods_passed(t), self.amount_per_period as int);
        lemma_mul_inequality(
            self.periods_passed(t),
            self.periods as int,
            self.amount_per_period as int,
        );
    }

    /// Time only unlocks: at a later time no less has unlocked, and no less
    /// is claimable, than at an earlier one.
    pub proof fn lemma_unlocking_monotonic(self, t1: int, t2: int)
        requires
            self.wf(),
            t1 <= t2,
        ensures
            self.periods_passed(t1) <= self.periods_passed(t2),
            self.unlocked_at(t1) <= self.unlocked_at(t2),
            self.claimable_at(t1) <= self.claimable_at(t2),
    {
        if t1 >= self.start_time {
            lemma_div_is_ordered(
                t1 - self.start_time,
                t2 - self.start_time,
                self.period_duration as int,
            );
        } else if t2 >= self.start_time {
            lemma_div_pos_is_pos(t2 - self.start_time, self.period_duration as int);
        }
        lemma_mul_inequality(
            self.periods_passed(t1),
            self.periods_passed(t2),
            self.amount_per_period as int,
        );
    }

    /// Once every period has passed, the whole amount has unlocked, and
    /// all of it that was not paid is claimable, however late the time and
    /// whatever the end time.
    pub proof fn lemma_unlocked_caps(self, t: int)
        requires
            self.wf(),
            t >= self.start_time + self.periods * self.period_duration,
        ensures
            self.periods_passed(t) == self.periods,
            self.unlocked_at(t) == self.amount,
            self.claimable_at(t) == self.amount - self.claimed_amount,
    {
        lemma_mul_inequality(0, self.periods as int, self.period_duration as int);
        lemma_div_by_multiple(self.periods as int, self.period_duration as int);
        lemma_div_is_ordered(
            self.periods * self.period_duration,
            t - self.start_time,
            self.period_duration as int,
        );
    }
}

} // verus!
