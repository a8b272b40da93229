//! The failures that an instruction reports.

use vstd::prelude::*;

verus! {

/// Why an instruction was rejected. Every rejection leaves the accounts as
/// they were.
#[derive(Clone, Copy, Debug, PartialEq, Eq, Structural)]
pub enum ErrorCode {
    /// The caller is not the identity that the account names.
    Unauthorized,
    /// An amount is zero where it must be positive, or nothing is claimable.
    InvalidAmount,
    /// The schedule starts in the past, or a claim comes before its start.
    InvalidStartTimestamp,
    /// The schedule does not end after it starts.
    InvalidEndTimestamp,
    /// The periods do not add up to the amount, or one of them is empty.
    InvalidPeriodsConfiguration,
    /// The null identity was given where an account is needed.
    ZeroAddress,
    /// The grantor cannot pay the fee and fund the vault.
    InsufficientBalance,
}

} // verus!
