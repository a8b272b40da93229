//! The instructions of the program, one module each.
//!
//! An instruction decides; it moves no funds. Where funds have to move it
//! returns the transfers to be made, and `settle` records the outcome.

use crate::pubkey::Pubkey;
use vstd::prelude::*;

pub mod claim;
pub mod create_vesting;
pub mod initialize;
pub mod update_vesting;

verus! {

/// An order to move `lamports` from one account to another.
#[derive(Clone, Copy, Debug, PartialEq, Eq)]
pub struct Transfer {
    pub from: Pubkey,
    pub to: Pubkey,
    pub lamports: u64,
}

} // verus!
