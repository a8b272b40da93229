//! Fixed values of the program.

use vstd::prelude::*;

verus! {

/// The first seed of every vault address.
pub const VESTING_STORAGE_SEED: &'static str = "vesting_storage";

} // verus!
