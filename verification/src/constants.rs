//! Limits and units shared by all instructions.

use vstd::prelude::*;

verus! {

/// Seconds that must pass between the close of one day and the start of the next.
pub const SECONDS_PER_DAY: i64 = 86400;

/// Largest number of investors that one page may hold.
pub const MAX_INVESTORS_PER_PAGE: usize = 20;

/// One hundred percent, in basis points.
pub const MAX_BPS: u16 = 10000;

} // verus!
