//! The honorary position of a vault.

use vstd::prelude::*;
use crate::pubkey::Pubkey;

verus! {

/// The liquidity position that collects the fees of a vault. It is described
/// once, when it is created.
#[derive(Clone, Copy, Debug, PartialEq, Eq)]
pub struct PositionState {
    /// The vault that the position belongs to.
    pub vault: Pubkey,
    /// The pool in which the position lies.
    pub pool_id: Pubkey,
    /// The mint of the position's token.
    pub position_nft_mint: Pubkey,
    /// The position's account in the pool.
    pub position_id: Pubkey,
    /// The lower end of the position's range.
    pub tick_lower: i32,
    /// The upper end of the position's range.
    pub tick_upper: i32,
    /// The liquidity of the position.
    pub liquidity: u128,
    /// Whether the quote token is the pool's first token.
    pub is_quote_token_0: bool,
    /// The bump of the record's address.
    pub bump: u8,
}

/// Whether a position with the given range lies wholly on the quote side of
/// the pool's current tick, so that it can only ever hold, and earn fees in,
/// the quote token: above the tick where the quote token is the pool's first
/// token, below it where it is the second.
pub open spec fn is_quote_only(
    current_tick: int,
    tick_lower: int,
    tick_upper: int,
    is_quote_token_0: bool,
) -> bool {
    if is_quote_token_0 {
        tick_lower > current_tick
    } else {
        tick_upper < current_tick
    }
}

/// Decides whether a position with the given range is quote-only at the
/// pool's current tick.
pub fn validate_quote_only_ticks(
    current_tick: i32,
    tick_lower: i32,
    tick_upper: i32,
    is_quote_token_0: bool,
) -> (valid: bool)
    ensures
        valid == is_quote_only(
            current_tick as int,
            tick_lower as int,
            tick_upper as int,
            is_quote_token_0,
        ),
{
    if is_quote_token_0 {
        tick_lower > current_tick
    } else {
        tick_upper < current_tick
    }
}

impl PositionState {
    /// The size of the stored record in bytes.
    pub const LEN: usize = 8 + 32 + 32 + 32 + 32 + 4 + 4 + 16 + 1 + 1;

    /// The range of the position is not empty.
    pub open spec fn well_formed(&self) -> bool {
        self.tick_lower < self.tick_upper
    }
}

} // verus!
