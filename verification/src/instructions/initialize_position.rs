//! Setting up the honorary position of a vault.

use vstd::prelude::*;
use crate::accounts::PoolAccount;
use crate::errors::ErrorCode;
use crate::events::HonoraryPositionInitialized;
use crate::pubkey::Pubkey;
use crate::state::policy::PolicyState;
use crate::state::position::{is_quote_only, validate_quote_only_ticks, PositionState};

verus! {

/// The range of the position to create.
#[derive(Clone, Copy, Debug, PartialEq, Eq)]
pub struct InitializePositionParams {
    pub tick_lower: i32,
    pub tick_upper: i32,
    pub tick_array_lower_start_index: i32,
    pub tick_array_upper_start_index: i32,
}

/// The accounts with which a position is set up.
#[derive(Clone, Copy, Debug, PartialEq, Eq)]
pub struct InitializePosition {
    /// The vault that the position is for.
    pub vault: Pubkey,
    /// The policy of the vault, which must exist already.
    pub policy: PolicyState,
    /// The pool in which the position is opened.
    pub pool_state: PoolAccount,
    /// The mint of the quote token.
    pub quote_mint: Pubkey,
    /// The mint of the pool's first token.
    pub token_0_mint: Pubkey,
    /// The mint of the pool's second token.
    pub token_1_mint: Pubkey,
    /// The mint of the position's token.
    pub position_nft_mint: Pubkey,
    /// The position's account in the pool.
    pub protocol_position: Pubkey,
    /// The bump of the position record's address.
    pub position_state_bump: u8,
}

/// What setting up a position creates.
#[derive(Clone, Copy, Debug, PartialEq, Eq)]
pub struct PositionInitialization {
    /// The position record.
    pub position_state: PositionState,
    /// The record for observers.
    pub event: HonoraryPositionInitialized,
}

/// The liquidity with which the position is opened: the least there is.
pub const HONORARY_LIQUIDITY: u128 = 1;

impl InitializePosition {
    /// The constraint that the accounts break, if any: the policy must be
    /// that of the vault.
    pub open spec fn broken_constraint(&self) -> Option<ErrorCode> {
        if self.policy.vault != self.vault {
            Some(ErrorCode::InvalidPageParameters)
        } else {
            None
        }
    }

    /// Checks the constraints on the accounts.
    pub fn check_constraints(&self) -> (result: Result<(), ErrorCode>)
        ensures
            result == match self.broken_constraint() {
                Some(e) => Err::<(), ErrorCode>(e),
                None => Ok(()),
            },
    {
        if self.policy.vault != self.vault {
            return Err(ErrorCode::InvalidPageParameters);
        }
        Ok(())
    }

    /// Whether the quote token is the pool's first token.
    pub open spec fn is_quote_token_0(&self) -> bool {
        self.quote_mint == self.token_0_mint
    }

    /// Why the position is refused, if it is.
    ///
    /// The quote token must be one of the pool's two tokens and the one that
    /// the policy names. The range must not be empty, and it must lie wholly
    /// on the quote side of the pool's current tick.
    pub open spec fn rejection(&self, params: InitializePositionParams) -> Option<ErrorCode> {
        if self.quote_mint != self.token_0_mint && self.quote_mint != self.token_1_mint {
            Some(ErrorCode::QuoteMintNotInPool)
        } else if self.quote_mint != self.policy.quote_mint {
            Some(ErrorCode::QuoteMintNotInPool)
        } else if params.tick_lower >= params.tick_upper {
            Some(ErrorCode::InvalidTickRangeForQuoteOnly)
        } else if !is_quote_only(
            self.pool_state.current_tick as int,
            params.tick_lower as int,
            params.tick_upper as int,
            self.is_quote_token_0(),
        ) {
            Some(ErrorCode::PositionWouldAccrueBaseFees)
        } else {
            None
        }
    }

    /// The position record that the instruction creates.
    pub open spec fn position_state(&self, params: InitializePositionParams) -> PositionState {
        PositionState {
            vault: self.vault,
            pool_id: self.pool_state.key,
            position_nft_mint: self.position_nft_mint,
            position_id: self.protocol_position,
            tick_lower: params.tick_lower,
            tick_upper: params.tick_upper,
            liquidity: 1,
            is_quote_token_0: self.is_quote_token_0(),
            bump: self.position_state_bump,
        }
    }

    /// The record that the instruction emits.
    pub open spec fn event(&self, params: InitializePositionParams) -> HonoraryPositionInitialized {
        HonoraryPositionInitialized {
            vault: self.vault,
            pool: self.pool_state.key,
            position_id: self.protocol_position,
            tick_lower: params.tick_lower,
            tick_upper: params.tick_upper,
            is_quote_token_0: self.is_quote_token_0(),
            liquidity: 1,
        }
    }
}

/// Sets up the honorary position of a vault.
///
/// A position that could earn fees in the other token of the pool is
/// refused: see [`InitializePosition::rejection`]. The position that is
/// created has the range asked for and the least liquidity.
pub fn handler(ctx: &InitializePosition, params: InitializePositionParams) -> (result: Result<
    PositionInitialization,
    ErrorCode,
>)
    ensures
        result == match ctx.rejection(params) {
            Some(e) => Err::<PositionInitialization, ErrorCode>(e),
            None => Ok(
                PositionInitialization {
                    position_state: ctx.position_state(params),
                    event: ctx.event(params),
                },
            ),
        },
        result matches Ok(created) ==> {
            &&& created.position_state.well_formed()
            &&& is_quote_only(
                ctx.pool_state.current_tick as int,
                created.position_state.tick_lower as int,
                created.position_state.tick_upper as int,
                created.position_state.is_quote_token_0,
            )
        },
{
    let is_quote_token_0 = ctx.quote_mint == ctx.token_0_mint;
    let is_quote_token_1 = ctx.quote_mint == ctx.token_1_mint;
    if !(is_quote_token_0 || is_quote_token_1) {
        return Err(ErrorCode::QuoteMintNotInPool);
    }
    if ctx.quote_mint != ctx.policy.quote_mint {
        return Err(ErrorCode::QuoteMintNotInPool);
    }
    if params.tick_lower >= params.tick_upper {
        return Err(ErrorCode::InvalidTickRangeForQuoteOnly);
    }
    if !validate_quote_only_ticks(
        ctx.pool_state.current_tick,
        params.tick_lower,
        params.tick_upper,
        is_quote_token_0,
    ) {
        return Err(ErrorCode::PositionWouldAccrueBaseFees);
    }
    let position_state = PositionState {
        vault: ctx.vault,
        pool_id: ctx.pool_state.key,
        position_nft_mint: ctx.position_nft_mint,
        position_id: ctx.protocol_position,
        tick_lower: params.tick_lower,
        tick_upper: params.tick_upper,
        liquidity: HONORARY_LIQUIDITY,
        is_quote_token_0,
        bump: ctx.position_state_bump,
    };
    let event = HonoraryPositionInitialized {
        vault: ctx.vault,
        pool: ctx.pool_state.key,
        position_id: ctx.protocol_position,
        tick_lower: params.tick_lower,
        tick_upper: params.tick_upper,
        is_quote_token_0,
        liquidity: HONORARY_LIQUIDITY,
    };
    Ok(PositionInitialization { position_state, event })
}

} // verus!
