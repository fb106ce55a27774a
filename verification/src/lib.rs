//! Fee distribution for an honorary, quote-only liquidity position.
//!
//! Once a day, the quote fees collected by the position are split between the
//! investors whose tokens are still locked and the creator. The investors are
//! paid page by page; the creator receives the remainder when the day closes.
//!
//! The three instructions take the accounts as plain values and return what
//! is to be stored, transferred and emitted. Nothing here reads or writes an
//! account itself.

use vstd::prelude::*;
use crate::errors::ErrorCode;
use crate::instructions::crank_distribution::CrankResult;
use crate::instructions::initialize_policy::PolicyInitialization;
use crate::instructions::initialize_position::PositionInitialization;
use crate::instructions::{
    CrankDistribution, CrankDistributionParams, InitializePolicy, InitializePolicyParams,
    InitializePosition, InitializePositionParams,
};

pub mod accounts;
pub mod constants;
pub mod distribution;
pub mod errors;
pub mod events;
pub mod instructions;
pub mod pagination;
pub mod pubkey;
pub mod state;
pub mod vesting;

verus! {

/// Sets up the policy of a vault.
///
/// The accounts are held to their constraints first, then the parameters to
/// the rules. Where both pass, the policy and the progress record of the
/// vault are created.
pub fn initialize_policy(ctx: &InitializePolicy, params: InitializePolicyParams) -> (result: Result<
    PolicyInitialization,
    ErrorCode,
>)
    ensures
        result == if let Some(e) = ctx.broken_constraint() {
            Err::<PolicyInitialization, ErrorCode>(e)
        } else if let Some(e) = instructions::initialize_policy::invalid_params(params) {
            Err::<PolicyInitialization, ErrorCode>(e)
        } else {
            Ok(
                PolicyInitialization {
                    policy: ctx.policy(params),
                    progress: ctx.progress(),
                    event: ctx.event(params),
                },
            )
        },
        result matches Ok(created) ==> created.policy.well_formed() && created.progress.well_formed(
            &created.policy,
        ),
{
    match ctx.check_constraints() {
        Err(e) => {
            return Err(e);
        },
        Ok(()) => {},
    }
    instructions::initialize_policy::handler(ctx, params)
}

/// Sets up the honorary position of a vault.
///
/// The accounts are held to their constraints first. Then a position that
/// could earn fees in the other token of the pool is refused.
pub fn initialize_position(ctx: &InitializePosition, params: InitializePositionParams) -> (result:
    Result<PositionInitialization, ErrorCode>)
    ensures
        result == if let Some(e) = ctx.broken_constraint() {
            Err::<PositionInitialization, ErrorCode>(e)
        } else if let Some(e) = ctx.rejection(params) {
            Err::<PositionInitialization, ErrorCode>(e)
        } else {
            Ok(
                PositionInitialization {
                    position_state: ctx.position_state(params),
                    event: ctx.event(params),
                },
            )
        },
        result matches Ok(created) ==> {
            &&& created.position_state.well_formed()
            &&& state::position::is_quote_only(
                ctx.pool_state.current_tick as int,
                created.position_state.tick_lower as int,
                created.position_state.tick_upper as int,
                created.position_state.is_quote_token_0,
            )
        },
{
    match ctx.check_constraints() {
        Err(e) => {
            return Err(e);
        },
        Ok(()) => {},
    }
    instructions::initialize_position::handler(ctx, params)
}

/// Distributes the fees to one page of investors.
///
/// The accounts are held to their constraints first. Then the page is
/// distributed as [`instructions::crank_distribution::handler`] says. A call
/// that fails changes nothing.
pub fn crank_distribution(ctx: &mut CrankDistribution, params: CrankDistributionParams) -> (result:
    Result<CrankResult, ErrorCode>)
    ensures
        old(ctx).broken_constraint() matches Some(e) ==> result == Err::<CrankResult, ErrorCode>(e)
            && *final(ctx) == *old(ctx),
        old(ctx).broken_constraint() is None ==> match old(ctx).rejection(params) {
            Some(e) => result == Err::<CrankResult, ErrorCode>(e) && *final(ctx) == *old(ctx),
            None => {
                &&& result matches Ok(page)
                &&& old(ctx).yields(params, page)
                &&& *final(ctx) == (CrankDistribution {
                    progress: old(ctx).next_progress(params),
                    ..*old(ctx)
                })
            },
        },
        result matches Ok(page) ==> {
            &&& instructions::crank_distribution::paid_out(page.investor_payouts@)
                == page.total_distributed
            &&& page.total_distributed + (page.dust_accumulated - old(ctx).progress.carry_over_dust)
                <= page.investor_fee_quote <= page.total_available
            &&& page.creator_amount matches Some(creator_amount) ==> page.total_distributed
                + creator_amount == page.total_available
            &&& final(ctx).progress.day_complete ==> final(ctx).progress.pagination_cursor == 0
            &&& old(ctx).progress.well_formed(&old(ctx).policy) ==> final(ctx).progress.well_formed(
                &final(ctx).policy,
            )
        },
{
    match ctx.check_constraints() {
        Err(e) => {
            return Err(e);
        },
        Ok(()) => {},
    }
    instructions::crank_distribution::handler(ctx, params)
}

} // verus!
