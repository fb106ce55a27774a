//! Setting up the policy of a vault.

use vstd::prelude::*;
use crate::accounts::TokenAccount;
use crate::constants::MAX_BPS;
use crate::errors::ErrorCode;
use crate::events::PolicyInitialized;
use crate::pubkey::Pubkey;
use crate::state::policy::PolicyState;
use crate::state::progress::ProgressState;

verus! {

/// The rules that the creator chooses.
#[derive(Clone, Copy, Debug, PartialEq, Eq)]
pub struct InitializePolicyParams {
    pub investor_fee_share_bps: u16,
    pub daily_cap_lamports: Option<u64>,
    pub min_payout_lamports: u64,
    pub y0_total_allocation: u64,
}

/// The accounts with which a policy is set up.
#[derive(Clone, Copy, Debug, PartialEq, Eq)]
pub struct InitializePolicy {
    /// The creator, who signs and pays.
    pub creator: Pubkey,
    /// The vault that the policy is for.
    pub vault: Pubkey,
    /// The mint of the quote token.
    pub quote_mint: Pubkey,
    /// The creator's quote token account.
    pub creator_quote_ata: TokenAccount,
    /// The bump of the policy record's address.
    pub policy_bump: u8,
    /// The bump of the progress record's address.
    pub progress_bump: u8,
}

/// What setting up a policy creates.
#[derive(Clone, Copy, Debug, PartialEq, Eq)]
pub struct PolicyInitialization {
    /// The policy record.
    pub policy: PolicyState,
    /// The progress record, ready for the first distribution.
    pub progress: ProgressState,
    /// The record for observers.
    pub event: PolicyInitialized,
}

impl InitializePolicy {
    /// The constraint that the accounts break, if any: the creator's quote
    /// token account must be the creator's own and hold the quote token.
    pub open spec fn broken_constraint(&self) -> Option<ErrorCode> {
        if self.creator_quote_ata.owner != self.creator {
            Some(ErrorCode::InvalidPageParameters)
        } else if self.creator_quote_ata.mint != self.quote_mint {
            Some(ErrorCode::QuoteMintNotInPool)
        } else {
            None
        }
    }

    /// Checks the constraints on the accounts.
    pub fn check_constraints(&self) -> (result: Result<(), ErrorCode>)
        ensures
            result == match self.broken_constraint() {
                Some(e) => Err::<(), ErrorCode>(e),
                None => Ok(()),
            },
    {
        if self.creator_quote_ata.owner != self.creator {
            return Err(ErrorCode::InvalidPageParameters);
        }
        if self.creator_quote_ata.mint != self.quote_mint {
            return Err(ErrorCode::QuoteMintNotInPool);
        }
        Ok(())
    }

    /// The policy record that the instruction creates.
    pub open spec fn policy(&self, params: InitializePolicyParams) -> PolicyState {
        PolicyState {
            vault: self.vault,
            creator_wallet: self.creator,
            creator_quote_ata: self.creator_quote_ata.key,
            quote_mint: self.quote_mint,
            investor_fee_share_bps: params.investor_fee_share_bps,
            daily_cap_lamports: params.daily_cap_lamports,
            min_payout_lamports: params.min_payout_lamports,
            y0_total_allocation: params.y0_total_allocation,
            bump: self.policy_bump,
        }
    }

    /// The progress record that the instruction creates.
    pub open spec fn progress(&self) -> ProgressState {
        ProgressState {
            vault: self.vault,
            last_distribution_ts: 0,
            current_day_ts: 0,
            daily_distributed: 0,
            carry_over_dust: 0,
            pagination_cursor: 0,
            day_complete: true,
            total_claimed_lifetime: 0,
            bump: self.progress_bump,
        }
    }

    /// The record that the instruction emits.
    pub open spec fn event(&self, params: InitializePolicyParams) -> PolicyInitialized {
        PolicyInitialized {
            vault: self.vault,
            creator_wallet: self.creator,
            quote_mint: self.quote_mint,
            investor_fee_share_bps: params.investor_fee_share_bps,
            daily_cap_lamports: params.daily_cap_lamports,
            y0_total_allocation: params.y0_total_allocation,
        }
    }
}

/// The rule that the chosen parameters break, if any: the investors' share
/// is at most everything, and the allocation is not zero.
pub open spec fn invalid_params(params: InitializePolicyParams) -> Option<ErrorCode> {
    if params.investor_fee_share_bps > 10000 {
        Some(ErrorCode::InvalidFeeShareBps)
    } else if params.y0_total_allocation == 0 {
        Some(ErrorCode::InvalidY0Allocation)
    } else {
        None
    }
}

/// Sets up the policy of a vault and the progress record that goes with it.
///
/// Parameters that break a rule are rejected. Otherwise the policy holds the
/// parameters as given, and the progress record shows a closed day, so that
/// the first distribution can start.
pub fn handler(ctx: &InitializePolicy, params: InitializePolicyParams) -> (result: Result<
    PolicyInitialization,
    ErrorCode,
>)
    ensures
        result == match invalid_params(params) {
            Some(e) => Err::<PolicyInitialization, ErrorCode>(e),
            None => Ok(
                PolicyInitialization {
                    policy: ctx.policy(params),
                    progress: ctx.progress(),
                    event: ctx.event(params),
                },
            ),
        },
        result matches Ok(created) ==> created.policy.well_formed() && created.progress.well_formed(
            &created.policy,
        ),
{
    if params.investor_fee_share_bps > MAX_BPS {
        return Err(ErrorCode::InvalidFeeShareBps);
    }
    if params.y0_total_allocation == 0 {
        return Err(ErrorCode::InvalidY0Allocation);
    }
    let policy = PolicyState {
        vault: ctx.vault,
        creator_wallet: ctx.creator,
        creator_quote_ata: ctx.creator_quote_ata.key,
        quote_mint: ctx.quote_mint,
        investor_fee_share_bps: params.investor_fee_share_bps,
        daily_cap_lamports: params.daily_cap_lamports,
        min_payout_lamports: params.min_payout_lamports,
        y0_total_allocation: params.y0_total_allocation,
        bump: ctx.policy_bump,
    };
    let progress = ProgressState::new(ctx.vault, ctx.progress_bump);
    let event = PolicyInitialized {
        vault: ctx.vault,
        creator_wallet: policy.creator_wallet,
        quote_mint: policy.quote_mint,
        investor_fee_share_bps: params.investor_fee_share_bps,
        daily_cap_lamports: params.daily_cap_lamports,
        y0_total_allocation: params.y0_total_allocation,
    };
    Ok(PolicyInitialization { policy, progress, event })
}

} // verus!
