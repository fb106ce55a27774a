//! How far the distribution of a vault has come.

use vstd::prelude::*;
use crate::constants::SECONDS_PER_DAY;
use crate::errors::ErrorCode;
use crate::pubkey::Pubkey;
use crate::state::policy::PolicyState;

verus! {

/// The progress of a vault's distribution through the days and, within a
/// day, through the pages.
#[derive(Clone, Copy, Debug, PartialEq, Eq)]
pub struct ProgressState {
    /// The vault whose distribution is tracked.
    pub vault: Pubkey,
    /// When the last day was closed.
    pub last_distribution_ts: i64,
    /// When the current day was started.
    pub current_day_ts: i64,
    /// What the investors have been paid today.
    pub daily_distributed: u64,
    /// The dust that the pages of the day have withheld so far.
    pub carry_over_dust: u64,
    /// The number of pages done today; zero when no page is in flight.
    pub pagination_cursor: u32,
    /// Whether the day is closed.
    pub day_complete: bool,
    /// The fees claimed over the life of the vault.
    pub total_claimed_lifetime: u64,
    /// The bump of the record's address.
    pub bump: u8,
}

impl ProgressState {
    /// The size of the stored record in bytes.
    pub const LEN: usize = 8 + 32 + 8 + 8 + 8 + 8 + 4 + 1 + 8 + 1;

    /// While a day is closed no page is in flight, and what was distributed
    /// in a day stays within the daily cap, where the policy sets one.
    pub open spec fn well_formed(&self, policy: &PolicyState) -> bool {
        &&& self.day_complete ==> self.pagination_cursor == 0
        &&& policy.daily_cap_lamports matches Some(cap) ==> self.daily_distributed <= cap
    }

    /// Why a page is not let through at `now`, if it is not.
    ///
    /// With no page in flight, a page starts a new day: the day before must
    /// be closed, and a full day must have passed since it was closed. With
    /// pages in flight, the day must still be open.
    pub open spec fn gate_error(&self, now: int) -> Option<ErrorCode> {
        if self.pagination_cursor == 0 {
            if !self.day_complete {
                Some(ErrorCode::DistributionNotComplete)
            } else if now < self.last_distribution_ts + SECONDS_PER_DAY {
                Some(ErrorCode::TooEarlyForDistribution)
            } else {
                None
            }
        } else if self.day_complete {
            Some(ErrorCode::PaginationStateMismatch)
        } else {
            None
        }
    }

    /// Decides whether a page is let through at `now`.
    pub fn check_gate(&self, now: i64) -> (result: Result<(), ErrorCode>)
        ensures
            result == match self.gate_error(now as int) {
                Some(e) => Err::<(), ErrorCode>(e),
                None => Ok(()),
            },
    {
        if self.pagination_cursor == 0 {
            if !self.day_complete {
                return Err(ErrorCode::DistributionNotComplete);
            }
            if (now as i128) < self.last_distribution_ts as i128 + SECONDS_PER_DAY as i128 {
                return Err(ErrorCode::TooEarlyForDistribution);
            }
        } else if self.day_complete {
            return Err(ErrorCode::PaginationStateMismatch);
        }
        Ok(())
    }

    /// The progress of a vault before its first distribution: the day is
    /// closed, so that the first one can start.
    pub fn new(vault: Pubkey, bump: u8) -> (progress: ProgressState)
        ensures
            progress == (ProgressState {
                vault,
                last_distribution_ts: 0,
                current_day_ts: 0,
                daily_distributed: 0,
                carry_over_dust: 0,
                pagination_cursor: 0,
                day_complete: true,
                total_claimed_lifetime: 0,
                bump,
            }),
    {
        ProgressState {
            vault,
            last_distribution_ts: 0,
            current_day_ts: 0,
            daily_distributed: 0,
            carry_over_dust: 0,
            pagination_cursor: 0,
            day_complete: true,
            total_claimed_lifetime: 0,
            bump,
        }
    }
}

} // verus!
