//! Distributing the fees of a day, one page of investors at a time.

use vstd::prelude::*;
use crate::accounts::TokenAccount;
use crate::constants::{MAX_INVESTORS_PER_PAGE, SECONDS_PER_DAY};
use crate::distribution::{
    apply_daily_cap, calculate_eligible_share_bps, calculate_f_locked_bps, calculate_investor_fee,
    capped_fee, distribute_page, dust_sum, eligible_bps, investor_fee, lemma_capped_fee_bounds,
    lemma_f_locked_bps_bounds, lemma_investor_fee_bounds, lemma_no_shares_without_locked_total,
    lemma_page_conservation, lemma_payouts_follow_page, lemma_shares_within_fee,
    lemma_sums_nonnegative, lemma_sums_of_prefix, locked_sum, paid_sum, payouts, payouts_total,
    share_overflows, Payout,
};
use crate::errors::ErrorCode;
use crate::events::{CreatorPayoutDayClosed, DustCarriedOver, InvestorPayoutPage, QuoteFeesClaimed};
use crate::pubkey::Pubkey;
use crate::state::policy::PolicyState;
use crate::state::progress::ProgressState;
use crate::vesting::lemma_locked_bounds;
use crate::vesting::VestingSchedule;

verus! {

/// What the cranker says of the page.
#[derive(Clone, Copy, Debug, PartialEq, Eq)]
pub struct CrankDistributionParams {
    /// The number of investors in the page.
    pub investor_count: u8,
    /// Whether the page is the last of the day.
    pub is_last_page: bool,
}

/// The two accounts that stand for one investor of a page.
#[derive(Clone, Copy, Debug)]
pub struct InvestorAccounts {
    /// The investor's vesting schedule.
    pub stream: VestingSchedule,
    /// The investor's quote token account, to which the share is paid.
    pub investor_quote_ata: Pubkey,
}

/// The accounts with which a page is distributed, and the time.
#[derive(Debug)]
pub struct CrankDistribution {
    /// The vault whose fees are distributed.
    pub vault: Pubkey,
    /// The policy of the vault.
    pub policy: PolicyState,
    /// The progress of the vault, which a page that succeeds carries on.
    pub progress: ProgressState,
    /// The treasury that holds the claimed fees.
    pub program_quote_treasury: TokenAccount,
    /// The creator's quote token account, which receives the remainder.
    pub creator_quote_ata: Pubkey,
    /// The time of the call.
    pub unix_timestamp: i64,
    /// The investors of the page, in the cranker's order.
    pub remaining_accounts: Vec<InvestorAccounts>,
}

/// What a page that succeeded has computed, and what is to be transferred and
/// emitted for it.
#[derive(Debug)]
pub struct CrankResult {
    /// The claimed fees and the dust carried into the page.
    pub total_available: u64,
    /// The sum of the locked amounts of the page's investors.
    pub locked_total: u64,
    /// The share that the investors are eligible for, in basis points.
    pub eligible_investor_share_bps: u16,
    /// The investors' part of what is available, after the daily cap.
    pub investor_fee_quote: u64,
    /// The sum of what the investors of the page are paid.
    pub total_distributed: u64,
    /// The dust carried into the page and the shares that the page withheld.
    pub dust_accumulated: u64,
    /// On the last page of a day, what remains for the creator.
    pub creator_amount: Option<u64>,
    /// One record for each investor to pay, in the order of the page. Each
    /// is a transfer of the amount from the treasury to the investor's account.
    pub investor_payouts: Vec<InvestorPayoutPage>,
    /// The record of the creator's payout, where the creator gets anything.
    /// It is a transfer of the amount from the treasury to the creator's account.
    pub creator_payout: Option<CreatorPayoutDayClosed>,
    /// On a page that is not the last, the record of the dust carried over.
    pub dust_carried_over: Option<DustCarriedOver>,
    /// The record of the page.
    pub fees_claimed: QuoteFeesClaimed,
}

/// The locked amounts, at `now`, of the first `count` investors of a page.
pub open spec fn locked_amounts(page: Seq<InvestorAccounts>, count: int, now: int) -> Seq<u64> {
    Seq::new(count as nat, |i: int| page[i].stream@.locked_amount(now) as u64)
}

/// The records of the payouts of a page.
pub open spec fn payout_records(
    paid: Seq<Payout>,
    page: Seq<InvestorAccounts>,
    vault: Pubkey,
    cursor: u32,
) -> Seq<InvestorPayoutPage> {
    Seq::new(
        paid.len(),
        |i: int|
            InvestorPayoutPage {
                vault,
                investor: page[paid[i].index as int].investor_quote_ata,
                amount: paid[i].amount,
                locked_amount: paid[i].locked_amount,
                page: cursor,
            },
    )
}

/// The sum of the amounts of the payout records.
pub open spec fn paid_out(records: Seq<InvestorPayoutPage>) -> int
    decreases records.len(),
{
    if records.len() == 0 {
        0
    } else {
        paid_out(records.drop_last()) + records.last().amount
    }
}

/// The records of the payouts carry the amounts of the payouts.
pub proof fn lemma_records_carry_payouts(
    paid: Seq<Payout>,
    page: Seq<InvestorAccounts>,
    vault: Pubkey,
    cursor: u32,
)
    ensures
        paid_out(payout_records(paid, page, vault, cursor)) == payouts_total(paid),
    decreases paid.len(),
{
    if paid.len() > 0 {
        lemma_records_carry_payouts(paid.drop_last(), page, vault, cursor);
        assert(payout_records(paid, page, vault, cursor).drop_last() == payout_records(
            paid.drop_last(),
            page,
            vault,
            cursor,
        ));
    }
}

impl CrankDistribution {
    /// The constraint that the accounts break, if any: the treasury must
    /// hold the quote token, and the creator's account must be the one that
    /// the policy names.
    pub open spec fn broken_constraint(&self) -> Option<ErrorCode> {
        if self.program_quote_treasury.mint != self.policy.quote_mint {
            Some(ErrorCode::QuoteMintNotInPool)
        } else if self.creator_quote_ata != self.policy.creator_quote_ata {
            Some(ErrorCode::InvalidPageParameters)
        } else {
            None
        }
    }

    /// Checks the constraints on the accounts.
    pub fn check_constraints(&self) -> (result: Result<(), ErrorCode>)
        ensures
            result == match self.broken_constraint() {
                Some(e) => Err::<(), ErrorCode>(e),
                None => Ok(()),
            },
    {
        if self.program_quote_treasury.mint != self.policy.quote_mint {
            return Err(ErrorCode::QuoteMintNotInPool);
        }
        if self.creator_quote_ata != self.policy.creator_quote_ata {
            return Err(ErrorCode::InvalidPageParameters);
        }
        Ok(())
    }

    /// Whether the page is too large, or larger than the accounts given.
    pub open spec fn page_refused(&self, params: CrankDistributionParams) -> bool {
        params.investor_count > MAX_INVESTORS_PER_PAGE || self.remaining_accounts@.len()
            < params.investor_count
    }

    /// Whether the page starts a new day.
    pub open spec fn starts_day(&self) -> bool {
        self.progress.pagination_cursor == 0
    }

    /// When the day of the page started.
    pub open spec fn day_start(&self) -> i64 {
        if self.starts_day() {
            self.unix_timestamp
        } else {
            self.progress.current_day_ts
        }
    }

    /// What the investors were paid today before this page.
    pub open spec fn distributed_before(&self) -> int {
        if self.starts_day() {
            0
        } else {
            self.progress.daily_distributed as int
        }
    }

    /// The claimed fees and the dust carried into the page.
    pub open spec fn total_available(&self) -> int {
        self.program_quote_treasury.amount + self.progress.carry_over_dust
    }

    /// The locked amounts of the page's investors.
    pub open spec fn locks(&self, params: CrankDistributionParams) -> Seq<u64> {
        locked_amounts(
            self.remaining_accounts@,
            params.investor_count as int,
            self.unix_timestamp as int,
        )
    }

    /// The sum of the locked amounts of the page's investors.
    pub open spec fn locked_total(&self, params: CrankDistributionParams) -> int {
        locked_sum(self.locks(params))
    }

    /// The share that the investors are eligible for, in basis points.
    pub open spec fn eligible_share_bps(&self, params: CrankDistributionParams) -> int {
        eligible_bps(
            self.policy.investor_fee_share_bps as int,
            self.locked_total(params),
            self.policy.y0_total_allocation as int,
        )
    }

    /// The investors' part of what is available, after the daily cap.
    pub open spec fn investor_fee_quote(&self, params: CrankDistributionParams) -> int {
        capped_fee(
            investor_fee(self.total_available(), self.eligible_share_bps(params)),
            self.policy.daily_cap_lamports,
            self.distributed_before(),
        )
    }

    /// The payouts of the page.
    pub open spec fn paid(&self, params: CrankDistributionParams) -> Seq<Payout> {
        payouts(
            self.investor_fee_quote(params),
            self.locks(params),
            self.locked_total(params),
            self.policy.min_payout_lamports as int,
        )
    }

    /// The sum of what the investors of the page are paid.
    pub open spec fn total_distributed(&self, params: CrankDistributionParams) -> int {
        paid_sum(
            self.investor_fee_quote(params),
            self.locks(params),
            self.locked_total(params),
            self.policy.min_payout_lamports as int,
        )
    }

    /// The dust carried into the page and the shares that the page withholds.
    pub open spec fn dust_accumulated(&self, params: CrankDistributionParams) -> int {
        self.progress.carry_over_dust + dust_sum(
            self.investor_fee_quote(params),
            self.locks(params),
            self.locked_total(params),
            self.policy.min_payout_lamports as int,
        )
    }

    /// What remains for the creator when the page closes the day: all that
    /// is available and that the page has not paid to the investors.
    pub open spec fn creator_amount(&self, params: CrankDistributionParams) -> int {
        self.total_available() - self.total_distributed(params)
    }

    /// Whether one of the numbers of the page exceeds what its type holds:
    /// a number of 64 bits, or the cursor of 32 bits.
    pub open spec fn overflows(&self, params: CrankDistributionParams) -> bool {
        ||| self.total_available() > u64::MAX
        ||| self.locked_total(params) > u64::MAX
        ||| self.policy.y0_total_allocation > 0 && self.locked_total(params) * 10000 > u64::MAX
        ||| self.total_available() * self.eligible_share_bps(params) > u64::MAX
        ||| share_overflows(
            self.investor_fee_quote(params),
            self.locks(params),
            self.locked_total(params),
        )
        ||| self.dust_accumulated(params) > u64::MAX
        ||| self.distributed_before() + self.total_distributed(params) > u64::MAX
        ||| params.is_last_page && self.progress.total_claimed_lifetime
            + self.program_quote_treasury.amount > u64::MAX
        ||| !params.is_last_page && self.progress.pagination_cursor + 1 > u32::MAX
    }

    /// Why the page is rejected, if it is.
    ///
    /// A page that is too large is refused before anything else. Then the
    /// gate decides whether a page may be distributed now. Last, a page on
    /// which a number would overflow is rejected as a whole.
    pub open spec fn rejection(&self, params: CrankDistributionParams) -> Option<ErrorCode> {
        if self.page_refused(params) {
            Some(ErrorCode::InvalidInvestorCount)
        } else if self.progress.gate_error(self.unix_timestamp as int) is Some {
            self.progress.gate_error(self.unix_timestamp as int)
        } else if self.overflows(params) {
            Some(ErrorCode::MathOverflow)
        } else {
            None
        }
    }

    /// The cursor after the page: back at zero when the day is closed, one
    /// further otherwise.
    pub open spec fn next_cursor(&self, params: CrankDistributionParams) -> u32 {
        if params.is_last_page {
            0
        } else {
            (self.progress.pagination_cursor + 1) as u32
        }
    }

    /// The progress after the page.
    pub open spec fn next_progress(&self, params: CrankDistributionParams) -> ProgressState {
        ProgressState {
            vault: self.progress.vault,
            last_distribution_ts: if params.is_last_page {
                self.unix_timestamp
            } else {
                self.progress.last_distribution_ts
            },
            current_day_ts: self.day_start(),
            daily_distributed: (self.distributed_before() + self.total_distributed(params)) as u64,
            carry_over_dust: if params.is_last_page {
                0
            } else {
                self.dust_accumulated(params) as u64
            },
            pagination_cursor: self.next_cursor(params),
            day_complete: params.is_last_page,
            total_claimed_lifetime: if params.is_last_page {
                (self.progress.total_claimed_lifetime + self.program_quote_treasury.amount) as u64
            } else {
                self.progress.total_claimed_lifetime
            },
            bump: self.progress.bump,
        }
    }

    /// The records of the investors' payouts.
    pub open spec fn investor_payouts(&self, params: CrankDistributionParams) -> Seq<
        InvestorPayoutPage,
    > {
        payout_records(
            self.paid(params),
            self.remaining_accounts@,
            self.vault,
            self.progress.pagination_cursor,
        )
    }

    /// The record of the creator's payout: there is one where the page
    /// closes the day and something remains for the creator.
    pub open spec fn creator_payout(&self, params: CrankDistributionParams) -> Option<
        CreatorPayoutDayClosed,
    > {
        if params.is_last_page && self.creator_amount(params) > 0 {
            Some(
                CreatorPayoutDayClosed {
                    vault: self.vault,
                    creator: self.policy.creator_wallet,
                    amount: self.creator_amount(params) as u64,
                    day_ts: self.day_start(),
                    total_distributed_to_investors: self.total_distributed(params) as u64,
                },
            )
        } else {
            None
        }
    }

    /// The record of the dust carried over: there is one where the page does
    /// not close the day.
    pub open spec fn dust_carried_over(&self, params: CrankDistributionParams) -> Option<
        DustCarriedOver,
    > {
        if params.is_last_page {
            None
        } else {
            Some(
                DustCarriedOver {
                    vault: self.vault,
                    dust_amount: self.dust_accumulated(params) as u64,
                    page: self.next_cursor(params),
                },
            )
        }
    }

    /// The record of the page.
    pub open spec fn fees_claimed(&self, params: CrankDistributionParams) -> QuoteFeesClaimed {
        QuoteFeesClaimed {
            vault: self.vault,
            amount: self.program_quote_treasury.amount,
            total_distributed: self.total_distributed(params) as u64,
            page: self.next_cursor(params),
            timestamp: self.unix_timestamp,
        }
    }

    /// Whether `result` is what the page computes, transfers and emits.
    pub open spec fn yields(&self, params: CrankDistributionParams, result: CrankResult) -> bool {
        &&& result.total_available == self.total_available()
        &&& result.locked_total == self.locked_total(params)
        &&& result.eligible_investor_share_bps == self.eligible_share_bps(params)
        &&& result.investor_fee_quote == self.investor_fee_quote(params)
        &&& result.total_distributed == self.total_distributed(params)
        &&& result.dust_accumulated == self.dust_accumulated(params)
        &&& result.creator_amount == if params.is_last_page {
            Some(self.creator_amount(params) as u64)
        } else {
            None
        }
        &&& result.investor_payouts@ == self.investor_payouts(params)
        &&& result.creator_payout == self.creator_payout(params)
        &&& result.dust_carried_over == self.dust_carried_over(params)
        &&& result.fees_claimed == self.fees_claimed(params)
    }
}

/// Reads the locked amounts of the first `count` investors of a page, and
/// adds them up.
fn read_locked_amounts(page: &Vec<InvestorAccounts>, count: usize, now: i64) -> (result: Result<
    (Vec<u64>, u64),
    ErrorCode,
>)
    requires
        count <= page.len(),
    ensures
        result is Err <==> locked_sum(locked_amounts(page@, count as int, now as int)) > u64::MAX,
        result matches Err(e) ==> e == ErrorCode::MathOverflow,
        result matches Ok((locks, total)) ==> {
            &&& locks@ == locked_amounts(page@, count as int, now as int)
            &&& total == locked_sum(locks@)
        },
{
    let ghost all = locked_amounts(page@, count as int, now as int);
    let mut locks: Vec<u64> = Vec::new();
    let mut locked_total: u64 = 0;
    let mut i: usize = 0;
    while i < count
        invariant
            i <= count <= page.len(),
            all == locked_amounts(page@, count as int, now as int),
            locks@ == all.take(i as int),
            locked_total == locked_sum(locks@),
        decreases count - i,
    {
        let locked_amount: u64 = page[i].stream.calculate_locked_amount(now);
        proof {
            assert(all[i as int] == locked_amount);
            assert(all.take(i + 1).drop_last() == all.take(i as int));
            assert(all.take(i + 1).last() == locked_amount);
            lemma_sums_of_prefix(0, all, 0, 0, i + 1);
        }
        locks.push(locked_amount);
        locked_total = match locked_total.checked_add(locked_amount) {
            Some(sum) => sum,
            None => {
                return Err(ErrorCode::MathOverflow);
            },
        };
        i += 1;
        proof {
            assert(locks@ == all.take(i as int));
        }
    }
    proof {
        assert(all.take(count as int) == all);
    }
    Ok((locks, locked_total))
}

/// Writes the record of each payout of a page.
fn write_payout_records(
    paid: &Vec<Payout>,
    page: &Vec<InvestorAccounts>,
    vault: Pubkey,
    cursor: u32,
) -> (records: Vec<InvestorPayoutPage>)
    requires
        forall|i: int| 0 <= i < paid@.len() ==> (#[trigger] paid@[i]).index < page@.len(),
    ensures
        records@ == payout_records(paid@, page@, vault, cursor),
{
    let mut records: Vec<InvestorPayoutPage> = Vec::new();
    let mut i: usize = 0;
    while i < paid.len()
        invariant
            i <= paid.len(),
            forall|j: int| 0 <= j < paid@.len() ==> (#[trigger] paid@[j]).index < page@.len(),
            records@ == payout_records(paid@, page@, vault, cursor).take(i as int),
        decreases paid.len() - i,
    {
        let payout: Payout = paid[i];
        records.push(
            InvestorPayoutPage {
                vault,
                investor: page[payout.index].investor_quote_ata,
                amount: payout.amount,
                locked_amount: payout.locked_amount,
                page: cursor,
            },
        );
        i += 1;
        proof {
            assert(records@ == payout_records(paid@, page@, vault, cursor).take(i as int));
        }
    }
    proof {
        let all = payout_records(paid@, page@, vault, cursor);
        assert(all.take(paid@.len() as int) == all);
    }
    records
}

/// Distributes the fees to one page of investors.
///
/// The page is rejected, and nothing changes, where
/// [`CrankDistribution::rejection`] names an error. Otherwise the progress of
/// the vault is carried on by one page, and the result tells what was
/// computed and what is to be transferred and emitted.
///
/// The investors of a page never get more than the investors' fee, and what
/// is paid in a day stays within the daily cap. The page that closes the day
/// leaves to the creator all that is available and was not paid by it.
pub fn handler(ctx: &mut CrankDistribution, params: CrankDistributionParams) -> (result: Result<
    CrankResult,
    ErrorCode,
>)
    ensures
        match old(ctx).rejection(params) {
            Some(e) => result == Err::<CrankResult, ErrorCode>(e) && *final(ctx) == *old(ctx),
            None => {
                &&& result matches Ok(page)
                &&& old(ctx).yields(params, page)
                &&& *final(ctx) == (CrankDistribution {
                    progress: old(ctx).next_progress(params),
                    ..*old(ctx)
                })
            },
        },
        result matches Ok(page) ==> {
            &&& paid_out(page.investor_payouts@) == page.total_distributed
            &&& page.total_distributed + (page.dust_accumulated - old(ctx).progress.carry_over_dust)
                <= page.investor_fee_quote <= page.total_available
            &&& page.creator_amount matches Some(creator_amount) ==> page.total_distributed
                + creator_amount == page.total_available
            &&& final(ctx).progress.day_complete ==> final(ctx).progress.pagination_cursor == 0
            &&& old(ctx).progress.well_formed(&old(ctx).policy) ==> final(ctx).progress.well_formed(
                &final(ctx).policy,
            )
        },
{
    let count: usize = params.investor_count as usize;
    if count > MAX_INVESTORS_PER_PAGE {
        return Err(ErrorCode::InvalidInvestorCount);
    }
    if ctx.remaining_accounts.len() < count {
        return Err(ErrorCode::InvalidInvestorCount);
    }
    let now: i64 = ctx.unix_timestamp;
    match ctx.progress.check_gate(now) {
        Err(e) => {
            return Err(e);
        },
        Ok(()) => {},
    }
    let starts_day: bool = ctx.progress.pagination_cursor == 0;
    let day_start: i64 = if starts_day {
        now
    } else {
        ctx.progress.current_day_ts
    };
    let distributed_before: u64 = if starts_day {
        0
    } else {
        ctx.progress.daily_distributed
    };
    let claimed_quote_amount: u64 = ctx.program_quote_treasury.amount;
    let carry_over_dust: u64 = ctx.progress.carry_over_dust;
    let total_available: u64 = match claimed_quote_amount.checked_add(carry_over_dust) {
        Some(sum) => sum,
        None => {
            return Err(ErrorCode::MathOverflow);
        },
    };
    let (locks, locked_total) = match read_locked_amounts(&ctx.remaining_accounts, count, now) {
        Ok(read) => read,
        Err(e) => {
            return Err(e);
        },
    };
    let f_locked_bps: u16 = match calculate_f_locked_bps(
        locked_total,
        ctx.policy.y0_total_allocation,
    ) {
        Ok(bps) => bps,
        Err(e) => {
            return Err(e);
        },
    };
    let eligible_investor_share_bps: u16 = calculate_eligible_share_bps(
        ctx.policy.investor_fee_share_bps,
        f_locked_bps,
    );
    let uncapped_fee: u64 = match calculate_investor_fee(
        total_available,
        eligible_investor_share_bps,
    ) {
        Ok(fee) => fee,
        Err(e) => {
            return Err(e);
        },
    };
    let investor_fee_quote: u64 = apply_daily_cap(
        uncapped_fee,
        ctx.policy.daily_cap_lamports,
        distributed_before,
    );
    proof {
        let min = ctx.policy.min_payout_lamports as int;
        lemma_f_locked_bps_bounds(locked_total as int, ctx.policy.y0_total_allocation as int);
        lemma_investor_fee_bounds(total_available as int, eligible_investor_share_bps as int);
        lemma_capped_fee_bounds(
            uncapped_fee as int,
            ctx.policy.daily_cap_lamports,
            distributed_before as int,
        );
        lemma_shares_within_fee(investor_fee_quote as int, locks@, locked_total as int, min);
        lemma_sums_nonnegative(investor_fee_quote as int, locks@, locked_total as int, min);
        lemma_payouts_follow_page(investor_fee_quote as int, locks@, locked_total as int, min);
    }
    let shares = match distribute_page(
        investor_fee_quote,
        &locks,
        locked_total,
        ctx.policy.min_payout_lamports,
        carry_over_dust,
    ) {
        Ok(shares) => shares,
        Err(e) => {
            return Err(e);
        },
    };
    let total_distributed: u64 = shares.total_distributed;
    let dust_accumulated: u64 = shares.dust_accumulated;
    let daily_distributed: u64 = match distributed_before.checked_add(total_distributed) {
        Some(sum) => sum,
        None => {
            return Err(ErrorCode::MathOverflow);
        },
    };
    let cursor: u32 = ctx.progress.pagination_cursor;
    let investor_payouts = write_payout_records(
        &shares.payouts,
        &ctx.remaining_accounts,
        ctx.vault,
        cursor,
    );
    proof {
        lemma_records_carry_payouts(shares.payouts@, ctx.remaining_accounts@, ctx.vault, cursor);
    }
    let next_progress: ProgressState;
    let creator_amount: Option<u64>;
    let creator_payout: Option<CreatorPayoutDayClosed>;
    let dust_carried_over: Option<DustCarriedOver>;
    if params.is_last_page {
        let remainder: u64 = total_available - total_distributed;
        let total_claimed_lifetime: u64 = match ctx.progress.total_claimed_lifetime.checked_add(
            claimed_quote_amount,
        ) {
            Some(sum) => sum,
            None => {
                return Err(ErrorCode::MathOverflow);
            },
        };
        creator_amount = Some(remainder);
        creator_payout = if remainder > 0 {
            Some(
                CreatorPayoutDayClosed {
                    vault: ctx.vault,
                    creator: ctx.policy.creator_wallet,
                    amount: remainder,
                    day_ts: day_start,
                    total_distributed_to_investors: total_distributed,
                },
            )
        } else {
            None
        };
        dust_carried_over = None;
        next_progress = ProgressState {
            vault: ctx.progress.vault,
            last_distribution_ts: now,
            current_day_ts: day_start,
            daily_distributed,
            carry_over_dust: 0,
            pagination_cursor: 0,
            day_complete: true,
            total_claimed_lifetime,
            bump: ctx.progress.bump,
        };
    } else {
        let next_cursor: u32 = match cursor.checked_add(1) {
            Some(next) => next,
            None => {
                return Err(ErrorCode::MathOverflow);
            },
        };
        creator_amount = None;
        creator_payout = None;
        dust_carried_over = Some(
            DustCarriedOver { vault: ctx.vault, dust_amount: dust_accumulated, page: next_cursor },
        );
        next_progress = ProgressState {
            vault: ctx.progress.vault,
            last_distribution_ts: ctx.progress.last_distribution_ts,
            current_day_ts: day_start,
            daily_distributed,
            carry_over_dust: dust_accumulated,
            pagination_cursor: next_cursor,
            day_complete: false,
            total_claimed_lifetime: ctx.progress.total_claimed_lifetime,
            bump: ctx.progress.bump,
        };
    }
    let fees_claimed = QuoteFeesClaimed {
        vault: ctx.vault,
        amount: claimed_quote_amount,
        total_distributed,
        page: next_progress.pagination_cursor,
        timestamp: now,
    };
    ctx.progress = next_progress;
    Ok(
        CrankResult {
            total_available,
            locked_total,
            eligible_investor_share_bps,
            investor_fee_quote,
            total_distributed,
            dust_accumulated,
            creator_amount,
            investor_payouts,
            creator_payout,
            dust_carried_over,
            fees_claimed,
        },
    )
}

/// A page that would start a day is rejected before a full day has passed
/// since the last day was closed, and a page that would continue a day is
/// rejected once the day is closed. So a day starts only after the day
/// before was closed, and no sooner than a full day later.
pub proof fn lemma_gate(ctx: CrankDistribution, params: CrankDistributionParams)
    ensures
        ctx.progress.pagination_cursor == 0 && ctx.unix_timestamp
            < ctx.progress.last_distribution_ts + SECONDS_PER_DAY ==> ctx.rejection(
            params,
        ) is Some,
        ctx.progress.pagination_cursor > 0 && ctx.progress.day_complete ==> ctx.rejection(
            params,
        ) is Some,
        ctx.rejection(params) is None && ctx.starts_day() ==> ctx.progress.day_complete
            && ctx.unix_timestamp >= ctx.progress.last_distribution_ts + SECONDS_PER_DAY,
{
}

/// The amounts that a page works with are the locked amounts of its
/// investors' schedules, as far as 64 bits hold them: the locked amounts
/// themselves where the time of the call lies before the cliff of the
/// schedule or not before its start.
pub proof fn lemma_locks_of_schedules(
    ctx: CrankDistribution,
    params: CrankDistributionParams,
    i: int,
)
    requires
        0 <= i < params.investor_count <= ctx.remaining_accounts@.len(),
    ensures
        ctx.locks(params).len() == params.investor_count,
        ctx.locks(params)[i] == ctx.remaining_accounts@[i].stream@.locked_amount(
            ctx.unix_timestamp as int,
        ),
        ({
            let schedule = ctx.remaining_accounts@[i].stream@;
            schedule.well_formed() && (ctx.unix_timestamp < schedule.cliff_time
                || schedule.start_time <= ctx.unix_timestamp)
        }) ==> ctx.locks(params)[i] == ctx.remaining_accounts@[i].stream@.locked_at(
            ctx.unix_timestamp as int,
        ),
{
    let schedule = ctx.remaining_accounts@[i].stream@;
    ctx.remaining_accounts@[i].stream.lemma_view_in_range();
    if schedule.well_formed() {
        lemma_locked_bounds(schedule, ctx.unix_timestamp as int);
    }
}

/// Conservation within a page: where every investor's share comes out
/// without a remainder, what the page pays and the dust that it adds to the
/// dust carried in are together exactly the investors' fee.
pub proof fn lemma_page_conserves_fee(ctx: CrankDistribution, params: CrankDistributionParams)
    requires
        ctx.locked_total(params) > 0 ==> forall|i: int|
            0 <= i < ctx.locks(params).len() ==> (ctx.investor_fee_quote(params)
                * #[trigger] ctx.locks(params)[i]) % ctx.locked_total(params) == 0,
    ensures
        ctx.total_distributed(params) + (ctx.dust_accumulated(params)
            - ctx.progress.carry_over_dust) == ctx.investor_fee_quote(params),
{
    let min = ctx.policy.min_payout_lamports as int;
    let fee = ctx.investor_fee_quote(params);
    let locks = ctx.locks(params);
    lemma_sums_nonnegative(0, locks, 0, 0);
    if ctx.locked_total(params) > 0 {
        lemma_page_conservation(fee, locks, min);
    } else {
        lemma_no_shares_without_locked_total(fee, locks, 0, min);
        assert(ctx.locked_total(params) == 0);
        assert(ctx.eligible_share_bps(params) == 0);
        assert(ctx.total_available() * 0 == 0);
    }
}

/// Whether the pages follow one another through a day: every page is
/// accepted, each starts from the policy and the progress that the page
/// before left, only the last one closes the day, and between two pages the
/// treasury loses what the earlier page paid and nothing else.
pub open spec fn is_day(pages: Seq<CrankDistribution>, params: Seq<CrankDistributionParams>) -> bool {
    &&& pages.len() == params.len()
    &&& pages.len() > 0
    &&& forall|i: int| 0 <= i < pages.len() ==> (#[trigger] pages[i]).rejection(params[i]) is None
    &&& forall|i: int|
        0 <= i < pages.len() ==> ((#[trigger] params[i]).is_last_page <==> i == pages.len() - 1)
    &&& forall|i: int|
        0 <= i < pages.len() - 1 ==> {
            &&& (#[trigger] pages[i + 1]).policy == pages[i].policy
            &&& pages[i + 1].progress == pages[i].next_progress(params[i])
            &&& pages[i + 1].program_quote_treasury.amount == pages[i].program_quote_treasury.amount
                - pages[i].total_distributed(params[i])
        }
}

/// What the first `n` pages pay to the investors.
pub open spec fn paid_by_pages(
    pages: Seq<CrankDistribution>,
    params: Seq<CrankDistributionParams>,
    n: int,
) -> int
    decreases n,
{
    if n <= 0 {
        0
    } else {
        paid_by_pages(pages, params, n - 1) + pages[n - 1].total_distributed(params[n - 1])
    }
}

/// Conservation over a day: what the pages of a day pay to the investors and
/// what the last page leaves to the creator are together the fees that the
/// treasury held when the day started and the dust carried into the last
/// page. Where that dust is as much as the dust carried into the first page,
/// as in a day of one page, this is exactly what was available when the day
/// started.
pub proof fn lemma_day_conservation(
    pages: Seq<CrankDistribution>,
    params: Seq<CrankDistributionParams>,
)
    requires
        is_day(pages, params),
    ensures
        paid_by_pages(pages, params, pages.len() as int) + pages.last().creator_amount(
            params.last(),
        ) == pages[0].program_quote_treasury.amount + pages.last().progress.carry_over_dust,
        pages.last().progress.carry_over_dust == pages[0].progress.carry_over_dust
            ==> paid_by_pages(pages, params, pages.len() as int) + pages.last().creator_amount(
            params.last(),
        ) == pages[0].total_available(),
{
    lemma_treasury_through_day(pages, params, pages.len() - 1);
}

proof fn lemma_treasury_through_day(
    pages: Seq<CrankDistribution>,
    params: Seq<CrankDistributionParams>,
    n: int,
)
    requires
        is_day(pages, params),
        0 <= n < pages.len(),
    ensures
        pages[n].program_quote_treasury.amount == pages[0].program_quote_treasury.amount
            - paid_by_pages(pages, params, n),
    decreases n,
{
    if n > 0 {
        lemma_treasury_through_day(pages, params, n - 1);
        assert(pages[(n - 1) + 1].program_quote_treasury.amount == pages[n
            - 1].program_quote_treasury.amount - pages[n - 1].total_distributed(params[n - 1]));
    }
}

} // verus!
