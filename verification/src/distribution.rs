//! The arithmetic of one distribution: the share of the fees that goes to the
//! investors, and how it is divided among them.

use vstd::prelude::*;
use vstd::arithmetic::div_mod::lemma_div_is_ordered;
use vstd::arithmetic::div_mod::lemma_fundamental_div_mod;
use crate::constants::MAX_BPS;
use crate::errors::ErrorCode;

verus! {

/// The locked fraction of the total allocation `y0`, in basis points, never
/// more than all of it. Without an allocation nothing counts as locked.
pub open spec fn f_locked_bps(locked_total: int, y0: int) -> int {
    if y0 > 0 {
        let fraction = locked_total * 10000 / y0;
        if fraction < 10000 {
            fraction
        } else {
            10000
        }
    } else {
        0
    }
}

/// The share of the fees that the investors are eligible for, in basis
/// points: the share that the policy grants them, but no more than the locked
/// fraction.
pub open spec fn eligible_bps(investor_fee_share_bps: int, locked_total: int, y0: int) -> int {
    let f_locked = f_locked_bps(locked_total, y0);
    if investor_fee_share_bps < f_locked {
        investor_fee_share_bps
    } else {
        f_locked
    }
}

/// The amount that `bps` basis points of `total_available` come to, rounded down.
pub open spec fn investor_fee(total_available: int, bps: int) -> int {
    total_available * bps / 10000
}

/// What may still be distributed today under the daily cap.
pub open spec fn remaining_cap(cap: int, daily_distributed: int) -> int {
    if cap > daily_distributed {
        cap - daily_distributed
    } else {
        0
    }
}

/// The investors' fee after the daily cap, if there is one, has been applied.
pub open spec fn capped_fee(fee: int, daily_cap: Option<u64>, daily_distributed: int) -> int {
    match daily_cap {
        Some(cap) => {
            let remaining = remaining_cap(cap as int, daily_distributed);
            if fee < remaining {
                fee
            } else {
                remaining
            }
        },
        None => fee,
    }
}

/// The part of `fee` that falls to an investor with `locked` out of
/// `locked_total` locked tokens, rounded down. An investor without locked
/// tokens gets nothing.
pub open spec fn pro_rata_share(fee: int, locked: int, locked_total: int) -> int {
    if locked_total > 0 && locked > 0 {
        fee * locked / locked_total
    } else {
        0
    }
}

/// Computes the locked fraction in basis points.
pub fn calculate_f_locked_bps(locked_total: u64, y0_total_allocation: u64) -> (result: Result<
    u16,
    ErrorCode,
>)
    ensures
        result is Err <==> y0_total_allocation > 0 && locked_total * 10000 > u64::MAX,
        result matches Err(e) ==> e == ErrorCode::MathOverflow,
        result matches Ok(bps) ==> bps == f_locked_bps(
            locked_total as int,
            y0_total_allocation as int,
        ),
{
    if y0_total_allocation > 0 {
        match locked_total.checked_mul(MAX_BPS as u64) {
            Some(scaled) => {
                let fraction: u64 = scaled / y0_total_allocation;
                if fraction < MAX_BPS as u64 {
                    Ok(fraction as u16)
                } else {
                    Ok(MAX_BPS)
                }
            },
            None => Err(ErrorCode::MathOverflow),
        }
    } else {
        Ok(0)
    }
}

/// Computes the share that the investors are eligible for, given the locked fraction.
pub fn calculate_eligible_share_bps(investor_fee_share_bps: u16, f_locked_bps: u16) -> (bps: u16)
    ensures
        bps == if investor_fee_share_bps < f_locked_bps {
            investor_fee_share_bps
        } else {
            f_locked_bps
        },
{
    if investor_fee_share_bps < f_locked_bps {
        investor_fee_share_bps
    } else {
        f_locked_bps
    }
}

/// Computes the investors' part of `total_available`.
pub fn calculate_investor_fee(total_available: u64, eligible_share_bps: u16) -> (result: Result<
    u64,
    ErrorCode,
>)
    ensures
        result is Err <==> total_available * eligible_share_bps > u64::MAX,
        result matches Err(e) ==> e == ErrorCode::MathOverflow,
        result matches Ok(fee) ==> fee == investor_fee(
            total_available as int,
            eligible_share_bps as int,
        ),
{
    match total_available.checked_mul(eligible_share_bps as u64) {
        Some(scaled) => Ok(scaled / (MAX_BPS as u64)),
        None => Err(ErrorCode::MathOverflow),
    }
}

/// Applies the daily cap, if there is one, to the investors' fee.
pub fn apply_daily_cap(fee: u64, daily_cap: Option<u64>, daily_distributed: u64) -> (capped: u64)
    ensures
        capped == capped_fee(fee as int, daily_cap, daily_distributed as int),
{
    match daily_cap {
        Some(cap) => {
            let remaining: u64 = cap.saturating_sub(daily_distributed);
            if fee < remaining {
                fee
            } else {
                remaining
            }
        },
        None => fee,
    }
}

/// Computes the share of one investor.
pub fn calculate_pro_rata_share(fee: u64, locked_amount: u64, locked_total: u64) -> (result: Result<
    u64,
    ErrorCode,
>)
    ensures
        result is Err <==> locked_total > 0 && locked_amount > 0 && fee * locked_amount > u64::MAX,
        result matches Err(e) ==> e == ErrorCode::MathOverflow,
        result matches Ok(share) ==> share == pro_rata_share(
            fee as int,
            locked_amount as int,
            locked_total as int,
        ),
{
    if locked_total > 0 && locked_amount > 0 {
        match fee.checked_mul(locked_amount) {
            Some(scaled) => Ok(scaled / locked_total),
            None => Err(ErrorCode::MathOverflow),
        }
    } else {
        Ok(0)
    }
}

/// What one investor of a page is paid.
#[derive(Clone, Copy, Debug, PartialEq, Eq, Structural)]
pub struct Payout {
    /// The place of the investor in the page.
    pub index: usize,
    /// The amount to transfer.
    pub amount: u64,
    /// The investor's locked amount, by which the share was computed.
    pub locked_amount: u64,
}

/// The sum of the locked amounts.
pub open spec fn locked_sum(locks: Seq<u64>) -> int
    decreases locks.len(),
{
    if locks.len() == 0 {
        0
    } else {
        locked_sum(locks.drop_last()) + locks.last()
    }
}

/// Whether an investor is paid: one with locked tokens whose share reaches
/// the minimum payout.
pub open spec fn is_paid(fee: int, locked: int, locked_total: int, min_payout: int) -> bool {
    locked_total > 0 && locked > 0 && pro_rata_share(fee, locked, locked_total) >= min_payout
}

/// Whether an investor's share is withheld as dust: one with locked tokens
/// whose share stays under the minimum payout.
pub open spec fn is_dust(fee: int, locked: int, locked_total: int, min_payout: int) -> bool {
    locked_total > 0 && locked > 0 && pro_rata_share(fee, locked, locked_total) < min_payout
}

/// The sum of the shares that are paid.
pub open spec fn paid_sum(fee: int, locks: Seq<u64>, locked_total: int, min_payout: int) -> int
    decreases locks.len(),
{
    if locks.len() == 0 {
        0
    } else {
        paid_sum(fee, locks.drop_last(), locked_total, min_payout) + if is_paid(
            fee,
            locks.last() as int,
            locked_total,
            min_payout,
        ) {
            pro_rata_share(fee, locks.last() as int, locked_total)
        } else {
            0
        }
    }
}

/// The sum of the shares that are withheld as dust.
pub open spec fn dust_sum(fee: int, locks: Seq<u64>, locked_total: int, min_payout: int) -> int
    decreases locks.len(),
{
    if locks.len() == 0 {
        0
    } else {
        dust_sum(fee, locks.drop_last(), locked_total, min_payout) + if is_dust(
            fee,
            locks.last() as int,
            locked_total,
            min_payout,
        ) {
            pro_rata_share(fee, locks.last() as int, locked_total)
        } else {
            0
        }
    }
}

/// What is lost to rounding down, in units of one `locked_total`-th: the sum
/// of the remainders that the divisions leave.
pub open spec fn remainder_sum(fee: int, locks: Seq<u64>, locked_total: int) -> int
    decreases locks.len(),
{
    if locks.len() == 0 {
        0
    } else {
        remainder_sum(fee, locks.drop_last(), locked_total) + (fee * locks.last()) % locked_total
    }
}

/// The payouts of a page, in the order of its investors.
pub open spec fn payouts(fee: int, locks: Seq<u64>, locked_total: int, min_payout: int) -> Seq<
    Payout,
>
    decreases locks.len(),
{
    if locks.len() == 0 {
        Seq::empty()
    } else {
        let before = payouts(fee, locks.drop_last(), locked_total, min_payout);
        if is_paid(fee, locks.last() as int, locked_total, min_payout) {
            before.push(
                Payout {
                    index: (locks.len() - 1) as usize,
                    amount: pro_rata_share(fee, locks.last() as int, locked_total) as u64,
                    locked_amount: locks.last(),
                },
            )
        } else {
            before
        }
    }
}

/// The sum of the amounts of the payouts.
pub open spec fn payouts_total(paid: Seq<Payout>) -> int
    decreases paid.len(),
{
    if paid.len() == 0 {
        0
    } else {
        payouts_total(paid.drop_last()) + paid.last().amount
    }
}

/// Whether the product from which some investor's share is computed exceeds
/// what 64 bits hold.
pub open spec fn share_overflows(fee: int, locks: Seq<u64>, locked_total: int) -> bool {
    exists|i: int|
        0 <= i < locks.len() && locked_total > 0 && #[trigger] locks[i] > 0 && fee * locks[i]
            > u64::MAX
}

/// The investors' eligible share does not shrink when more is locked, and
/// never exceeds the share that the policy grants.
pub proof fn lemma_eligible_bps_monotonic(
    investor_fee_share_bps: int,
    y0: int,
    locked_a: int,
    locked_b: int,
)
    requires
        locked_a <= locked_b,
    ensures
        eligible_bps(investor_fee_share_bps, locked_a, y0) <= eligible_bps(
            investor_fee_share_bps,
            locked_b,
            y0,
        ),
        eligible_bps(investor_fee_share_bps, locked_b, y0) <= investor_fee_share_bps,
{
    if y0 > 0 {
        lemma_div_is_ordered(locked_a * 10000, locked_b * 10000, y0);
    }
}

/// The locked fraction lies between nothing and everything.
pub proof fn lemma_f_locked_bps_bounds(locked_total: int, y0: int)
    requires
        0 <= locked_total,
    ensures
        0 <= f_locked_bps(locked_total, y0) <= 10000,
{
    if y0 > 0 {
        lemma_div_is_ordered(0, locked_total * 10000, y0);
    }
}

/// The investors' fee is a part of what is available.
pub proof fn lemma_investor_fee_bounds(total_available: int, bps: int)
    requires
        0 <= total_available,
        0 <= bps <= 10000,
    ensures
        0 <= investor_fee(total_available, bps) <= total_available,
{
    assert(0 <= total_available * bps <= total_available * 10000) by (nonlinear_arith)
        requires
            0 <= total_available,
            0 <= bps <= 10000,
    ;
    lemma_div_is_ordered(0, total_available * bps, 10000);
    lemma_div_is_ordered(total_available * bps, total_available * 10000, 10000);
}

/// The daily cap only ever lowers the fee, and what it leaves fits under the cap.
pub proof fn lemma_capped_fee_bounds(fee: int, daily_cap: Option<u64>, daily_distributed: int)
    requires
        0 <= fee,
    ensures
        0 <= capped_fee(fee, daily_cap, daily_distributed) <= fee,
        daily_cap matches Some(cap) ==> (daily_distributed <= cap ==> daily_distributed
            + capped_fee(fee, daily_cap, daily_distributed) <= cap),
{
}

/// The shares of a page, multiplied by the locked total, and what rounding
/// took, add up to the fee multiplied by the page's locked amounts.
pub proof fn lemma_shares_account_for_fee(
    fee: int,
    locks: Seq<u64>,
    locked_total: int,
    min_payout: int,
)
    requires
        locked_total > 0,
    ensures
        locked_total * (paid_sum(fee, locks, locked_total, min_payout) + dust_sum(
            fee,
            locks,
            locked_total,
            min_payout,
        )) + remainder_sum(fee, locks, locked_total) == fee * locked_sum(locks),
    decreases locks.len(),
{
    if locks.len() > 0 {
        let before = locks.drop_last();
        let last = locks.last() as int;
        lemma_shares_account_for_fee(fee, before, locked_total, min_payout);
        let shares_before = paid_sum(fee, before, locked_total, min_payout) + dust_sum(
            fee,
            before,
            locked_total,
            min_payout,
        );
        let share = pro_rata_share(fee, last, locked_total);
        let remainder = (fee * last) % locked_total;
        assert(locked_total * share + remainder == fee * last) by {
            if last > 0 {
                lemma_fundamental_div_mod(fee * last, locked_total);
            } else {
                assert(fee * last == 0) by (nonlinear_arith)
                    requires
                        last == 0,
                ;
                assert(0int % locked_total == 0) by (nonlinear_arith)
                    requires
                        locked_total > 0,
                ;
                assert(locked_total * share == 0) by (nonlinear_arith)
                    requires
                        share == 0,
                ;
            }
        }
        assert(locked_total * (shares_before + share) == locked_total * shares_before
            + locked_total * share) by (nonlinear_arith);
        assert(fee * (locked_sum(before) + last) == fee * locked_sum(before) + fee * last)
            by (nonlinear_arith);
    } else {
        assert(locked_total * 0 == 0);
        assert(fee * 0 == 0);
    }
}

/// None of the sums of a page is negative.
pub proof fn lemma_sums_nonnegative(fee: int, locks: Seq<u64>, locked_total: int, min_payout: int)
    requires
        0 <= fee,
    ensures
        0 <= paid_sum(fee, locks, locked_total, min_payout),
        0 <= dust_sum(fee, locks, locked_total, min_payout),
        0 <= locked_sum(locks),
        locked_total > 0 ==> 0 <= remainder_sum(fee, locks, locked_total),
    decreases locks.len(),
{
    if locks.len() > 0 {
        lemma_sums_nonnegative(fee, locks.drop_last(), locked_total, min_payout);
        let last = locks.last() as int;
        if locked_total > 0 {
            assert(0 <= fee * last) by (nonlinear_arith)
                requires
                    0 <= fee,
                    0 <= last,
            ;
            lemma_div_is_ordered(0, fee * last, locked_total);
            lemma_fundamental_div_mod(fee * last, locked_total);
        }
    }
}

/// The investors of a page whose locked amounts are part of the locked total
/// never get more than the fee, whether paid or withheld.
pub proof fn lemma_shares_within_fee(fee: int, locks: Seq<u64>, locked_total: int, min_payout: int)
    requires
        0 <= fee,
        locked_sum(locks) <= locked_total,
    ensures
        paid_sum(fee, locks, locked_total, min_payout) + dust_sum(
            fee,
            locks,
            locked_total,
            min_payout,
        ) <= fee,
{
    lemma_sums_nonnegative(fee, locks, locked_total, min_payout);
    if locked_total > 0 {
        lemma_shares_account_for_fee(fee, locks, locked_total, min_payout);
        let shares = paid_sum(fee, locks, locked_total, min_payout) + dust_sum(
            fee,
            locks,
            locked_total,
            min_payout,
        );
        let locked = locked_sum(locks);
        let remainder = remainder_sum(fee, locks, locked_total);
        assert(shares <= fee) by (nonlinear_arith)
            requires
                locked_total * shares + remainder == fee * locked,
                0 <= remainder,
                0 <= fee,
                0 <= locked <= locked_total,
                0 < locked_total,
        ;
    } else {
        lemma_no_shares_without_locked_total(fee, locks, locked_total, min_payout);
    }
}

/// Where nothing is locked in total, nobody gets anything.
pub proof fn lemma_no_shares_without_locked_total(
    fee: int,
    locks: Seq<u64>,
    locked_total: int,
    min_payout: int,
)
    requires
        locked_total <= 0,
    ensures
        paid_sum(fee, locks, locked_total, min_payout) == 0,
        dust_sum(fee, locks, locked_total, min_payout) == 0,
        payouts(fee, locks, locked_total, min_payout) == Seq::<Payout>::empty(),
    decreases locks.len(),
{
    if locks.len() > 0 {
        lemma_no_shares_without_locked_total(fee, locks.drop_last(), locked_total, min_payout);
    }
}

/// Conservation within a page: where every investor's share comes out
/// without a remainder, the shares paid and the shares withheld as dust are
/// together exactly the investors' fee.
pub proof fn lemma_page_conservation(fee: int, locks: Seq<u64>, min_payout: int)
    requires
        0 < locked_sum(locks),
        forall|i: int| 0 <= i < locks.len() ==> (fee * #[trigger] locks[i]) % locked_sum(locks) == 0,
    ensures
        paid_sum(fee, locks, locked_sum(locks), min_payout) + dust_sum(
            fee,
            locks,
            locked_sum(locks),
            min_payout,
        ) == fee,
{
    let locked_total = locked_sum(locks);
    lemma_shares_account_for_fee(fee, locks, locked_total, min_payout);
    lemma_no_remainders(fee, locks, locked_total);
    let shares = paid_sum(fee, locks, locked_total, min_payout) + dust_sum(
        fee,
        locks,
        locked_total,
        min_payout,
    );
    assert(shares == fee) by (nonlinear_arith)
        requires
            locked_total * shares == fee * locked_total,
            locked_total > 0,
    ;
}

proof fn lemma_no_remainders(fee: int, locks: Seq<u64>, locked_total: int)
    requires
        forall|i: int| 0 <= i < locks.len() ==> (fee * #[trigger] locks[i]) % locked_total == 0,
    ensures
        remainder_sum(fee, locks, locked_total) == 0,
    decreases locks.len(),
{
    if locks.len() > 0 {
        let before = locks.drop_last();
        assert forall|i: int| 0 <= i < before.len() implies (fee * #[trigger] before[i])
            % locked_total == 0 by {
            assert(before[i] == locks[i]);
        }
        lemma_no_remainders(fee, before, locked_total);
        assert(locks.last() == locks[locks.len() - 1]);
    }
}

/// A part of a page never gets more than the whole page.
pub proof fn lemma_sums_of_prefix(
    fee: int,
    locks: Seq<u64>,
    locked_total: int,
    min_payout: int,
    n: int,
)
    requires
        0 <= fee,
        0 <= n <= locks.len(),
    ensures
        paid_sum(fee, locks.take(n), locked_total, min_payout) <= paid_sum(
            fee,
            locks,
            locked_total,
            min_payout,
        ),
        dust_sum(fee, locks.take(n), locked_total, min_payout) <= dust_sum(
            fee,
            locks,
            locked_total,
            min_payout,
        ),
        locked_sum(locks.take(n)) <= locked_sum(locks),
    decreases locks.len(),
{
    if n == locks.len() {
        assert(locks.take(n) == locks);
    } else {
        let before = locks.drop_last();
        assert(before.take(n) == locks.take(n));
        lemma_sums_of_prefix(fee, before, locked_total, min_payout, n);
        lemma_sums_nonnegative(fee, seq![locks.last()], locked_total, min_payout);
        assert(seq![locks.last()].drop_last() == Seq::<u64>::empty());
        assert(seq![locks.last()].last() == locks.last());
    }
}

/// Each payout belongs to an investor of the page who is paid, and carries
/// that investor's locked amount and share. The payouts stand in the order of
/// the page.
pub proof fn lemma_payouts_follow_page(
    fee: int,
    locks: Seq<u64>,
    locked_total: int,
    min_payout: int,
)
    requires
        0 <= fee,
        locks.len() <= usize::MAX,
    ensures
        payouts(fee, locks, locked_total, min_payout).len() <= locks.len(),
        forall|i: int|
            #![trigger payouts(fee, locks, locked_total, min_payout)[i]]
            0 <= i < payouts(fee, locks, locked_total, min_payout).len() ==> {
                let payout = payouts(fee, locks, locked_total, min_payout)[i];
                &&& i <= payout.index < locks.len()
                &&& payout.locked_amount == locks[payout.index as int]
                &&& is_paid(fee, payout.locked_amount as int, locked_total, min_payout)
                &&& pro_rata_share(fee, payout.locked_amount as int, locked_total) <= u64::MAX
                    ==> payout.amount == pro_rata_share(
                    fee,
                    payout.locked_amount as int,
                    locked_total,
                )
            },
        forall|i: int, j: int|
            #![trigger payouts(fee, locks, locked_total, min_payout)[i], payouts(fee, locks, locked_total, min_payout)[j]]
            0 <= i < j < payouts(fee, locks, locked_total, min_payout).len() ==> payouts(
                fee,
                locks,
                locked_total,
                min_payout,
            )[i].index < payouts(fee, locks, locked_total, min_payout)[j].index,
    decreases locks.len(),
{
    if locks.len() > 0 {
        let before = locks.drop_last();
        lemma_payouts_follow_page(fee, before, locked_total, min_payout);
        let all = payouts(fee, locks, locked_total, min_payout);
        let earlier = payouts(fee, before, locked_total, min_payout);
        lemma_sums_nonnegative(fee, seq![locks.last()], locked_total, min_payout);
        assert(seq![locks.last()].drop_last() == Seq::<u64>::empty());
        assert(seq![locks.last()].last() == locks.last());
        assert(pro_rata_share(fee, locks.last() as int, locked_total) >= 0);
        assert forall|i: int| 0 <= i < all.len() implies ({
            let payout = #[trigger] all[i];
            &&& i <= payout.index < locks.len()
            &&& payout.locked_amount == locks[payout.index as int]
            &&& is_paid(fee, payout.locked_amount as int, locked_total, min_payout)
            &&& pro_rata_share(fee, payout.locked_amount as int, locked_total) <= u64::MAX
                ==> payout.amount == pro_rata_share(fee, payout.locked_amount as int, locked_total)
        }) by {
            if i < earlier.len() {
                assert(all[i] == earlier[i]);
                assert(before[earlier[i].index as int] == locks[earlier[i].index as int]);
            }
        }
        assert forall|i: int, j: int| 0 <= i < j < all.len() implies (#[trigger] all[i]).index < (
        #[trigger] all[j]).index by {
            assert(all[i] == earlier[i]);
            if j < earlier.len() {
                assert(all[j] == earlier[j]);
            }
        }
    }
}

/// The payouts of a page add up to the sum of the shares that are paid.
pub proof fn lemma_payouts_add_up(fee: int, locks: Seq<u64>, locked_total: int, min_payout: int)
    requires
        0 <= fee,
        !share_overflows(fee, locks, locked_total),
    ensures
        payouts_total(payouts(fee, locks, locked_total, min_payout)) == paid_sum(
            fee,
            locks,
            locked_total,
            min_payout,
        ),
    decreases locks.len(),
{
    if locks.len() > 0 {
        let before = locks.drop_last();
        let last = locks.last() as int;
        assert forall|i: int|
            0 <= i < before.len() && locked_total > 0 && #[trigger] before[i] > 0 implies fee
            * before[i] <= u64::MAX by {
            assert(before[i] == locks[i]);
        }
        lemma_payouts_add_up(fee, before, locked_total, min_payout);
        if is_paid(fee, last, locked_total, min_payout) {
            let earlier = payouts(fee, before, locked_total, min_payout);
            let all = payouts(fee, locks, locked_total, min_payout);
            assert(all.drop_last() == earlier);
            assert(locks[locks.len() - 1] > 0 && fee * locks[locks.len() - 1] <= u64::MAX);
            lemma_div_is_ordered(0, fee * last, locked_total);
            vstd::arithmetic::div_mod::lemma_div_nonincreasing(fee * last, locked_total);
        }
    }
}

/// What a page of investors gets out of the investors' fee.
#[derive(Debug)]
pub struct PageDistribution {
    /// The payouts to make, in the order of the investors.
    pub payouts: Vec<Payout>,
    /// The sum of the payouts.
    pub total_distributed: u64,
    /// The dust carried into the page and the shares that the page withheld.
    pub dust_accumulated: u64,
}

/// Divides the investors' fee among the investors of a page.
///
/// Each investor with locked tokens has a share in proportion to them. A
/// share that reaches `min_payout` is paid; a smaller one is added to the
/// dust. The call fails where a number exceeds what 64 bits hold.
pub fn distribute_page(
    investor_fee_quote: u64,
    locked_amounts: &Vec<u64>,
    locked_total: u64,
    min_payout: u64,
    carry_over_dust: u64,
) -> (result: Result<PageDistribution, ErrorCode>)
    ensures
        result is Err <==> {
            ||| share_overflows(investor_fee_quote as int, locked_amounts@, locked_total as int)
            ||| paid_sum(
                investor_fee_quote as int,
                locked_amounts@,
                locked_total as int,
                min_payout as int,
            ) > u64::MAX
            ||| carry_over_dust + dust_sum(
                investor_fee_quote as int,
                locked_amounts@,
                locked_total as int,
                min_payout as int,
            ) > u64::MAX
        },
        result matches Err(e) ==> e == ErrorCode::MathOverflow,
        result matches Ok(page) ==> {
            &&& page.payouts@ == payouts(
                investor_fee_quote as int,
                locked_amounts@,
                locked_total as int,
                min_payout as int,
            )
            &&& page.total_distributed == paid_sum(
                investor_fee_quote as int,
                locked_amounts@,
                locked_total as int,
                min_payout as int,
            )
            &&& page.total_distributed == payouts_total(page.payouts@)
            &&& page.dust_accumulated == carry_over_dust + dust_sum(
                investor_fee_quote as int,
                locked_amounts@,
                locked_total as int,
                min_payout as int,
            )
        },
{
    let ghost fee = investor_fee_quote as int;
    let ghost locks = locked_amounts@;
    let ghost total = locked_total as int;
    let ghost min = min_payout as int;
    let mut paid: Vec<Payout> = Vec::new();
    let mut total_distributed: u64 = 0;
    let mut dust_accumulated: u64 = carry_over_dust;
    let mut i: usize = 0;
    while i < locked_amounts.len()
        invariant
            i <= locked_amounts.len(),
            fee == investor_fee_quote,
            locks == locked_amounts@,
            total == locked_total,
            min == min_payout,
            !share_overflows(fee, locks.take(i as int), total),
            paid@ == payouts(fee, locks.take(i as int), total, min),
            total_distributed == paid_sum(fee, locks.take(i as int), total, min),
            dust_accumulated == carry_over_dust + dust_sum(fee, locks.take(i as int), total, min),
        decreases locked_amounts.len() - i,
    {
        let locked_amount: u64 = locked_amounts[i];
        let ghost before = locks.take(i as int);
        let ghost upto = locks.take(i + 1);
        proof {
            assert(upto.drop_last() == before);
            assert(upto.last() == locked_amount);
            lemma_sums_of_prefix(fee, locks, total, min, i + 1);
        }
        if locked_total > 0 && locked_amount > 0 {
            let scaled: u64 = match investor_fee_quote.checked_mul(locked_amount) {
                Some(scaled) => scaled,
                None => {
                    assert(locks[i as int] > 0 && fee * locks[i as int] > u64::MAX);
                    return Err(ErrorCode::MathOverflow);
                },
            };
            let investor_share: u64 = scaled / locked_total;
            if investor_share >= min_payout {
                total_distributed = match total_distributed.checked_add(investor_share) {
                    Some(sum) => sum,
                    None => {
                        return Err(ErrorCode::MathOverflow);
                    },
                };
                paid.push(Payout { index: i, amount: investor_share, locked_amount });
            } else {
                dust_accumulated = match dust_accumulated.checked_add(investor_share) {
                    Some(sum) => sum,
                    None => {
                        return Err(ErrorCode::MathOverflow);
                    },
                };
            }
        }
        proof {
            assert forall|j: int|
                0 <= j < upto.len() && total > 0 && #[trigger] upto[j] > 0 implies fee * upto[j]
                <= u64::MAX by {
                if j < i {
                    assert(before[j] == upto[j]);
                }
            }
        }
        i += 1;
    }
    proof {
        assert(locks.take(i as int) == locks);
        lemma_payouts_add_up(fee, locks, total, min);
    }
    Ok(PageDistribution { payouts: paid, total_distributed, dust_accumulated })
}

} // verus!
