//! Vesting schedules, and how much of one is still locked at a given time.

use vstd::prelude::*;
use vstd::arithmetic::div_mod::lemma_fundamental_div_mod;
use vstd::arithmetic::div_mod::lemma_fundamental_div_mod_converse;
use crate::errors::ErrorCode;

verus! {

/// A vesting schedule as a mathematical record.
pub struct Schedule {
    /// The amount put under the schedule.
    pub total_amount: nat,
    /// The amount that the beneficiary has taken out already.
    pub withdrawn_amount: nat,
    /// When vesting starts.
    pub start_time: int,
    /// When everything has vested.
    pub end_time: int,
    /// Before this time nothing is unlocked.
    pub cliff_time: int,
}

impl Schedule {
    /// A schedule ends no earlier than it starts.
    pub open spec fn well_formed(self) -> bool {
        self.start_time <= self.end_time
    }

    /// The amount that has vested at `now`: the share of the total that
    /// corresponds to the time elapsed since the start, rounded down.
    pub open spec fn vested_at(self, now: int) -> int {
        self.total_amount * (now - self.start_time) / (self.end_time - self.start_time)
    }

    /// The amount still locked at `now`.
    ///
    /// Before the cliff everything is locked; from the end on nothing is. In
    /// between, what has neither vested nor been withdrawn is locked. A
    /// schedule that starts and ends at the same moment has vested at once.
    pub open spec fn locked_at(self, now: int) -> int {
        if now < self.cliff_time {
            self.total_amount as int
        } else if now >= self.end_time {
            0
        } else if self.end_time == self.start_time {
            0
        } else {
            let rest = self.total_amount - self.vested_at(now) - self.withdrawn_amount;
            if rest > 0 {
                rest
            } else {
                0
            }
        }
    }

    /// The amount still locked at `now`, as far as 64 bits hold it.
    ///
    /// Only a schedule whose cliff lies before its start can have more
    /// locked than its total, between the two. Where that is more than 64
    /// bits hold, this is the largest amount that they hold.
    pub open spec fn locked_amount(self, now: int) -> int {
        if self.locked_at(now) <= u64::MAX {
            self.locked_at(now)
        } else {
            u64::MAX as int
        }
    }
}

/// Before the cliff the whole amount is locked.
pub proof fn lemma_locked_before_cliff(schedule: Schedule, now: int)
    requires
        now < schedule.cliff_time,
    ensures
        schedule.locked_at(now) == schedule.total_amount,
{
}

/// Once the cliff has passed, nothing is locked from the end of the schedule on.
pub proof fn lemma_unlocked_from_end(schedule: Schedule, now: int)
    requires
        schedule.cliff_time <= now,
        schedule.end_time <= now,
    ensures
        schedule.locked_at(now) == 0,
{
}

/// A schedule that starts and ends at the same moment has vested in full as
/// soon as its cliff has passed.
pub proof fn lemma_instant_schedule(schedule: Schedule, now: int)
    requires
        schedule.start_time == schedule.end_time,
        schedule.cliff_time <= now,
    ensures
        schedule.locked_at(now) == 0,
{
}

/// The locked amount is never negative. Before the cliff and from the start
/// on it is never more than the total.
pub proof fn lemma_locked_bounds(schedule: Schedule, now: int)
    requires
        schedule.well_formed(),
    ensures
        0 <= schedule.locked_at(now),
        now < schedule.cliff_time || schedule.start_time <= now ==> schedule.locked_at(now)
            <= schedule.total_amount,
{
    if schedule.cliff_time <= now < schedule.end_time && schedule.start_time <= now {
        let total = schedule.total_amount as int;
        let elapsed = now - schedule.start_time;
        let duration = schedule.end_time - schedule.start_time;
        assert(0 <= total * elapsed / duration) by (nonlinear_arith)
            requires
                0 <= total,
                0 <= elapsed,
                0 < duration,
        ;
    }
}

/// Halfway through a linear schedule without a cliff, of which nothing has
/// been withdrawn, half of the total is locked: the half that is rounded up
/// where the total is odd.
pub proof fn lemma_locked_at_midpoint(schedule: Schedule, half: int)
    requires
        schedule.cliff_time == schedule.start_time,
        schedule.withdrawn_amount == 0,
        half > 0,
        schedule.end_time == schedule.start_time + 2 * half,
    ensures
        schedule.locked_at(schedule.start_time + half) == schedule.total_amount
            - schedule.total_amount / 2,
{
    let total = schedule.total_amount as int;
    assert(total * half / (2 * half) == total / 2) by (nonlinear_arith)
        requires
            half > 0,
            total >= 0,
    ;
    assert(schedule.vested_at(schedule.start_time + half) == total * half / (2 * half));
}

/// Rounding a negative quotient down is rounding its opposite up.
proof fn lemma_div_of_negative(p: int, d: int)
    requires
        0 <= p,
        0 < d,
    ensures
        (-p) / d == -((p + d - 1) / d),
{
    let q = (p + d - 1) / d;
    let r = (p + d - 1) % d;
    lemma_fundamental_div_mod(p + d - 1, d);
    assert(-p == (-q) * d + (d - 1 - r)) by (nonlinear_arith)
        requires
            p + d - 1 == d * q + r,
    ;
    lemma_fundamental_div_mod_converse(-p, d, -q, d - 1 - r);
}

/// A well-formed vesting schedule of one investor.
#[derive(Clone, Copy, Debug)]
pub struct VestingSchedule {
    total_amount: u64,
    withdrawn_amount: u64,
    start_time: i64,
    end_time: i64,
    cliff_time: i64,
}

impl View for VestingSchedule {
    type V = Schedule;

    closed spec fn view(&self) -> Schedule {
        Schedule {
            total_amount: self.total_amount as nat,
            withdrawn_amount: self.withdrawn_amount as nat,
            start_time: self.start_time as int,
            end_time: self.end_time as int,
            cliff_time: self.cliff_time as int,
        }
    }
}

impl VestingSchedule {
    #[verifier::type_invariant]
    spec fn inv(self) -> bool {
        self@.well_formed()
    }

    /// The amounts of a schedule fit in 64 bits, and so do its times.
    pub proof fn lemma_view_in_range(self)
        ensures
            self@.total_amount <= u64::MAX,
            self@.withdrawn_amount <= u64::MAX,
            i64::MIN <= self@.start_time <= i64::MAX,
            i64::MIN <= self@.end_time <= i64::MAX,
            i64::MIN <= self@.cliff_time <= i64::MAX,
    {
    }

    /// Makes a schedule. A schedule that ends before it starts is rejected.
    pub fn new(
        total_amount: u64,
        withdrawn_amount: u64,
        start_time: i64,
        end_time: i64,
        cliff_time: i64,
    ) -> (made: Result<VestingSchedule, ErrorCode>)
        ensures
            made is Ok <==> start_time <= end_time,
            made matches Ok(schedule) ==> schedule@ == (Schedule {
                total_amount: total_amount as nat,
                withdrawn_amount: withdrawn_amount as nat,
                start_time: start_time as int,
                end_time: end_time as int,
                cliff_time: cliff_time as int,
            }),
            made matches Err(e) ==> e == ErrorCode::InvalidStreamflowData,
    {
        if end_time < start_time {
            return Err(ErrorCode::InvalidStreamflowData);
        }
        Ok(VestingSchedule { total_amount, withdrawn_amount, start_time, end_time, cliff_time })
    }

    /// The amount put under the schedule.
    pub fn total_amount(&self) -> (amount: u64)
        ensures
            amount == self@.total_amount,
    {
        self.total_amount
    }

    /// The amount that the beneficiary has taken out already.
    pub fn withdrawn_amount(&self) -> (amount: u64)
        ensures
            amount == self@.withdrawn_amount,
    {
        self.withdrawn_amount
    }

    /// When vesting starts.
    pub fn start_time(&self) -> (time: i64)
        ensures
            time == self@.start_time,
    {
        self.start_time
    }

    /// When everything has vested.
    pub fn end_time(&self) -> (time: i64)
        ensures
            time == self@.end_time,
    {
        self.end_time
    }

    /// The time before which nothing is unlocked.
    pub fn cliff_time(&self) -> (time: i64)
        ensures
            time == self@.cliff_time,
    {
        self.cliff_time
    }

    /// The amount still locked at `current_time`.
    pub fn calculate_locked_amount(&self, current_time: i64) -> (locked: u64)
        ensures
            locked == self@.locked_amount(current_time as int),
            current_time < self@.cliff_time || self@.start_time <= current_time ==> locked
                == self@.locked_at(current_time as int) && locked <= self@.total_amount,
    {
        proof {
            use_type_invariant(self);
            lemma_locked_bounds(self@, current_time as int);
        }
        if current_time < self.cliff_time {
            return self.total_amount;
        }
        if current_time >= self.end_time {
            return 0;
        }
        if self.end_time == self.start_time {
            return 0;
        }
        let total: u128 = self.total_amount as u128;
        let duration: u128 = (self.end_time as i128 - self.start_time as i128) as u128;
        if current_time >= self.start_time {
            let elapsed: u128 = (current_time as i128 - self.start_time as i128) as u128;
            assert(total * elapsed <= total * duration <= u128::MAX) by (nonlinear_arith)
                requires
                    elapsed <= duration,
                    total <= u64::MAX,
                    duration <= u64::MAX,
            ;
            let vested: u128 = total * elapsed / duration;
            assert(vested <= total) by (nonlinear_arith)
                requires
                    vested == (total * elapsed) / (duration as int),
                    elapsed <= duration,
                    duration > 0,
            ;
            let vested: u64 = vested as u64;
            self.total_amount.saturating_sub(vested).saturating_sub(self.withdrawn_amount)
        } else {
            // Before the start the elapsed time is negative, and so is what
            // has vested: its opposite is added to the total.
            let ahead: u128 = (self.start_time as i128 - current_time as i128) as u128;
            assert(total * ahead + (duration - 1) + total <= u128::MAX) by (nonlinear_arith)
                requires
                    total <= u64::MAX,
                    ahead <= u64::MAX,
                    0 < duration <= u64::MAX,
            ;
            let owed: u128 = (total * ahead + (duration - 1)) / duration;
            assert(owed <= total * ahead + (duration - 1)) by (nonlinear_arith)
                requires
                    owed == (total * ahead + (duration - 1)) / (duration as int),
                    duration > 0,
            ;
            proof {
                lemma_div_of_negative(total * ahead, duration as int);
                assert(total * (current_time - self.start_time) == -(total * ahead))
                    by (nonlinear_arith)
                    requires
                        current_time - self.start_time == -ahead,
                ;
                assert(self@.vested_at(current_time as int) == -owed);
            }
            let rest: u128 = total + owed;
            let withdrawn: u128 = self.withdrawn_amount as u128;
            let locked: u128 = if rest > withdrawn {
                rest - withdrawn
            } else {
                0
            };
            if locked > u64::MAX as u128 {
                u64::MAX
            } else {
                locked as u64
            }
        }
    }
}

} // verus!
