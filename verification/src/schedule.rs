//! Employee schedules and the release formula: a fixed allotment unlocks
//! evenly between a start and an end time.

use vstd::prelude::*;
use vstd::arithmetic::div_mod::{lemma_div_is_ordered, lemma_div_pos_is_pos};
use vstd::arithmetic::mul::{lemma_mul_inequality, lemma_mul_is_commutative, lemma_mul_nonnegative};
use crate::address::Address;
use crate::error::VestingError;

verus! {

/// The amount unlocked at `now` of an allotment `total` that is released
/// evenly from `start` to `end`: nothing up to `start`, everything from `end`
/// on, and in between the elapsed share, rounded down.
pub open spec fn linear_vested(total: nat, start: int, end: int, now: int) -> nat {
    if now >= end {
        total
    } else if now <= start {
        0
    } else {
        (total * (now - start) / (end - start)) as nat
    }
}

/// Where a schedule stands at some time. The phase follows from the time
/// alone; nothing of it is stored.
#[derive(Clone, Copy, Debug, PartialEq, Eq, Structural)]
pub enum VestingPhase {
    /// The cliff has not been reached: nothing can be claimed.
    Locked,
    /// The cliff has passed and the release is under way.
    Vesting,
    /// The end has been reached: the whole allotment is unlocked.
    FullyVested,
}

impl VestingPhase {
    /// The place of a phase in the order in which time passes through them.
    pub open spec fn rank(self) -> nat {
        match self {
            VestingPhase::Locked => 0,
            VestingPhase::Vesting => 1,
            VestingPhase::FullyVested => 2,
        }
    }
}

/// The release of one allotment to one beneficiary of one company.
#[derive(Clone, Debug, PartialEq, Eq)]
pub struct EmployeeAccount {
    /// The identity entitled to claim.
    pub beneficiary: Address,
    /// When the release begins.
    pub start_time: i64,
    /// When the whole allotment is unlocked.
    pub end_time: i64,
    /// Before this time nothing can be claimed, whatever has vested.
    pub cliff_time: i64,
    /// The name of the company account that the schedule belongs to.
    pub vesting_account: String,
    /// The whole allotment.
    pub total_amount: u64,
    /// What has been paid out so far.
    pub total_withdrawn: u64,
    /// Bump seed of the record's address, carried for the host.
    pub bump: u8,
}

impl EmployeeAccount {
    /// The length of the release period; a schedule is well formed only
    /// where it is positive.
    pub open spec fn duration(&self) -> int {
        self.end_time - self.start_time
    }

    /// The cumulative amount unlocked at `now`, whatever has been withdrawn
    /// and wherever the cliff lies.
    pub open spec fn vested_at(&self, now: int) -> nat {
        linear_vested(self.total_amount as nat, self.start_time as int, self.end_time as int, now)
    }

    /// The phase of the schedule at `now`.
    pub open spec fn phase_at(&self, now: int) -> VestingPhase {
        if now < self.cliff_time {
            VestingPhase::Locked
        } else if now < self.end_time {
            VestingPhase::Vesting
        } else {
            VestingPhase::FullyVested
        }
    }

    /// The phase of the schedule at `now`.
    pub fn phase(&self, now: i64) -> (phase: VestingPhase)
        ensures
            phase == self.phase_at(now as int),
    {
        if now < self.cliff_time {
            VestingPhase::Locked
        } else if now < self.end_time {
            VestingPhase::Vesting
        } else {
            VestingPhase::FullyVested
        }
    }

    /// Whether the product behind the formula at `now` fits in 64 bits. Only
    /// strictly inside the release period is a product formed at all.
    pub open spec fn product_fits(&self, now: int) -> bool {
        self.start_time < now < self.end_time ==> self.total_amount * (now - self.start_time)
            <= u64::MAX
    }

    /// What asking for the vested amount at `now` yields.
    pub open spec fn vested_outcome(&self, now: int) -> Result<u64, VestingError> {
        if self.duration() <= 0 {
            Err(VestingError::InvalidVestingPeriod)
        } else if !self.product_fits(now) {
            Err(VestingError::CalculationOverflow)
        } else {
            Ok(self.vested_at(now) as u64)
        }
    }

    /// The vested amount at `now`. The period is checked first; the product
    /// of allotment and elapsed time is formed in 64 bits and refused where
    /// it does not fit.
    pub fn vested_amount(&self, now: i64) -> (vested: Result<u64, VestingError>)
        ensures
            vested == self.vested_outcome(now as int),
            vested matches Ok(v) ==> v == self.vested_at(now as int) && v <= self.total_amount,
    {
        let duration: i128 = self.end_time as i128 - self.start_time as i128;
        if duration <= 0 {
            return Err(VestingError::InvalidVestingPeriod);
        }
        proof {
            lemma_vested_bounded(
                self.total_amount as nat,
                self.start_time as int,
                self.end_time as int,
                now as int,
            );
        }
        if now >= self.end_time {
            return Ok(self.total_amount);
        }
        if now <= self.start_time {
            return Ok(0);
        }
        let elapsed: u64 = (now as i128 - self.start_time as i128) as u64;
        let span: u64 = duration as u64;
        match self.total_amount.checked_mul(elapsed) {
            Some(product) => Ok(product / span),
            None => Err(VestingError::CalculationOverflow),
        }
    }

    /// What asking for the claimable amount at `now` yields: the part of the
    /// vested amount that has not been withdrawn, once the cliff has passed
    /// and if anything is left.
    pub open spec fn claim_outcome(&self, now: int) -> Result<u64, VestingError> {
        if self.duration() <= 0 {
            Err(VestingError::InvalidVestingPeriod)
        } else if now < self.cliff_time {
            Err(VestingError::BeforeCliff)
        } else if !self.product_fits(now) {
            Err(VestingError::CalculationOverflow)
        } else if self.vested_at(now) <= self.total_withdrawn {
            Err(VestingError::NothingToClaim)
        } else {
            Ok((self.vested_at(now) - self.total_withdrawn) as u64)
        }
    }

    /// The amount payable at `now`. A withdrawn total above the vested
    /// amount leaves nothing to claim; it is never an arithmetic fault.
    pub fn claimable_amount(&self, now: i64) -> (claimable: Result<u64, VestingError>)
        ensures
            claimable == self.claim_outcome(now as int),
            claimable matches Ok(amount) ==> 0 < amount && self.total_withdrawn + amount
                == self.vested_at(now as int),
    {
        if self.end_time <= self.start_time {
            return Err(VestingError::InvalidVestingPeriod);
        }
        if now < self.cliff_time {
            return Err(VestingError::BeforeCliff);
        }
        let vested = match self.vested_amount(now) {
            Ok(vested) => vested,
            Err(refusal) => { return Err(refusal); },
        };
        let claimable = vested.saturating_sub(self.total_withdrawn);
        if claimable == 0 {
            return Err(VestingError::NothingToClaim);
        }
        Ok(claimable)
    }
}

/// From the end of the period on, the whole allotment has vested, wherever
/// the cliff lies; where the period is proper, that is also what asking for
/// the vested amount yields.
pub proof fn lemma_vested_in_full_from_end(schedule: EmployeeAccount, now: int)
    requires
        now >= schedule.end_time,
    ensures
        schedule.vested_at(now) == schedule.total_amount,
        schedule.duration() > 0 ==> schedule.vested_outcome(now) == Ok::<u64, VestingError>(
            schedule.total_amount,
        ),
{
}

/// With the parameters of a schedule fixed, what has vested never shrinks as
/// time advances.
pub proof fn lemma_vested_monotonic(total: nat, start: int, end: int, earlier: int, later: int)
    requires
        earlier <= later,
    ensures
        linear_vested(total, start, end, earlier) <= linear_vested(total, start, end, later),
{
    lemma_vested_bounded(total, start, end, earlier);
    if start < earlier && later < end {
        let span = end - start;
        lemma_mul_is_commutative(total as int, earlier - start);
        lemma_mul_is_commutative(total as int, later - start);
        lemma_mul_inequality(earlier - start, later - start, total as int);
        lemma_mul_nonnegative(total as int, earlier - start);
        lemma_div_is_ordered(total * (earlier - start), total * (later - start), span);
        lemma_div_pos_is_pos(total * (earlier - start), span);
    }
}

/// As time advances a schedule never returns to an earlier phase.
pub proof fn lemma_phase_never_regresses(schedule: EmployeeAccount, earlier: int, later: int)
    requires
        earlier <= later,
    ensures
        schedule.phase_at(earlier).rank() <= schedule.phase_at(later).rank(),
{
}

/// What a claim can yield in each phase: nothing while the schedule is
/// locked, and once it is fully vested all that is left of the allotment.
pub proof fn lemma_outcomes_by_phase(schedule: EmployeeAccount, now: int)
    ensures
        schedule.phase_at(now) == VestingPhase::Locked ==> schedule.claim_outcome(now) is Err,
        schedule.phase_at(now) == VestingPhase::FullyVested ==> (schedule.claim_outcome(now)
            matches Ok(amount) ==> amount == schedule.total_amount - schedule.total_withdrawn),
{
}

/// What has vested never exceeds the allotment.
pub proof fn lemma_vested_bounded(total: nat, start: int, end: int, now: int)
    ensures
        linear_vested(total, start, end, now) <= total,
{
    if start < now < end {
        let elapsed = now - start;
        let span = end - start;
        lemma_mul_nonnegative(total as int, elapsed);
        lemma_mul_inequality(elapsed, span, total as int);
        lemma_mul_is_commutative(total as int, elapsed);
        lemma_mul_is_commutative(total as int, span);
        lemma_div_is_ordered(total * elapsed, total * span, span);
        lemma_div_pos_is_pos(total * elapsed, span);
        assert(total * span / span == total) by (nonlinear_arith)
            requires
                span > 0,
        ;
    }
}

} // verus!
