//! The claim protocol on one schedule. A claim is decided in two steps with
//! the transfer between them: `plan_claim` says what to move or why nothing
//! moves, the host performs the transfer, and `complete_claim` records the
//! withdrawal once the transfer has gone through. A step that refuses leaves
//! the schedule as it was.

use vstd::prelude::*;
use crate::address::Address;
use crate::company::{TreasuryAuthority, VestingAccount};
use crate::error::VestingError;
use crate::schedule::{lemma_vested_bounded, lemma_vested_monotonic, EmployeeAccount};

verus! {

/// Who claims, and the balance that the tokens go to.
#[derive(Clone, Copy, Debug, PartialEq, Eq)]
pub struct ClaimTokens {
    /// The caller, who claims for themself.
    pub beneficiary: Address,
    /// The caller's balance of the company's token.
    pub employee_token_account: Address,
}

/// One transfer out of a company's treasury, as the transfer service is
/// asked to perform it.
#[derive(Clone, Debug, PartialEq, Eq)]
pub struct TransferRequest {
    /// The treasury that is debited.
    pub from: Address,
    /// The balance that is credited.
    pub to: Address,
    /// The token that moves.
    pub mint: Address,
    /// How much of it moves.
    pub amount: u64,
    /// The capability under which the treasury releases it.
    pub authority: TreasuryAuthority,
}

/// What the transfer service reports of one transfer. A transfer either
/// happens in full or not at all.
#[derive(Clone, Copy, Debug, PartialEq, Eq, Structural)]
pub enum TransferOutcome {
    /// The amount has moved.
    Completed,
    /// The treasury could not cover the amount; nothing has moved.
    InsufficientBalance,
    /// The treasury did not accept the authority; nothing has moved.
    InvalidAuthority,
}

/// What planning a claim yields. The amount is settled first; only then is
/// the caller held against the schedule and the schedule against the
/// company.
pub open spec fn plan_outcome(
    ctx: ClaimTokens,
    company: VestingAccount,
    schedule: EmployeeAccount,
    now: int,
) -> Result<TransferRequest, VestingError> {
    match schedule.claim_outcome(now) {
        Err(refusal) => Err(refusal),
        Ok(amount) => {
            if ctx.beneficiary@ != schedule.beneficiary@ {
                Err(VestingError::Unauthorized)
            } else if schedule.vesting_account@ != company.company_name@ {
                Err(VestingError::MismatchedAccount)
            } else {
                Ok(
                    TransferRequest {
                        from: company.treasury_token_account,
                        to: ctx.employee_token_account,
                        mint: company.mint,
                        amount,
                        authority: company.authority(),
                    },
                )
            }
        },
    }
}

/// Decides a claim at `now`: the one transfer to perform, or the reason why
/// there is none. Nothing is changed.
pub fn plan_claim(
    ctx: &ClaimTokens,
    company: &VestingAccount,
    schedule: &EmployeeAccount,
    now: i64,
) -> (plan: Result<TransferRequest, VestingError>)
    ensures
        plan == plan_outcome(*ctx, *company, *schedule, now as int),
{
    let amount = match schedule.claimable_amount(now) {
        Ok(amount) => amount,
        Err(refusal) => { return Err(refusal); },
    };
    if !ctx.beneficiary.same_as(&schedule.beneficiary) {
        return Err(VestingError::Unauthorized);
    }
    if schedule.vesting_account != company.company_name {
        return Err(VestingError::MismatchedAccount);
    }
    Ok(
        TransferRequest {
            from: company.treasury_token_account,
            to: ctx.employee_token_account,
            mint: company.mint,
            amount,
            authority: company.treasury_authority(),
        },
    )
}

/// The schedule with `amount` more withdrawn.
pub open spec fn with_withdrawal(schedule: EmployeeAccount, amount: u64) -> EmployeeAccount {
    EmployeeAccount {
        total_withdrawn: (schedule.total_withdrawn + amount) as u64,
        ..schedule
    }
}

/// What settling yields: the schedule after the withdrawal, or the reason
/// why it stays as it is.
pub open spec fn settle_outcome(
    schedule: EmployeeAccount,
    amount: u64,
    outcome: TransferOutcome,
) -> Result<EmployeeAccount, VestingError> {
    match outcome {
        TransferOutcome::InsufficientBalance => Err(VestingError::InsufficientBalance),
        TransferOutcome::InvalidAuthority => Err(VestingError::InvalidAuthority),
        TransferOutcome::Completed => {
            if schedule.total_withdrawn + amount > u64::MAX {
                Err(VestingError::CalculationOverflow)
            } else {
                Ok(with_withdrawal(schedule, amount))
            }
        },
    }
}

/// Records the outcome of the transfer of `amount`. Only a completed
/// transfer changes the schedule, and a withdrawn total that would not fit
/// is refused rather than wrapped.
pub fn settle_claim(
    schedule: &mut EmployeeAccount,
    amount: u64,
    outcome: TransferOutcome,
) -> (settled: Result<(), VestingError>)
    ensures
        match settle_outcome(*old(schedule), amount, outcome) {
            Ok(after) => settled is Ok && *final(schedule) == after,
            Err(refusal) => settled == Err::<(), VestingError>(refusal) && *final(schedule)
                == *old(schedule),
        },
{
    match outcome {
        TransferOutcome::InsufficientBalance => Err(VestingError::InsufficientBalance),
        TransferOutcome::InvalidAuthority => Err(VestingError::InvalidAuthority),
        TransferOutcome::Completed => {
            match schedule.total_withdrawn.checked_add(amount) {
                Some(total) => {
                    schedule.total_withdrawn = total;
                    Ok(())
                },
                None => Err(VestingError::CalculationOverflow),
            }
        },
    }
}

/// What a whole claim yields, given what the transfer service reports of
/// the transfer that the plan asks for: the schedule after the withdrawal,
/// or the reason why it stays as it is. A claim that cannot be planned is
/// refused for the plan's reason, whatever the report says.
pub open spec fn completion_outcome(
    ctx: ClaimTokens,
    company: VestingAccount,
    schedule: EmployeeAccount,
    now: int,
    outcome: TransferOutcome,
) -> Result<EmployeeAccount, VestingError> {
    match plan_outcome(ctx, company, schedule, now) {
        Err(refusal) => Err(refusal),
        Ok(request) => settle_outcome(schedule, request.amount, outcome),
    }
}

/// Completes the claim made at `now`, once the transfer that `plan_claim`
/// asked for has been attempted: the claim is decided again on the schedule
/// as it stands, and the planned amount is recorded if the transfer went
/// through. Returns the amount recorded.
pub fn complete_claim(
    ctx: &ClaimTokens,
    company: &VestingAccount,
    schedule: &mut EmployeeAccount,
    now: i64,
    outcome: TransferOutcome,
) -> (completed: Result<u64, VestingError>)
    ensures
        match completion_outcome(*ctx, *company, *old(schedule), now as int, outcome) {
            Ok(after) => *final(schedule) == after && completed == Ok::<u64, VestingError>(
                plan_outcome(*ctx, *company, *old(schedule), now as int)->Ok_0.amount,
            ),
            Err(refusal) => completed == Err::<u64, VestingError>(refusal) && *final(schedule)
                == *old(schedule),
        },
{
    let request = match plan_claim(ctx, company, schedule, now) {
        Ok(request) => request,
        Err(refusal) => { return Err(refusal); },
    };
    match settle_claim(schedule, request.amount, outcome) {
        Ok(_) => Ok(request.amount),
        Err(refusal) => Err(refusal),
    }
}

/// The schedule after whole claims with completed transfers at each of
/// `times` in turn. `None` where one of the claims is refused.
pub open spec fn claims_completed(
    ctx: ClaimTokens,
    company: VestingAccount,
    schedule: EmployeeAccount,
    times: Seq<int>,
) -> Option<EmployeeAccount>
    decreases times.len(),
{
    if times.len() == 0 {
        Some(schedule)
    } else {
        match claims_completed(ctx, company, schedule, times.drop_last()) {
            Some(before) => match completion_outcome(
                ctx,
                company,
                before,
                times.last(),
                TransferOutcome::Completed,
            ) {
                Ok(after) => Some(after),
                Err(_) => None,
            },
            None => None,
        }
    }
}

/// Before the cliff a claim on a schedule with a proper period is refused as
/// too early, whoever makes it.
pub proof fn lemma_claim_before_cliff_refused(
    ctx: ClaimTokens,
    company: VestingAccount,
    schedule: EmployeeAccount,
    now: int,
)
    requires
        schedule.duration() > 0,
        now < schedule.cliff_time,
    ensures
        schedule.claim_outcome(now) == Err::<u64, VestingError>(VestingError::BeforeCliff),
        plan_outcome(ctx, company, schedule, now) == Err::<TransferRequest, VestingError>(
            VestingError::BeforeCliff,
        ),
{
}

/// A claim that can be planned completes once its transfer has: recording
/// the planned amount never overflows. The withdrawn total then equals what
/// had vested at the time of the claim, it has grown, and nothing else of
/// the schedule has changed.
pub proof fn lemma_planned_claim_completes(
    ctx: ClaimTokens,
    company: VestingAccount,
    schedule: EmployeeAccount,
    now: int,
)
    requires
        plan_outcome(ctx, company, schedule, now) is Ok,
    ensures
        completion_outcome(ctx, company, schedule, now, TransferOutcome::Completed) is Ok,
        ({
            let after = completion_outcome(
                ctx,
                company,
                schedule,
                now,
                TransferOutcome::Completed,
            )->Ok_0;
            &&& after.total_withdrawn == schedule.vested_at(now)
            &&& after.total_withdrawn > schedule.total_withdrawn
            &&& after == (EmployeeAccount { total_withdrawn: after.total_withdrawn, ..schedule })
        }),
{
    lemma_vested_bounded(
        schedule.total_amount as nat,
        schedule.start_time as int,
        schedule.end_time as int,
        now,
    );
}

/// A claim changes the schedule only where it can be planned and its
/// transfer has completed; every refusal leaves the schedule as it was, and
/// a change never lowers the withdrawn total.
pub proof fn lemma_refused_claim_changes_nothing(
    ctx: ClaimTokens,
    company: VestingAccount,
    schedule: EmployeeAccount,
    now: int,
    outcome: TransferOutcome,
)
    ensures
        completion_outcome(ctx, company, schedule, now, outcome) is Ok <==> plan_outcome(
            ctx,
            company,
            schedule,
            now,
        ) is Ok && outcome == TransferOutcome::Completed,
        completion_outcome(ctx, company, schedule, now, outcome) matches Ok(after)
            ==> after.total_withdrawn > schedule.total_withdrawn,
{
    if plan_outcome(ctx, company, schedule, now) is Ok {
        lemma_planned_claim_completes(ctx, company, schedule, now);
    }
}

/// Claiming again at the very time of a completed claim is refused: nothing
/// is left to claim.
pub proof fn lemma_reclaim_has_nothing_to_claim(
    ctx: ClaimTokens,
    company: VestingAccount,
    schedule: EmployeeAccount,
    now: int,
)
    requires
        completion_outcome(ctx, company, schedule, now, TransferOutcome::Completed) is Ok,
    ensures
        plan_outcome(
            ctx,
            company,
            completion_outcome(ctx, company, schedule, now, TransferOutcome::Completed)->Ok_0,
            now,
        ) == Err::<TransferRequest, VestingError>(VestingError::NothingToClaim),
{
    lemma_planned_claim_completes(ctx, company, schedule, now);
}

/// Completed claims change the withdrawn total and nothing else, and after
/// at least one of them the withdrawn total is what had vested at the last.
pub proof fn lemma_claims_track_vested(
    ctx: ClaimTokens,
    company: VestingAccount,
    schedule: EmployeeAccount,
    times: Seq<int>,
)
    requires
        claims_completed(ctx, company, schedule, times) is Some,
    ensures
        ({
            let after = claims_completed(ctx, company, schedule, times)->Some_0;
            &&& after == (EmployeeAccount { total_withdrawn: after.total_withdrawn, ..schedule })
            &&& after.total_withdrawn >= schedule.total_withdrawn
            &&& times.len() > 0 ==> after.total_withdrawn == schedule.vested_at(times.last())
        }),
    decreases times.len(),
{
    if times.len() > 0 {
        let before = claims_completed(ctx, company, schedule, times.drop_last())->Some_0;
        lemma_claims_track_vested(ctx, company, schedule, times.drop_last());
        lemma_planned_claim_completes(ctx, company, before, times.last());
    }
}

/// After any run of completed claims on a schedule that began with nothing
/// withdrawn, and at any time not before those claims, the withdrawn total
/// is within what has vested, which is within the allotment.
pub proof fn lemma_withdrawn_within_vested(
    ctx: ClaimTokens,
    company: VestingAccount,
    schedule: EmployeeAccount,
    times: Seq<int>,
    now: int,
)
    requires
        schedule.total_withdrawn == 0,
        claims_completed(ctx, company, schedule, times) is Some,
        forall|i: int| 0 <= i < times.len() ==> times[i] <= now,
    ensures
        ({
            let after = claims_completed(ctx, company, schedule, times)->Some_0;
            after.total_withdrawn <= after.vested_at(now) <= after.total_amount
        }),
{
    lemma_claims_track_vested(ctx, company, schedule, times);
    lemma_vested_bounded(
        schedule.total_amount as nat,
        schedule.start_time as int,
        schedule.end_time as int,
        now,
    );
    if times.len() > 0 {
        lemma_vested_monotonic(
            schedule.total_amount as nat,
            schedule.start_time as int,
            schedule.end_time as int,
            times.last(),
            now,
        );
    }
}

} // verus!
