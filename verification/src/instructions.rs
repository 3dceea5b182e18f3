//! The operations of the engine on a registry: opening a company account,
//! creating an employee schedule, and the two steps of a claim.
//!
//! A claim takes two calls with the transfer between them: `claim_tokens`
//! names the transfer, the host makes it, and `confirm_claim` records it.
//! The host keeps the registry to itself from the first call to the second,
//! so that no other claim on the schedule comes between them. An operation
//! that refuses leaves every record as it was.

use vstd::prelude::*;
use crate::address::Address;
use crate::claim::{
    lemma_claim_before_cliff_refused, lemma_planned_claim_completes, plan_claim, ClaimTokens,
    TransferOutcome, TransferRequest,
};
use crate::company::VestingAccount;
use crate::error::VestingError;
use crate::registry::{
    claim_request, confirmation_outcome, records_consistent, schedule_key, VestingRegistry,
};
use crate::schedule::{lemma_vested_bounded, lemma_vested_monotonic, EmployeeAccount};

verus! {

/// Who opens a company account, and what the account is to manage.
#[derive(Clone, Copy, Debug, PartialEq, Eq)]
pub struct CreateVestingAccount {
    /// The caller, who becomes the owner of the company account.
    pub signer: Address,
    /// The token under management.
    pub mint: Address,
    /// The balance that holds the undistributed tokens.
    pub treasury_token_account: Address,
    /// Bump seed of the treasury's address.
    pub treasury_bump: u8,
    /// Bump seed of the account's address.
    pub vesting_bump: u8,
}

/// Who creates a schedule, for whom, and with which company.
#[derive(Clone, Debug, PartialEq, Eq)]
pub struct CreateEmployeeAccount {
    /// The caller, who has to be the owner of the company.
    pub owner: Address,
    /// The identity that the schedule entitles to claim.
    pub beneficiary: Address,
    /// The name of the company account.
    pub vesting_account: String,
    /// Bump seed of the schedule's address.
    pub bump: u8,
}

/// The account that `create_vesting_account` files.
pub open spec fn opened_account(ctx: CreateVestingAccount, company_name: String) -> VestingAccount {
    VestingAccount {
        owner: ctx.signer,
        mint: ctx.mint,
        treasury_token_account: ctx.treasury_token_account,
        company_name,
        treasury_bump: ctx.treasury_bump,
        vesting_bump: ctx.vesting_bump,
    }
}

/// Makes the account of the company named `company_name`, owned by the
/// caller.
pub fn open_account(ctx: CreateVestingAccount, company_name: String) -> (account: VestingAccount)
    ensures
        account == opened_account(ctx, company_name),
{
    VestingAccount {
        owner: ctx.signer,
        mint: ctx.mint,
        treasury_token_account: ctx.treasury_token_account,
        company_name,
        treasury_bump: ctx.treasury_bump,
        vesting_bump: ctx.vesting_bump,
    }
}

/// What opening a company account yields: the company accounts with the new
/// one among them, or the refusal where the name is taken.
pub open spec fn create_company_outcome(
    companies: Map<Seq<char>, VestingAccount>,
    ctx: CreateVestingAccount,
    company_name: String,
) -> Result<Map<Seq<char>, VestingAccount>, VestingError> {
    if companies.contains_key(company_name@) {
        Err(VestingError::AlreadyExists)
    } else {
        Ok(companies.insert(company_name@, opened_account(ctx, company_name)))
    }
}

/// Opens the account of the company named `company_name`, owned by the
/// caller. Each name can be taken once.
pub fn create_vesting_account(
    registry: &mut VestingRegistry,
    ctx: CreateVestingAccount,
    company_name: String,
) -> (created: Result<(), VestingError>)
    requires
        old(registry).wf(),
    ensures
        final(registry).wf(),
        final(registry).schedules() == old(registry).schedules(),
        final(registry).latest_claim() == old(registry).latest_claim(),
        match create_company_outcome(old(registry).companies(), ctx, company_name) {
            Ok(companies) => created is Ok && final(registry).companies() == companies,
            Err(refusal) => created == Err::<(), VestingError>(refusal)
                && final(registry).companies() == old(registry).companies(),
        },
{
    registry.insert_company(open_account(ctx, company_name))
}

/// The schedule that `create_employee_acccount` files: nothing withdrawn
/// yet, the times and the allotment as given.
pub open spec fn new_schedule(
    ctx: CreateEmployeeAccount,
    start_time: i64,
    end_time: i64,
    cliff_time: i64,
    total_amount: u64,
) -> EmployeeAccount {
    EmployeeAccount {
        beneficiary: ctx.beneficiary,
        start_time,
        end_time,
        cliff_time,
        vesting_account: ctx.vesting_account,
        total_amount,
        total_withdrawn: 0,
        bump: ctx.bump,
    }
}

/// What drawing up a schedule with `company` yields: the schedule, or the
/// refusal where the caller does not own the company.
pub open spec fn draft_outcome(
    company: VestingAccount,
    ctx: CreateEmployeeAccount,
    start_time: i64,
    end_time: i64,
    cliff_time: i64,
    total_amount: u64,
) -> Result<EmployeeAccount, VestingError> {
    if ctx.owner@ != company.owner@ {
        Err(VestingError::Unauthorized)
    } else {
        Ok(new_schedule(ctx, start_time, end_time, cliff_time, total_amount))
    }
}

/// Draws up the schedule of a beneficiary with `company`, which only the
/// owner of the company may do. The times are taken as they come: a period
/// that is not positive is refused when claimed, and the cliff is held
/// against neither start nor end.
pub fn draft_schedule(
    company: &VestingAccount,
    ctx: CreateEmployeeAccount,
    start_time: i64,
    end_time: i64,
    cliff_time: i64,
    total_amount: u64,
) -> (drafted: Result<EmployeeAccount, VestingError>)
    ensures
        drafted == draft_outcome(*company, ctx, start_time, end_time, cliff_time, total_amount),
{
    if !company.is_owner(&ctx.owner) {
        return Err(VestingError::Unauthorized);
    }
    Ok(
        EmployeeAccount {
            beneficiary: ctx.beneficiary,
            start_time,
            end_time,
            cliff_time,
            vesting_account: ctx.vesting_account,
            total_amount,
            total_withdrawn: 0,
            bump: ctx.bump,
        },
    )
}

/// What creating a schedule yields: the schedules with the new one among
/// them, or the refusal. The company has to exist, the caller has to own it,
/// and the beneficiary must have no schedule with it yet, in this order.
pub open spec fn create_schedule_outcome(
    companies: Map<Seq<char>, VestingAccount>,
    schedules: Map<(Seq<u8>, Seq<char>), EmployeeAccount>,
    ctx: CreateEmployeeAccount,
    start_time: i64,
    end_time: i64,
    cliff_time: i64,
    total_amount: u64,
) -> Result<Map<(Seq<u8>, Seq<char>), EmployeeAccount>, VestingError> {
    let key = schedule_key(ctx.beneficiary, ctx.vesting_account@);
    if !companies.contains_key(ctx.vesting_account@) {
        Err(VestingError::NotFound)
    } else {
        match draft_outcome(
            companies[ctx.vesting_account@],
            ctx,
            start_time,
            end_time,
            cliff_time,
            total_amount,
        ) {
            Err(refusal) => Err(refusal),
            Ok(schedule) => if schedules.contains_key(key) {
                Err(VestingError::AlreadyExists)
            } else {
                Ok(schedules.insert(key, schedule))
            },
        }
    }
}

/// Creates the schedule of a beneficiary with the company that the caller
/// owns. A beneficiary has at most one schedule with a company.
pub fn create_employee_acccount(
    registry: &mut VestingRegistry,
    ctx: CreateEmployeeAccount,
    start_time: i64,
    end_time: i64,
    cliff_time: i64,
    total_amount: u64,
) -> (created: Result<(), VestingError>)
    requires
        old(registry).wf(),
    ensures
        final(registry).wf(),
        final(registry).companies() == old(registry).companies(),
        final(registry).latest_claim() == old(registry).latest_claim(),
        match create_schedule_outcome(
            old(registry).companies(),
            old(registry).schedules(),
            ctx,
            start_time,
            end_time,
            cliff_time,
            total_amount,
        ) {
            Ok(schedules) => created is Ok && final(registry).schedules() == schedules,
            Err(refusal) => created == Err::<(), VestingError>(refusal)
                && final(registry).schedules() == old(registry).schedules(),
        },
{
    let drafted = match registry.vesting_account(&ctx.vesting_account) {
        Ok(company) => draft_schedule(
            company,
            ctx,
            start_time,
            end_time,
            cliff_time,
            total_amount,
        ),
        Err(refusal) => { return Err(refusal); },
    };
    match drafted {
        Ok(schedule) => registry.insert_schedule(schedule),
        Err(refusal) => Err(refusal),
    }
}

/// The first step of a claim by the caller on their schedule with the
/// company named `company_name`, at the time `now`: the one transfer that
/// pays out what is claimable. The registry is not changed; the withdrawal
/// is recorded by `confirm_claim` once the transfer has been made.
pub fn claim_tokens(
    registry: &VestingRegistry,
    ctx: &ClaimTokens,
    company_name: &String,
    now: i64,
) -> (claim: Result<TransferRequest, VestingError>)
    requires
        registry.wf(),
    ensures
        claim == claim_request(
            registry.companies(),
            registry.schedules(),
            *ctx,
            company_name@,
            now as int,
        ),
{
    let company = match registry.vesting_account(company_name) {
        Ok(company) => company,
        Err(refusal) => { return Err(refusal); },
    };
    let schedule = match registry.employee_account(&ctx.beneficiary, company_name) {
        Ok(schedule) => schedule,
        Err(refusal) => { return Err(refusal); },
    };
    plan_claim(ctx, company, schedule, now)
}

/// The second step of a claim: completes the claim that the caller made at
/// `now`, given what became of the transfer that `claim_tokens` asked for.
/// The claim is decided again on the schedule as it stands, and the planned
/// amount is recorded if the transfer went through; no other record changes
/// in any case. Returns the amount recorded.
pub fn confirm_claim(
    registry: &mut VestingRegistry,
    ctx: &ClaimTokens,
    company_name: &String,
    now: i64,
    outcome: TransferOutcome,
) -> (confirmed: Result<u64, VestingError>)
    requires
        old(registry).wf(),
    ensures
        final(registry).wf(),
        final(registry).companies() == old(registry).companies(),
        match confirmation_outcome(
            old(registry).companies(),
            old(registry).schedules(),
            *ctx,
            company_name@,
            now as int,
            outcome,
        ) {
            Ok(schedules) => {
                &&& confirmed == Ok::<u64, VestingError>(
                    claim_request(
                        old(registry).companies(),
                        old(registry).schedules(),
                        *ctx,
                        company_name@,
                        now as int,
                    )->Ok_0.amount,
                )
                &&& final(registry).schedules() == schedules
                &&& final(registry).latest_claim() == vstd::math::max(
                    old(registry).latest_claim(),
                    now as int,
                )
            },
            Err(refusal) => {
                &&& confirmed == Err::<u64, VestingError>(refusal)
                &&& final(registry).schedules() == old(registry).schedules()
                &&& final(registry).latest_claim() == old(registry).latest_claim()
            },
        },
{
    registry.complete(ctx, company_name, now, outcome)
}

/// A company name can be taken once: after an account has been opened
/// under a name, opening another under that name is refused, whoever asks
/// and whatever it is to manage.
pub proof fn lemma_company_name_taken_once(
    companies: Map<Seq<char>, VestingAccount>,
    first: CreateVestingAccount,
    second: CreateVestingAccount,
    company_name: String,
    same_name: String,
)
    requires
        same_name@ == company_name@,
        create_company_outcome(companies, first, company_name) is Ok,
    ensures
        create_company_outcome(
            create_company_outcome(companies, first, company_name)->Ok_0,
            second,
            same_name,
        ) == Err::<Map<Seq<char>, VestingAccount>, VestingError>(VestingError::AlreadyExists),
{
}

/// A beneficiary has one schedule with a company: after the owner has
/// created it, creating another for the same beneficiary with the same
/// company is refused, whatever times and allotment are asked for.
pub proof fn lemma_schedule_created_once(
    companies: Map<Seq<char>, VestingAccount>,
    schedules: Map<(Seq<u8>, Seq<char>), EmployeeAccount>,
    first: CreateEmployeeAccount,
    first_times: (i64, i64, i64),
    first_amount: u64,
    second: CreateEmployeeAccount,
    second_times: (i64, i64, i64),
    second_amount: u64,
)
    requires
        second.owner@ == first.owner@,
        second.beneficiary@ == first.beneficiary@,
        second.vesting_account@ == first.vesting_account@,
        create_schedule_outcome(
            companies,
            schedules,
            first,
            first_times.0,
            first_times.1,
            first_times.2,
            first_amount,
        ) is Ok,
    ensures
        create_schedule_outcome(
            companies,
            create_schedule_outcome(
                companies,
                schedules,
                first,
                first_times.0,
                first_times.1,
                first_times.2,
                first_amount,
            )->Ok_0,
            second,
            second_times.0,
            second_times.1,
            second_times.2,
            second_amount,
        ) == Err::<Map<(Seq<u8>, Seq<char>), EmployeeAccount>, VestingError>(
            VestingError::AlreadyExists,
        ),
{
}

/// Before the cliff a claim on an existing schedule with a proper period is
/// refused as too early.
pub proof fn lemma_claim_tokens_before_cliff(
    companies: Map<Seq<char>, VestingAccount>,
    schedules: Map<(Seq<u8>, Seq<char>), EmployeeAccount>,
    ctx: ClaimTokens,
    company_name: Seq<char>,
    now: int,
)
    requires
        companies.contains_key(company_name),
        schedules.contains_key(schedule_key(ctx.beneficiary, company_name)),
        schedules[schedule_key(ctx.beneficiary, company_name)].duration() > 0,
        now < schedules[schedule_key(ctx.beneficiary, company_name)].cliff_time,
    ensures
        claim_request(companies, schedules, ctx, company_name, now) == Err::<
            TransferRequest,
            VestingError,
        >(VestingError::BeforeCliff),
{
    lemma_claim_before_cliff_refused(
        ctx,
        companies[company_name],
        schedules[schedule_key(ctx.beneficiary, company_name)],
        now,
    );
}

/// A claim that `claim_tokens` grants is confirmed once its transfer has
/// completed, and a second claim at the same time then finds nothing to
/// claim.
pub proof fn lemma_claim_tokens_again_refused(
    companies: Map<Seq<char>, VestingAccount>,
    schedules: Map<(Seq<u8>, Seq<char>), EmployeeAccount>,
    ctx: ClaimTokens,
    company_name: Seq<char>,
    now: int,
)
    requires
        claim_request(companies, schedules, ctx, company_name, now) is Ok,
    ensures
        confirmation_outcome(
            companies,
            schedules,
            ctx,
            company_name,
            now,
            TransferOutcome::Completed,
        ) is Ok,
        claim_request(
            companies,
            confirmation_outcome(
                companies,
                schedules,
                ctx,
                company_name,
                now,
                TransferOutcome::Completed,
            )->Ok_0,
            ctx,
            company_name,
            now,
        ) == Err::<TransferRequest, VestingError>(VestingError::NothingToClaim),
{
    let key = schedule_key(ctx.beneficiary, company_name);
    lemma_planned_claim_completes(ctx, companies[company_name], schedules[key], now);
}

/// Records are never removed, and a company account never changes: opening
/// an account and creating a schedule add one record and leave the others
/// as they were.
pub proof fn lemma_records_persist(
    companies: Map<Seq<char>, VestingAccount>,
    schedules: Map<(Seq<u8>, Seq<char>), EmployeeAccount>,
    opening: CreateVestingAccount,
    company_name: String,
    hiring: CreateEmployeeAccount,
    times: (i64, i64, i64),
    amount: u64,
)
    ensures
        create_company_outcome(companies, opening, company_name) matches Ok(after)
            ==> companies.submap_of(after),
        create_schedule_outcome(companies, schedules, hiring, times.0, times.1, times.2, amount)
            matches Ok(after) ==> schedules.submap_of(after),
{
}

/// A confirmed claim changes one schedule, that of the caller with the
/// company named, and of that schedule it raises the withdrawn total and
/// changes nothing else. Claims of other beneficiaries, or with other
/// companies, are not touched by it.
pub proof fn lemma_confirmation_touches_one_schedule(
    companies: Map<Seq<char>, VestingAccount>,
    schedules: Map<(Seq<u8>, Seq<char>), EmployeeAccount>,
    ctx: ClaimTokens,
    company_name: Seq<char>,
    now: int,
    outcome: TransferOutcome,
)
    requires
        confirmation_outcome(companies, schedules, ctx, company_name, now, outcome) is Ok,
    ensures
        ({
            let key = schedule_key(ctx.beneficiary, company_name);
            let after = confirmation_outcome(
                companies,
                schedules,
                ctx,
                company_name,
                now,
                outcome,
            )->Ok_0;
            &&& after.dom() == schedules.dom()
            &&& forall|other: (Seq<u8>, Seq<char>)|
                other != key && schedules.contains_key(other) ==> after[other] == schedules[other]
            &&& after[key].total_withdrawn > schedules[key].total_withdrawn
            &&& after[key] == (EmployeeAccount {
                total_withdrawn: after[key].total_withdrawn,
                ..schedules[key]
            })
        }),
{
    let key = schedule_key(ctx.beneficiary, company_name);
    lemma_planned_claim_completes(ctx, companies[company_name], schedules[key], now);
    let after = confirmation_outcome(companies, schedules, ctx, company_name, now, outcome)->Ok_0;
    assert(after.dom() =~= schedules.dom());
}

/// The transfer that a granted claim asks for pays the caller, out of the
/// treasury of the company named and under its authority, exactly what has
/// vested and has not been withdrawn, which is more than nothing.
pub proof fn lemma_claim_pays_what_is_claimable(
    companies: Map<Seq<char>, VestingAccount>,
    schedules: Map<(Seq<u8>, Seq<char>), EmployeeAccount>,
    ctx: ClaimTokens,
    company_name: Seq<char>,
    now: int,
)
    requires
        records_consistent(companies, schedules),
        claim_request(companies, schedules, ctx, company_name, now) is Ok,
    ensures
        ({
            let request = claim_request(companies, schedules, ctx, company_name, now)->Ok_0;
            let company = companies[company_name];
            let schedule = schedules[schedule_key(ctx.beneficiary, company_name)];
            &&& request.from == company.treasury_token_account
            &&& request.mint == company.mint
            &&& request.to == ctx.employee_token_account
            &&& request.authority == company.authority()
            &&& request.authority.company_name@ == company_name
            &&& request.amount > 0
            &&& request.amount == schedule.vested_at(now) - schedule.total_withdrawn
            &&& schedule.cliff_time <= now
        }),
{
}

/// Among consistent records a claim is never refused for the caller or the
/// company: the schedule found for the caller with the company named is
/// theirs and belongs to that company.
pub proof fn lemma_registry_claims_are_authorized(
    companies: Map<Seq<char>, VestingAccount>,
    schedules: Map<(Seq<u8>, Seq<char>), EmployeeAccount>,
    ctx: ClaimTokens,
    company_name: Seq<char>,
    now: int,
)
    requires
        records_consistent(companies, schedules),
    ensures
        claim_request(companies, schedules, ctx, company_name, now) != Err::<
            TransferRequest,
            VestingError,
        >(VestingError::Unauthorized),
        claim_request(companies, schedules, ctx, company_name, now) != Err::<
            TransferRequest,
            VestingError,
        >(VestingError::MismatchedAccount),
{
}

/// In a well-formed registry, at any time not before the latest completed
/// claim, what has been withdrawn on a schedule is within what has vested,
/// which is within the allotment.
pub proof fn lemma_registry_withdrawn_within_vested(
    registry: VestingRegistry,
    key: (Seq<u8>, Seq<char>),
    now: int,
)
    requires
        registry.wf(),
        registry.schedules().contains_key(key),
        now >= registry.latest_claim(),
    ensures
        registry.schedules()[key].total_withdrawn <= registry.schedules()[key].vested_at(now)
            <= registry.schedules()[key].total_amount,
{
    let held = registry.schedules()[key];
    lemma_vested_monotonic(
        held.total_amount as nat,
        held.start_time as int,
        held.end_time as int,
        registry.latest_claim(),
        now,
    );
    lemma_vested_bounded(
        held.total_amount as nat,
        held.start_time as int,
        held.end_time as int,
        now,
    );
}

} // verus!
