//! The registry: every company account under its name, every employee
//! schedule under its beneficiary and company, each key at most once.
//!
//! The contracts speak of the registry through three views: the company
//! accounts as a map from names, the schedules as a map from beneficiary and
//! company name, and the latest time at which a claim was completed.

use vstd::prelude::*;
use crate::address::Address;
use crate::claim::{
    complete_claim, completion_outcome, lemma_planned_claim_completes, plan_outcome, ClaimTokens,
    TransferOutcome, TransferRequest,
};
use crate::company::VestingAccount;
use crate::error::VestingError;
use crate::keyed::{
    distinct_keys, filed, lemma_filed_absent, lemma_filed_present, lemma_filed_push,
    lemma_filed_update,
};
use crate::schedule::{lemma_vested_monotonic, EmployeeAccount};

verus! {

/// The key of a schedule: whose it is, and of which company.
pub open spec fn schedule_key(beneficiary: Address, company_name: Seq<char>) -> (
    Seq<u8>,
    Seq<char>,
) {
    (beneficiary@, company_name)
}

/// Two schedules have one key exactly when they have one beneficiary and
/// one company: the key is made of these two and of nothing else.
pub proof fn lemma_schedule_keys_are_collision_free(
    beneficiary: Address,
    company_name: Seq<char>,
    other_beneficiary: Address,
    other_company_name: Seq<char>,
)
    ensures
        schedule_key(beneficiary, company_name) == schedule_key(
            other_beneficiary,
            other_company_name,
        ) <==> beneficiary@ == other_beneficiary@ && company_name == other_company_name,
{
}

/// What holds of the records of every registry: each is filed under the
/// key that it names itself, and each schedule belongs to a company that has
/// an account.
pub open spec fn records_consistent(
    companies: Map<Seq<char>, VestingAccount>,
    schedules: Map<(Seq<u8>, Seq<char>), EmployeeAccount>,
) -> bool {
    &&& forall|name: Seq<char>| #[trigger]
        companies.contains_key(name) ==> companies[name].company_name@ == name
    &&& forall|key: (Seq<u8>, Seq<char>)| #[trigger]
        schedules.contains_key(key) ==> {
            &&& schedule_key(schedules[key].beneficiary, schedules[key].vesting_account@) == key
            &&& companies.contains_key(key.1)
        }
}

/// On every schedule, what has been withdrawn is within what had vested at
/// the time `at`.
pub open spec fn withdrawals_covered(
    schedules: Map<(Seq<u8>, Seq<char>), EmployeeAccount>,
    at: int,
) -> bool {
    forall|key: (Seq<u8>, Seq<char>)| #[trigger]
        schedules.contains_key(key) ==> schedules[key].total_withdrawn <= schedules[key].vested_at(
            at,
        )
}

/// What the first step of a claim yields: the transfer to perform, or the
/// refusal. Both records have to exist; the rest is decided on them.
pub open spec fn claim_request(
    companies: Map<Seq<char>, VestingAccount>,
    schedules: Map<(Seq<u8>, Seq<char>), EmployeeAccount>,
    ctx: ClaimTokens,
    company_name: Seq<char>,
    now: int,
) -> Result<TransferRequest, VestingError> {
    let key = schedule_key(ctx.beneficiary, company_name);
    if !companies.contains_key(company_name) || !schedules.contains_key(key) {
        Err(VestingError::NotFound)
    } else {
        plan_outcome(ctx, companies[company_name], schedules[key], now)
    }
}

/// What the second step of a claim yields, given what the transfer service
/// reports: the schedules after the withdrawal, or the reason why they stay
/// as they are.
pub open spec fn confirmation_outcome(
    companies: Map<Seq<char>, VestingAccount>,
    schedules: Map<(Seq<u8>, Seq<char>), EmployeeAccount>,
    ctx: ClaimTokens,
    company_name: Seq<char>,
    now: int,
    outcome: TransferOutcome,
) -> Result<Map<(Seq<u8>, Seq<char>), EmployeeAccount>, VestingError> {
    let key = schedule_key(ctx.beneficiary, company_name);
    if !companies.contains_key(company_name) || !schedules.contains_key(key) {
        Err(VestingError::NotFound)
    } else {
        match completion_outcome(ctx, companies[company_name], schedules[key], now, outcome) {
            Ok(after) => Ok(schedules.insert(key, after)),
            Err(refusal) => Err(refusal),
        }
    }
}

/// The store of all records. A record is created once and never removed;
/// only a completed claim changes one, and then only its withdrawn total.
pub struct VestingRegistry {
    companies: Vec<VestingAccount>,
    schedules: Vec<EmployeeAccount>,
    latest: Ghost<int>,
}

impl VestingRegistry {
    closed spec fn company_entries(&self) -> Seq<(Seq<char>, VestingAccount)> {
        Seq::new(
            self.companies@.len(),
            |i: int| (self.companies@[i].company_name@, self.companies@[i]),
        )
    }

    closed spec fn schedule_entries(&self) -> Seq<((Seq<u8>, Seq<char>), EmployeeAccount)> {
        Seq::new(
            self.schedules@.len(),
            |i: int|
                (
                    schedule_key(
                        self.schedules@[i].beneficiary,
                        self.schedules@[i].vesting_account@,
                    ),
                    self.schedules@[i],
                ),
        )
    }

    /// No two company accounts share a name and no two schedules share a
    /// beneficiary and a company.
    pub closed spec fn distinct(&self) -> bool {
        &&& distinct_keys(self.company_entries())
        &&& distinct_keys(self.schedule_entries())
    }

    /// The company accounts, by name.
    pub closed spec fn companies(&self) -> Map<Seq<char>, VestingAccount> {
        filed(self.company_entries())
    }

    /// The employee schedules, by beneficiary and company.
    pub closed spec fn schedules(&self) -> Map<(Seq<u8>, Seq<char>), EmployeeAccount> {
        filed(self.schedule_entries())
    }

    /// The latest time at which a claim was completed, and the earliest of
    /// all times while none has been.
    pub closed spec fn latest_claim(&self) -> int {
        self.latest@
    }

    /// The registry is well formed: no key is held twice, the records are
    /// consistent, and no schedule has more withdrawn than had vested when a
    /// claim was last completed.
    pub open spec fn wf(&self) -> bool {
        &&& self.distinct()
        &&& records_consistent(self.companies(), self.schedules())
        &&& withdrawals_covered(self.schedules(), self.latest_claim())
    }

    /// A registry without records.
    pub fn new() -> (registry: VestingRegistry)
        ensures
            registry.wf(),
            registry.companies() == Map::<Seq<char>, VestingAccount>::empty(),
            registry.schedules() == Map::<(Seq<u8>, Seq<char>), EmployeeAccount>::empty(),
            registry.latest_claim() == i64::MIN,
    {
        VestingRegistry {
            companies: Vec::new(),
            schedules: Vec::new(),
            latest: Ghost(i64::MIN as int),
        }
    }

    fn find_company(&self, company_name: &String) -> (found: Option<usize>)
        ensures
            match found {
                Some(at) => at < self.companies@.len() && self.companies@[at as int].company_name@
                    == company_name@,
                None => forall|i: int|
                    0 <= i < self.companies@.len() ==> self.companies@[i].company_name@
                        != company_name@,
            },
    {
        let mut i: usize = 0;
        while i < self.companies.len()
            invariant
                i <= self.companies@.len(),
                forall|j: int| 0 <= j < i ==> self.companies@[j].company_name@ != company_name@,
            decreases self.companies@.len() - i,
        {
            if self.companies[i].company_name == *company_name {
                return Some(i);
            }
            i += 1;
        }
        None
    }

    fn find_schedule(&self, beneficiary: &Address, company_name: &String) -> (found: Option<usize>)
        ensures
            match found {
                Some(at) => at < self.schedules@.len() && schedule_key(
                    self.schedules@[at as int].beneficiary,
                    self.schedules@[at as int].vesting_account@,
                ) == schedule_key(*beneficiary, company_name@),
                None => forall|i: int|
                    0 <= i < self.schedules@.len() ==> schedule_key(
                        self.schedules@[i].beneficiary,
                        self.schedules@[i].vesting_account@,
                    ) != schedule_key(*beneficiary, company_name@),
            },
    {
        let mut i: usize = 0;
        while i < self.schedules.len()
            invariant
                i <= self.schedules@.len(),
                forall|j: int|
                    0 <= j < i ==> schedule_key(
                        self.schedules@[j].beneficiary,
                        self.schedules@[j].vesting_account@,
                    ) != schedule_key(*beneficiary, company_name@),
            decreases self.schedules@.len() - i,
        {
            let held = &self.schedules[i];
            if held.beneficiary.same_as(beneficiary) && held.vesting_account == *company_name {
                return Some(i);
            }
            i += 1;
        }
        None
    }

    /// Files `account` under its company name, unless an account of that
    /// name is there already.
    pub(crate) fn insert_company(&mut self, account: VestingAccount) -> (inserted: Result<
        (),
        VestingError,
    >)
        requires
            old(self).wf(),
        ensures
            final(self).wf(),
            final(self).schedules() == old(self).schedules(),
            final(self).latest_claim() == old(self).latest_claim(),
            match inserted {
                Ok(_) => {
                    &&& !old(self).companies().contains_key(account.company_name@)
                    &&& final(self).companies() == old(self).companies().insert(
                        account.company_name@,
                        account,
                    )
                },
                Err(refusal) => {
                    &&& refusal == VestingError::AlreadyExists
                    &&& old(self).companies().contains_key(account.company_name@)
                    &&& final(self).companies() == old(self).companies()
                },
            },
    {
        match self.find_company(&account.company_name) {
            Some(at) => {
                proof {
                    lemma_filed_present(self.company_entries(), at as int);
                }
                Err(VestingError::AlreadyExists)
            },
            None => {
                proof {
                    lemma_filed_absent(self.company_entries(), account.company_name@);
                    lemma_filed_push(self.company_entries(), (account.company_name@, account));
                }
                self.companies.push(account);
                assert(self.company_entries() =~= old(self).company_entries().push(
                    (account.company_name@, account),
                ));
                assert(self.schedule_entries() =~= old(self).schedule_entries());
                Ok(())
            },
        }
    }

    /// Files `schedule`, on which nothing has been withdrawn, under its
    /// beneficiary and company, unless a schedule of that beneficiary with
    /// that company is there already.
    pub(crate) fn insert_schedule(&mut self, schedule: EmployeeAccount) -> (inserted: Result<
        (),
        VestingError,
    >)
        requires
            old(self).wf(),
            old(self).companies().contains_key(schedule.vesting_account@),
            schedule.total_withdrawn == 0,
        ensures
            final(self).wf(),
            final(self).companies() == old(self).companies(),
            final(self).latest_claim() == old(self).latest_claim(),
            match inserted {
                Ok(_) => {
                    &&& !old(self).schedules().contains_key(
                        schedule_key(schedule.beneficiary, schedule.vesting_account@),
                    )
                    &&& final(self).schedules() == old(self).schedules().insert(
                        schedule_key(schedule.beneficiary, schedule.vesting_account@),
                        schedule,
                    )
                },
                Err(refusal) => {
                    &&& refusal == VestingError::AlreadyExists
                    &&& old(self).schedules().contains_key(
                        schedule_key(schedule.beneficiary, schedule.vesting_account@),
                    )
                    &&& final(self).schedules() == old(self).schedules()
                },
            },
    {
        let ghost key = schedule_key(schedule.beneficiary, schedule.vesting_account@);
        match self.find_schedule(&schedule.beneficiary, &schedule.vesting_account) {
            Some(at) => {
                proof {
                    lemma_filed_present(self.schedule_entries(), at as int);
                }
                Err(VestingError::AlreadyExists)
            },
            None => {
                proof {
                    lemma_filed_absent(self.schedule_entries(), key);
                    lemma_filed_push(self.schedule_entries(), (key, schedule));
                }
                self.schedules.push(schedule);
                assert(self.schedule_entries() =~= old(self).schedule_entries().push(
                    (key, schedule),
                ));
                assert(self.company_entries() =~= old(self).company_entries());
                Ok(())
            },
        }
    }

    /// Completes the claim that the caller made at `now` on their schedule
    /// with the company named `company_name`.
    pub(crate) fn complete(
        &mut self,
        ctx: &ClaimTokens,
        company_name: &String,
        now: i64,
        outcome: TransferOutcome,
    ) -> (completed: Result<u64, VestingError>)
        requires
            old(self).wf(),
        ensures
            final(self).wf(),
            final(self).companies() == old(self).companies(),
            match confirmation_outcome(
                old(self).companies(),
                old(self).schedules(),
                *ctx,
                company_name@,
                now as int,
                outcome,
            ) {
                Ok(schedules) => {
                    &&& completed == Ok::<u64, VestingError>(
                        claim_request(
                            old(self).companies(),
                            old(self).schedules(),
                            *ctx,
                            company_name@,
                            now as int,
                        )->Ok_0.amount,
                    )
                    &&& final(self).schedules() == schedules
                    &&& final(self).latest_claim() == vstd::math::max(
                        old(self).latest_claim(),
                        now as int,
                    )
                },
                Err(refusal) => {
                    &&& completed == Err::<u64, VestingError>(refusal)
                    &&& final(self).schedules() == old(self).schedules()
                    &&& final(self).latest_claim() == old(self).latest_claim()
                },
            },
    {
        let ghost key = schedule_key(ctx.beneficiary, company_name@);
        let company_at = match self.find_company(company_name) {
            Some(at) => at,
            None => {
                proof {
                    lemma_filed_absent(self.company_entries(), company_name@);
                }
                return Err(VestingError::NotFound);
            },
        };
        let schedule_at = match self.find_schedule(&ctx.beneficiary, company_name) {
            Some(at) => at,
            None => {
                proof {
                    lemma_filed_absent(self.schedule_entries(), key);
                }
                return Err(VestingError::NotFound);
            },
        };
        proof {
            lemma_filed_present(self.company_entries(), company_at as int);
            lemma_filed_present(self.schedule_entries(), schedule_at as int);
        }
        let completed = complete_claim(
            ctx,
            &self.companies[company_at],
            &mut self.schedules[schedule_at],
            now,
            outcome,
        );
        proof {
            assert(self.company_entries() =~= old(self).company_entries());
            if completed is Ok {
                let after = self.schedules@[schedule_at as int];
                let before = old(self).schedules@[schedule_at as int];
                lemma_filed_update(old(self).schedule_entries(), schedule_at as int, (key, after));
                assert(self.schedule_entries() =~= old(self).schedule_entries().update(
                    schedule_at as int,
                    (key, after),
                ));
                lemma_planned_claim_completes(
                    *ctx,
                    self.companies@[company_at as int],
                    before,
                    now as int,
                );
                let latest = vstd::math::max(old(self).latest_claim(), now as int);
                self.latest@ = latest;
                assert forall|other: (Seq<u8>, Seq<char>)| #[trigger]
                    self.schedules().contains_key(
                        other,
                    ) implies self.schedules()[other].total_withdrawn
                    <= self.schedules()[other].vested_at(latest) by {
                    let held = self.schedules()[other];
                    if other == key {
                        lemma_vested_monotonic(
                            held.total_amount as nat,
                            held.start_time as int,
                            held.end_time as int,
                            now as int,
                            latest,
                        );
                    } else {
                        lemma_vested_monotonic(
                            held.total_amount as nat,
                            held.start_time as int,
                            held.end_time as int,
                            old(self).latest_claim(),
                            latest,
                        );
                    }
                }
            } else {
                assert(self.schedule_entries() =~= old(self).schedule_entries());
            }
        }
        completed
    }

    /// Loads the account of the company named `company_name`.
    pub fn vesting_account(&self, company_name: &String) -> (loaded: Result<
        &VestingAccount,
        VestingError,
    >)
        requires
            self.wf(),
        ensures
            match loaded {
                Ok(account) => self.companies().contains_key(company_name@) && *account
                    == self.companies()[company_name@],
                Err(refusal) => refusal == VestingError::NotFound && !self.companies().contains_key(
                    company_name@,
                ),
            },
    {
        match self.find_company(company_name) {
            Some(at) => {
                proof {
                    lemma_filed_present(self.company_entries(), at as int);
                }
                Ok(&self.companies[at])
            },
            None => {
                proof {
                    lemma_filed_absent(self.company_entries(), company_name@);
                }
                Err(VestingError::NotFound)
            },
        }
    }

    /// Loads the schedule of `beneficiary` with the company named
    /// `company_name`.
    pub fn employee_account(&self, beneficiary: &Address, company_name: &String) -> (loaded: Result<
        &EmployeeAccount,
        VestingError,
    >)
        requires
            self.wf(),
        ensures
            match loaded {
                Ok(schedule) => self.schedules().contains_key(
                    schedule_key(*beneficiary, company_name@),
                ) && *schedule == self.schedules()[schedule_key(*beneficiary, company_name@)],
                Err(refusal) => refusal == VestingError::NotFound && !self.schedules().contains_key(
                    schedule_key(*beneficiary, company_name@),
                ),
            },
    {
        match self.find_schedule(beneficiary, company_name) {
            Some(at) => {
                proof {
                    lemma_filed_present(self.schedule_entries(), at as int);
                }
                Ok(&self.schedules[at])
            },
            None => {
                proof {
                    lemma_filed_absent(
                        self.schedule_entries(),
                        schedule_key(*beneficiary, company_name@),
                    );
                }
                Err(VestingError::NotFound)
            },
        }
    }
}

} // verus!
