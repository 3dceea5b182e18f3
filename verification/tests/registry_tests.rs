use vesting::address::Address;
use vesting::claim::{ClaimTokens, TransferOutcome, TransferRequest};
use vesting::company::{TreasuryAuthority, VestingAccount};
use vesting::error::{ErrorKind, VestingError};
use vesting::instructions::{
    claim_tokens, confirm_claim, create_employee_acccount, create_vesting_account, draft_schedule,
    open_account, CreateEmployeeAccount, CreateVestingAccount,
};
use vesting::registry::VestingRegistry;
use vesting::schedule::EmployeeAccount;

fn who(tag: u8) -> Address {
    Address { bytes: [tag; 32] }
}

const OWNER: u8 = 1;
const ALICE: u8 = 2;
const MINT: u8 = 3;
const TREASURY: u8 = 4;
const ALICE_WALLET: u8 = 5;
const BOB: u8 = 6;
const BOB_WALLET: u8 = 7;
const RIVAL: u8 = 8;

fn name(text: &str) -> String {
    String::from(text)
}

fn opening(signer: u8) -> CreateVestingAccount {
    CreateVestingAccount {
        signer: who(signer),
        mint: who(MINT),
        treasury_token_account: who(TREASURY),
        treasury_bump: 254,
        vesting_bump: 253,
    }
}

fn hiring(owner: u8, beneficiary: u8, company: &str) -> CreateEmployeeAccount {
    CreateEmployeeAccount {
        owner: who(owner),
        beneficiary: who(beneficiary),
        vesting_account: name(company),
        bump: 252,
    }
}

fn claimant(beneficiary: u8, wallet: u8) -> ClaimTokens {
    ClaimTokens { beneficiary: who(beneficiary), employee_token_account: who(wallet) }
}

fn acme_with_alice() -> VestingRegistry {
    let mut registry = VestingRegistry::new();
    assert_eq!(create_vesting_account(&mut registry, opening(OWNER), name("acme")), Ok(()));
    assert_eq!(
        create_employee_acccount(&mut registry, hiring(OWNER, ALICE, "acme"), 0, 1000, 100, 1000),
        Ok(())
    );
    registry
}

#[test]
fn new_registry_holds_nothing() {
    let registry = VestingRegistry::new();
    assert_eq!(registry.vesting_account(&name("acme")), Err(VestingError::NotFound));
    assert_eq!(registry.employee_account(&who(ALICE), &name("acme")), Err(VestingError::NotFound));
}

#[test]
fn company_account_is_filed_as_opened() {
    let mut registry = VestingRegistry::new();
    assert_eq!(create_vesting_account(&mut registry, opening(OWNER), name("acme")), Ok(()));
    let expected = VestingAccount {
        owner: who(OWNER),
        mint: who(MINT),
        treasury_token_account: who(TREASURY),
        company_name: name("acme"),
        treasury_bump: 254,
        vesting_bump: 253,
    };
    assert_eq!(registry.vesting_account(&name("acme")), Ok(&expected));
    assert_eq!(registry.vesting_account(&name("acm")), Err(VestingError::NotFound));
    assert_eq!(registry.vesting_account(&name("Acme")), Err(VestingError::NotFound));
}

#[test]
fn company_name_is_taken_once() {
    let mut registry = VestingRegistry::new();
    assert_eq!(create_vesting_account(&mut registry, opening(OWNER), name("acme")), Ok(()));
    assert_eq!(
        create_vesting_account(&mut registry, opening(OWNER), name("acme")),
        Err(VestingError::AlreadyExists)
    );
    assert_eq!(
        create_vesting_account(&mut registry, opening(RIVAL), name("acme")),
        Err(VestingError::AlreadyExists)
    );
    assert_eq!(registry.vesting_account(&name("acme")).unwrap().owner, who(OWNER));
    assert_eq!(create_vesting_account(&mut registry, opening(RIVAL), name("globex")), Ok(()));
    assert_eq!(registry.vesting_account(&name("globex")).unwrap().owner, who(RIVAL));
}

#[test]
fn schedule_is_filed_with_nothing_withdrawn() {
    let registry = acme_with_alice();
    let expected = EmployeeAccount {
        beneficiary: who(ALICE),
        start_time: 0,
        end_time: 1000,
        cliff_time: 100,
        vesting_account: name("acme"),
        total_amount: 1000,
        total_withdrawn: 0,
        bump: 252,
    };
    assert_eq!(registry.employee_account(&who(ALICE), &name("acme")), Ok(&expected));
    assert_eq!(registry.employee_account(&who(BOB), &name("acme")), Err(VestingError::NotFound));
    assert_eq!(
        registry.employee_account(&who(ALICE), &name("globex")),
        Err(VestingError::NotFound)
    );
}

#[test]
fn schedule_needs_the_company() {
    let mut registry = VestingRegistry::new();
    assert_eq!(
        create_employee_acccount(&mut registry, hiring(OWNER, ALICE, "acme"), 0, 1000, 100, 1000),
        Err(VestingError::NotFound)
    );
    assert_eq!(registry.employee_account(&who(ALICE), &name("acme")), Err(VestingError::NotFound));
}

#[test]
fn schedule_needs_the_owner() {
    let mut registry = VestingRegistry::new();
    assert_eq!(create_vesting_account(&mut registry, opening(OWNER), name("acme")), Ok(()));
    assert_eq!(
        create_employee_acccount(&mut registry, hiring(RIVAL, ALICE, "acme"), 0, 1000, 100, 1000),
        Err(VestingError::Unauthorized)
    );
    assert_eq!(
        create_employee_acccount(&mut registry, hiring(ALICE, ALICE, "acme"), 0, 1000, 100, 1000),
        Err(VestingError::Unauthorized)
    );
    assert_eq!(registry.employee_account(&who(ALICE), &name("acme")), Err(VestingError::NotFound));
}

#[test]
fn schedule_is_created_once() {
    let mut registry = acme_with_alice();
    assert_eq!(
        create_employee_acccount(&mut registry, hiring(OWNER, ALICE, "acme"), 0, 1000, 100, 1000),
        Err(VestingError::AlreadyExists)
    );
    assert_eq!(
        create_employee_acccount(&mut registry, hiring(OWNER, ALICE, "acme"), 5, 50, 6, 7),
        Err(VestingError::AlreadyExists)
    );
    assert_eq!(registry.employee_account(&who(ALICE), &name("acme")).unwrap().total_amount, 1000);
}

#[test]
fn second_schedule_by_a_stranger_is_unauthorized_first() {
    let mut registry = acme_with_alice();
    assert_eq!(
        create_employee_acccount(&mut registry, hiring(RIVAL, ALICE, "acme"), 0, 1000, 100, 1000),
        Err(VestingError::Unauthorized)
    );
}

#[test]
fn one_beneficiary_can_have_schedules_with_two_companies() {
    let mut registry = acme_with_alice();
    assert_eq!(create_vesting_account(&mut registry, opening(RIVAL), name("globex")), Ok(()));
    assert_eq!(
        create_employee_acccount(&mut registry, hiring(RIVAL, ALICE, "globex"), 10, 20, 10, 99),
        Ok(())
    );
    assert_eq!(registry.employee_account(&who(ALICE), &name("acme")).unwrap().total_amount, 1000);
    assert_eq!(registry.employee_account(&who(ALICE), &name("globex")).unwrap().total_amount, 99);
}

#[test]
fn schedule_times_are_not_checked_when_created() {
    let mut registry = VestingRegistry::new();
    assert_eq!(create_vesting_account(&mut registry, opening(OWNER), name("acme")), Ok(()));
    assert_eq!(
        create_employee_acccount(&mut registry, hiring(OWNER, ALICE, "acme"), 100, 100, 5000, 10),
        Ok(())
    );
    assert_eq!(
        claim_tokens(&registry, &claimant(ALICE, ALICE_WALLET), &name("acme"), 6000),
        Err(VestingError::InvalidVestingPeriod)
    );
    assert_eq!(
        create_employee_acccount(&mut registry, hiring(OWNER, BOB, "acme"), 0, 1000, 5000, 10),
        Ok(())
    );
    assert_eq!(
        claim_tokens(&registry, &claimant(BOB, BOB_WALLET), &name("acme"), 1000),
        Err(VestingError::BeforeCliff)
    );
}

#[test]
fn claim_needs_both_records() {
    let registry = acme_with_alice();
    assert_eq!(
        claim_tokens(&registry, &claimant(ALICE, ALICE_WALLET), &name("globex"), 500),
        Err(VestingError::NotFound)
    );
    assert_eq!(
        claim_tokens(&registry, &claimant(BOB, BOB_WALLET), &name("acme"), 500),
        Err(VestingError::NotFound)
    );
}

#[test]
fn claim_asks_for_the_transfer_out_of_the_treasury() {
    let registry = acme_with_alice();
    let expected = TransferRequest {
        from: who(TREASURY),
        to: who(ALICE_WALLET),
        mint: who(MINT),
        amount: 500,
        authority: TreasuryAuthority { company_name: name("acme"), bump: 254 },
    };
    assert_eq!(
        claim_tokens(&registry, &claimant(ALICE, ALICE_WALLET), &name("acme"), 500),
        Ok(expected)
    );
    assert_eq!(registry.employee_account(&who(ALICE), &name("acme")).unwrap().total_withdrawn, 0);
}

#[test]
fn claim_before_the_cliff_is_refused() {
    let registry = acme_with_alice();
    let me = claimant(ALICE, ALICE_WALLET);
    assert_eq!(claim_tokens(&registry, &me, &name("acme"), 50), Err(VestingError::BeforeCliff));
    assert_eq!(claim_tokens(&registry, &me, &name("acme"), -1), Err(VestingError::BeforeCliff));
    assert_eq!(claim_tokens(&registry, &me, &name("acme"), 99), Err(VestingError::BeforeCliff));
}

#[test]
fn scenario_through_the_registry() {
    let mut registry = acme_with_alice();
    let me = claimant(ALICE, ALICE_WALLET);
    let acme = name("acme");

    assert_eq!(claim_tokens(&registry, &me, &acme, 50), Err(VestingError::BeforeCliff));
    assert_eq!(
        confirm_claim(&mut registry, &me, &acme, 50, TransferOutcome::Completed),
        Err(VestingError::BeforeCliff)
    );
    assert_eq!(registry.employee_account(&who(ALICE), &acme).unwrap().total_withdrawn, 0);

    let first = claim_tokens(&registry, &me, &acme, 500).unwrap();
    assert_eq!(first.amount, 500);
    assert_eq!(confirm_claim(&mut registry, &me, &acme, 500, TransferOutcome::Completed), Ok(500));
    assert_eq!(registry.employee_account(&who(ALICE), &acme).unwrap().total_withdrawn, 500);

    let second = claim_tokens(&registry, &me, &acme, 1000).unwrap();
    assert_eq!(second.amount, 500);
    assert_eq!(confirm_claim(&mut registry, &me, &acme, 1000, TransferOutcome::Completed), Ok(500));
    assert_eq!(registry.employee_account(&who(ALICE), &acme).unwrap().total_withdrawn, 1000);

    assert_eq!(claim_tokens(&registry, &me, &acme, 1500), Err(VestingError::NothingToClaim));
    assert_eq!(
        confirm_claim(&mut registry, &me, &acme, 1500, TransferOutcome::Completed),
        Err(VestingError::NothingToClaim)
    );
    assert_eq!(registry.employee_account(&who(ALICE), &acme).unwrap().total_withdrawn, 1000);
}

#[test]
fn second_claim_at_the_same_time_is_refused() {
    let mut registry = acme_with_alice();
    let me = claimant(ALICE, ALICE_WALLET);
    let acme = name("acme");
    assert_eq!(claim_tokens(&registry, &me, &acme, 321).unwrap().amount, 321);
    assert_eq!(confirm_claim(&mut registry, &me, &acme, 321, TransferOutcome::Completed), Ok(321));
    assert_eq!(claim_tokens(&registry, &me, &acme, 321), Err(VestingError::NothingToClaim));
}

#[test]
fn confirming_twice_records_once() {
    let mut registry = acme_with_alice();
    let me = claimant(ALICE, ALICE_WALLET);
    let acme = name("acme");
    assert_eq!(confirm_claim(&mut registry, &me, &acme, 500, TransferOutcome::Completed), Ok(500));
    assert_eq!(
        confirm_claim(&mut registry, &me, &acme, 500, TransferOutcome::Completed),
        Err(VestingError::NothingToClaim)
    );
    assert_eq!(registry.employee_account(&who(ALICE), &acme).unwrap().total_withdrawn, 500);
}

#[test]
fn claim_at_an_earlier_time_after_a_later_one_finds_nothing() {
    let mut registry = acme_with_alice();
    let me = claimant(ALICE, ALICE_WALLET);
    let acme = name("acme");
    assert_eq!(confirm_claim(&mut registry, &me, &acme, 800, TransferOutcome::Completed), Ok(800));
    assert_eq!(claim_tokens(&registry, &me, &acme, 400), Err(VestingError::NothingToClaim));
    assert_eq!(
        confirm_claim(&mut registry, &me, &acme, 400, TransferOutcome::Completed),
        Err(VestingError::NothingToClaim)
    );
    assert_eq!(registry.employee_account(&who(ALICE), &acme).unwrap().total_withdrawn, 800);
}

#[test]
fn failed_transfer_changes_nothing() {
    let mut registry = acme_with_alice();
    let me = claimant(ALICE, ALICE_WALLET);
    let acme = name("acme");
    let request = claim_tokens(&registry, &me, &acme, 500).unwrap();
    assert_eq!(
        confirm_claim(&mut registry, &me, &acme, 500, TransferOutcome::InsufficientBalance),
        Err(VestingError::InsufficientBalance)
    );
    assert_eq!(registry.employee_account(&who(ALICE), &acme).unwrap().total_withdrawn, 0);
    assert_eq!(
        confirm_claim(&mut registry, &me, &acme, 500, TransferOutcome::InvalidAuthority),
        Err(VestingError::InvalidAuthority)
    );
    assert_eq!(registry.employee_account(&who(ALICE), &acme).unwrap().total_withdrawn, 0);
    assert_eq!(claim_tokens(&registry, &me, &acme, 500), Ok(request));
}

#[test]
fn refusal_of_the_claim_comes_before_the_report_of_the_transfer() {
    let mut registry = acme_with_alice();
    let me = claimant(ALICE, ALICE_WALLET);
    assert_eq!(
        confirm_claim(&mut registry, &me, &name("acme"), 50, TransferOutcome::InsufficientBalance),
        Err(VestingError::BeforeCliff)
    );
}

#[test]
fn confirming_needs_both_records() {
    let mut registry = acme_with_alice();
    assert_eq!(
        confirm_claim(
            &mut registry,
            &claimant(BOB, BOB_WALLET),
            &name("acme"),
            500,
            TransferOutcome::Completed
        ),
        Err(VestingError::NotFound)
    );
    assert_eq!(
        confirm_claim(
            &mut registry,
            &claimant(ALICE, ALICE_WALLET),
            &name("globex"),
            500,
            TransferOutcome::Completed
        ),
        Err(VestingError::NotFound)
    );
    assert_eq!(registry.employee_account(&who(ALICE), &name("acme")).unwrap().total_withdrawn, 0);
}

#[test]
fn claims_of_two_beneficiaries_do_not_touch_each_other() {
    let mut registry = acme_with_alice();
    let acme = name("acme");
    assert_eq!(
        create_employee_acccount(&mut registry, hiring(OWNER, BOB, "acme"), 0, 100, 0, 50),
        Ok(())
    );
    let alice = claimant(ALICE, ALICE_WALLET);
    let bob = claimant(BOB, BOB_WALLET);
    let for_bob = claim_tokens(&registry, &bob, &acme, 50).unwrap();
    assert_eq!(for_bob.amount, 25);
    assert_eq!(for_bob.to, who(BOB_WALLET));
    assert_eq!(confirm_claim(&mut registry, &bob, &acme, 50, TransferOutcome::Completed), Ok(25));
    assert_eq!(registry.employee_account(&who(BOB), &acme).unwrap().total_withdrawn, 25);
    assert_eq!(registry.employee_account(&who(ALICE), &acme).unwrap().total_withdrawn, 0);
    let for_alice = claim_tokens(&registry, &alice, &acme, 500).unwrap();
    assert_eq!(for_alice.amount, 500);
    assert_eq!(
        confirm_claim(&mut registry, &alice, &acme, 500, TransferOutcome::Completed),
        Ok(500)
    );
    assert_eq!(registry.employee_account(&who(BOB), &acme).unwrap().total_withdrawn, 25);
    assert_eq!(registry.employee_account(&who(ALICE), &acme).unwrap().total_withdrawn, 500);
}

#[test]
fn withdrawn_in_the_registry_stays_within_vested() {
    let mut registry = acme_with_alice();
    let me = claimant(ALICE, ALICE_WALLET);
    let acme = name("acme");
    let mut now = -20;
    while now <= 1100 {
        let _ = confirm_claim(&mut registry, &me, &acme, now, TransferOutcome::Completed);
        let held = registry.employee_account(&who(ALICE), &acme).unwrap();
        let vested = held.vested_amount(now).unwrap();
        assert!(held.total_withdrawn <= vested);
        assert!(vested <= held.total_amount);
        if now >= 100 {
            assert_eq!(held.total_withdrawn, vested);
        } else {
            assert_eq!(held.total_withdrawn, 0);
        }
        now += 13;
    }
    assert_eq!(registry.employee_account(&who(ALICE), &acme).unwrap().total_withdrawn, 1000);
}

#[test]
fn fully_withdrawn_schedule_stays_on_record() {
    let mut registry = acme_with_alice();
    let me = claimant(ALICE, ALICE_WALLET);
    let acme = name("acme");
    assert_eq!(claim_tokens(&registry, &me, &acme, 1000).unwrap().amount, 1000);
    assert_eq!(
        confirm_claim(&mut registry, &me, &acme, 1000, TransferOutcome::Completed),
        Ok(1000)
    );
    let kept = registry.employee_account(&who(ALICE), &acme).unwrap();
    assert_eq!(kept.total_withdrawn, 1000);
    assert_eq!(kept.total_amount, 1000);
    assert_eq!(
        create_employee_acccount(&mut registry, hiring(OWNER, ALICE, "acme"), 0, 1000, 100, 1000),
        Err(VestingError::AlreadyExists)
    );
}

#[test]
fn every_refusal_has_its_family() {
    assert_eq!(VestingError::InvalidVestingPeriod.kind(), ErrorKind::Validation);
    assert_eq!(VestingError::BeforeCliff.kind(), ErrorKind::Timing);
    assert_eq!(VestingError::CalculationOverflow.kind(), ErrorKind::Arithmetic);
    assert_eq!(VestingError::NothingToClaim.kind(), ErrorKind::State);
    assert_eq!(VestingError::Unauthorized.kind(), ErrorKind::Authorization);
    assert_eq!(VestingError::MismatchedAccount.kind(), ErrorKind::Authorization);
    assert_eq!(VestingError::AlreadyExists.kind(), ErrorKind::Existence);
    assert_eq!(VestingError::NotFound.kind(), ErrorKind::Existence);
    assert_eq!(VestingError::InsufficientBalance.kind(), ErrorKind::Transfer);
    assert_eq!(VestingError::InvalidAuthority.kind(), ErrorKind::Transfer);
}

#[test]
fn every_refusal_has_its_text() {
    assert_eq!(VestingError::InvalidVestingPeriod.message(), "Invalid vesting period");
    assert_eq!(VestingError::BeforeCliff.message(), "Claim not available yet");
    assert_eq!(VestingError::CalculationOverflow.message(), "Calculation overflow");
    assert_eq!(VestingError::NothingToClaim.message(), "Nothing to claim");
    assert_eq!(VestingError::Unauthorized.message(), "Caller is not authorized");
    assert_eq!(VestingError::MismatchedAccount.message(), "Schedule belongs to another company");
    assert_eq!(VestingError::AlreadyExists.message(), "Record already exists");
    assert_eq!(VestingError::NotFound.message(), "Record not found");
    assert_eq!(VestingError::InsufficientBalance.message(), "Insufficient treasury balance");
    assert_eq!(VestingError::InvalidAuthority.message(), "Invalid treasury authority");
}

#[test]
fn opened_account_is_owned_by_the_signer() {
    let account = open_account(opening(OWNER), name("acme"));
    let expected = VestingAccount {
        owner: who(OWNER),
        mint: who(MINT),
        treasury_token_account: who(TREASURY),
        company_name: name("acme"),
        treasury_bump: 254,
        vesting_bump: 253,
    };
    assert_eq!(account, expected);
}

#[test]
fn drafted_schedule_has_nothing_withdrawn() {
    let company = open_account(opening(OWNER), name("acme"));
    let drafted = draft_schedule(&company, hiring(OWNER, ALICE, "acme"), -5, 95, 20, 4000);
    let expected = EmployeeAccount {
        beneficiary: who(ALICE),
        start_time: -5,
        end_time: 95,
        cliff_time: 20,
        vesting_account: name("acme"),
        total_amount: 4000,
        total_withdrawn: 0,
        bump: 252,
    };
    assert_eq!(drafted, Ok(expected));
}

#[test]
fn only_the_owner_drafts_a_schedule() {
    let company = open_account(opening(OWNER), name("acme"));
    assert_eq!(
        draft_schedule(&company, hiring(RIVAL, ALICE, "acme"), 0, 1000, 100, 1000),
        Err(VestingError::Unauthorized)
    );
    assert_eq!(
        draft_schedule(&company, hiring(ALICE, ALICE, "acme"), 0, 1000, 100, 1000),
        Err(VestingError::Unauthorized)
    );
}
