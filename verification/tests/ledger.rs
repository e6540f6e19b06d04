use scholarship::award::{award_amount, MAX_GPA, MIN_GPA};
use scholarship::contract::{file_application, grant_approval, ScholarshipContract};
use scholarship::record::{check_score, ScholarBook, ScholarError, Scholarship};
use scholarship::stats::ScholarshipStats;
use soroban_sdk::{Address, Env};

const ALICE: &str = "GAAQCAIBAEAQCAIBAEAQCAIBAEAQCAIBAEAQCAIBAEAQCAIBAEAQDZ7H";
const BOB: &str = "GABAEAQCAIBAEAQCAIBAEAQCAIBAEAQCAIBAEAQCAIBAEAQCAIBAEJXA";
const VACANT: &str = "GAAAAAAAAAAAAAAAAAAAAAAAAAAAAAAAAAAAAAAAAAAAAAAAAAAAAWHF";

fn alice(env: &Env) -> Address {
    Address::from_str(env, ALICE)
}

fn bob(env: &Env) -> Address {
    Address::from_str(env, BOB)
}

fn zero_stats() -> ScholarshipStats {
    ScholarshipStats {
        total_applications: 0,
        approved_count: 0,
        pending_count: 0,
        total_disbursed: 0,
    }
}

fn balanced(contract: &ScholarshipContract, env: &Env) -> bool {
    let stats = contract.get_scholarship_stats();
    let mut approved: u64 = 0;
    let mut paid: u64 = 0;
    let mut id: u64 = 1;
    while id <= stats.total_applications {
        let record = contract.get_scholarship_details(env, id);
        if record.scholar_id != id {
            return false;
        }
        if record.is_approved {
            approved += 1;
            paid += record.amount_awarded;
        } else if record.amount_awarded != 0 {
            return false;
        }
        id += 1;
    }
    stats.approved_count == approved
        && stats.approved_count + stats.pending_count == stats.total_applications
        && stats.total_disbursed == paid
}

#[test]
fn limits_are_three_and_four_points() {
    assert_eq!(MIN_GPA, 300);
    assert_eq!(MAX_GPA, 400);
}

#[test]
fn award_tiers_at_their_boundaries() {
    assert_eq!(award_amount(300), 10_000_000_000);
    assert_eq!(award_amount(349), 10_000_000_000);
    assert_eq!(award_amount(350), 15_000_000_000);
    assert_eq!(award_amount(379), 15_000_000_000);
    assert_eq!(award_amount(380), 20_000_000_000);
    assert_eq!(award_amount(400), 20_000_000_000);
    assert_eq!(award_amount(299), 0);
    assert_eq!(award_amount(0), 0);
}

#[test]
fn check_score_accepts_up_to_four_points() {
    assert_eq!(check_score(0), Ok(()));
    assert_eq!(check_score(400), Ok(()));
    assert_eq!(check_score(401), Err(ScholarError::InvalidScore));
    assert_eq!(check_score(u64::MAX), Err(ScholarError::InvalidScore));
}

#[test]
fn key_holds_its_identifier() {
    assert_eq!(ScholarBook::Scholar(7).scholar_id(), 7);
    assert_eq!(ScholarBook::Scholar(0).scholar_id(), 0);
}

#[test]
fn new_ledger_is_empty() {
    let env = Env::default();
    let contract = ScholarshipContract::new();
    assert_eq!(contract.get_scholarship_stats(), zero_stats());
    assert_eq!(contract.get_scholarship_details(&env, 1).scholar_id, 0);
    assert!(balanced(&contract, &env));
}

#[test]
fn identifiers_start_at_one_and_increase() {
    let env = Env::default();
    let mut contract = ScholarshipContract::new();
    let scores: [u64; 5] = [0, 1, 299, 300, 400];
    let mut expected: u64 = 1;
    for score in scores {
        assert_eq!(contract.get_scholarship_details(&env, expected).scholar_id, 0);
        let id = contract.apply_scholarship(alice(&env), score, 10 + expected);
        assert_eq!(id, Ok(expected));
        let record = contract.get_scholarship_details(&env, expected);
        assert_eq!(record.scholar_id, expected);
        assert_eq!(record.gpa_score, score);
        assert_eq!(record.apply_time, 10 + expected);
        expected += 1;
    }
    assert_eq!(contract.get_scholarship_stats().total_applications, 5);
    assert!(balanced(&contract, &env));
}

#[test]
fn score_above_four_points_is_refused_and_changes_nothing() {
    let env = Env::default();
    let mut contract = ScholarshipContract::new();
    assert_eq!(contract.apply_scholarship(alice(&env), 385, 5), Ok(1));
    let before = contract.get_scholarship_stats();
    assert_eq!(
        contract.apply_scholarship(bob(&env), 401, 6),
        Err(ScholarError::InvalidScore)
    );
    assert_eq!(contract.get_scholarship_stats(), before);
    assert_eq!(contract.get_scholarship_details(&env, 2).scholar_id, 0);
    assert_eq!(contract.apply_scholarship(bob(&env), 400, 7), Ok(2));
}

#[test]
fn application_is_pending_and_counted() {
    let env = Env::default();
    let mut contract = ScholarshipContract::new();
    assert_eq!(contract.apply_scholarship(bob(&env), 310, 1), Ok(1));
    let before = contract.get_scholarship_stats();
    let k = contract.apply_scholarship(alice(&env), 385, 1_700_000_000).unwrap();
    assert_eq!(k, 2);
    let record = contract.get_scholarship_details(&env, k);
    assert_eq!(
        record,
        Scholarship {
            scholar_id: 2,
            student: alice(&env),
            gpa_score: 385,
            apply_time: 1_700_000_000,
            is_approved: false,
            amount_awarded: 0,
        }
    );
    assert_ne!(record.student, bob(&env));
    let after = contract.get_scholarship_stats();
    assert_eq!(after.pending_count, before.pending_count + 1);
    assert_eq!(after.total_applications, before.total_applications + 1);
    assert_eq!(after.approved_count, before.approved_count);
    assert_eq!(after.total_disbursed, before.total_disbursed);
}

#[test]
fn approval_sets_the_award_and_moves_the_counts() {
    let env = Env::default();
    let mut contract = ScholarshipContract::new();
    let k = contract.apply_scholarship(alice(&env), 385, 42).unwrap();
    let before = contract.get_scholarship_stats();
    assert_eq!(contract.approve_scholarship(&env, k), Ok(()));
    let record = contract.get_scholarship_details(&env, k);
    assert!(record.is_approved);
    assert_eq!(record.amount_awarded, 20_000_000_000);
    assert_eq!(record.scholar_id, k);
    assert_eq!(record.student, alice(&env));
    assert_eq!(record.gpa_score, 385);
    assert_eq!(record.apply_time, 42);
    let after = contract.get_scholarship_stats();
    assert_eq!(after.approved_count, before.approved_count + 1);
    assert_eq!(after.pending_count, before.pending_count - 1);
    assert_eq!(after.total_disbursed, before.total_disbursed + 20_000_000_000);
    assert_eq!(after.total_applications, before.total_applications);
    assert!(balanced(&contract, &env));
}

#[test]
fn second_approval_is_refused_and_changes_nothing() {
    let env = Env::default();
    let mut contract = ScholarshipContract::new();
    let k = contract.apply_scholarship(alice(&env), 385, 42).unwrap();
    assert_eq!(contract.approve_scholarship(&env, k), Ok(()));
    let stats = contract.get_scholarship_stats();
    let record = contract.get_scholarship_details(&env, k);
    assert_eq!(
        contract.approve_scholarship(&env, k),
        Err(ScholarError::AlreadyApproved)
    );
    assert_eq!(contract.get_scholarship_stats(), stats);
    assert_eq!(contract.get_scholarship_details(&env, k), record);
}

#[test]
fn score_under_three_points_is_not_approved() {
    let env = Env::default();
    let mut contract = ScholarshipContract::new();
    let k = contract.apply_scholarship(alice(&env), 290, 42).unwrap();
    let stats = contract.get_scholarship_stats();
    assert_eq!(
        contract.approve_scholarship(&env, k),
        Err(ScholarError::BelowMinimum)
    );
    let record = contract.get_scholarship_details(&env, k);
    assert!(!record.is_approved);
    assert_eq!(record.amount_awarded, 0);
    assert_eq!(contract.get_scholarship_stats(), stats);
    let edge = contract.apply_scholarship(bob(&env), 299, 43).unwrap();
    assert_eq!(
        contract.approve_scholarship(&env, edge),
        Err(ScholarError::BelowMinimum)
    );
}

#[test]
fn approval_of_a_missing_application_is_refused() {
    let env = Env::default();
    let mut contract = ScholarshipContract::new();
    assert_eq!(
        contract.approve_scholarship(&env, 999_999),
        Err(ScholarError::NotFound)
    );
    assert_eq!(contract.approve_scholarship(&env, 0), Err(ScholarError::NotFound));
    assert_eq!(contract.apply_scholarship(alice(&env), 385, 1), Ok(1));
    assert_eq!(contract.approve_scholarship(&env, 2), Err(ScholarError::NotFound));
    assert_eq!(contract.get_scholarship_stats().pending_count, 1);
}

#[test]
fn approvals_pay_by_tier() {
    let env = Env::default();
    let mut contract = ScholarshipContract::new();
    let scores: [u64; 5] = [300, 349, 350, 379, 380];
    let awards: [u64; 5] = [
        10_000_000_000,
        10_000_000_000,
        15_000_000_000,
        15_000_000_000,
        20_000_000_000,
    ];
    let mut paid: u64 = 0;
    for i in 0..5 {
        let id = contract.apply_scholarship(alice(&env), scores[i], 9).unwrap();
        assert_eq!(contract.approve_scholarship(&env, id), Ok(()));
        assert_eq!(contract.get_scholarship_details(&env, id).amount_awarded, awards[i]);
        paid += awards[i];
        assert_eq!(contract.get_scholarship_stats().total_disbursed, paid);
    }
    assert_eq!(paid, 70_000_000_000);
    assert!(balanced(&contract, &env));
}

#[test]
fn totals_agree_with_the_records_after_mixed_operations() {
    let env = Env::default();
    let mut contract = ScholarshipContract::new();
    let scores: [u64; 8] = [385, 290, 350, 401, 300, 400, 0, 379];
    for score in scores {
        let _ = contract.apply_scholarship(bob(&env), score, 100);
        assert!(balanced(&contract, &env));
    }
    let ids: [u64; 9] = [1, 1, 2, 3, 7, 8, 5, 0, 4];
    for id in ids {
        let _ = contract.approve_scholarship(&env, id);
        assert!(balanced(&contract, &env));
    }
    assert_eq!(
        contract.get_scholarship_stats(),
        ScholarshipStats {
            total_applications: 7,
            approved_count: 5,
            pending_count: 2,
            total_disbursed: 80_000_000_000,
        }
    );
}

#[test]
fn missing_application_reads_as_placeholder() {
    let env = Env::default();
    let contract = ScholarshipContract::new();
    let record = contract.get_scholarship_details(&env, 5);
    assert_eq!(
        record,
        Scholarship {
            scholar_id: 0,
            student: Address::from_str(&env, VACANT),
            gpa_score: 0,
            apply_time: 0,
            is_approved: false,
            amount_awarded: 0,
        }
    );
    assert_eq!(Scholarship::absent(&env), record);
    assert_eq!(Scholarship::or_absent(&env, None), record);
}

#[test]
fn placeholder_carries_the_address_it_is_given() {
    let env = Env::default();
    let record = Scholarship::placeholder(alice(&env));
    assert_eq!(
        record,
        Scholarship {
            scholar_id: 0,
            student: alice(&env),
            gpa_score: 0,
            apply_time: 0,
            is_approved: false,
            amount_awarded: 0,
        }
    );
    assert_ne!(record.student, bob(&env));
    assert_eq!(
        Scholarship::placeholder(Address::from_str(&env, VACANT)),
        Scholarship::absent(&env)
    );
}

#[test]
fn stored_record_is_read_as_it_is() {
    let env = Env::default();
    let stored = Scholarship::new(3, alice(&env), 360, 77);
    assert_eq!(stored.scholar_id, 3);
    assert_eq!(stored.student, alice(&env));
    assert!(!stored.is_approved);
    assert_eq!(stored.amount_awarded, 0);
    assert_eq!(Scholarship::or_absent(&env, Some(stored.clone())), stored);
    assert_eq!(stored.duplicate(), stored);
}

#[test]
fn record_approval_is_refused_in_order() {
    let env = Env::default();
    let mut missing = Scholarship::absent(&env);
    assert_eq!(missing.approve(), Err(ScholarError::NotFound));
    let mut low = Scholarship::new(1, alice(&env), 299, 1);
    assert_eq!(low.approve(), Err(ScholarError::BelowMinimum));
    assert!(!low.is_approved);
    let mut good = Scholarship::new(2, alice(&env), 350, 1);
    assert_eq!(good.approve(), Ok(15_000_000_000));
    assert!(good.is_approved);
    assert_eq!(good.amount_awarded, 15_000_000_000);
    assert_eq!(good.approve(), Err(ScholarError::AlreadyApproved));
    assert_eq!(good.amount_awarded, 15_000_000_000);
    let mut approved_low = Scholarship {
        scholar_id: 3,
        student: bob(&env),
        gpa_score: 100,
        apply_time: 0,
        is_approved: true,
        amount_awarded: 1,
    };
    assert_eq!(approved_low.approve(), Err(ScholarError::AlreadyApproved));
}

#[test]
fn approval_is_decided_without_a_change() {
    let env = Env::default();
    let pending = Scholarship::new(2, alice(&env), 380, 1);
    assert_eq!(pending.approval_due(), Ok(20_000_000_000));
    assert!(!pending.is_approved);
    assert_eq!(
        Scholarship::new(2, alice(&env), 200, 1).approval_due(),
        Err(ScholarError::BelowMinimum)
    );
    assert_eq!(Scholarship::absent(&env).approval_due(), Err(ScholarError::NotFound));
}

#[test]
fn totals_tell_their_room() {
    let mut stats = zero_stats();
    assert!(stats.has_room_for_application());
    assert!(!stats.has_room_for_approval(10_000_000_000));
    stats.pending_count = 1;
    stats.total_applications = 1;
    assert!(stats.has_room_for_approval(10_000_000_000));
    stats.total_disbursed = u64::MAX - 9_999_999_999;
    assert!(!stats.has_room_for_approval(10_000_000_000));
    stats.total_disbursed = u64::MAX - 10_000_000_000;
    assert!(stats.has_room_for_approval(10_000_000_000));
    stats.total_applications = u64::MAX;
    assert!(!stats.has_room_for_application());
}

#[test]
fn ledger_tells_its_counter_and_its_room() {
    let env = Env::default();
    let mut contract = ScholarshipContract::new();
    assert_eq!(contract.scholar_count(), 0);
    assert!(contract.has_room_for_approval(&env, 1));
    assert_eq!(contract.apply_scholarship(alice(&env), 385, 3), Ok(1));
    assert_eq!(contract.apply_scholarship(bob(&env), 500, 3), Err(ScholarError::InvalidScore));
    assert_eq!(contract.scholar_count(), 1);
    assert!(contract.has_room_for_approval(&env, 1));
    assert_eq!(contract.approve_scholarship(&env, 1), Ok(()));
    assert!(contract.has_room_for_approval(&env, 1));
    assert_eq!(contract.scholar_count(), 1);
}

#[test]
fn stats_default_to_zero() {
    assert_eq!(ScholarshipStats::new(), zero_stats());
    assert_eq!(ScholarshipStats::or_zero(None), zero_stats());
    let stored = ScholarshipStats {
        total_applications: 4,
        approved_count: 1,
        pending_count: 3,
        total_disbursed: 15_000_000_000,
    };
    assert_eq!(ScholarshipStats::or_zero(Some(stored)), stored);
}

#[test]
fn stats_count_applications_and_approvals() {
    let mut stats = ScholarshipStats::new();
    stats.record_application();
    stats.record_application();
    assert_eq!(
        stats,
        ScholarshipStats {
            total_applications: 2,
            approved_count: 0,
            pending_count: 2,
            total_disbursed: 0,
        }
    );
    stats.record_approval(10_000_000_000);
    assert_eq!(
        stats,
        ScholarshipStats {
            total_applications: 2,
            approved_count: 1,
            pending_count: 1,
            total_disbursed: 10_000_000_000,
        }
    );
}

#[test]
fn filing_answers_record_and_totals() {
    let env = Env::default();
    let filed = file_application(4, zero_stats(), alice(&env), 385, 99);
    let (record, stats) = filed.unwrap();
    assert_eq!(record, Scholarship::new(5, alice(&env), 385, 99));
    assert_eq!(stats.total_applications, 1);
    assert_eq!(stats.pending_count, 1);
    assert_eq!(
        file_application(u64::MAX, zero_stats(), alice(&env), 401, 99),
        Err(ScholarError::InvalidScore)
    );
}

#[test]
fn granting_answers_record_and_totals() {
    let env = Env::default();
    let stats = ScholarshipStats {
        total_applications: 3,
        approved_count: 1,
        pending_count: 2,
        total_disbursed: 20_000_000_000,
    };
    let pending = Scholarship::new(2, bob(&env), 360, 8);
    let (record, counted) = grant_approval(pending.clone(), stats).unwrap();
    assert_eq!(
        record,
        Scholarship {
            is_approved: true,
            amount_awarded: 15_000_000_000,
            ..pending
        }
    );
    assert_eq!(
        counted,
        ScholarshipStats {
            total_applications: 3,
            approved_count: 2,
            pending_count: 1,
            total_disbursed: 35_000_000_000,
        }
    );
    assert_eq!(
        grant_approval(record, counted),
        Err(ScholarError::AlreadyApproved)
    );
    assert_eq!(
        grant_approval(Scholarship::absent(&env), zero_stats()),
        Err(ScholarError::NotFound)
    );
    assert_eq!(
        grant_approval(Scholarship::new(9, bob(&env), 299, 8), zero_stats()),
        Err(ScholarError::BelowMinimum)
    );
}
