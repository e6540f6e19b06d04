//! The operations of the scholarship contract: first as steps from what is
//! stored to what is to be stored, then on a ledger held in memory.

use crate::award::MAX_GPA;
use crate::history::{step, Operation};
use crate::ledger::{
    lemma_application_keeps_wf, lemma_approval_admitted, lemma_approval_keeps_wf, LedgerView,
};
use crate::record::{check_score, ScholarBook, ScholarError, Scholarship};
use crate::stats::ScholarshipStats;
use soroban_sdk::{Address, Env};
use vstd::prelude::*;

verus! {

/// Files an application: checks the score and answers the record to store
/// under the next identifier, with the totals that count it.
pub fn file_application(
    scholar_count: u64,
    stats: ScholarshipStats,
    student: Address,
    gpa_score: u64,
    apply_time: u64,
) -> (r: Result<(Scholarship, ScholarshipStats), ScholarError>)
    requires
        gpa_score <= MAX_GPA ==> scholar_count < u64::MAX && stats.admits_application(),
    ensures
        gpa_score > MAX_GPA ==> r == Err::<(Scholarship, ScholarshipStats), ScholarError>(
            ScholarError::InvalidScore,
        ),
        gpa_score <= MAX_GPA ==> r == Ok::<(Scholarship, ScholarshipStats), ScholarError>(
            (
                Scholarship::filed((scholar_count + 1) as u64, student, gpa_score, apply_time),
                stats.after_application(),
            ),
        ),
{
    match check_score(gpa_score) {
        Err(e) => Err(e),
        Ok(()) => {
            let application = Scholarship::new(scholar_count + 1, student, gpa_score, apply_time);
            let mut counted = stats;
            counted.record_application();
            Ok((application, counted))
        },
    }
}

/// Approves an application as it was read from the store: answers the
/// approved record with the totals that count it, or the refusal.
pub fn grant_approval(application: Scholarship, stats: ScholarshipStats) -> (r: Result<
    (Scholarship, ScholarshipStats),
    ScholarError,
>)
    requires
        application.approval() is Ok ==> stats.admits_approval(application.approval()->Ok_0),
    ensures
        r == match application.approval() {
            Ok(amount) => Ok::<(Scholarship, ScholarshipStats), ScholarError>(
                (application.approved(), stats.after_approval(amount)),
            ),
            Err(e) => Err::<(Scholarship, ScholarshipStats), ScholarError>(e),
        },
{
    let mut approved = application;
    match approved.approve() {
        Err(e) => Err(e),
        Ok(amount) => {
            let mut counted = stats;
            counted.record_approval(amount);
            Ok((approved, counted))
        },
    }
}

/// The scholarship ledger held in memory: the identifier counter and the
/// totals, each unset until first written, and the records by identifier.
pub struct ScholarshipContract {
    scholar_count: Option<u64>,
    stats: Option<ScholarshipStats>,
    records: Vec<Scholarship>,
}

impl View for ScholarshipContract {
    type V = LedgerView;

    closed spec fn view(&self) -> LedgerView {
        LedgerView {
            scholar_count: match self.scholar_count {
                Some(count) => count,
                None => 0,
            },
            stats: match self.stats {
                Some(stats) => stats,
                None => ScholarshipStats::zero(),
            },
            records: self.records@,
        }
    }
}

impl ScholarshipContract {
    /// What always holds of the ledger.
    pub open spec fn wf(&self) -> bool {
        self@.wf()
    }

    /// A ledger in which nothing was filed yet.
    pub fn new() -> (contract: ScholarshipContract)
        ensures
            contract@ == LedgerView::empty(),
            contract.wf(),
    {
        let contract = ScholarshipContract {
            scholar_count: None,
            stats: None,
            records: Vec::new(),
        };
        assert(contract@.records =~= Seq::empty());
        contract
    }

    /// The record stored under a key, if there is one.
    fn stored_record(&self, key: ScholarBook) -> (record: Option<Scholarship>)
        ensures
            record == self@.stored(key),
    {
        let scholar_id: u64 = key.scholar_id();
        if scholar_id == 0 || scholar_id > self.records.len() as u64 {
            None
        } else {
            let slot: usize = (scholar_id - 1) as usize;
            Some(self.records[slot].duplicate())
        }
    }

    /// Files an application of `student` with the score `gpa_score` at the
    /// time `apply_time`, and answers its identifier. A score above the
    /// highest possible one is refused and leaves the ledger as it was.
    pub fn apply_scholarship(&mut self, student: Address, gpa_score: u64, apply_time: u64) -> (r:
        Result<u64, ScholarError>)
        requires
            old(self).wf(),
            gpa_score <= MAX_GPA ==> old(self)@.scholar_count < u64::MAX,
        ensures
            final(self).wf(),
            gpa_score > MAX_GPA ==> r == Err::<u64, ScholarError>(ScholarError::InvalidScore)
                && final(self)@ == old(self)@,
            gpa_score <= MAX_GPA ==> r == Ok::<u64, ScholarError>(old(self)@.next_id() as u64)
                && final(self)@ == old(self)@.with_application(student, gpa_score, apply_time),
            final(self)@ == step(old(self)@, (Operation::Apply { student, gpa_score, apply_time })),
    {
        let scholar_count: u64 = self.scholar_count();
        let stats = self.get_scholarship_stats();
        match file_application(scholar_count, stats, student, gpa_score, apply_time) {
            Err(e) => Err(e),
            Ok((application, counted)) => {
                let scholar_id: u64 = application.scholar_id;
                self.records.push(application);
                self.scholar_count = Some(scholar_id);
                self.stats = Some(counted);
                proof {
                    lemma_application_keeps_wf(old(self)@, student, gpa_score, apply_time);
                    assert(self@.records =~= old(self)@.with_application(
                        student,
                        gpa_score,
                        apply_time,
                    ).records);
                }
                Ok(scholar_id)
            },
        }
    }

    /// Approves the application under `scholar_id` at the award of its
    /// score. A missing application, one approved before and one with a score
    /// under the minimum are refused, in this order, and leave the ledger as
    /// it was.
    pub fn approve_scholarship(&mut self, env: &Env, scholar_id: u64) -> (r: Result<
        (),
        ScholarError,
    >)
        requires
            old(self).wf(),
            old(self)@.can_disburse(scholar_id),
        ensures
            final(self).wf(),
            r == match old(self)@.approval(scholar_id) {
                Ok(_) => Ok::<(), ScholarError>(()),
                Err(e) => Err::<(), ScholarError>(e),
            },
            r is Ok ==> final(self)@ == old(self)@.with_approval(scholar_id),
            r is Err ==> final(self)@ == old(self)@,
            final(self)@ == step(old(self)@, (Operation::Approve { scholar_id })),
    {
        let application = self.get_scholarship_details(env, scholar_id);
        let stats = self.get_scholarship_stats();
        proof {
            if old(self)@.approval(scholar_id) is Ok {
                lemma_approval_admitted(old(self)@, scholar_id);
            }
        }
        match grant_approval(application, stats) {
            Err(e) => Err(e),
            Ok((approved, counted)) => {
                assert(1 <= scholar_id <= self.records.len());
                let slot: usize = (scholar_id - 1) as usize;
                self.records.set(slot, approved);
                self.stats = Some(counted);
                proof {
                    lemma_approval_keeps_wf(old(self)@, scholar_id);
                    assert(self@.records =~= old(self)@.with_approval(scholar_id).records);
                }
                Ok(())
            },
        }
    }

    /// The application under `scholar_id`, or the placeholder with the
    /// identifier 0 where there is none.
    pub fn get_scholarship_details(&self, env: &Env, scholar_id: u64) -> (record: Scholarship)
        ensures
            self@.stored(ScholarBook::Scholar(scholar_id)) is Some ==> record == self@.stored(
                ScholarBook::Scholar(scholar_id),
            )->Some_0,
            self@.stored(ScholarBook::Scholar(scholar_id)) is None ==> record.is_placeholder(),
    {
        let key = ScholarBook::Scholar(scholar_id);
        Scholarship::or_absent(env, self.stored_record(key))
    }

    /// The last identifier given out, 0 before anything was filed.
    pub fn scholar_count(&self) -> (count: u64)
        ensures
            count == self@.scholar_count,
    {
        match self.scholar_count {
            Some(count) => count,
            None => 0,
        }
    }

    /// Tells whether the sum paid out has room for what an approval of the
    /// application under `scholar_id` would add. Where the approval would be
    /// refused there is nothing to add, and the answer is yes.
    pub fn has_room_for_approval(&self, env: &Env, scholar_id: u64) -> (room: bool)
        ensures
            room == self@.can_disburse(scholar_id),
    {
        let application = self.get_scholarship_details(env, scholar_id);
        let stats = self.get_scholarship_stats();
        match application.approval_due() {
            Ok(amount) => stats.total_disbursed <= u64::MAX - amount,
            Err(_) => true,
        }
    }

    /// The totals, all zero before anything was filed.
    pub fn get_scholarship_stats(&self) -> (stats: ScholarshipStats)
        ensures
            stats == self@.stats,
    {
        ScholarshipStats::or_zero(self.stats)
    }
}

} // verus!
