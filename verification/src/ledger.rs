//! The ledger as a mathematical value: what is filed, what the totals say,
//! how an application and an approval change it, and what always holds of it.

use crate::award::{award_for, MAX_GPA};
use crate::record::{ScholarBook, ScholarError, Scholarship};
use crate::stats::ScholarshipStats;
use soroban_sdk::Address;
use vstd::prelude::*;

verus! {

/// What one record adds to the sum paid out.
pub open spec fn paid(record: Scholarship) -> int {
    if record.is_approved {
        record.amount_awarded as int
    } else {
        0
    }
}

/// The sum of the awards of the approved records.
pub open spec fn total_awarded(records: Seq<Scholarship>) -> int
    decreases records.len(),
{
    if records.len() == 0 {
        0
    } else {
        total_awarded(records.drop_last()) + paid(records.last())
    }
}

/// The number of approved records.
pub open spec fn approved_among(records: Seq<Scholarship>) -> int
    decreases records.len(),
{
    if records.len() == 0 {
        0
    } else {
        approved_among(records.drop_last()) + if records.last().is_approved {
            1int
        } else {
            0int
        }
    }
}

/// The ledger: the last identifier given out, the totals, and the records in
/// the order in which they were filed.
pub struct LedgerView {
    pub scholar_count: u64,
    pub stats: ScholarshipStats,
    pub records: Seq<Scholarship>,
}

impl LedgerView {
    /// The ledger before anything was filed.
    pub open spec fn empty() -> LedgerView {
        LedgerView { scholar_count: 0, stats: ScholarshipStats::zero(), records: Seq::empty() }
    }

    /// The identifier that the next application receives.
    pub open spec fn next_id(self) -> int {
        self.scholar_count + 1
    }

    /// The record filed under a key, if there is one.
    pub open spec fn stored(self, key: ScholarBook) -> Option<Scholarship> {
        if 1 <= key.id() <= self.records.len() {
            Some(self.records[key.id() - 1])
        } else {
            None
        }
    }

    /// What always holds: identifiers run from 1 in filing order, each record
    /// is consistent, and the totals agree with the records.
    pub open spec fn wf(self) -> bool {
        &&& self.scholar_count == self.records.len()
        &&& forall|i: int|
            0 <= i < self.records.len() ==> (#[trigger] self.records[i]).scholar_id == i + 1
                && self.records[i].consistent()
        &&& self.stats.total_applications == self.records.len()
        &&& self.stats.approved_count == approved_among(self.records)
        &&& self.stats.pending_count == self.records.len() - approved_among(self.records)
        &&& self.stats.total_disbursed == total_awarded(self.records)
    }

    /// The ledger after an application was filed under the next identifier.
    pub open spec fn with_application(
        self,
        student: Address,
        gpa_score: u64,
        apply_time: u64,
    ) -> LedgerView
        recommends
            self.scholar_count < u64::MAX,
    {
        LedgerView {
            scholar_count: self.next_id() as u64,
            stats: self.stats.after_application(),
            records: self.records.push(
                Scholarship::filed(self.next_id() as u64, student, gpa_score, apply_time),
            ),
        }
    }

    /// What an approval of the application under `scholar_id` answers: its
    /// award, or the refusal.
    pub open spec fn approval(self, scholar_id: u64) -> Result<u64, ScholarError> {
        match self.stored(ScholarBook::Scholar(scholar_id)) {
            Some(record) => record.approval(),
            None => Err(ScholarError::NotFound),
        }
    }

    /// Whether the sum paid out has room for what an approval of the
    /// application under `scholar_id` would add.
    pub open spec fn can_disburse(self, scholar_id: u64) -> bool {
        self.approval(scholar_id) is Ok ==> self.stats.total_disbursed + self.approval(
            scholar_id,
        )->Ok_0 <= u64::MAX
    }

    /// The ledger after the application under `scholar_id` was approved.
    pub open spec fn with_approval(self, scholar_id: u64) -> LedgerView
        recommends
            self.approval(scholar_id) is Ok,
    {
        LedgerView {
            stats: self.stats.after_approval(award_for(self.records[scholar_id - 1].gpa_score)),
            records: self.records.update(
                scholar_id - 1,
                self.records[scholar_id - 1].approved(),
            ),
            ..self
        }
    }
}

/// A record added at the end adds its own award to the sum.
pub proof fn lemma_awarded_push(records: Seq<Scholarship>, record: Scholarship)
    ensures
        total_awarded(records.push(record)) == total_awarded(records) + paid(record),
{
    assert(records.push(record).drop_last() =~= records);
}

/// A record added at the end counts once if it is approved.
pub proof fn lemma_approved_push(records: Seq<Scholarship>, record: Scholarship)
    ensures
        approved_among(records.push(record)) == approved_among(records) + if record.is_approved {
            1int
        } else {
            0int
        },
{
    assert(records.push(record).drop_last() =~= records);
}

/// Replacing one record changes the sum by the difference of the two awards.
pub proof fn lemma_awarded_update(records: Seq<Scholarship>, i: int, record: Scholarship)
    requires
        0 <= i < records.len(),
    ensures
        total_awarded(records.update(i, record)) == total_awarded(records) - paid(records[i])
            + paid(record),
    decreases records.len(),
{
    let changed = records.update(i, record);
    if i == records.len() - 1 {
        assert(changed.drop_last() =~= records.drop_last());
    } else {
        assert(changed.drop_last() =~= records.drop_last().update(i, record));
        lemma_awarded_update(records.drop_last(), i, record);
    }
}

/// Approving one pending record raises the number of approved records by one.
pub proof fn lemma_approved_update(records: Seq<Scholarship>, i: int, record: Scholarship)
    requires
        0 <= i < records.len(),
        !records[i].is_approved,
        record.is_approved,
    ensures
        approved_among(records.update(i, record)) == approved_among(records) + 1,
    decreases records.len(),
{
    let changed = records.update(i, record);
    if i == records.len() - 1 {
        assert(changed.drop_last() =~= records.drop_last());
    } else {
        assert(changed.drop_last() =~= records.drop_last().update(i, record));
        lemma_approved_update(records.drop_last(), i, record);
    }
}

/// No more records are approved than there are records.
pub proof fn lemma_approved_bounded(records: Seq<Scholarship>)
    ensures
        0 <= approved_among(records) <= records.len(),
    decreases records.len(),
{
    if records.len() > 0 {
        lemma_approved_bounded(records.drop_last());
    }
}

/// The ledger before anything was filed is well formed, and its first
/// identifier is 1.
pub proof fn lemma_empty_wf()
    ensures
        LedgerView::empty().wf(),
        LedgerView::empty().next_id() == 1,
{
}

/// In a well-formed ledger the approved and the pending applications add up
/// to all applications, and the sum paid out is the sum of the awards of the
/// approved records.
pub proof fn lemma_totals_agree(ledger: LedgerView)
    requires
        ledger.wf(),
    ensures
        ledger.stats.approved_count + ledger.stats.pending_count
            == ledger.stats.total_applications,
        ledger.stats.total_disbursed == total_awarded(ledger.records),
        ledger.stats.approved_count == approved_among(ledger.records),
{
}

/// Filing an application with a valid score keeps the ledger well formed.
pub proof fn lemma_application_keeps_wf(
    ledger: LedgerView,
    student: Address,
    gpa_score: u64,
    apply_time: u64,
)
    requires
        ledger.wf(),
        ledger.scholar_count < u64::MAX,
        gpa_score <= MAX_GPA,
    ensures
        ledger.with_application(student, gpa_score, apply_time).wf(),
{
    let record = Scholarship::filed(ledger.next_id() as u64, student, gpa_score, apply_time);
    lemma_awarded_push(ledger.records, record);
    lemma_approved_push(ledger.records, record);
    lemma_approved_bounded(ledger.records);
}

/// Where an approval is granted there is a pending application to take it
/// from, and room to count it.
pub proof fn lemma_approval_admitted(ledger: LedgerView, scholar_id: u64)
    requires
        ledger.wf(),
        ledger.approval(scholar_id) is Ok,
        ledger.can_disburse(scholar_id),
    ensures
        1 <= scholar_id <= ledger.records.len(),
        ledger.approval(scholar_id) == Ok::<u64, ScholarError>(
            award_for(ledger.records[scholar_id - 1].gpa_score),
        ),
        ledger.stats.admits_approval(award_for(ledger.records[scholar_id - 1].gpa_score)),
{
    let i = scholar_id - 1;
    let record = ledger.records[i];
    lemma_approved_update(ledger.records, i, record.approved());
    lemma_approved_bounded(ledger.records.update(i, record.approved()));
}

/// Approving an application keeps the ledger well formed.
pub proof fn lemma_approval_keeps_wf(ledger: LedgerView, scholar_id: u64)
    requires
        ledger.wf(),
        ledger.approval(scholar_id) is Ok,
        ledger.can_disburse(scholar_id),
    ensures
        ledger.with_approval(scholar_id).wf(),
{
    let i = scholar_id - 1;
    let record = ledger.records[i];
    lemma_approval_admitted(ledger, scholar_id);
    lemma_approved_update(ledger.records, i, record.approved());
    lemma_awarded_update(ledger.records, i, record.approved());
}

/// The identifier given to an application is at least 1, is greater than
/// every identifier in use and so was not in use before, holds the
/// application afterwards, and is smaller by one than the identifier given to
/// the application after it. The records under the other identifiers stay.
pub proof fn lemma_identifiers_fresh_and_increasing(
    ledger: LedgerView,
    student: Address,
    gpa_score: u64,
    apply_time: u64,
)
    requires
        ledger.wf(),
        ledger.scholar_count < u64::MAX,
    ensures
        ledger.next_id() >= 1,
        forall|id: u64| ledger.stored(ScholarBook::Scholar(id)) is Some ==> id < ledger.next_id(),
        ledger.stored(ScholarBook::Scholar(ledger.next_id() as u64)) is None,
        ledger.with_application(student, gpa_score, apply_time).stored(
            ScholarBook::Scholar(ledger.next_id() as u64),
        ) == Some(Scholarship::filed(ledger.next_id() as u64, student, gpa_score, apply_time)),
        ledger.with_application(student, gpa_score, apply_time).next_id() == ledger.next_id() + 1,
        forall|id: u64|
            id != ledger.next_id() ==> ledger.with_application(
                student,
                gpa_score,
                apply_time,
            ).stored(ScholarBook::Scholar(id)) == ledger.stored(ScholarBook::Scholar(id)),
{
}

/// An application that was approved is refused a second approval.
pub proof fn lemma_second_approval_refused(ledger: LedgerView, scholar_id: u64)
    requires
        ledger.approval(scholar_id) is Ok,
    ensures
        ledger.with_approval(scholar_id).approval(scholar_id) == Err::<u64, ScholarError>(
            ScholarError::AlreadyApproved,
        ),
{
}

/// An approval changes the record that it names and no other, and in that
/// record only the approval mark and the award.
pub proof fn lemma_approval_touches_one_record(ledger: LedgerView, scholar_id: u64, other: u64)
    requires
        ledger.approval(scholar_id) is Ok,
    ensures
        ledger.with_approval(scholar_id).stored(ScholarBook::Scholar(scholar_id)) == Some(
            ledger.records[scholar_id - 1].approved(),
        ),
        other != scholar_id ==> ledger.with_approval(scholar_id).stored(
            ScholarBook::Scholar(other),
        ) == ledger.stored(ScholarBook::Scholar(other)),
{
}

} // verus!
