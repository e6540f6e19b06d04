//! The ledger as the outcome of a history of operations, and what holds of
//! it after every history.

use crate::award::MAX_GPA;
use crate::ledger::{
    approved_among, lemma_application_keeps_wf, lemma_approval_keeps_wf, lemma_approved_bounded,
    lemma_approved_update, total_awarded, LedgerView,
};
use crate::record::Scholarship;
use soroban_sdk::Address;
use vstd::prelude::*;

verus! {

/// One request made of the ledger.
pub enum Operation {
    /// An application of `student` with `gpa_score`, made at `apply_time`.
    Apply { student: Address, gpa_score: u64, apply_time: u64 },
    /// An approval of the application under `scholar_id`.
    Approve { scholar_id: u64 },
}

/// The ledger after one request: changed where the request is granted, and
/// as it was where the request is refused.
pub open spec fn step(ledger: LedgerView, operation: Operation) -> LedgerView {
    match operation {
        Operation::Apply { student, gpa_score, apply_time } => if gpa_score <= MAX_GPA {
            ledger.with_application(student, gpa_score, apply_time)
        } else {
            ledger
        },
        Operation::Approve { scholar_id } => if ledger.approval(scholar_id) is Ok {
            ledger.with_approval(scholar_id)
        } else {
            ledger
        },
    }
}

/// The ledger after a history of requests, made of an empty ledger in order.
pub open spec fn replay(history: Seq<Operation>) -> LedgerView
    decreases history.len(),
{
    if history.len() == 0 {
        LedgerView::empty()
    } else {
        step(replay(history.drop_last()), history.last())
    }
}

/// A request that is refused leaves the ledger as it was, and an approval
/// made a second time changes nothing more.
pub proof fn lemma_repeated_approval_changes_nothing(ledger: LedgerView, scholar_id: u64)
    ensures
        ledger.approval(scholar_id) is Err ==> step(ledger, Operation::Approve { scholar_id })
            == ledger,
        step(step(ledger, Operation::Approve { scholar_id }), Operation::Approve { scholar_id })
            == step(ledger, Operation::Approve { scholar_id }),
{
}

/// An application with a score above the highest possible one leaves the
/// ledger as it was.
pub proof fn lemma_refused_application_changes_nothing(
    ledger: LedgerView,
    student: Address,
    gpa_score: u64,
    apply_time: u64,
)
    requires
        gpa_score > MAX_GPA,
    ensures
        step(ledger, Operation::Apply { student, gpa_score, apply_time }) == ledger,
{
}

/// The largest award that a record can hold.
pub open spec fn top_award() -> int {
    20_000_000_000
}

/// Consistent records hold no more than the largest award for each approved
/// record.
pub proof fn lemma_awarded_bounded(records: Seq<Scholarship>)
    requires
        forall|i: int| 0 <= i < records.len() ==> (#[trigger] records[i]).consistent(),
    ensures
        0 <= total_awarded(records) <= top_award() * approved_among(records),
    decreases records.len(),
{
    if records.len() > 0 {
        let front = records.drop_last();
        assert forall|i: int| 0 <= i < front.len() implies (#[trigger] front[i]).consistent() by {
            assert(front[i] == records[i]);
        }
        lemma_awarded_bounded(front);
        assert(records.last() == records[records.len() - 1]);
    }
}

/// Whether the counters have room for a request: the identifier counter for
/// an application that is granted, the sum paid out for an approval that is
/// granted. A request that is refused needs no room.
pub open spec fn admitted(ledger: LedgerView, operation: Operation) -> bool {
    match operation {
        Operation::Apply { student, gpa_score, apply_time } => gpa_score <= MAX_GPA
            ==> ledger.scholar_count < u64::MAX,
        Operation::Approve { scholar_id } => ledger.can_disburse(scholar_id),
    }
}

/// Whether every request of a history found the room that it needed.
pub open spec fn within_limits(history: Seq<Operation>) -> bool
    decreases history.len(),
{
    if history.len() == 0 {
        true
    } else {
        within_limits(history.drop_last()) && admitted(
            replay(history.drop_last()),
            history.last(),
        )
    }
}

/// After every history within the limits of the counters the ledger is well
/// formed: the approved and the pending applications add up to all
/// applications, the sum paid out is the sum of the awards of the approved
/// records, and no more identifiers were given out than requests were made.
pub proof fn lemma_history_keeps_wf(history: Seq<Operation>)
    requires
        within_limits(history),
    ensures
        replay(history).wf(),
        replay(history).scholar_count <= history.len(),
        replay(history).stats.approved_count + replay(history).stats.pending_count == replay(
            history,
        ).stats.total_applications,
        replay(history).stats.total_disbursed == total_awarded(replay(history).records),
    decreases history.len(),
{
    if history.len() > 0 {
        let before = replay(history.drop_last());
        lemma_history_keeps_wf(history.drop_last());
        match history.last() {
            Operation::Apply { student, gpa_score, apply_time } => {
                if gpa_score <= MAX_GPA {
                    lemma_application_keeps_wf(before, student, gpa_score, apply_time);
                }
            },
            Operation::Approve { scholar_id } => {
                if before.approval(scholar_id) is Ok {
                    lemma_approval_keeps_wf(before, scholar_id);
                }
            },
        }
    }
}

/// A history is within the limits of the counters if the largest award,
/// paid once for each of its requests, fits in 64 bits.
pub proof fn lemma_short_history_within_limits(history: Seq<Operation>)
    requires
        history.len() * top_award() <= u64::MAX,
    ensures
        within_limits(history),
    decreases history.len(),
{
    if history.len() > 0 {
        let before = replay(history.drop_last());
        lemma_short_history_within_limits(history.drop_last());
        lemma_history_keeps_wf(history.drop_last());
        match history.last() {
            Operation::Apply { student, gpa_score, apply_time } => {},
            Operation::Approve { scholar_id } => {
                if before.approval(scholar_id) is Ok {
                    let i = scholar_id - 1;
                    let approved = before.records[i].approved();
                    lemma_awarded_bounded(before.records);
                    lemma_approved_update(before.records, i, approved);
                    lemma_approved_bounded(before.records.update(i, approved));
                }
            },
        }
    }
}

} // verus!
