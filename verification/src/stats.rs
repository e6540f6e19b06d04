//! Running totals over the applications.

use vstd::prelude::*;

verus! {

/// Totals kept beside the applications.
#[derive(Clone, Copy, Debug, PartialEq, Eq, Structural)]
pub struct ScholarshipStats {
    pub total_applications: u64,
    pub approved_count: u64,
    pub pending_count: u64,
    pub total_disbursed: u64,
}

impl ScholarshipStats {
    /// The totals before anything was filed.
    pub open spec fn zero() -> ScholarshipStats {
        ScholarshipStats {
            total_applications: 0,
            approved_count: 0,
            pending_count: 0,
            total_disbursed: 0,
        }
    }

    /// Every application is either approved or pending.
    pub open spec fn balanced(self) -> bool {
        self.approved_count + self.pending_count == self.total_applications
    }

    /// Whether the totals have room for one more application.
    pub open spec fn admits_application(self) -> bool {
        &&& self.total_applications < u64::MAX
        &&& self.pending_count < u64::MAX
    }

    /// The totals after one more application was filed.
    pub open spec fn after_application(self) -> ScholarshipStats
        recommends
            self.admits_application(),
    {
        ScholarshipStats {
            total_applications: (self.total_applications + 1) as u64,
            pending_count: (self.pending_count + 1) as u64,
            ..self
        }
    }

    /// Whether the totals have room for an approval of `amount`.
    pub open spec fn admits_approval(self, amount: u64) -> bool {
        &&& self.pending_count > 0
        &&& self.approved_count < u64::MAX
        &&& self.total_disbursed + amount <= u64::MAX
    }

    /// The totals after a pending application was approved at `amount`.
    pub open spec fn after_approval(self, amount: u64) -> ScholarshipStats
        recommends
            self.admits_approval(amount),
    {
        ScholarshipStats {
            approved_count: (self.approved_count + 1) as u64,
            pending_count: (self.pending_count - 1) as u64,
            total_disbursed: (self.total_disbursed + amount) as u64,
            ..self
        }
    }

    /// Builds the totals before anything was filed.
    pub fn new() -> (s: ScholarshipStats)
        ensures
            s == ScholarshipStats::zero(),
    {
        ScholarshipStats {
            total_applications: 0,
            approved_count: 0,
            pending_count: 0,
            total_disbursed: 0,
        }
    }

    /// The stored totals, or all zero where none were stored yet.
    pub fn or_zero(stored: Option<ScholarshipStats>) -> (s: ScholarshipStats)
        ensures
            stored is Some ==> s == stored->Some_0,
            stored is None ==> s == ScholarshipStats::zero(),
    {
        match stored {
            Some(s) => s,
            None => ScholarshipStats::new(),
        }
    }

    /// Tells whether the totals have room for one more application.
    pub fn has_room_for_application(&self) -> (room: bool)
        ensures
            room == self.admits_application(),
    {
        self.total_applications < u64::MAX && self.pending_count < u64::MAX
    }

    /// Tells whether the totals have room for an approval of `amount`.
    pub fn has_room_for_approval(&self, amount: u64) -> (room: bool)
        ensures
            room == self.admits_approval(amount),
    {
        self.pending_count > 0 && self.approved_count < u64::MAX && self.total_disbursed
            <= u64::MAX - amount
    }

    /// Counts one more application, which starts as pending.
    pub fn record_application(&mut self)
        requires
            old(self).admits_application(),
        ensures
            *final(self) == old(self).after_application(),
    {
        self.total_applications = self.total_applications + 1;
        self.pending_count = self.pending_count + 1;
    }

    /// Moves one application from pending to approved and adds its award to
    /// the sum paid out.
    pub fn record_approval(&mut self, amount: u64)
        requires
            old(self).admits_approval(amount),
        ensures
            *final(self) == old(self).after_approval(amount),
    {
        self.approved_count = self.approved_count + 1;
        self.pending_count = self.pending_count - 1;
        self.total_disbursed = self.total_disbursed + amount;
    }
}

/// An application filed on balanced totals leaves them balanced.
pub proof fn lemma_application_keeps_balance(s: ScholarshipStats)
    requires
        s.balanced(),
        s.total_applications < u64::MAX,
    ensures
        s.after_application().balanced(),
{
}

/// An approval on balanced totals leaves them balanced.
pub proof fn lemma_approval_keeps_balance(s: ScholarshipStats, amount: u64)
    requires
        s.balanced(),
        s.admits_approval(amount),
    ensures
        s.after_approval(amount).balanced(),
{
}

} // verus!
