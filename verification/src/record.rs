//! One scholarship application and the rules of its life cycle.

use crate::award::{award_amount, award_for, MAX_GPA, MIN_GPA};
use crate::host::address_of_account;
use soroban_sdk::{Address, Env};
use vstd::prelude::*;

verus! {

/// Why an operation on the ledger was refused.
#[derive(Clone, Copy, Debug, PartialEq, Eq, Structural)]
pub enum ScholarError {
    /// The declared score lies above the highest possible score.
    InvalidScore,
    /// No application is filed under the identifier.
    NotFound,
    /// The application has been approved before.
    AlreadyApproved,
    /// The score lies under the minimum for an award.
    BelowMinimum,
}

/// Key under which an application is filed.
#[derive(Clone, Copy, Debug, PartialEq, Eq, Structural)]
pub enum ScholarBook {
    Scholar(u64),
}

impl ScholarBook {
    /// The identifier that the key holds.
    pub open spec fn id(self) -> u64 {
        match self {
            ScholarBook::Scholar(id) => id,
        }
    }

    /// The identifier that the key holds.
    pub fn scholar_id(&self) -> (id: u64)
        ensures
            id == self.id(),
    {
        match self {
            ScholarBook::Scholar(id) => *id,
        }
    }
}

/// A scholarship application.
///
/// An identifier of 0 marks the placeholder that stands for "no such
/// application".
#[derive(Clone, Debug, PartialEq, Eq)]
pub struct Scholarship {
    pub scholar_id: u64,
    pub student: Address,
    pub gpa_score: u64,
    pub apply_time: u64,
    pub is_approved: bool,
    pub amount_awarded: u64,
}

/// Checks that a declared score is one that can be filed.
pub fn check_score(gpa_score: u64) -> (r: Result<(), ScholarError>)
    ensures
        gpa_score <= MAX_GPA ==> r == Ok::<(), ScholarError>(()),
        gpa_score > MAX_GPA ==> r == Err::<(), ScholarError>(ScholarError::InvalidScore),
{
    if gpa_score > MAX_GPA {
        Err(ScholarError::InvalidScore)
    } else {
        Ok(())
    }
}

impl Scholarship {
    /// The record as it is filed: pending, with no award.
    pub open spec fn filed(
        scholar_id: u64,
        student: Address,
        gpa_score: u64,
        apply_time: u64,
    ) -> Scholarship {
        Scholarship {
            scholar_id,
            student,
            gpa_score,
            apply_time,
            is_approved: false,
            amount_awarded: 0,
        }
    }

    /// Whether the record is the placeholder for a missing application:
    /// identifier, score, time and award are 0, and it is not approved.
    pub open spec fn is_placeholder(self) -> bool {
        &&& self.scholar_id == 0
        &&& self.gpa_score == 0
        &&& self.apply_time == 0
        &&& !self.is_approved
        &&& self.amount_awarded == 0
    }

    /// The award is positive and set by the score once approved, and zero before.
    pub open spec fn consistent(self) -> bool {
        &&& self.gpa_score <= MAX_GPA
        &&& self.is_approved ==> self.gpa_score >= MIN_GPA && self.amount_awarded == award_for(
            self.gpa_score,
        ) && self.amount_awarded > 0
        &&& !self.is_approved ==> self.amount_awarded == 0
    }

    /// What an approval of this record answers: the award, or the refusal.
    /// The tests are made in this order: missing, approved before, score too low.
    pub open spec fn approval(self) -> Result<u64, ScholarError> {
        if self.scholar_id == 0 {
            Err(ScholarError::NotFound)
        } else if self.is_approved {
            Err(ScholarError::AlreadyApproved)
        } else if self.gpa_score < MIN_GPA {
            Err(ScholarError::BelowMinimum)
        } else {
            Ok(award_for(self.gpa_score))
        }
    }

    /// The record after its approval.
    pub open spec fn approved(self) -> Scholarship {
        Scholarship { is_approved: true, amount_awarded: award_for(self.gpa_score), ..self }
    }

    /// Builds the record of a new application.
    pub fn new(scholar_id: u64, student: Address, gpa_score: u64, apply_time: u64) -> (s:
        Scholarship)
        ensures
            s == Scholarship::filed(scholar_id, student, gpa_score, apply_time),
    {
        Scholarship {
            scholar_id,
            student,
            gpa_score,
            apply_time,
            is_approved: false,
            amount_awarded: 0,
        }
    }

    /// Builds the placeholder that stands for a missing application.
    /// Its applicant is the vacant account.
    pub fn absent(env: &Env) -> (s: Scholarship)
        ensures
            s.is_placeholder(),
    {
        Scholarship::placeholder(
            address_of_account(env, "GAAAAAAAAAAAAAAAAAAAAAAAAAAAAAAAAAAAAAAAAAAAAAAAAAAAAWHF"),
        )
    }

    /// The placeholder with `student` as its applicant.
    pub open spec fn placeholder_for(student: Address) -> Scholarship {
        Scholarship {
            scholar_id: 0,
            student,
            gpa_score: 0,
            apply_time: 0,
            is_approved: false,
            amount_awarded: 0,
        }
    }

    /// Builds the placeholder around the address that stands for "no
    /// applicant".
    pub fn placeholder(student: Address) -> (s: Scholarship)
        ensures
            s == Scholarship::placeholder_for(student),
            s.is_placeholder(),
    {
        Scholarship {
            scholar_id: 0,
            student,
            gpa_score: 0,
            apply_time: 0,
            is_approved: false,
            amount_awarded: 0,
        }
    }

    /// The stored record, or the placeholder where nothing is stored.
    pub fn or_absent(env: &Env, stored: Option<Scholarship>) -> (s: Scholarship)
        ensures
            stored is Some ==> s == stored->Some_0,
            stored is None ==> s.is_placeholder(),
    {
        match stored {
            Some(s) => s,
            None => Scholarship::absent(env),
        }
    }

    /// A copy of the record, equal to it in every field.
    pub fn duplicate(&self) -> (s: Scholarship)
        ensures
            s == *self,
    {
        Scholarship {
            scholar_id: self.scholar_id,
            student: self.student.clone(),
            gpa_score: self.gpa_score,
            apply_time: self.apply_time,
            is_approved: self.is_approved,
            amount_awarded: self.amount_awarded,
        }
    }

    /// Decides an approval of this record without making it: the award, or
    /// the refusal.
    pub fn approval_due(&self) -> (r: Result<u64, ScholarError>)
        ensures
            r == self.approval(),
    {
        if self.scholar_id == 0 {
            Err(ScholarError::NotFound)
        } else if self.is_approved {
            Err(ScholarError::AlreadyApproved)
        } else if self.gpa_score < MIN_GPA {
            Err(ScholarError::BelowMinimum)
        } else {
            Ok(award_amount(self.gpa_score))
        }
    }

    /// Approves the application and returns its award, or refuses and leaves
    /// the record as it was.
    pub fn approve(&mut self) -> (r: Result<u64, ScholarError>)
        ensures
            r == old(self).approval(),
            r is Ok ==> *final(self) == old(self).approved(),
            r is Err ==> *final(self) == *old(self),
    {
        match self.approval_due() {
            Err(e) => Err(e),
            Ok(amount) => {
                self.is_approved = true;
                self.amount_awarded = amount;
                Ok(amount)
            },
        }
    }
}

} // verus!
