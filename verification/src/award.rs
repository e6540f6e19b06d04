//! Score limits and the award tiers.

use vstd::prelude::*;

verus! {

/// Highest score that can be declared: a grade point average of 4.00, scaled by 100.
pub const MAX_GPA: u64 = 400;

/// Lowest score that can be approved: a grade point average of 3.00, scaled by 100.
pub const MIN_GPA: u64 = 300;

/// The award, in the smallest currency unit, that a score earns.
/// Scores under the minimum earn nothing.
pub open spec fn award_for(gpa_score: u64) -> u64 {
    if gpa_score >= 380 {
        20_000_000_000
    } else if gpa_score >= 350 {
        15_000_000_000
    } else if gpa_score >= MIN_GPA {
        10_000_000_000
    } else {
        0
    }
}

/// Computes the award that a score earns: positive from the minimum on, and
/// nothing under it.
pub fn award_amount(gpa_score: u64) -> (amount: u64)
    ensures
        amount == award_for(gpa_score),
        gpa_score >= MIN_GPA <==> amount > 0,
{
    if gpa_score >= 380 {
        20_000_000_000
    } else if gpa_score >= 350 {
        15_000_000_000
    } else if gpa_score >= MIN_GPA {
        10_000_000_000
    } else {
        0
    }
}

} // verus!
