//! The outcome of classifying one issue.

use vstd::prelude::*;

use crate::error::TriageError;
use crate::queries::Uri;
use crate::time::{whole_days, Duration};

verus! {

/// How stale an issue is, measured against a minimum age.
#[derive(Debug)]
pub struct StalenessVerdict {
    pub number: i32,
    pub url: Uri,
    pub title: String,
    /// The time since the label was last applied.
    pub label_age: Duration,
    /// The time since the last comment, or since the issue was opened if
    /// nobody ever commented.
    pub activity_age: Duration,
    /// The time left until the issue may be closed; zero or less when it
    /// may be closed now.
    pub time_until_eligible: Duration,
}

/// What classifying an issue found.
#[derive(Debug)]
pub enum Classification {
    /// A label on the issue protects it, whatever its age.
    Excluded,
    /// The issue was measured.
    Assessed(StalenessVerdict),
}

/// The age that decides: the younger of the two.
pub open spec fn binding_age(label_age: int, activity_age: int) -> int {
    if label_age <= activity_age {
        label_age
    } else {
        activity_age
    }
}

/// The time left until both ages have reached `minimum_age`.
pub open spec fn time_until_eligible(minimum_age: int, label_age: int, activity_age: int) -> int {
    minimum_age - binding_age(label_age, activity_age)
}

/// What a report says of one issue.
#[derive(Clone, Copy, Debug, PartialEq, Eq, Structural)]
pub enum Decision {
    /// The issue may be closed now.
    CloseNow,
    /// The issue has to wait for so many whole days, and whatever part of
    /// a day is left besides.
    Wait { days: i64 },
}

/// An issue that was left out of a run.
#[derive(Debug)]
pub struct Skipped {
    pub number: i32,
    pub url: Uri,
    /// Why the issue could not be measured.
    pub reason: TriageError,
}

/// The outcome of a run over the issues that carry a label.
#[derive(Debug)]
pub struct TriageReport {
    /// The issues that were measured, the most urgent first.
    pub verdicts: Vec<StalenessVerdict>,
    /// The issues that could not be measured, in the order they came in.
    pub skipped: Vec<Skipped>,
}

impl StalenessVerdict {
    /// Whether the issue may be closed now.
    pub open spec fn eligible(self) -> bool {
        self.time_until_eligible@ <= 0
    }

    /// Whether the issue may be closed now.
    pub fn is_eligible(&self) -> (now: bool)
        ensures
            now == self.eligible(),
    {
        self.time_until_eligible.num_seconds() <= 0
    }

    /// What to report of the issue: that it may be closed, or how many days
    /// it still has to wait.
    pub fn decision(&self) -> (d: Decision)
        ensures
            d == if self.eligible() {
                Decision::CloseNow
            } else {
                Decision::Wait { days: whole_days(self.time_until_eligible@) as i64 }
            },
    {
        if self.is_eligible() {
            Decision::CloseNow
        } else {
            Decision::Wait { days: self.time_until_eligible.num_days() }
        }
    }
}

/// No time is left once both ages have reached the minimum age. While
/// one of them has not, time is left: as much as the younger of the two
/// falls short.
pub proof fn lemma_time_until_eligible(minimum_age: int, label_age: int, activity_age: int)
    ensures
        label_age >= minimum_age && activity_age >= minimum_age ==> time_until_eligible(
            minimum_age,
            label_age,
            activity_age,
        ) <= 0,
        label_age < minimum_age || activity_age < minimum_age ==> {
            &&& time_until_eligible(minimum_age, label_age, activity_age) > 0
            &&& time_until_eligible(minimum_age, label_age, activity_age) == minimum_age
                - vstd::math::min(label_age, activity_age)
        },
{
}

} // verus!
