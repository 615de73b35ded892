//! Picking the issues on which a label has grown too old.

use vstd::prelude::*;

use crate::old_label::{activity_age, filter_label_age, filter_last_comment_age, label_applied_at};
use crate::queries::TooOldLabelIssue;
use crate::time::{DateTime, Duration};

verus! {

/// A label and the age from which it counts as too old.
#[derive(Debug)]
pub struct TooOldLabel {
    pub name: String,
    pub age_considered_too_old: Duration,
}

/// Whether the issue has carried the label named `label` for at least
/// `minimum_age`, and has seen no activity for as long, seen from `now`.
pub open spec fn too_old(
    issue: &TooOldLabelIssue,
    label: Seq<char>,
    minimum_age: Duration,
    now: DateTime,
) -> bool {
    &&& activity_age(issue, now) >= minimum_age@
    &&& label_applied_at(issue, label) matches Ok(at) && now@ - at@ >= minimum_age@
}

/// `too_old` as a test on issues.
pub open spec fn too_old_test(label: Seq<char>, minimum_age: Duration, now: DateTime) -> spec_fn(
    TooOldLabelIssue,
) -> bool {
    |issue: TooOldLabelIssue| too_old(&issue, label, minimum_age, now)
}

impl TooOldLabel {
    /// Whether the label has grown too old on `issue`, seen from `now`.
    ///
    /// The last comment is looked at first: on an issue that people still
    /// talk about, the label's age does not matter.
    pub fn is_too_old_on(&self, issue: &TooOldLabelIssue, now: &DateTime) -> (yes: bool)
        ensures
            yes == too_old(issue, self.name@, self.age_considered_too_old, *now),
    {
        filter_last_comment_age(issue, self.age_considered_too_old, now) && filter_label_age(
            issue,
            self.name.as_str(),
            self.age_considered_too_old,
            now,
        )
    }
}

/// The items of `items` from the last to the first.
fn reversed<T>(items: Vec<T>) -> (back: Vec<T>)
    ensures
        back@ == items@.reverse(),
{
    let ghost all = items@;
    let mut rest = items;
    let mut back: Vec<T> = Vec::new();
    while rest.len() > 0
        invariant
            rest@.len() <= all.len(),
            rest@ == all.take(rest@.len() as int),
            back@ == all.skip(rest@.len() as int).reverse(),
        decreases rest.len(),
    {
        let item = rest.remove(rest.len() - 1);
        back.push(item);
        assert(back@ =~= all.skip(rest@.len() as int).reverse());
    }
    assert(all.skip(0) == all);
    back
}

/// Those of `issues` that have carried the label named `label` for at
/// least `minimum_age` and have seen no activity for as long, seen from
/// `now`, in the order they came in.
pub fn issues_with_minimum_label_and_last_comment_age(
    issues: Vec<TooOldLabelIssue>,
    label: &str,
    minimum_age: Duration,
    now: &DateTime,
) -> (kept: Vec<TooOldLabelIssue>)
    ensures
        kept@ == issues@.filter(too_old_test(label@, minimum_age, *now)),
{
    let ghost all = issues@;
    let ghost test = too_old_test(label@, minimum_age, *now);
    let mut rest = reversed(issues);
    let mut kept: Vec<TooOldLabelIssue> = Vec::new();
    proof {
        reveal(Seq::filter);
        assert(all.take(0).filter(test) =~= Seq::empty());
    }
    while rest.len() > 0
        invariant
            rest@.len() <= all.len(),
            rest@ == all.skip(all.len() - rest@.len()).reverse(),
            kept@ == all.take(all.len() - rest@.len()).filter(test),
            test == too_old_test(label@, minimum_age, *now),
        decreases rest.len(),
    {
        let ghost done = all.len() - rest@.len();
        let issue = rest.remove(rest.len() - 1);
        proof {
            reveal(Seq::filter);
            assert(issue == all[done]);
            assert(all.take(done + 1).drop_last() == all.take(done));
            assert(all.take(done + 1).last() == issue);
            assert(rest@ =~= all.skip(done + 1).reverse());
        }
        if filter_last_comment_age(&issue, minimum_age, now) && filter_label_age(
            &issue,
            label,
            minimum_age,
            now,
        ) {
            kept.push(issue);
        }
    }
    assert(all.take(all.len() as int) == all);
    kept
}

} // verus!
