//! How old a label and the last activity on an issue are, and whether that
//! is old enough.

use vstd::prelude::*;

use crate::error::TriageError;
use crate::queries::{IssueTimelineItems, TooOldLabelIssue, Uri};
use crate::rank::{is_ranked, rank, ranked};
use crate::text::{any_contains, is_substring, lowercase};
use crate::time::{DateTime, Duration, MAX_AGE_SECS};
use crate::verdict::{
    time_until_eligible,
    Classification,
    Skipped,
    StalenessVerdict,
    TriageReport,
};

verus! {

/// Whether `item` records that the label named `label` was applied.
pub open spec fn applies_label(item: IssueTimelineItems, label: Seq<char>) -> bool {
    item matches IssueTimelineItems::LabelledEvent(event) && event.label.name@ == label
}

/// When `item` happened, for an event that applies a label.
pub open spec fn applied_at(item: IssueTimelineItems) -> DateTime {
    item->LabelledEvent_0.created_at
}

/// When the label named `label` was applied for the last time in `items`,
/// which are ordered oldest first; `None` if they never apply it.
pub open spec fn last_labeled_at(items: Seq<IssueTimelineItems>, label: Seq<char>) -> Option<
    DateTime,
>
    decreases items.len(),
{
    if items.len() == 0 {
        None
    } else if applies_label(items.last(), label) {
        Some(applied_at(items.last()))
    } else {
        last_labeled_at(items.drop_last(), label)
    }
}

/// The time since the label named `label` was last applied, seen from `now`.
///
/// `timeline_items` is the issue's whole timeline, oldest event first. Events
/// that remove a label are passed over: the issue carries the label now, so
/// the last event that applies it is the one that counts.
pub fn label_age(timeline_items: &[IssueTimelineItems], label: &str, now: &DateTime) -> (r: Result<
    Duration,
    TriageError,
>)
    ensures
        match last_labeled_at(timeline_items@, label@) {
            Some(at) => r matches Ok(age) && age@ == now@ - at@,
            None => r matches Err(TriageError::LabelHistoryInconsistent),
        },
        r matches Ok(age) ==> -MAX_AGE_SECS <= age@ <= MAX_AGE_SECS,
{
    let wanted = label.to_owned();
    let mut last: Option<DateTime> = None;
    let mut i: usize = 0;
    while i < timeline_items.len()
        invariant
            i <= timeline_items.len(),
            wanted@ == label@,
            last == last_labeled_at(timeline_items@.take(i as int), label@),
        decreases timeline_items.len() - i,
    {
        proof {
            let upto = timeline_items@.take(i + 1);
            assert(upto.drop_last() == timeline_items@.take(i as int));
            assert(upto.last() == timeline_items@[i as int]);
        }
        match &timeline_items[i] {
            IssueTimelineItems::LabelledEvent(event) => {
                if event.label.name == wanted {
                    last = Some(event.created_at);
                }
            },
            _ => {},
        }
        i += 1;
    }
    assert(timeline_items@.take(i as int) == timeline_items@);
    match last {
        Some(at) => Ok(now.signed_duration_since(&at)),
        None => Err(TriageError::LabelHistoryInconsistent),
    }
}

/// When the issue last saw activity: its last comment, or its creation if
/// nobody ever commented. The comments are ordered oldest first.
pub open spec fn last_activity_at(issue: &TooOldLabelIssue) -> DateTime {
    if issue.comments.nodes@.len() > 0 {
        issue.comments.nodes@.last().created_at
    } else {
        issue.created_at
    }
}

/// The time since the issue last saw activity, in seconds, seen from `now`.
pub open spec fn activity_age(issue: &TooOldLabelIssue, now: DateTime) -> int {
    now@ - last_activity_at(issue)@
}

/// When the label named `label` was last applied to the issue, as far as
/// the fetched timeline can tell.
///
/// A timeline of which only a window was fetched tells nothing: an earlier
/// or later event may lie outside the window. A missing timeline, or a whole
/// one that never applies the label, contradicts the fact that the issue
/// carries the label.
pub open spec fn label_applied_at(issue: &TooOldLabelIssue, label: Seq<char>) -> Result<
    DateTime,
    TriageError,
> {
    match issue.timeline_items {
        None => Err(TriageError::LabelHistoryInconsistent),
        Some(timeline) => if timeline.page_info.has_next_page {
            Err(TriageError::LabelHistoryTruncated)
        } else {
            match last_labeled_at(timeline.nodes@, label) {
                Some(at) => Ok(at),
                None => Err(TriageError::LabelHistoryInconsistent),
            }
        },
    }
}

/// Whether one of the issue's labels contains `fragment`, letter case
/// aside. An issue without a list of labels has none that could.
pub open spec fn has_excluded_label(issue: &TooOldLabelIssue, fragment: Seq<char>) -> bool {
    match issue.labels {
        Some(labels) => exists|i: int|
            0 <= i < labels.nodes@.len() && is_substring(
                lowercase(fragment),
                lowercase(#[trigger] labels.nodes@[i].name@),
            ),
        None => false,
    }
}

/// The time since the issue's last activity, seen from `now`.
pub fn last_comment_age(issue: &TooOldLabelIssue, now: &DateTime) -> (age: Duration)
    ensures
        age@ == activity_age(issue, *now),
        -MAX_AGE_SECS <= age@ <= MAX_AGE_SECS,
{
    let n = issue.comments.nodes.len();
    if n > 0 {
        now.signed_duration_since(&issue.comments.nodes[n - 1].created_at)
    } else {
        now.signed_duration_since(&issue.created_at)
    }
}

/// The time since the label named `label` was last applied to the issue,
/// seen from `now`, or why it cannot be told.
pub fn issue_label_age(issue: &TooOldLabelIssue, label: &str, now: &DateTime) -> (r: Result<
    Duration,
    TriageError,
>)
    ensures
        match label_applied_at(issue, label@) {
            Ok(at) => r matches Ok(age) && age@ == now@ - at@,
            Err(e) => r == Err::<Duration, TriageError>(e),
        },
        r matches Ok(age) ==> -MAX_AGE_SECS <= age@ <= MAX_AGE_SECS,
{
    match &issue.timeline_items {
        None => Err(TriageError::LabelHistoryInconsistent),
        Some(timeline) => {
            if timeline.page_info.has_next_page {
                Err(TriageError::LabelHistoryTruncated)
            } else {
                label_age(timeline.nodes.as_slice(), label, now)
            }
        },
    }
}

/// Keeps an issue whose last activity is at least `minimum_age` old.
///
/// An issue that people still comment on is left alone, however old its
/// label is.
pub fn filter_last_comment_age(issue: &TooOldLabelIssue, minimum_age: Duration, now: &DateTime) -> (keep:
    bool)
    ensures
        keep == (activity_age(issue, *now) >= minimum_age@),
{
    last_comment_age(issue, now).num_seconds() >= minimum_age.num_seconds()
}

/// Keeps an issue that has carried the label named `label` for at least
/// `minimum_age`. An issue whose label age cannot be told is not kept.
pub fn filter_label_age(
    issue: &TooOldLabelIssue,
    label: &str,
    minimum_age: Duration,
    now: &DateTime,
) -> (keep: bool)
    ensures
        keep == (label_applied_at(issue, label@) matches Ok(at) && now@ - at@ >= minimum_age@),
{
    match issue_label_age(issue, label, now) {
        Ok(age) => age.num_seconds() >= minimum_age.num_seconds(),
        Err(_) => false,
    }
}

/// The names of the issue's labels in lower case, in the order of the labels.
pub fn lowered_label_names(issue: &TooOldLabelIssue) -> (names: Vec<String>)
    ensures
        match issue.labels {
            Some(labels) => names@.len() == labels.nodes@.len() && forall|i: int|
                0 <= i < names@.len() ==> (#[trigger] names@[i])@ == lowercase(
                    labels.nodes@[i].name@,
                ),
            None => names@.len() == 0,
        },
{
    let mut names: Vec<String> = Vec::new();
    match &issue.labels {
        Some(labels) => {
            let mut i: usize = 0;
            while i < labels.nodes.len()
                invariant
                    i <= labels.nodes.len(),
                    names@.len() == i,
                    forall|j: int|
                        0 <= j < i ==> (#[trigger] names@[j])@ == lowercase(
                            labels.nodes@[j].name@,
                        ),
                decreases labels.nodes.len() - i,
            {
                names.push(labels.nodes[i].name.as_str().to_lowercase());
                i += 1;
            }
        },
        None => {},
    }
    names
}

/// Keeps an issue unless one of its labels contains
/// `exclude_labels_containing`, letter case aside.
///
/// Such a label marks an issue that somebody looks after, which is never
/// closed automatically.
pub fn filter_excluded_labels(issue: &TooOldLabelIssue, exclude_labels_containing: &str) -> (keep:
    bool)
    ensures
        keep == !has_excluded_label(issue, exclude_labels_containing@),
{
    let names = lowered_label_names(issue);
    let fragment = exclude_labels_containing.to_lowercase();
    let found = any_contains(&names, fragment.as_str());
    proof {
        if found {
            let i = choose|i: int|
                0 <= i < names@.len() && is_substring(fragment@, #[trigger] names@[i]@);
            assert(is_substring(
                lowercase(exclude_labels_containing@),
                lowercase(issue.labels->Some_0.nodes@[i].name@),
            ));
        }
        if has_excluded_label(issue, exclude_labels_containing@) {
            let labels = issue.labels->Some_0;
            let i = choose|i: int|
                0 <= i < labels.nodes@.len() && is_substring(
                    lowercase(exclude_labels_containing@),
                    lowercase(#[trigger] labels.nodes@[i].name@),
                );
            assert(is_substring(fragment@, names@[i]@));
        }
    }
    !found
}

/// The measure of `issue` against `minimum_age`, seen from `now`, given
/// that the label was last applied at `labeled_at`.
pub open spec fn verdict_on(
    issue: &TooOldLabelIssue,
    labeled_at: DateTime,
    minimum_age: Duration,
    now: DateTime,
) -> StalenessVerdict {
    let label_age = now@ - labeled_at@;
    let activity_age = activity_age(issue, now);
    StalenessVerdict {
        number: issue.number,
        url: issue.url,
        title: issue.title,
        label_age: Duration::of_seconds(label_age),
        activity_age: Duration::of_seconds(activity_age),
        time_until_eligible: Duration::of_seconds(
            time_until_eligible(minimum_age@, label_age, activity_age),
        ),
    }
}

/// The verdict holds the two ages and the time left, in seconds, as long
/// as the instants are valid and the minimum age leaves room.
pub proof fn lemma_verdict_on(
    issue: &TooOldLabelIssue,
    labeled_at: DateTime,
    minimum_age: Duration,
    now: DateTime,
)
    requires
        minimum_age.fits_minimum_age(),
        now.is_valid(),
        labeled_at.is_valid(),
        last_activity_at(issue).is_valid(),
    ensures
        ({
            let verdict = verdict_on(issue, labeled_at, minimum_age, now);
            &&& verdict.label_age@ == now@ - labeled_at@
            &&& verdict.activity_age@ == activity_age(issue, now)
            &&& verdict.time_until_eligible@ == time_until_eligible(
                minimum_age@,
                now@ - labeled_at@,
                activity_age(issue, now),
            )
        }),
{
    let label_age = now@ - labeled_at@;
    let activity_age = activity_age(issue, now);
    Duration::lemma_seconds_of(label_age);
    Duration::lemma_seconds_of(activity_age);
    Duration::lemma_seconds_of(time_until_eligible(minimum_age@, label_age, activity_age));
}

/// What classifying `issue` gives.
///
/// A protecting label settles the matter before any age is looked at. Else
/// the label's age must be known, and the verdict measures both ages.
pub open spec fn classification(
    issue: &TooOldLabelIssue,
    target_label: Seq<char>,
    minimum_age: Duration,
    exclude_if_label_contains: Seq<char>,
    now: DateTime,
) -> Result<Classification, TriageError> {
    if has_excluded_label(issue, exclude_if_label_contains) {
        Ok(Classification::Excluded)
    } else {
        match label_applied_at(issue, target_label) {
            Err(e) => Err(e),
            Ok(labeled_at) => Ok(
                Classification::Assessed(verdict_on(issue, labeled_at, minimum_age, now)),
            ),
        }
    }
}

/// Classifies `issue`, seen from `now`.
///
/// An issue with a label that contains `exclude_if_label_contains`, letter
/// case aside, is excluded. Any other issue is measured: it may be closed
/// once both the label named `target_label` and the last activity are at
/// least `minimum_age` old, so the younger of the two ages decides, and the
/// verdict says how long that is still to wait. Where the label's age cannot
/// be told the issue is not measured at all.
pub fn classify(
    issue: &TooOldLabelIssue,
    target_label: &str,
    minimum_age: Duration,
    exclude_if_label_contains: &str,
    now: &DateTime,
) -> (outcome: Result<Classification, TriageError>)
    requires
        minimum_age.fits_minimum_age(),
    ensures
        outcome == classification(
            issue,
            target_label@,
            minimum_age,
            exclude_if_label_contains@,
            *now,
        ),
        has_excluded_label(issue, exclude_if_label_contains@) ==> outcome matches Ok(
            Classification::Excluded,
        ),
        outcome matches Ok(Classification::Assessed(verdict)) ==> {
            &&& label_applied_at(issue, target_label@) matches Ok(labeled_at)
            &&& verdict.label_age@ == now@ - labeled_at@
            &&& verdict.activity_age@ == activity_age(issue, *now)
            &&& verdict.time_until_eligible@ == time_until_eligible(
                minimum_age@,
                verdict.label_age@,
                verdict.activity_age@,
            )
            &&& verdict.label_age@ >= minimum_age@ && verdict.activity_age@ >= minimum_age@
                ==> verdict.time_until_eligible@ <= 0
            &&& verdict.label_age@ < minimum_age@ || verdict.activity_age@ < minimum_age@ ==> {
                &&& verdict.time_until_eligible@ > 0
                &&& verdict.time_until_eligible@ == minimum_age@ - vstd::math::min(
                    verdict.label_age@,
                    verdict.activity_age@,
                )
            }
        },
{
    if !filter_excluded_labels(issue, exclude_if_label_contains) {
        return Ok(Classification::Excluded);
    }
    let label_age = match issue_label_age(issue, target_label, now) {
        Ok(age) => age,
        Err(e) => {
            return Err(e);
        },
    };
    let activity_age = last_comment_age(issue, now);
    let binding = if label_age.num_seconds() <= activity_age.num_seconds() {
        label_age
    } else {
        activity_age
    };
    let remaining = minimum_age.minus(&binding);
    proof {
        label_age.lemma_known_by_seconds();
        activity_age.lemma_known_by_seconds();
        remaining.lemma_known_by_seconds();
    }
    Ok(
        Classification::Assessed(
            StalenessVerdict {
                number: issue.number,
                url: Uri(issue.url.0.clone()),
                title: issue.title.clone(),
                label_age,
                activity_age,
                time_until_eligible: remaining,
            },
        ),
    )
}

/// The verdicts on those of `issues` that classifying measures, in the
/// order of the issues.
pub open spec fn assessed(
    issues: Seq<TooOldLabelIssue>,
    label: Seq<char>,
    exclude_labels_containing: Seq<char>,
    minimum_age: Duration,
    now: DateTime,
) -> Seq<StalenessVerdict>
    decreases issues.len(),
{
    if issues.len() == 0 {
        Seq::empty()
    } else {
        let front = assessed(issues.drop_last(), label, exclude_labels_containing, minimum_age, now);
        match classification(
            &issues.last(),
            label,
            minimum_age,
            exclude_labels_containing,
            now,
        ) {
            Ok(Classification::Assessed(verdict)) => front.push(verdict),
            _ => front,
        }
    }
}

/// Those of `issues` that classifying fails on, each with the reason, in
/// the order of the issues.
pub open spec fn left_out(
    issues: Seq<TooOldLabelIssue>,
    label: Seq<char>,
    exclude_labels_containing: Seq<char>,
    minimum_age: Duration,
    now: DateTime,
) -> Seq<Skipped>
    decreases issues.len(),
{
    if issues.len() == 0 {
        Seq::empty()
    } else {
        let front = left_out(issues.drop_last(), label, exclude_labels_containing, minimum_age, now);
        let issue = issues.last();
        match classification(&issue, label, minimum_age, exclude_labels_containing, now) {
            Err(reason) => front.push(Skipped { number: issue.number, url: issue.url, reason }),
            _ => front,
        }
    }
}

/// Decides which of `issues`, the open issues that carry `label`, are old
/// enough to be closed, seen from `now`.
///
/// Each issue is classified. An excluded issue leaves no trace. An issue
/// whose label age cannot be told is listed as skipped, with the reason.
/// The others come back ranked, the most overdue first: those with no time
/// left may be closed, the rest say how long is still to wait.
pub fn triage_old_label(
    issues: &Vec<TooOldLabelIssue>,
    label: &str,
    exclude_labels_containing: &str,
    minimum_age: Duration,
    now: &DateTime,
) -> (report: TriageReport)
    requires
        minimum_age.fits_minimum_age(),
    ensures
        report.verdicts@ == ranked(
            assessed(issues@, label@, exclude_labels_containing@, minimum_age, *now),
        ),
        report.skipped@ == left_out(
            issues@,
            label@,
            exclude_labels_containing@,
            minimum_age,
            *now,
        ),
        is_ranked(report.verdicts@),
{
    let mut verdicts: Vec<StalenessVerdict> = Vec::new();
    let mut skipped: Vec<Skipped> = Vec::new();
    let mut i: usize = 0;
    while i < issues.len()
        invariant
            i <= issues.len(),
            minimum_age.fits_minimum_age(),
            verdicts@ == assessed(
                issues@.take(i as int),
                label@,
                exclude_labels_containing@,
                minimum_age,
                *now,
            ),
            skipped@ == left_out(
                issues@.take(i as int),
                label@,
                exclude_labels_containing@,
                minimum_age,
                *now,
            ),
        decreases issues.len() - i,
    {
        proof {
            let upto = issues@.take(i + 1);
            assert(upto.drop_last() == issues@.take(i as int));
            assert(upto.last() == issues@[i as int]);
        }
        let issue = &issues[i];
        match classify(issue, label, minimum_age, exclude_labels_containing, now) {
            Ok(Classification::Assessed(verdict)) => {
                verdicts.push(verdict);
            },
            Ok(Classification::Excluded) => {},
            Err(reason) => {
                skipped.push(
                    Skipped { number: issue.number, url: Uri(issue.url.0.clone()), reason },
                );
            },
        }
        i += 1;
    }
    assert(issues@.take(i as int) == issues@);
    TriageReport { verdicts: rank(verdicts), skipped }
}

/// The label's age goes by the last event that applies the label, however
/// often it was applied and removed before.
pub proof fn lemma_last_application_counts(
    items: Seq<IssueTimelineItems>,
    label: Seq<char>,
    last: int,
)
    requires
        0 <= last < items.len(),
        applies_label(items[last], label),
        forall|k: int| last < k < items.len() ==> !applies_label(#[trigger] items[k], label),
    ensures
        last_labeled_at(items, label) == Some(applied_at(items[last])),
    decreases items.len(),
{
    if last < items.len() - 1 {
        let front = items.drop_last();
        assert(!applies_label(items[items.len() - 1], label));
        assert(front[last] == items[last]);
        assert forall|k: int| last < k < front.len() implies !applies_label(
            #[trigger] front[k],
            label,
        ) by {
            assert(front[k] == items[k]);
        }
        lemma_last_application_counts(front, label, last);
    }
}

/// A timeline tells when the label was applied just when one of its events
/// applies the label.
pub proof fn lemma_labeled_iff_applied(items: Seq<IssueTimelineItems>, label: Seq<char>)
    ensures
        last_labeled_at(items, label) is Some <==> exists|k: int|
            0 <= k < items.len() && applies_label(#[trigger] items[k], label),
    decreases items.len(),
{
    if items.len() > 0 {
        let front = items.drop_last();
        lemma_labeled_iff_applied(front, label);
        if applies_label(items.last(), label) {
            assert(applies_label(items[items.len() - 1], label));
        } else if last_labeled_at(front, label) is Some {
            let k = choose|k: int| 0 <= k < front.len() && applies_label(#[trigger] front[k], label);
            assert(items[k] == front[k]);
        } else {
            assert forall|k: int| 0 <= k < items.len() implies !applies_label(
                #[trigger] items[k],
                label,
            ) by {
                if k < front.len() {
                    assert(front[k] == items[k]);
                }
            }
        }
    }
}

/// Classifying fails only for want of the label's history, which leaves
/// the one issue out and lets the run go on.
pub proof fn lemma_classification_spares_the_run(
    issue: &TooOldLabelIssue,
    target_label: Seq<char>,
    minimum_age: Duration,
    exclude_if_label_contains: Seq<char>,
    now: DateTime,
)
    ensures
        classification(
            issue,
            target_label,
            minimum_age,
            exclude_if_label_contains,
            now,
        ) matches Err(e) ==> !e.is_fatal(),
{
}

/// Whether the issue may be closed now: classifying it gives a verdict
/// that leaves no time to wait.
pub open spec fn closable(
    issue: &TooOldLabelIssue,
    target_label: Seq<char>,
    minimum_age: Duration,
    exclude_if_label_contains: Seq<char>,
    now: DateTime,
) -> bool {
    classification(issue, target_label, minimum_age, exclude_if_label_contains, now) matches Ok(
        Classification::Assessed(verdict),
    ) && verdict.eligible()
}

/// An issue may be closed just when it passes the three filters, which may
/// be applied in any order. So a protecting label keeps an issue from being
/// closed whatever its ages are, and without one the issue may be closed as
/// soon as both ages have reached the minimum age.
pub proof fn lemma_closable_iff_filters_pass(
    issue: &TooOldLabelIssue,
    target_label: Seq<char>,
    minimum_age: Duration,
    exclude_if_label_contains: Seq<char>,
    now: DateTime,
)
    requires
        minimum_age.fits_minimum_age(),
        now.is_valid(),
        last_activity_at(issue).is_valid(),
        label_applied_at(issue, target_label) matches Ok(at) ==> at.is_valid(),
    ensures
        ({
            let quiet = activity_age(issue, now) >= minimum_age@;
            let labeled = label_applied_at(issue, target_label) matches Ok(at) && now@ - at@
                >= minimum_age@;
            let free = !has_excluded_label(issue, exclude_if_label_contains);
            let closable = closable(
                issue,
                target_label,
                minimum_age,
                exclude_if_label_contains,
                now,
            );
            &&& closable <==> quiet && labeled && free
            &&& closable <==> free && labeled && quiet
            &&& closable <==> labeled && free && quiet
            &&& !free ==> !closable
        }),
{
    if !has_excluded_label(issue, exclude_if_label_contains) {
        if let Ok(labeled_at) = label_applied_at(issue, target_label) {
            lemma_verdict_on(issue, labeled_at, minimum_age, now);
        }
    }
}

/// Every verdict of a run is the measure of one of the issues, and of one
/// that no label protects: a protecting label keeps an issue out of the
/// verdicts whatever its ages are.
pub proof fn lemma_assessed_are_unprotected(
    issues: Seq<TooOldLabelIssue>,
    label: Seq<char>,
    exclude_labels_containing: Seq<char>,
    minimum_age: Duration,
    now: DateTime,
)
    ensures
        forall|v: int|
            #![trigger assessed(issues, label, exclude_labels_containing, minimum_age, now)[v]]
            0 <= v < assessed(issues, label, exclude_labels_containing, minimum_age, now).len()
                ==> exists|i: int|
                0 <= i < issues.len() && !has_excluded_label(
                    &issues[i],
                    exclude_labels_containing,
                ) && classification(
                    &#[trigger] issues[i],
                    label,
                    minimum_age,
                    exclude_labels_containing,
                    now,
                ) == Ok::<Classification, TriageError>(
                    Classification::Assessed(
                        assessed(issues, label, exclude_labels_containing, minimum_age, now)[v],
                    ),
                ),
    decreases issues.len(),
{
    let verdicts = assessed(issues, label, exclude_labels_containing, minimum_age, now);
    if issues.len() > 0 {
        let front = issues.drop_last();
        let before = assessed(front, label, exclude_labels_containing, minimum_age, now);
        lemma_assessed_are_unprotected(front, label, exclude_labels_containing, minimum_age, now);
        assert forall|v: int| 0 <= v < verdicts.len() implies exists|i: int|
            0 <= i < issues.len() && !has_excluded_label(&issues[i], exclude_labels_containing)
                && classification(
                &#[trigger] issues[i],
                label,
                minimum_age,
                exclude_labels_containing,
                now,
            ) == Ok::<Classification, TriageError>(Classification::Assessed(#[trigger] verdicts[v])) by {
            if v < before.len() {
                assert(verdicts[v] == before[v]);
                let i = choose|i: int|
                    0 <= i < front.len() && !has_excluded_label(
                        &front[i],
                        exclude_labels_containing,
                    ) && classification(
                        &#[trigger] front[i],
                        label,
                        minimum_age,
                        exclude_labels_containing,
                        now,
                    ) == Ok::<Classification, TriageError>(Classification::Assessed(before[v]));
                assert(issues[i] == front[i]);
            } else {
                assert(issues[issues.len() - 1] == issues.last());
            }
        }
    }
}

} // verus!
