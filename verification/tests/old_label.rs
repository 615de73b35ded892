use automatic_triage::error::TriageError;
use automatic_triage::old_label::{
    classify, filter_excluded_labels, filter_label_age, filter_last_comment_age, issue_label_age,
    label_age, last_comment_age, lowered_label_names, triage_old_label,
};
use automatic_triage::queries::{
    DateTime, IssueComment, IssueCommentConnection, IssueTimelineItems, Label, LabelConnection,
    LabeledEvent, PageInfo, TooOldLabelIssue, TooOldLabelIssueTimelineItemsConnection,
    UnlabeledEvent, Uri,
};
use automatic_triage::time::{Duration, MAX_MINIMUM_AGE_SECS};
use automatic_triage::verdict::{Classification, Decision};

const DAY: i64 = 86_400;
const NOW: i64 = 1_700_000_000;

fn at(secs: i64) -> DateTime {
    DateTime::from_timestamp(secs).unwrap()
}

fn days_ago(days: i64) -> DateTime {
    at(NOW - days * DAY)
}

fn labeled(name: &str, when: DateTime) -> IssueTimelineItems {
    IssueTimelineItems::LabelledEvent(LabeledEvent {
        label: Label { name: name.to_string() },
        created_at: when,
    })
}

fn unlabeled(name: &str, when: DateTime) -> IssueTimelineItems {
    IssueTimelineItems::UnlabelledEvent(UnlabeledEvent {
        label: Label { name: name.to_string() },
        created_at: when,
    })
}

fn timeline(nodes: Vec<IssueTimelineItems>, more: bool) -> TooOldLabelIssueTimelineItemsConnection {
    TooOldLabelIssueTimelineItemsConnection {
        total_count: nodes.len() as i32,
        page_info: PageInfo {
            has_next_page: more,
            end_cursor: if more { Some("next".to_string()) } else { None },
        },
        nodes,
    }
}

fn issue(
    number: i32,
    created: DateTime,
    labels: &[&str],
    comments: &[DateTime],
    events: Option<TooOldLabelIssueTimelineItemsConnection>,
) -> TooOldLabelIssue {
    TooOldLabelIssue {
        number,
        created_at: created,
        url: Uri(format!("https://github.com/rust-lang/rust/issues/{}", number)),
        title: format!("issue {}", number),
        labels: Some(LabelConnection {
            nodes: labels.iter().map(|name| Label { name: name.to_string() }).collect(),
        }),
        comments: IssueCommentConnection {
            total_count: comments.len() as i32,
            nodes: comments
                .iter()
                .map(|when| IssueComment { author: None, created_at: *when })
                .collect(),
        },
        timeline_items: events,
    }
}

fn verdict_of(outcome: Result<Classification, TriageError>) -> (i64, i64, i64) {
    match outcome {
        Ok(Classification::Assessed(v)) => (
            v.label_age.num_seconds(),
            v.activity_age.num_seconds(),
            v.time_until_eligible.num_seconds(),
        ),
        other => panic!("not assessed, but {:?}", other),
    }
}

#[test]
fn recent_comment_binds_and_leaves_eighty_days() {
    let subject = issue(
        1,
        days_ago(400),
        &["E-needs-mcve"],
        &[days_ago(10)],
        Some(timeline(vec![labeled("E-needs-mcve", days_ago(200))], false)),
    );
    let outcome = classify(&subject, "E-needs-mcve", Duration::days(90), "triaged", &at(NOW));
    match outcome {
        Ok(Classification::Assessed(v)) => {
            assert_eq!(v.number, 1);
            assert_eq!(v.url.0, "https://github.com/rust-lang/rust/issues/1");
            assert_eq!(v.title, "issue 1");
            assert_eq!(v.label_age.num_days(), 200);
            assert_eq!(v.activity_age.num_days(), 10);
            assert_eq!(v.time_until_eligible.num_seconds(), 80 * DAY);
            assert_eq!(v.time_until_eligible.num_days(), 80);
            assert!(!v.is_eligible());
            assert_eq!(v.decision(), Decision::Wait { days: 80 });
        }
        other => panic!("not assessed, but {:?}", other),
    }
}

#[test]
fn never_commented_issue_goes_by_its_creation() {
    let subject = issue(
        2,
        days_ago(200),
        &["E-needs-mcve"],
        &[],
        Some(timeline(vec![labeled("E-needs-mcve", days_ago(150))], false)),
    );
    let outcome = classify(&subject, "E-needs-mcve", Duration::days(90), "triaged", &at(NOW));
    match outcome {
        Ok(Classification::Assessed(v)) => {
            assert_eq!(v.activity_age.num_days(), 200);
            assert_eq!(v.label_age.num_days(), 150);
            assert_eq!(v.time_until_eligible.num_seconds(), -60 * DAY);
            assert!(v.is_eligible());
            assert_eq!(v.decision(), Decision::CloseNow);
        }
        other => panic!("not assessed, but {:?}", other),
    }
}

#[test]
fn triaged_label_excludes_whatever_the_ages() {
    let old = issue(
        3,
        days_ago(4000),
        &["E-needs-mcve", "S-waiting-on-review-Triaged"],
        &[],
        Some(timeline(vec![labeled("E-needs-mcve", days_ago(3000))], false)),
    );
    let outcome = classify(&old, "E-needs-mcve", Duration::days(90), "triaged", &at(NOW));
    assert!(matches!(outcome, Ok(Classification::Excluded)));
    assert!(!filter_excluded_labels(&old, "triaged"));

    let young = issue(
        3,
        days_ago(1),
        &["S-waiting-on-review-Triaged"],
        &[days_ago(0)],
        Some(timeline(vec![labeled("E-needs-mcve", days_ago(1))], false)),
    );
    let outcome = classify(&young, "E-needs-mcve", Duration::days(90), "triaged", &at(NOW));
    assert!(matches!(outcome, Ok(Classification::Excluded)));
}

#[test]
fn exclusion_comes_before_a_broken_timeline() {
    let subject = issue(3, days_ago(400), &["I-triaged"], &[], Some(timeline(vec![], true)));
    let outcome = classify(&subject, "E-needs-mcve", Duration::days(90), "triaged", &at(NOW));
    assert!(matches!(outcome, Ok(Classification::Excluded)));
}

#[test]
fn truncated_timeline_is_never_guessed() {
    let mut events = Vec::new();
    for i in 0..250 {
        events.push(labeled("E-needs-mcve", days_ago(1000 - i)));
    }
    let subject = issue(4, days_ago(2000), &["E-needs-mcve"], &[], Some(timeline(events, true)));
    let now = at(NOW);
    let outcome = classify(&subject, "E-needs-mcve", Duration::days(90), "triaged", &now);
    assert!(matches!(outcome, Err(TriageError::LabelHistoryTruncated)));
    assert!(matches!(
        issue_label_age(&subject, "E-needs-mcve", &now),
        Err(TriageError::LabelHistoryTruncated)
    ));
    assert!(!filter_label_age(&subject, "E-needs-mcve", Duration::days(90), &now));

    let report = triage_old_label(&vec![subject], "E-needs-mcve", "triaged", Duration::days(90), &now);
    assert!(report.verdicts.is_empty());
    assert_eq!(report.skipped.len(), 1);
    assert_eq!(report.skipped[0].number, 4);
    assert_eq!(report.skipped[0].url.0, "https://github.com/rust-lang/rust/issues/4");
    assert!(matches!(report.skipped[0].reason, TriageError::LabelHistoryTruncated));
}

#[test]
fn label_age_goes_by_the_last_application() {
    let events = vec![
        labeled("E-needs-mcve", days_ago(300)),
        unlabeled("E-needs-mcve", days_ago(250)),
        labeled("E-needs-mcve", days_ago(100)),
        unlabeled("E-needs-mcve", days_ago(50)),
        labeled("other", days_ago(45)),
        labeled("E-needs-mcve", days_ago(40)),
        unlabeled("other", days_ago(5)),
        IssueTimelineItems::Other,
    ];
    let age = label_age(&events, "E-needs-mcve", &at(NOW)).unwrap();
    assert_eq!(age.num_seconds(), 40 * DAY);
    assert_eq!(age.num_days(), 40);
}

#[test]
fn label_age_of_a_single_application() {
    let events = vec![labeled("E-needs-mcve", at(NOW - 12_345))];
    let age = label_age(&events, "E-needs-mcve", &at(NOW)).unwrap();
    assert_eq!(age.num_seconds(), 12_345);
}

#[test]
fn label_age_is_negative_for_an_application_to_come() {
    let events = vec![labeled("E-needs-mcve", at(NOW + 7))];
    let age = label_age(&events, "E-needs-mcve", &at(NOW)).unwrap();
    assert_eq!(age.num_seconds(), -7);
}

#[test]
fn label_names_are_compared_exactly() {
    let events = vec![
        labeled("e-needs-mcve", days_ago(3)),
        labeled("E-needs-mcve-2", days_ago(2)),
        unlabeled("E-needs-mcve", days_ago(1)),
    ];
    assert!(matches!(
        label_age(&events, "E-needs-mcve", &at(NOW)),
        Err(TriageError::LabelHistoryInconsistent)
    ));
}

#[test]
fn label_never_applied_is_inconsistent() {
    let none: Vec<IssueTimelineItems> = Vec::new();
    assert!(matches!(
        label_age(&none, "E-needs-mcve", &at(NOW)),
        Err(TriageError::LabelHistoryInconsistent)
    ));
    let subject = issue(
        5,
        days_ago(400),
        &["E-needs-mcve"],
        &[],
        Some(timeline(vec![labeled("other", days_ago(200)), IssueTimelineItems::Other], false)),
    );
    let outcome = classify(&subject, "E-needs-mcve", Duration::days(90), "triaged", &at(NOW));
    assert!(matches!(outcome, Err(TriageError::LabelHistoryInconsistent)));
}

#[test]
fn missing_timeline_is_inconsistent() {
    let subject = issue(6, days_ago(400), &["E-needs-mcve"], &[], None);
    let now = at(NOW);
    assert!(matches!(
        issue_label_age(&subject, "E-needs-mcve", &now),
        Err(TriageError::LabelHistoryInconsistent)
    ));
    assert!(!filter_label_age(&subject, "E-needs-mcve", Duration::days(0), &now));
    let outcome = classify(&subject, "E-needs-mcve", Duration::days(90), "triaged", &now);
    assert!(matches!(outcome, Err(TriageError::LabelHistoryInconsistent)));
}

#[test]
fn ages_that_just_reach_the_minimum_are_old_enough() {
    let subject = issue(
        7,
        days_ago(500),
        &["E-needs-mcve"],
        &[days_ago(90)],
        Some(timeline(vec![labeled("E-needs-mcve", days_ago(90))], false)),
    );
    let now = at(NOW);
    let min = Duration::days(90);
    assert!(filter_last_comment_age(&subject, min, &now));
    assert!(filter_label_age(&subject, "E-needs-mcve", min, &now));
    assert_eq!(verdict_of(classify(&subject, "E-needs-mcve", min, "triaged", &now)), (90 * DAY, 90 * DAY, 0));

    let later = at(NOW - 1);
    assert!(!filter_last_comment_age(&subject, min, &later));
    assert!(!filter_label_age(&subject, "E-needs-mcve", min, &later));
    assert_eq!(
        verdict_of(classify(&subject, "E-needs-mcve", min, "triaged", &later)),
        (90 * DAY - 1, 90 * DAY - 1, 1)
    );
}

#[test]
fn young_label_binds_when_the_comment_is_old() {
    let subject = issue(
        8,
        days_ago(500),
        &["E-needs-mcve"],
        &[days_ago(300)],
        Some(timeline(vec![labeled("E-needs-mcve", days_ago(30))], false)),
    );
    let now = at(NOW);
    let min = Duration::days(90);
    assert!(filter_last_comment_age(&subject, min, &now));
    assert!(!filter_label_age(&subject, "E-needs-mcve", min, &now));
    assert_eq!(
        verdict_of(classify(&subject, "E-needs-mcve", min, "triaged", &now)),
        (30 * DAY, 300 * DAY, 60 * DAY)
    );
}

#[test]
fn both_ages_old_means_no_time_left() {
    let subject = issue(
        9,
        days_ago(900),
        &["E-needs-mcve"],
        &[days_ago(120)],
        Some(timeline(vec![labeled("E-needs-mcve", days_ago(100))], false)),
    );
    let (label, activity, left) =
        verdict_of(classify(&subject, "E-needs-mcve", Duration::days(90), "triaged", &at(NOW)));
    assert_eq!(label, 100 * DAY);
    assert_eq!(activity, 120 * DAY);
    assert_eq!(left, -10 * DAY);
}

#[test]
fn last_comment_is_the_one_that_counts() {
    let subject = issue(
        10,
        days_ago(900),
        &["E-needs-mcve"],
        &[days_ago(700), days_ago(20), days_ago(3)],
        Some(timeline(vec![labeled("E-needs-mcve", days_ago(100))], false)),
    );
    assert_eq!(last_comment_age(&subject, &at(NOW)).num_seconds(), 3 * DAY);
}

#[test]
fn excluded_labels_ignore_letter_case_on_both_sides() {
    let subject = issue(11, days_ago(1), &["A-foo", "I-TRIAGED-by-team"], &[], None);
    assert!(!filter_excluded_labels(&subject, "triaged"));
    assert!(!filter_excluded_labels(&subject, "Triaged"));
    assert!(!filter_excluded_labels(&subject, "TRIAGED-BY"));
    assert!(filter_excluded_labels(&subject, "triage-d"));
    assert!(filter_excluded_labels(&subject, "triagedd"));
}

#[test]
fn issue_without_matching_label_passes_the_exclusion() {
    let subject = issue(12, days_ago(1), &["A-foo", "E-needs-mcve"], &[], None);
    assert!(filter_excluded_labels(&subject, "triaged"));
    let bare = issue(12, days_ago(1), &[], &[], None);
    assert!(filter_excluded_labels(&bare, "triaged"));
    assert!(filter_excluded_labels(&bare, ""));
    let mut unlisted = issue(12, days_ago(1), &[], &[], None);
    unlisted.labels = None;
    assert!(filter_excluded_labels(&unlisted, "triaged"));
    assert!(lowered_label_names(&unlisted).is_empty());
}

#[test]
fn empty_fragment_matches_every_label() {
    let subject = issue(13, days_ago(1), &["A-foo"], &[], None);
    assert!(!filter_excluded_labels(&subject, ""));
}

#[test]
fn label_names_are_lowered_in_order() {
    let subject = issue(14, days_ago(1), &["A-Foo", "ÄÖ-Ü", "straße"], &[], None);
    assert_eq!(lowered_label_names(&subject), vec!["a-foo", "äö-ü", "straße"]);
}

#[test]
fn triage_ranks_the_measured_and_lists_the_skipped() {
    let now = at(NOW);
    let issues = vec![
        issue(
            20,
            days_ago(400),
            &["E-needs-mcve"],
            &[days_ago(10)],
            Some(timeline(vec![labeled("E-needs-mcve", days_ago(200))], false)),
        ),
        issue(21, days_ago(400), &["E-needs-mcve"], &[], None),
        issue(
            22,
            days_ago(200),
            &["E-needs-mcve"],
            &[],
            Some(timeline(vec![labeled("E-needs-mcve", days_ago(150))], false)),
        ),
        issue(
            23,
            days_ago(2000),
            &["E-needs-mcve", "triaged"],
            &[],
            Some(timeline(vec![labeled("E-needs-mcve", days_ago(1500))], false)),
        ),
        issue(
            24,
            days_ago(2000),
            &["E-needs-mcve"],
            &[],
            Some(timeline(vec![labeled("E-needs-mcve", days_ago(1500))], true)),
        ),
        issue(
            25,
            days_ago(1000),
            &["E-needs-mcve"],
            &[days_ago(500)],
            Some(timeline(vec![labeled("E-needs-mcve", days_ago(800))], false)),
        ),
    ];
    let report = triage_old_label(&issues, "E-needs-mcve", "triaged", Duration::days(90), &now);
    let ranked: Vec<(i32, i64)> = report
        .verdicts
        .iter()
        .map(|v| (v.number, v.time_until_eligible.num_days()))
        .collect();
    assert_eq!(ranked, vec![(25, -410), (22, -60), (20, 80)]);
    let decisions: Vec<Decision> = report.verdicts.iter().map(|v| v.decision()).collect();
    assert_eq!(
        decisions,
        vec![Decision::CloseNow, Decision::CloseNow, Decision::Wait { days: 80 }]
    );
    let skipped: Vec<i32> = report.skipped.iter().map(|s| s.number).collect();
    assert_eq!(skipped, vec![21, 24]);
    assert!(matches!(report.skipped[0].reason, TriageError::LabelHistoryInconsistent));
    assert!(matches!(report.skipped[1].reason, TriageError::LabelHistoryTruncated));
}

#[test]
fn triage_of_no_issues_is_empty() {
    let report = triage_old_label(&Vec::new(), "E-needs-mcve", "triaged", Duration::days(90), &at(NOW));
    assert!(report.verdicts.is_empty());
    assert!(report.skipped.is_empty());
}

#[test]
fn largest_minimum_age_still_gives_the_exact_time_left() {
    let subject = issue(
        30,
        at(0),
        &["E-needs-mcve"],
        &[at(NOW + 10)],
        Some(timeline(vec![labeled("E-needs-mcve", at(NOW - 5))], false)),
    );
    let min = Duration::try_seconds(MAX_MINIMUM_AGE_SECS).unwrap();
    assert!(min.is_minimum_age());
    let (label, activity, left) = verdict_of(classify(&subject, "E-needs-mcve", min, "x", &at(NOW)));
    assert_eq!(label, 5);
    assert_eq!(activity, -10);
    assert_eq!(left, MAX_MINIMUM_AGE_SECS + 10);
}
