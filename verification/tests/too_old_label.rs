use automatic_triage::queries::{
    DateTime, IssueComment, IssueCommentConnection, IssueTimelineItems, Label, LabeledEvent,
    PageInfo, TooOldLabelIssue, TooOldLabelIssueTimelineItemsConnection, Uri,
};
use automatic_triage::time::Duration;
use automatic_triage::too_old_label::{issues_with_minimum_label_and_last_comment_age, TooOldLabel};

const DAY: i64 = 86_400;
const NOW: i64 = 1_700_000_000;

fn days_ago(days: i64) -> DateTime {
    DateTime::from_timestamp(NOW - days * DAY).unwrap()
}

/// An issue labeled `labeled` days ago and last commented `commented` days ago.
fn candidate(number: i32, labeled: i64, commented: i64, more: bool) -> TooOldLabelIssue {
    TooOldLabelIssue {
        number,
        created_at: days_ago(5000),
        url: Uri(format!("https://example.org/{}", number)),
        title: format!("issue {}", number),
        labels: None,
        comments: IssueCommentConnection {
            total_count: 1,
            nodes: vec![IssueComment { author: None, created_at: days_ago(commented) }],
        },
        timeline_items: Some(TooOldLabelIssueTimelineItemsConnection {
            total_count: 1,
            page_info: PageInfo { has_next_page: more, end_cursor: None },
            nodes: vec![IssueTimelineItems::LabelledEvent(LabeledEvent {
                label: Label { name: "T-needs-mcve".to_string() },
                created_at: days_ago(labeled),
            })],
        }),
    }
}

#[test]
fn issues_old_in_both_ages_are_kept_in_order() {
    let issues = vec![
        candidate(1, 100, 100, false),
        candidate(2, 10, 100, false),
        candidate(3, 100, 10, false),
        candidate(4, 28, 28, false),
        candidate(5, 100, 100, true),
        candidate(6, 27, 400, false),
        candidate(7, 400, 29, false),
    ];
    let now = DateTime::from_timestamp(NOW).unwrap();
    let kept =
        issues_with_minimum_label_and_last_comment_age(issues, "T-needs-mcve", Duration::days(28), &now);
    let numbers: Vec<i32> = kept.iter().map(|i| i.number).collect();
    assert_eq!(numbers, vec![1, 4, 7]);
    assert_eq!(kept[1].title, "issue 4");
}

#[test]
fn other_label_keeps_nothing() {
    let issues = vec![candidate(1, 100, 100, false)];
    let now = DateTime::from_timestamp(NOW).unwrap();
    let kept = issues_with_minimum_label_and_last_comment_age(issues, "other", Duration::days(28), &now);
    assert!(kept.is_empty());
    let none =
        issues_with_minimum_label_and_last_comment_age(Vec::new(), "other", Duration::days(28), &now);
    assert!(none.is_empty());
}

#[test]
fn label_is_too_old_from_its_age_on() {
    let rule = TooOldLabel {
        name: "T-needs-mcve".to_string(),
        age_considered_too_old: Duration::days(28),
    };
    let now = DateTime::from_timestamp(NOW).unwrap();
    assert!(rule.is_too_old_on(&candidate(1, 28, 28, false), &now));
    assert!(rule.is_too_old_on(&candidate(1, 500, 29, false), &now));
    assert!(!rule.is_too_old_on(&candidate(1, 27, 500, false), &now));
    assert!(!rule.is_too_old_on(&candidate(1, 500, 27, false), &now));
    assert!(!rule.is_too_old_on(&candidate(1, 500, 500, true), &now));
    let other = TooOldLabel { name: "t-needs-mcve".to_string(), age_considered_too_old: Duration::days(28) };
    assert!(!other.is_too_old_on(&candidate(1, 500, 500, false), &now));
}
