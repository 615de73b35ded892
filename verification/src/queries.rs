//! The shapes of the GitHub GraphQL queries about issues and pull requests.
//!
//! These are plain data: what a response carries once it has been decoded.
//! Instants are whole seconds since the epoch.

use vstd::prelude::*;

pub use crate::time::DateTime;

verus! {

/// Variables of the query for the pull requests reviewed least recently.
#[derive(Debug, Clone)]
pub struct LeastRecentlyReviewedPullRequestsArguments {
    pub repository_owner: String,
    pub repository_name: String,
    pub after: Option<String>,
}

#[derive(Debug)]
pub struct LeastRecentlyReviewedPullRequests {
    pub repository: Option<Repository>,
}

/// Variables of the query for the open issues that carry one label.
#[derive(Debug, Clone)]
pub struct TooOldLabelArguments {
    pub repository_owner: String,
    pub repository_name: String,
    pub label: String,
    /// An age in months. The query does not read it.
    pub threshold_in_months: i32,
    /// How many issues one page may hold.
    pub first: i32,
    /// The cursor to continue after; `None` asks for the first page.
    pub after: Option<String>,
}

#[derive(Debug)]
pub struct TooOldLabelIssuesQuery {
    pub repository: Option<TooOldLabelRepository>,
}

#[derive(Debug)]
pub struct TooOldLabelRepository {
    pub issues: TooOldLabelIssueConnection,
}

/// An open issue that carries the label asked for.
#[derive(Debug)]
pub struct TooOldLabelIssue {
    pub number: i32,
    pub created_at: DateTime,
    pub url: Uri,
    pub title: String,
    /// The labels on the issue now.
    pub labels: Option<LabelConnection>,
    /// The most recent comments, oldest first.
    pub comments: IssueCommentConnection,
    /// A window of the issue's timeline, oldest event first.
    pub timeline_items: Option<TooOldLabelIssueTimelineItemsConnection>,
}

/// An event on an issue's timeline.
#[derive(Debug)]
pub enum IssueTimelineItems {
    LabelledEvent(LabeledEvent),
    UnlabelledEvent(UnlabeledEvent),
    /// Any event of another kind.
    Other,
}

#[derive(Clone, Copy, Debug)]
pub enum IssueTimelineItemsItemType {
    AddedToProjectEvent,
    AssignedEvent,
    ClosedEvent,
    CommentDeletedEvent,
    ConnectedEvent,
    ConvertedNoteToIssueEvent,
    ConvertedToDiscussionEvent,
    CrossReferencedEvent,
    DemilestonedEvent,
    DisconnectedEvent,
    IssueComment,
    LabeledEvent,
    LockedEvent,
    MarkedAsDuplicateEvent,
    MentionedEvent,
    MilestonedEvent,
    MovedColumnsInProjectEvent,
    PinnedEvent,
    ReferencedEvent,
    RemovedFromProjectEvent,
    RenamedTitleEvent,
    ReopenedEvent,
    SubscribedEvent,
    TransferredEvent,
    UnassignedEvent,
    UnlabeledEvent,
    UnlockedEvent,
    UnmarkedAsDuplicateEvent,
    UnpinnedEvent,
    UnsubscribedEvent,
    UserBlockedEvent,
}

#[derive(Debug)]
pub struct TooOldLabelIssueTimelineItemsConnection {
    pub total_count: i32,
    pub page_info: PageInfo,
    pub nodes: Vec<IssueTimelineItems>,
}

#[derive(Debug)]
pub struct UnlabeledEvent {
    pub label: Label,
    pub created_at: DateTime,
}

#[derive(Debug)]
pub struct LabeledEvent {
    pub label: Label,
    pub created_at: DateTime,
}

#[derive(Debug)]
pub struct TooOldLabelIssueConnection {
    pub total_count: i32,
    pub page_info: PageInfo,
    pub nodes: Vec<TooOldLabelIssue>,
}

#[derive(Debug)]
pub struct Repository {
    pub pull_requests: PullRequestConnection,
}

#[derive(Debug)]
pub struct PullRequestConnection {
    pub total_count: i32,
    pub page_info: PageInfo,
    pub nodes: Vec<PullRequest>,
}

#[derive(Debug)]
pub struct PullRequest {
    pub number: i32,
    pub created_at: DateTime,
    pub url: Uri,
    pub title: String,
    pub labels: Option<LabelConnection>,
    pub is_draft: bool,
    pub assignees: UserConnection,
    pub comments: IssueCommentConnection,
    pub latest_reviews: Option<PullRequestReviewConnection>,
}

#[derive(Debug)]
pub struct PullRequestReviewConnection {
    pub total_count: i32,
    pub nodes: Vec<PullRequestReview>,
}

#[derive(Debug)]
pub struct PullRequestReview {
    pub author: Option<Actor>,
    pub created_at: DateTime,
}

#[derive(Debug)]
pub struct UserConnection {
    pub nodes: Vec<User>,
}

#[derive(Debug)]
pub struct User {
    pub login: String,
}

/// Where a page of a connection ends.
///
/// The cursor means something only while `has_next_page` is true.
#[derive(Debug)]
pub struct PageInfo {
    pub has_next_page: bool,
    pub end_cursor: Option<String>,
}

#[derive(Debug)]
pub struct LabelConnection {
    pub nodes: Vec<Label>,
}

#[derive(Debug)]
pub struct Label {
    pub name: String,
}

#[derive(Debug)]
pub struct IssueCommentConnection {
    pub total_count: i32,
    pub nodes: Vec<IssueComment>,
}

#[derive(Debug)]
pub struct IssueComment {
    pub author: Option<Actor>,
    pub created_at: DateTime,
}

#[derive(Debug)]
pub struct Actor {
    pub login: String,
}

#[derive(Debug, Clone)]
pub struct Uri(pub String);

} // verus!
