//! The shapes of the GitHub GraphQL query for the recent commits of a branch
//! and the pull requests they came from.

use vstd::prelude::*;

use crate::queries::{DateTime, PageInfo};

verus! {

#[derive(Clone, Debug)]
pub struct RecentCommitsArguments {
    pub branch: String,
    pub name: String,
    pub owner: String,
    pub after: Option<String>,
}

/// The recent commits of a branch, each with its first parent and the pull
/// request it belongs to.
#[derive(Debug)]
pub struct RecentCommits {
    pub repository: Option<Repository>,
}

#[derive(Debug)]
pub struct Repository {
    pub ref_: Option<Ref>,
}

#[derive(Debug)]
pub struct Ref {
    pub target: Option<GitObject>,
}

#[derive(Debug)]
pub struct Commit {
    pub history: CommitHistoryConnection,
}

#[derive(Debug)]
pub struct CommitHistoryConnection {
    pub total_count: i32,
    pub page_info: PageInfo,
    pub nodes: Vec<Commit2>,
}

#[derive(Debug)]
pub struct Commit2 {
    pub oid: GitObjectID,
    pub parents: CommitConnection,
    pub committed_date: DateTime,
    pub message_headline: String,
    pub associated_pull_requests: Option<PullRequestConnection>,
}

#[derive(Debug)]
pub struct PullRequestConnection {
    pub nodes: Vec<PullRequest>,
}

#[derive(Debug)]
pub struct PullRequest {
    pub number: i32,
    pub title: String,
}

#[derive(Debug)]
pub struct CommitConnection {
    pub nodes: Vec<Commit3>,
}

#[derive(Debug)]
pub struct Commit3 {
    pub oid: GitObjectID,
}

#[derive(Debug)]
pub enum GitObject {
    Commit(Commit),
    /// Any object that is no commit.
    Other,
}

#[derive(Debug, Clone)]
pub struct GitObjectID(pub String);

} // verus!
