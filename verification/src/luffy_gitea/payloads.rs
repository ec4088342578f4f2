//! The bodies of Gitea's web hook requests, one record per event type.
use vstd::prelude::*;
use crate::luffy_gitea::structs::{Changes, Comment, Commit, GiteaUser, Issue, Organization, PullRequest, Release, Repository};

verus! {

/// A branch or tag was created.
#[derive(Debug)]
pub struct CreatePayload {
    pub sha: String,
    /// ("ref")
    pub ref_path: String,
    pub ref_type: String,
    pub repository: Repository,
    pub sender: GiteaUser,
}

/// A branch or tag was deleted.
#[derive(Debug)]
pub struct DeletePayload {
    /// ("ref")
    pub ref_path: String,
    pub ref_type: String,
    /// "user"
    pub pusher_type: String,
    pub repository: Repository,
    pub sender: GiteaUser,
}

/// A repository was forked.
#[derive(Debug)]
pub struct ForkPayload {
    pub forkee: Repository,
    /// ("repo")
    pub repository: Repository,
    pub sender: GiteaUser,
}

/// An issue was opened, edited, closed, ...
#[derive(Debug)]
pub struct IssuePayload {
    pub number: i64,
    /// "opened", ...
    pub action: String,
    pub changes: Option<Changes>,
    pub issue: Issue,
    pub repository: Repository,
    pub sender: GiteaUser,
}

/// A comment on an issue was created, edited or deleted.
#[derive(Debug)]
pub struct IssueCommentPayload {
    /// "created", ...
    pub action: String,
    pub issue: Issue,
    pub comment: Comment,
    pub changes: Option<Changes>,
    pub repository: Repository,
    pub sender: GiteaUser,
    pub is_pull: bool,
}

/// Commits were pushed.
#[derive(Debug, PartialEq)]
pub struct PushPayload {
    /// ("ref")
    pub ref_path: String,
    /// The commit hash before the push.
    pub before: String,
    /// The commit hash after the push.
    pub after: String,
    pub compare_url: String,
    pub commits: Vec<Commit>,
    pub head_commit: Option<Commit>,
    pub repository: Repository,
    pub pusher: GiteaUser,
    pub sender: GiteaUser,
}

/// A pull request was opened, edited, closed, ...
#[derive(Debug)]
pub struct PullRequestPayload {
    pub action: String,
    pub number: i64,
    pub changes: Option<Changes>,
    pub pull_request: PullRequest,
    pub repository: Repository,
    pub sender: GiteaUser,
}

/// A repository was created or deleted.
#[derive(Debug)]
pub struct RepositoryPayload {
    pub action: String,
    pub repository: Repository,
    pub organization: Organization,
    pub sender: GiteaUser,
}

/// A release was published, updated or deleted.
#[derive(Debug)]
pub struct ReleasePayload {
    pub action: String,
    pub release: Release,
    pub repository: Repository,
    pub sender: GiteaUser,
}

} // verus!
