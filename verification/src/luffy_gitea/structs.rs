//! The records that Gitea sends inside its web hook payloads.
use vstd::prelude::*;

verus! {

/// A date and time as Gitea writes it, e.g. "2017-03-13T13:52:11-04:00".
pub type DateTimeType = String;

/// The author or committer of a git commit.
#[derive(Debug, PartialEq)]
pub struct GitUser {
    pub name: String,
    pub email: String,
    pub username: String,
}

/// A Gitea account.
#[derive(Debug, PartialEq)]
pub struct GiteaUser {
    pub id: i64,
    pub login: String,
    pub full_name: String,
    pub email: String,
    pub avatar_url: String,
    pub username: String,
    pub language: String,
    pub is_admin: bool,
    pub last_login: DateTimeType,
    pub created: DateTimeType,
}

/// Gitea describes an organization with the same record as a user.
pub type Organization = GiteaUser;

/// A git commit.
#[derive(Debug, PartialEq)]
pub struct Commit {
    pub id: String,
    pub message: String,
    pub url: String,
    pub author: GitUser,
    pub committer: GitUser,
    pub timestamp: DateTimeType,
}

/// A milestone of issues and pull requests.
#[derive(Debug, PartialEq)]
pub struct Milestone {
    pub id: i64,
    pub title: String,
    pub description: String,
    pub state: String,
    pub open_issues: i32,
    pub closed_issues: i32,
    pub created_at: String,
    pub updated_at: String,
    pub closed_at: String,
    pub due_on: String,
}

/// A repository (JSON keys in brackets where they differ from the field).
#[derive(Debug, PartialEq)]
pub struct Repository {
    pub id: i64,
    pub owner: GiteaUser,
    pub name: String,
    pub full_name: String,
    pub description: String,
    /// ("empty")
    pub is_empty: bool,
    /// ("private")
    pub is_private: bool,
    /// ("fork")
    pub is_fork: bool,
    /// ("template")
    pub is_template: bool,
    pub parent: Option<Box<Repository>>,
    /// ("mirror")
    pub is_mirror: bool,
    /// ("size")
    pub size_mib: i32,
    pub html_url: String,
    pub ssh_url: String,
    pub clone_url: String,
    pub original_url: String,
    pub website: String,
    pub stars_count: i32,
    pub forks_count: i32,
    pub watchers_count: i32,
    pub open_issues_count: i32,
    pub open_pr_counter: i32,
    pub release_counter: i32,
    pub default_branch: String,
    /// ("archived")
    pub is_archived: bool,
    pub created_at: DateTimeType,
    pub updated_at: DateTimeType,
    pub permissions: Option<Permissions>,
    pub has_issues: bool,
    pub internal_tracker: Option<InternalTracker>,
    pub external_tracker: Option<ExternalTracker>,
    pub has_wiki: bool,
    pub external_wiki: Option<ExternalWiki>,
    pub has_pull_requests: bool,
    pub has_projects: bool,
    /// ("ignore_whitespace_conflicts")
    pub is_whitespace_conflict_ignored: bool,
    pub allow_merge_commits: bool,
    pub allow_rebase: bool,
    pub allow_rebase_explicit: bool,
    pub allow_squash_merge: bool,
    pub avatar_url: String,
    /// ("internal")
    pub is_internal: bool,
}

/// The settings of a repository's own issue tracker.
#[derive(Debug, PartialEq)]
pub struct InternalTracker {
    /// ("enable_time_tracker")
    pub is_enabled: bool,
    /// ("allow_only_contributors_to_track_time")
    pub is_contributor_only_time_tracking_enabled: bool,
    /// ("enable_issue_dependencies")
    pub is_issue_dependencies_enabled: bool,
}

/// An issue tracker outside Gitea.
#[derive(Debug, PartialEq)]
pub struct ExternalTracker {
    pub external_tracker_url: String,
    /// The URL format, with the placeholders {user}, {repo} and {index}.
    pub external_tracker_format: String,
    /// `numeric` or `alphanumeric`.
    pub external_tracker_style: String,
}

/// A wiki outside Gitea.
#[derive(Debug, PartialEq)]
pub struct ExternalWiki {
    /// ("external_wiki_url")
    pub url: String,
}

/// What the sender may do with a repository.
#[derive(Debug, PartialEq)]
pub struct Permissions {
    /// ("admin")
    pub has_admin: bool,
    /// ("push")
    pub has_push: bool,
    /// ("pull")
    pub has_pull: bool,
}

/// An issue.
#[derive(Debug, PartialEq)]
pub struct Issue {
    pub id: i64,
    /// ("url")
    pub api_url: String,
    pub html_url: String,
    pub number: i64,
    pub user: GiteaUser,
    pub original_author: String,
    pub original_author_id: i64,
    pub title: String,
    pub body: String,
    pub labels: Vec<String>,
    pub milestone: Option<Milestone>,
    pub assignee: Option<GiteaUser>,
    pub assignees: Option<Vec<GiteaUser>>,
    pub state: String,
    pub is_locked: bool,
    /// ("comments")
    pub comment_count: i32,
    pub created_at: DateTimeType,
    pub updated_at: DateTimeType,
    pub closed_at: Option<DateTimeType>,
    pub due_date: Option<DateTimeType>,
    /// ("pull_request")
    pub pull_request_meta: Option<PullRequestMeta>,
    /// ("repository")
    pub repository_meta: Option<RepositoryMeta>,
}

/// The pull request side of an issue.
#[derive(Debug, PartialEq)]
pub struct PullRequestMeta {
    /// ("merged")
    pub is_merged: bool,
    /// ("merged_at")
    pub time_merged: String,
}

/// The repository an issue belongs to.
#[derive(Debug, PartialEq)]
pub struct RepositoryMeta {
    pub id: i64,
    pub name: String,
    pub owner: String,
    pub full_name: String,
}

/// A comment on an issue or a pull request.
#[derive(Debug)]
pub struct Comment {
    pub id: i64,
    pub html_url: String,
    pub pull_request_url: String,
    pub issue_url: String,
    pub user: GiteaUser,
    pub original_author: String,
    pub original_author_id: i64,
    /// ("body")
    pub comment_text: String,
    pub created_at: DateTimeType,
    pub updated_at: DateTimeType,
}

/// What an edit changed: the earlier title, body or ref, where they changed.
#[derive(Debug)]
pub struct Changes {
    pub title: Option<ChangesFromPayload>,
    pub body: Option<ChangesFromPayload>,
    /// ("ref")
    pub ref_path: Option<ChangesFromPayload>,
}

/// An earlier value.
#[derive(Debug)]
pub struct ChangesFromPayload {
    pub from: String,
}

/// A release.
#[derive(Debug)]
pub struct Release {
    pub id: i64,
    pub tag_name: String,
    pub target_commitish: String,
    pub name: String,
    pub body: String,
    /// ("url")
    pub api_url: String,
    pub html_url: String,
    pub tarball_url: String,
    pub zipball_url: String,
    /// ("draft")
    pub is_draft: bool,
    /// ("prelease")
    pub is_prerelease: bool,
    pub created_at: DateTimeType,
    pub published_at: DateTimeType,
    pub author: GiteaUser,
    pub assets: Vec<Attachment>,
}

/// A file attached to a release.
#[derive(Debug)]
pub struct Attachment {
    pub id: i64,
    pub name: String,
    pub size: i64,
    pub download_count: i64,
    pub created_at: DateTimeType,
    pub uuid: String,
    pub browser_download_url: String,
}

/// A pull request.
#[derive(Debug)]
pub struct PullRequest {
    pub id: i64,
    pub url: String,
    pub number: i64,
    pub user: GiteaUser,
    pub title: String,
    pub body: String,
    pub milestone: Option<Milestone>,
    pub assignee: Option<GiteaUser>,
    pub assignees: Option<Vec<GiteaUser>>,
    pub state: String,
    pub is_locked: bool,
    /// ("comments")
    pub comment_count: i32,
    pub html_url: String,
    pub diff_url: String,
    pub patch_url: String,
    /// ("mergeable")
    pub is_mergeable: bool,
    /// ("merged")
    pub is_merged: bool,
    pub merged_at: Option<DateTimeType>,
    pub merge_commit_sha: Option<String>,
    pub merged_by: Option<GiteaUser>,
    pub base: Option<PRBranchInfo>,
    pub head: Option<PRBranchInfo>,
    pub merge_base: String,
    pub due_date: Option<DateTimeType>,
    pub created_at: Option<DateTimeType>,
    pub updated_at: Option<DateTimeType>,
    pub closed_at: Option<DateTimeType>,
}

/// One side (base or head) of a pull request.
#[derive(Debug)]
pub struct PRBranchInfo {
    pub label: String,
    /// ("ref")
    pub ref_path: String,
    pub sha: String,
    pub repo_id: i64,
    /// ("repo")
    pub repository: Repository,
}

} // verus!
