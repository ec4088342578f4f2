//! Gitea's web hook events as eighteen event types, of
//! which only a push carries its payload.
use vstd::prelude::*;
use vstd::string::*;
use crate::text::text_eq;

verus! {

/// The author or committer of a git commit.
#[derive(Debug, PartialEq)]
pub struct GitUser {
    pub name: String,
    pub email: String,
    pub username: String,
}

/// A Gitea account.
#[derive(Debug, PartialEq)]
pub struct GiteaUser {
    pub id: u32,
    pub login: String,
    pub full_name: String,
    pub email: String,
    pub avatar_url: String,
    pub username: String,
}

/// A git commit.
#[derive(Debug, PartialEq)]
pub struct Commit {
    pub id: String,
    pub message: String,
    pub url: String,
    pub author: GitUser,
    pub committer: GitUser,
    pub timestamp: String,
}

/// A repository.
#[derive(Debug, PartialEq)]
pub struct Repository {
    pub id: u32,
    pub owner: GiteaUser,
    pub name: String,
    pub full_name: String,
    pub description: String,
    pub private: bool,
    pub fork: bool,
    pub html_url: String,
    pub ssh_url: String,
    pub clone_url: String,
    pub website: String,
    pub stars_count: u32,
    pub forks_count: u32,
    pub watchers_count: u32,
    pub open_issues_count: u32,
    pub default_branch: String,
    pub created_at: String,
    pub updated_at: String,
}

/// Commits were pushed.
#[derive(Debug, PartialEq)]
pub struct PushEvent {
    /// ("ref")
    pub ref_path: String,
    pub before: String,
    pub after: String,
    pub compare_url: String,
    pub commits: Vec<Commit>,
    pub repository: Repository,
    pub pusher: GiteaUser,
    pub sender: GiteaUser,
}

/// A branch or tag was created.
#[derive(Debug)]
pub struct CreateEvent;

/// A branch or tag was deleted.
#[derive(Debug)]
pub struct DeleteEvent;

/// A repository was forked.
#[derive(Debug)]
pub struct ForkEvent;

/// An issue changed.
#[derive(Debug)]
pub struct IssuesEvent;

/// An issue was assigned.
#[derive(Debug)]
pub struct IssueAssignEvent;

/// An issue's labels changed.
#[derive(Debug)]
pub struct IssueLabelEvent;

/// An issue's milestone changed.
#[derive(Debug)]
pub struct IssueMilestoneEvent;

/// A comment on an issue changed.
#[derive(Debug)]
pub struct IssueCommentEvent;

/// A pull request changed.
#[derive(Debug)]
pub struct PullRequestEvent;

/// A pull request was assigned.
#[derive(Debug)]
pub struct PullRequestAssignEvent;

/// A pull request's labels changed.
#[derive(Debug)]
pub struct PullRequestLabelEvent;

/// A pull request's milestone changed.
#[derive(Debug)]
pub struct PullRequestMilestoneEvent;

/// A comment on a pull request changed.
#[derive(Debug)]
pub struct PullRequestCommentEvent;

/// A pull request was reviewed.
#[derive(Debug)]
pub struct PullRequestReviewEvent;

/// A pull request was synchronized with its branch.
#[derive(Debug)]
pub struct PullRequestSyncEvent;

/// A repository was created or deleted.
#[derive(Debug)]
pub struct RepositoryEvent;

/// A release changed.
#[derive(Debug)]
pub struct ReleaseEvent;

/// A web hook event; only a push carries its payload.
#[derive(Debug)]
pub enum HookEvent {
    Create(CreateEvent),
    Delete(DeleteEvent),
    Fork(ForkEvent),
    Issues(IssuesEvent),
    IssueAssign(IssueAssignEvent),
    IssueLabel(IssueLabelEvent),
    IssueMilestone(IssueMilestoneEvent),
    IssueComment(IssueCommentEvent),
    Push(PushEvent),
    PullRequest(PullRequestEvent),
    PullRequestAssign(PullRequestAssignEvent),
    PullRequestLabel(PullRequestLabelEvent),
    PullRequestMilestone(PullRequestMilestoneEvent),
    PullRequestComment(PullRequestCommentEvent),
    PullRequestReview(PullRequestReviewEvent),
    PullRequestSync(PullRequestSyncEvent),
    Repository(RepositoryEvent),
    Release(ReleaseEvent),
}

/// The request header in which Gitea names the event type; only Gitea's
/// events are read.
pub const PUSH_EVENT_HEADER_NAME: &'static str = "X-Gitea-Event";

/// Gitea as a source of web hook events.
pub struct Gitea;

/// The header value by which Gitea names the type of an event.
pub open spec fn header_name(event: HookEvent) -> Seq<char> {
    match event {
        HookEvent::Create(_) => "create"@,
        HookEvent::Delete(_) => "delete"@,
        HookEvent::Fork(_) => "fork"@,
        HookEvent::Issues(_) => "issues"@,
        HookEvent::IssueAssign(_) => "issue_assign"@,
        HookEvent::IssueLabel(_) => "issue_label"@,
        HookEvent::IssueMilestone(_) => "issue_milestone"@,
        HookEvent::IssueComment(_) => "issue_comment"@,
        HookEvent::Push(_) => "push"@,
        HookEvent::PullRequest(_) => "pull_request"@,
        HookEvent::PullRequestAssign(_) => "pull_request_assign"@,
        HookEvent::PullRequestLabel(_) => "pull_request_label"@,
        HookEvent::PullRequestMilestone(_) => "pull_request_milestone"@,
        HookEvent::PullRequestComment(_) => "pull_request_comment"@,
        HookEvent::PullRequestReview(_) => "pull_request_review"@,
        HookEvent::PullRequestSync(_) => "pull_request_sync"@,
        HookEvent::Repository(_) => "repository"@,
        HookEvent::Release(_) => "release"@,
    }
}

/// The event that a header value other than "push" names, if it names one.
pub open spec fn unit_event(name: Seq<char>) -> Option<HookEvent> {
    if name == "create"@ {
        Some(HookEvent::Create(CreateEvent))
    } else if name == "delete"@ {
        Some(HookEvent::Delete(DeleteEvent))
    } else if name == "fork"@ {
        Some(HookEvent::Fork(ForkEvent))
    } else if name == "issues"@ {
        Some(HookEvent::Issues(IssuesEvent))
    } else if name == "issue_assign"@ {
        Some(HookEvent::IssueAssign(IssueAssignEvent))
    } else if name == "issue_label"@ {
        Some(HookEvent::IssueLabel(IssueLabelEvent))
    } else if name == "issue_milestone"@ {
        Some(HookEvent::IssueMilestone(IssueMilestoneEvent))
    } else if name == "issue_comment"@ {
        Some(HookEvent::IssueComment(IssueCommentEvent))
    } else if name == "pull_request"@ {
        Some(HookEvent::PullRequest(PullRequestEvent))
    } else if name == "pull_request_assign"@ {
        Some(HookEvent::PullRequestAssign(PullRequestAssignEvent))
    } else if name == "pull_request_label"@ {
        Some(HookEvent::PullRequestLabel(PullRequestLabelEvent))
    } else if name == "pull_request_milestone"@ {
        Some(HookEvent::PullRequestMilestone(PullRequestMilestoneEvent))
    } else if name == "pull_request_comment"@ {
        Some(HookEvent::PullRequestComment(PullRequestCommentEvent))
    } else if name == "pull_request_review"@ {
        Some(HookEvent::PullRequestReview(PullRequestReviewEvent))
    } else if name == "pull_request_sync"@ {
        Some(HookEvent::PullRequestSync(PullRequestSyncEvent))
    } else if name == "repository"@ {
        Some(HookEvent::Repository(RepositoryEvent))
    } else if name == "release"@ {
        Some(HookEvent::Release(ReleaseEvent))
    } else {
        None
    }
}

/// What a push request comes to once its body has been read.
pub open spec fn push_settled(decoded: Result<PushEvent, String>) -> Result<HookEvent, String> {
    match decoded {
        Ok(push) => Ok(HookEvent::Push(push)),
        Err(message) => Err(message),
    }
}

/// Each header value selects the event type of that name: the event that a
/// value other than "push" selects is named by that value, and is no push.
pub proof fn lemma_unit_event_named(name: Seq<char>)
    ensures
        unit_event(name) matches Some(event) ==> header_name(event) == name && !(event is Push),
{
}

/// Each event type other than a push is selected by its own header value, and by
/// no other: the header value of such an event selects that very event.
pub proof fn lemma_unit_event_selects(event: HookEvent)
    requires
        !(event is Push),
    ensures
        unit_event(header_name(event)) == Some(event),
{
    reveal_strlit("create");
    reveal_strlit("delete");
    reveal_strlit("fork");
    reveal_strlit("issues");
    reveal_strlit("issue_assign");
    reveal_strlit("issue_label");
    reveal_strlit("issue_milestone");
    reveal_strlit("issue_comment");
    reveal_strlit("push");
    reveal_strlit("pull_request");
    reveal_strlit("pull_request_assign");
    reveal_strlit("pull_request_label");
    reveal_strlit("pull_request_milestone");
    reveal_strlit("pull_request_comment");
    reveal_strlit("pull_request_review");
    reveal_strlit("pull_request_sync");
    reveal_strlit("repository");
    reveal_strlit("release");
    match event {
        HookEvent::Create(_) => {
        },
        HookEvent::Delete(_) => {
            assert("delete"@[0] != "create"@[0]);
        },
        HookEvent::Fork(_) => {
            assert("fork"@.len() != "create"@.len());
            assert("fork"@.len() != "delete"@.len());
        },
        HookEvent::Issues(_) => {
            assert("issues"@[0] != "create"@[0]);
            assert("issues"@[0] != "delete"@[0]);
            assert("issues"@.len() != "fork"@.len());
        },
        HookEvent::IssueAssign(_) => {
            assert("issue_assign"@.len() != "create"@.len());
            assert("issue_assign"@.len() != "delete"@.len());
            assert("issue_assign"@.len() != "fork"@.len());
            assert("issue_assign"@.len() != "issues"@.len());
        },
        HookEvent::IssueLabel(_) => {
            assert("issue_label"@.len() != "create"@.len());
            assert("issue_label"@.len() != "delete"@.len());
            assert("issue_label"@.len() != "fork"@.len());
            assert("issue_label"@.len() != "issues"@.len());
            assert("issue_label"@.len() != "issue_assign"@.len());
        },
        HookEvent::IssueMilestone(_) => {
            assert("issue_milestone"@.len() != "create"@.len());
            assert("issue_milestone"@.len() != "delete"@.len());
            assert("issue_milestone"@.len() != "fork"@.len());
            assert("issue_milestone"@.len() != "issues"@.len());
            assert("issue_milestone"@.len() != "issue_assign"@.len());
            assert("issue_milestone"@.len() != "issue_label"@.len());
        },
        HookEvent::IssueComment(_) => {
            assert("issue_comment"@.len() != "create"@.len());
            assert("issue_comment"@.len() != "delete"@.len());
            assert("issue_comment"@.len() != "fork"@.len());
            assert("issue_comment"@.len() != "issues"@.len());
            assert("issue_comment"@.len() != "issue_assign"@.len());
            assert("issue_comment"@.len() != "issue_label"@.len());
            assert("issue_comment"@.len() != "issue_milestone"@.len());
        },
        HookEvent::Push(_) => {},
        HookEvent::PullRequest(_) => {
            assert("pull_request"@.len() != "create"@.len());
            assert("pull_request"@.len() != "delete"@.len());
            assert("pull_request"@.len() != "fork"@.len());
            assert("pull_request"@.len() != "issues"@.len());
            assert("pull_request"@[0] != "issue_assign"@[0]);
            assert("pull_request"@.len() != "issue_label"@.len());
            assert("pull_request"@.len() != "issue_milestone"@.len());
            assert("pull_request"@.len() != "issue_comment"@.len());
        },
        HookEvent::PullRequestAssign(_) => {
            assert("pull_request_assign"@.len() != "create"@.len());
            assert("pull_request_assign"@.len() != "delete"@.len());
            assert("pull_request_assign"@.len() != "fork"@.len());
            assert("pull_request_assign"@.len() != "issues"@.len());
            assert("pull_request_assign"@.len() != "issue_assign"@.len());
            assert("pull_request_assign"@.len() != "issue_label"@.len());
            assert("pull_request_assign"@.len() != "issue_milestone"@.len());
            assert("pull_request_assign"@.len() != "issue_comment"@.len());
            assert("pull_request_assign"@.len() != "pull_request"@.len());
        },
        HookEvent::PullRequestLabel(_) => {
            assert("pull_request_label"@.len() != "create"@.len());
            assert("pull_request_label"@.len() != "delete"@.len());
            assert("pull_request_label"@.len() != "fork"@.len());
            assert("pull_request_label"@.len() != "issues"@.len());
            assert("pull_request_label"@.len() != "issue_assign"@.len());
            assert("pull_request_label"@.len() != "issue_label"@.len());
            assert("pull_request_label"@.len() != "issue_milestone"@.len());
            assert("pull_request_label"@.len() != "issue_comment"@.len());
            assert("pull_request_label"@.len() != "pull_request"@.len());
            assert("pull_request_label"@.len() != "pull_request_assign"@.len());
        },
        HookEvent::PullRequestMilestone(_) => {
            assert("pull_request_milestone"@.len() != "create"@.len());
            assert("pull_request_milestone"@.len() != "delete"@.len());
            assert("pull_request_milestone"@.len() != "fork"@.len());
            assert("pull_request_milestone"@.len() != "issues"@.len());
            assert("pull_request_milestone"@.len() != "issue_assign"@.len());
            assert("pull_request_milestone"@.len() != "issue_label"@.len());
            assert("pull_request_milestone"@.len() != "issue_milestone"@.len());
            assert("pull_request_milestone"@.len() != "issue_comment"@.len());
            assert("pull_request_milestone"@.len() != "pull_request"@.len());
            assert("pull_request_milestone"@.len() != "pull_request_assign"@.len());
            assert("pull_request_milestone"@.len() != "pull_request_label"@.len());
        },
        HookEvent::PullRequestComment(_) => {
            assert("pull_request_comment"@.len() != "create"@.len());
            assert("pull_request_comment"@.len() != "delete"@.len());
            assert("pull_request_comment"@.len() != "fork"@.len());
            assert("pull_request_comment"@.len() != "issues"@.len());
            assert("pull_request_comment"@.len() != "issue_assign"@.len());
            assert("pull_request_comment"@.len() != "issue_label"@.len());
            assert("pull_request_comment"@.len() != "issue_milestone"@.len());
            assert("pull_request_comment"@.len() != "issue_comment"@.len());
            assert("pull_request_comment"@.len() != "pull_request"@.len());
            assert("pull_request_comment"@.len() != "pull_request_assign"@.len());
            assert("pull_request_comment"@.len() != "pull_request_label"@.len());
            assert("pull_request_comment"@.len() != "pull_request_milestone"@.len());
        },
        HookEvent::PullRequestReview(_) => {
            assert("pull_request_review"@.len() != "create"@.len());
            assert("pull_request_review"@.len() != "delete"@.len());
            assert("pull_request_review"@.len() != "fork"@.len());
            assert("pull_request_review"@.len() != "issues"@.len());
            assert("pull_request_review"@.len() != "issue_assign"@.len());
            assert("pull_request_review"@.len() != "issue_label"@.len());
            assert("pull_request_review"@.len() != "issue_milestone"@.len());
            assert("pull_request_review"@.len() != "issue_comment"@.len());
            assert("pull_request_review"@.len() != "pull_request"@.len());
            assert("pull_request_review"@[13] != "pull_request_assign"@[13]);
            assert("pull_request_review"@.len() != "pull_request_label"@.len());
            assert("pull_request_review"@.len() != "pull_request_milestone"@.len());
            assert("pull_request_review"@.len() != "pull_request_comment"@.len());
        },
        HookEvent::PullRequestSync(_) => {
            assert("pull_request_sync"@.len() != "create"@.len());
            assert("pull_request_sync"@.len() != "delete"@.len());
            assert("pull_request_sync"@.len() != "fork"@.len());
            assert("pull_request_sync"@.len() != "issues"@.len());
            assert("pull_request_sync"@.len() != "issue_assign"@.len());
            assert("pull_request_sync"@.len() != "issue_label"@.len());
            assert("pull_request_sync"@.len() != "issue_milestone"@.len());
            assert("pull_request_sync"@.len() != "issue_comment"@.len());
            assert("pull_request_sync"@.len() != "pull_request"@.len());
            assert("pull_request_sync"@.len() != "pull_request_assign"@.len());
            assert("pull_request_sync"@.len() != "pull_request_label"@.len());
            assert("pull_request_sync"@.len() != "pull_request_milestone"@.len());
            assert("pull_request_sync"@.len() != "pull_request_comment"@.len());
            assert("pull_request_sync"@.len() != "pull_request_review"@.len());
        },
        HookEvent::Repository(_) => {
            assert("repository"@.len() != "create"@.len());
            assert("repository"@.len() != "delete"@.len());
            assert("repository"@.len() != "fork"@.len());
            assert("repository"@.len() != "issues"@.len());
            assert("repository"@.len() != "issue_assign"@.len());
            assert("repository"@.len() != "issue_label"@.len());
            assert("repository"@.len() != "issue_milestone"@.len());
            assert("repository"@.len() != "issue_comment"@.len());
            assert("repository"@.len() != "pull_request"@.len());
            assert("repository"@.len() != "pull_request_assign"@.len());
            assert("repository"@.len() != "pull_request_label"@.len());
            assert("repository"@.len() != "pull_request_milestone"@.len());
            assert("repository"@.len() != "pull_request_comment"@.len());
            assert("repository"@.len() != "pull_request_review"@.len());
            assert("repository"@.len() != "pull_request_sync"@.len());
        },
        HookEvent::Release(_) => {
            assert("release"@.len() != "create"@.len());
            assert("release"@.len() != "delete"@.len());
            assert("release"@.len() != "fork"@.len());
            assert("release"@.len() != "issues"@.len());
            assert("release"@.len() != "issue_assign"@.len());
            assert("release"@.len() != "issue_label"@.len());
            assert("release"@.len() != "issue_milestone"@.len());
            assert("release"@.len() != "issue_comment"@.len());
            assert("release"@.len() != "pull_request"@.len());
            assert("release"@.len() != "pull_request_assign"@.len());
            assert("release"@.len() != "pull_request_label"@.len());
            assert("release"@.len() != "pull_request_milestone"@.len());
            assert("release"@.len() != "pull_request_comment"@.len());
            assert("release"@.len() != "pull_request_review"@.len());
            assert("release"@.len() != "pull_request_sync"@.len());
            assert("release"@.len() != "repository"@.len());
        },
    }
}

impl Gitea {
    /// The request header in which Gitea names the event type.
    pub fn event_header_name(&self) -> (r: &'static str)
        ensures
            r@ == "X-Gitea-Event"@,
            r@ == PUSH_EVENT_HEADER_NAME@,
    {
        PUSH_EVENT_HEADER_NAME
    }

    /// The event that a header value other than "push" names, if it names one.
    pub fn unit_event(hook_event_type: &str) -> (r: Option<HookEvent>)
        ensures
            r == unit_event(hook_event_type@),
    {
        if text_eq(hook_event_type, "create") {
            Some(HookEvent::Create(CreateEvent))
        } else if text_eq(hook_event_type, "delete") {
            Some(HookEvent::Delete(DeleteEvent))
        } else if text_eq(hook_event_type, "fork") {
            Some(HookEvent::Fork(ForkEvent))
        } else if text_eq(hook_event_type, "issues") {
            Some(HookEvent::Issues(IssuesEvent))
        } else if text_eq(hook_event_type, "issue_assign") {
            Some(HookEvent::IssueAssign(IssueAssignEvent))
        } else if text_eq(hook_event_type, "issue_label") {
            Some(HookEvent::IssueLabel(IssueLabelEvent))
        } else if text_eq(hook_event_type, "issue_milestone") {
            Some(HookEvent::IssueMilestone(IssueMilestoneEvent))
        } else if text_eq(hook_event_type, "issue_comment") {
            Some(HookEvent::IssueComment(IssueCommentEvent))
        } else if text_eq(hook_event_type, "pull_request") {
            Some(HookEvent::PullRequest(PullRequestEvent))
        } else if text_eq(hook_event_type, "pull_request_assign") {
            Some(HookEvent::PullRequestAssign(PullRequestAssignEvent))
        } else if text_eq(hook_event_type, "pull_request_label") {
            Some(HookEvent::PullRequestLabel(PullRequestLabelEvent))
        } else if text_eq(hook_event_type, "pull_request_milestone") {
            Some(HookEvent::PullRequestMilestone(PullRequestMilestoneEvent))
        } else if text_eq(hook_event_type, "pull_request_comment") {
            Some(HookEvent::PullRequestComment(PullRequestCommentEvent))
        } else if text_eq(hook_event_type, "pull_request_review") {
            Some(HookEvent::PullRequestReview(PullRequestReviewEvent))
        } else if text_eq(hook_event_type, "pull_request_sync") {
            Some(HookEvent::PullRequestSync(PullRequestSyncEvent))
        } else if text_eq(hook_event_type, "repository") {
            Some(HookEvent::Repository(RepositoryEvent))
        } else if text_eq(hook_event_type, "release") {
            Some(HookEvent::Release(ReleaseEvent))
        } else {
            None
        }
    }

    /// Reads a request as an event. A push's body is read by `decode_push`,
    /// which is called for a push and for nothing else, and whose error is
    /// the request's error; the other event types carry no payload; a header
    /// value that names no event type is the error "unrecognized git event".
    pub fn parse_hook_event<F>(&self, hook_event_type: &str, decode_push: F) -> (r: Result<HookEvent, String>)
        where
            F: FnOnce() -> Result<PushEvent, String>,
        requires
            hook_event_type@ == "push"@ ==> call_requires(decode_push, ()),
        ensures
            r matches Ok(event) ==> header_name(event) == hook_event_type@,
            hook_event_type@ == "push"@ ==> exists|decoded: Result<PushEvent, String>|
                call_ensures(decode_push, (), decoded) && r == push_settled(decoded),
            hook_event_type@ != "push"@ ==> match unit_event(hook_event_type@) {
                Some(event) => r == Ok::<HookEvent, String>(event),
                None => r matches Err(message) && message@ == "unrecognized git event"@,
            },
    {
        if text_eq(hook_event_type, "push") {
            let decoded = decode_push();
            let ghost seen = decoded;
            let r = match decoded {
                Ok(push) => Ok(HookEvent::Push(push)),
                Err(message) => Err(message),
            };
            assert(call_ensures(decode_push, (), seen) && r == push_settled(seen));
            r
        } else {
            proof {
                lemma_unit_event_named(hook_event_type@);
            }
            match Self::unit_event(hook_event_type) {
                Some(event) => Ok(event),
                None => Err(String::from_str("unrecognized git event")),
            }
        }
    }
}

} // verus!
