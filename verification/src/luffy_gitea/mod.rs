//! Gitea's web hook events: which ones there are, and how a request's
//! event type header selects one.
pub mod payloads;
pub mod structs;

use vstd::prelude::*;
use vstd::string::*;
use crate::text::join;
use crate::text::text_eq;
use payloads::{
    CreatePayload, DeletePayload, ForkPayload, IssueCommentPayload, IssuePayload,
    PullRequestPayload, PushPayload, ReleasePayload, RepositoryPayload,
};

verus! {

/// The event types that Gitea names in its event header.
#[derive(Debug, Clone, Copy, PartialEq, Eq, Structural)]
pub enum EventKind {
    Create,
    Delete,
    Fork,
    Issues,
    IssueComment,
    Push,
    PullRequest,
    Repository,
    Release,
}

/// A web hook event with its payload.
#[derive(Debug)]
pub enum HookEvent {
    Create(CreatePayload),
    Delete(DeletePayload),
    Fork(ForkPayload),
    Issues(IssuePayload),
    IssueComment(IssueCommentPayload),
    Push(PushPayload),
    PullRequest(PullRequestPayload),
    Repository(RepositoryPayload),
    Release(ReleasePayload),
}

/// Gitea as a source of web hook events.
pub struct GiteaService;

/// Why a request could not be read as an event.
#[derive(Debug)]
pub enum GiteaError {
    /// The body is not the JSON of the payload that the event type calls for.
    PayloadBody(serde_json::Error),
    /// The event type header names no event that Gitea sends.
    EventType(String),
}

impl vstd::std_specs::convert::FromSpecImpl<serde_json::Error> for GiteaError {
    open spec fn obeys_from_spec() -> bool {
        true
    }

    open spec fn from_spec(error: serde_json::Error) -> Self {
        GiteaError::PayloadBody(error)
    }
}

impl From<serde_json::Error> for GiteaError {
    fn from(error: serde_json::Error) -> (r: Self) {
        GiteaError::PayloadBody(error)
    }
}

/// The end of every error message: where to report the error.
pub open spec fn report_hint() -> Seq<char> {
    ", you may need to report a bug to github.com/limegrass/luffy"@
}

/// The message for a header value that names no event type.
pub open spec fn event_type_message(name: Seq<char>) -> Seq<char> {
    "unrecognized event type "@ + name + report_hint()
}

/// The message for a body that did not decode, around the decoding error's text.
pub open spec fn payload_body_message(error_text: Seq<char>) -> Seq<char> {
    "error while deserializing "@ + error_text + report_hint()
}

impl GiteaError {
    /// The message that describes this error: for an unknown event type, the
    /// header value; for a body that did not decode, the decoding error as
    /// `serde_json` displays it; either way followed by where to report it.
    pub fn message(&self) -> (r: String)
        ensures
            match self {
                GiteaError::EventType(name) => r@ == event_type_message(name@),
                GiteaError::PayloadBody(error) => exists|text: String|
                    to_string_from_display_ensures::<serde_json::Error>(error, text)
                        && r@ == payload_body_message(text@),
            },
    {
        match self {
            GiteaError::EventType(name) => Self::event_type_text(name.as_str()),
            GiteaError::PayloadBody(error) => {
                let text = error.to_string();
                let r = Self::payload_body_text(text.as_str());
                assert(to_string_from_display_ensures::<serde_json::Error>(error, text)
                    && r@ == payload_body_message(text@));
                r
            },
        }
    }

    /// The message for a header value that names no event type.
    pub fn event_type_text(name: &str) -> (r: String)
        ensures
            r@ == event_type_message(name@),
    {
        let head = join("unrecognized event type ", name);
        let r = join(head.as_str(), ", you may need to report a bug to github.com/limegrass/luffy");
        r
    }

    /// The message for a body that did not decode, given the decoding error's text.
    pub fn payload_body_text(error_text: &str) -> (r: String)
        ensures
            r@ == payload_body_message(error_text@),
    {
        let head = join("error while deserializing ", error_text);
        join(head.as_str(), ", you may need to report a bug to github.com/limegrass/luffy")
    }
}

/// The name by which Gitea's event header names an event type.
pub open spec fn kind_name(kind: EventKind) -> Seq<char> {
    match kind {
        EventKind::Create => "create"@,
        EventKind::Delete => "delete"@,
        EventKind::Fork => "fork"@,
        EventKind::Issues => "issues"@,
        EventKind::IssueComment => "issue_comment"@,
        EventKind::Push => "push"@,
        EventKind::PullRequest => "pull_request"@,
        EventKind::Repository => "repository"@,
        EventKind::Release => "release"@,
    }
}

/// The event type that a header value names, if it names one.
pub open spec fn named_kind(name: Seq<char>) -> Option<EventKind> {
    if name == "create"@ {
        Some(EventKind::Create)
    } else if name == "delete"@ {
        Some(EventKind::Delete)
    } else if name == "fork"@ {
        Some(EventKind::Fork)
    } else if name == "issues"@ {
        Some(EventKind::Issues)
    } else if name == "issue_comment"@ {
        Some(EventKind::IssueComment)
    } else if name == "push"@ {
        Some(EventKind::Push)
    } else if name == "pull_request"@ {
        Some(EventKind::PullRequest)
    } else if name == "repository"@ {
        Some(EventKind::Repository)
    } else if name == "release"@ {
        Some(EventKind::Release)
    } else {
        None
    }
}

/// The event type of an event.
pub open spec fn kind_of(event: HookEvent) -> EventKind {
    match event {
        HookEvent::Create(_) => EventKind::Create,
        HookEvent::Delete(_) => EventKind::Delete,
        HookEvent::Fork(_) => EventKind::Fork,
        HookEvent::Issues(_) => EventKind::Issues,
        HookEvent::IssueComment(_) => EventKind::IssueComment,
        HookEvent::Push(_) => EventKind::Push,
        HookEvent::PullRequest(_) => EventKind::PullRequest,
        HookEvent::Repository(_) => EventKind::Repository,
        HookEvent::Release(_) => EventKind::Release,
    }
}

/// What a request comes to once its body has been read for the event type
/// that its header names: the event, or the decoding error as a payload error.
pub open spec fn settled(decoded: Result<HookEvent, serde_json::Error>) -> Result<HookEvent, GiteaError> {
    match decoded {
        Ok(event) => Ok(event),
        Err(error) => Err(GiteaError::PayloadBody(error)),
    }
}

/// Each event type's header name selects that event type, and no other:
/// the names are told apart.
pub proof fn lemma_kind_name_selects_kind(kind: EventKind)
    ensures
        named_kind(kind_name(kind)) == Some(kind),
{
    reveal_strlit("create");
    reveal_strlit("delete");
    reveal_strlit("fork");
    reveal_strlit("issues");
    reveal_strlit("issue_comment");
    reveal_strlit("push");
    reveal_strlit("pull_request");
    reveal_strlit("repository");
    reveal_strlit("release");
    assert("create"@[0] == 'c' && "delete"@[0] == 'd' && "fork"@[0] == 'f');
    assert("issues"@[0] == 'i' && "issues"@.len() == 6);
    assert("issue_comment"@[0] == 'i' && "issue_comment"@.len() == 13);
    assert("push"@[0] == 'p' && "push"@.len() == 4);
    assert("pull_request"@[0] == 'p' && "pull_request"@.len() == 12);
    assert("repository"@[0] == 'r' && "repository"@.len() == 10);
    assert("release"@[0] == 'r' && "release"@.len() == 7);
}

/// A header value that selects an event type is that type's name.
pub proof fn lemma_named_kind_is_name(name: Seq<char>)
    ensures
        named_kind(name) matches Some(kind) ==> kind_name(kind) == name,
{
}

impl HookEvent {
    /// The event type of this event.
    pub fn kind(&self) -> (r: EventKind)
        ensures
            r == kind_of(*self),
    {
        match self {
            HookEvent::Create(_) => EventKind::Create,
            HookEvent::Delete(_) => EventKind::Delete,
            HookEvent::Fork(_) => EventKind::Fork,
            HookEvent::Issues(_) => EventKind::Issues,
            HookEvent::IssueComment(_) => EventKind::IssueComment,
            HookEvent::Push(_) => EventKind::Push,
            HookEvent::PullRequest(_) => EventKind::PullRequest,
            HookEvent::Repository(_) => EventKind::Repository,
            HookEvent::Release(_) => EventKind::Release,
        }
    }
}

impl EventKind {
    /// The name by which Gitea's event header names this event type.
    pub fn name(&self) -> (r: &'static str)
        ensures
            r@ == kind_name(*self),
    {
        match self {
            EventKind::Create => "create",
            EventKind::Delete => "delete",
            EventKind::Fork => "fork",
            EventKind::Issues => "issues",
            EventKind::IssueComment => "issue_comment",
            EventKind::Push => "push",
            EventKind::PullRequest => "pull_request",
            EventKind::Repository => "repository",
            EventKind::Release => "release",
        }
    }

    /// The event type that a header value names, if it names one.
    pub fn from_name(name: &str) -> (r: Option<EventKind>)
        ensures
            r == named_kind(name@),
    {
        if text_eq(name, "create") {
            Some(EventKind::Create)
        } else if text_eq(name, "delete") {
            Some(EventKind::Delete)
        } else if text_eq(name, "fork") {
            Some(EventKind::Fork)
        } else if text_eq(name, "issues") {
            Some(EventKind::Issues)
        } else if text_eq(name, "issue_comment") {
            Some(EventKind::IssueComment)
        } else if text_eq(name, "push") {
            Some(EventKind::Push)
        } else if text_eq(name, "pull_request") {
            Some(EventKind::PullRequest)
        } else if text_eq(name, "repository") {
            Some(EventKind::Repository)
        } else if text_eq(name, "release") {
            Some(EventKind::Release)
        } else {
            None
        }
    }
}

impl GiteaService {
    /// The request header in which Gitea names the event type.
    pub fn event_header_name(&self) -> (r: &'static str)
        ensures
            r@ == "X-Gitea-Event"@,
    {
        "X-Gitea-Event"
    }

    /// The event type that a header value selects, or the event type error
    /// that carries the header value.
    pub fn event_kind(&self, hook_event_type: &str) -> (r: Result<EventKind, GiteaError>)
        ensures
            match named_kind(hook_event_type@) {
                Some(kind) => r == Ok::<EventKind, GiteaError>(kind),
                None => r matches Err(GiteaError::EventType(name)) && name@ == hook_event_type@,
            },
    {
        match EventKind::from_name(hook_event_type) {
            Some(kind) => Ok(kind),
            None => Err(GiteaError::EventType(String::from_str(hook_event_type))),
        }
    }

    /// Reads a request as an event. The event type header selects the event
    /// type; `decode` reads the request's body as the payload of the event
    /// type that it is given, and is called only where the header names one.
    /// An unknown event type is an event type error that carries the header
    /// value; a body that does not decode is a payload error that carries the
    /// decoding error.
    pub fn parse_hook_event<F>(&self, hook_event_type: &str, decode: F) -> (r: Result<HookEvent, GiteaError>)
        where
            F: Fn(EventKind) -> Result<HookEvent, serde_json::Error>,
        requires
            named_kind(hook_event_type@) matches Some(kind) ==> call_requires(decode, (kind,)),
            forall|kind: EventKind, decoded: Result<HookEvent, serde_json::Error>|
                #[trigger] call_ensures(decode, (kind,), decoded) && decoded is Ok ==> kind_of(decoded->Ok_0) == kind,
        ensures
            r matches Ok(event) ==> named_kind(hook_event_type@) == Some(kind_of(event)),
            match named_kind(hook_event_type@) {
                Some(kind) => exists|decoded: Result<HookEvent, serde_json::Error>|
                    call_ensures(decode, (kind,), decoded) && r == settled(decoded),
                None => r matches Err(GiteaError::EventType(name)) && name@ == hook_event_type@,
            },
    {
        let kind = self.event_kind(hook_event_type)?;
        let decoded = decode(kind);
        Self::settle(decoded)
    }

    /// The event, or the payload error, that a decoded body comes to.
    pub fn settle(decoded: Result<HookEvent, serde_json::Error>) -> (r: Result<HookEvent, GiteaError>)
        ensures
            r == settled(decoded),
    {
        match decoded {
            Ok(event) => Ok(event),
            Err(error) => Err(GiteaError::from(error)),
        }
    }
}

} // verus!
