//! Answering Gitea's events by running the commands that a configuration
//! names, one per event type.
pub mod hook_handlers;
pub mod struct_helpers;

use vstd::prelude::*;
use vstd::string::*;
use crate::command::{CommandSpec, CommandView};
use crate::luffy_gitea::{kind_of, EventKind, HookEvent};
use hook_handlers::{
    create_command, delete_command, fork_command, get_create_command, get_delete_command,
    get_fork_command, get_issue_command, get_issue_comment_command, get_pull_request_command,
    get_push_command, get_release_command, get_repo_command, issue_command, issue_comment_command,
    pull_request_command, push_command, release_command, repo_command,
};

verus! {

/// Answers events with the commands that the configuration file at
/// `config_path` names; the file is read anew for each event.
pub struct GiteaCliHandler {
    config_path: String,
}

/// The program to run for each event type; a type that the configuration
/// leaves out has the empty name.
pub struct Config {
    pub create: String,
    pub delete: String,
    pub fork: String,
    pub issues: String,
    pub issue_comment: String,
    pub push: String,
    pub pull_request: String,
    pub repository: String,
    pub release: String,
}

impl Default for Config {
    /// The configuration that names no program for any event type.
    fn default() -> (r: Config)
        ensures
            r.create@ == Seq::<char>::empty(),
            r.delete@ == Seq::<char>::empty(),
            r.fork@ == Seq::<char>::empty(),
            r.issues@ == Seq::<char>::empty(),
            r.issue_comment@ == Seq::<char>::empty(),
            r.push@ == Seq::<char>::empty(),
            r.pull_request@ == Seq::<char>::empty(),
            r.repository@ == Seq::<char>::empty(),
            r.release@ == Seq::<char>::empty(),
    {
        Config {
            create: String::new(),
            delete: String::new(),
            fork: String::new(),
            issues: String::new(),
            issue_comment: String::new(),
            push: String::new(),
            pull_request: String::new(),
            repository: String::new(),
            release: String::new(),
        }
    }
}

/// The command that answers an event under a configuration.
pub open spec fn event_command(config: Config, event: HookEvent) -> CommandView {
    match event {
        HookEvent::Create(payload) => create_command(config, payload),
        HookEvent::Delete(payload) => delete_command(config, payload),
        HookEvent::Fork(payload) => fork_command(config, payload),
        HookEvent::Issues(payload) => issue_command(config, payload),
        HookEvent::IssueComment(payload) => issue_comment_command(config, payload),
        HookEvent::PullRequest(payload) => pull_request_command(config, payload),
        HookEvent::Push(payload) => push_command(config, payload),
        HookEvent::Repository(payload) => repo_command(config, payload),
        HookEvent::Release(payload) => release_command(config, payload),
    }
}

/// The program that a configuration names for an event type.
pub open spec fn configured_program(config: Config, kind: EventKind) -> Seq<char> {
    match kind {
        EventKind::Create => config.create@,
        EventKind::Delete => config.delete@,
        EventKind::Fork => config.fork@,
        EventKind::Issues => config.issues@,
        EventKind::IssueComment => config.issue_comment@,
        EventKind::Push => config.push@,
        EventKind::PullRequest => config.pull_request@,
        EventKind::Repository => config.repository@,
        EventKind::Release => config.release@,
    }
}

/// Every event is answered by the program that the configuration names for
/// the event's type, run with no arguments.
pub proof fn lemma_event_runs_configured_program(config: Config, event: HookEvent)
    ensures
        event_command(config, event).program == configured_program(config, kind_of(event)),
        event_command(config, event).args == Seq::<Seq<char>>::empty(),
{
}

impl GiteaCliHandler {
    /// A handler that reads its configuration from `config_path`.
    pub fn new(config_path: &str) -> (r: GiteaCliHandler)
        ensures
            r.config_path()@ == config_path@,
    {
        GiteaCliHandler { config_path: String::from_str(config_path) }
    }

    /// Where the configuration is read from.
    pub closed spec fn config_path(&self) -> String {
        self.config_path
    }

    /// Where the configuration is read from.
    pub fn get_config_path(&self) -> (r: &str)
        ensures
            r@ == self.config_path()@,
    {
        self.config_path.as_str()
    }

    /// The command that answers an event under a configuration: the program
    /// that the configuration names for the event's type, in the environment
    /// that describes the event's payload.
    pub fn handle_event(&self, config: &Config, event: &HookEvent) -> (r: CommandSpec)
        ensures
            r@ == event_command(*config, *event),
    {
        match event {
            HookEvent::Create(payload) => get_create_command(config, payload),
            HookEvent::Delete(payload) => get_delete_command(config, payload),
            HookEvent::Fork(payload) => get_fork_command(config, payload),
            HookEvent::Issues(payload) => get_issue_command(config, payload),
            HookEvent::IssueComment(payload) => get_issue_comment_command(config, payload),
            HookEvent::PullRequest(payload) => get_pull_request_command(config, payload),
            HookEvent::Push(payload) => get_push_command(config, payload),
            HookEvent::Repository(payload) => get_repo_command(config, payload),
            HookEvent::Release(payload) => get_release_command(config, payload),
        }
    }
}

} // verus!
