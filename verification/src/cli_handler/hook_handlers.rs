//! The command that answers each kind of event: the program that the
//! configuration names for the event's type, in an environment that
//! describes the event.
use vstd::prelude::*;
use crate::cli_handler::struct_helpers::{
    add_changes_env, add_comment_env, add_commit_env, add_commits_env, add_issue_env,
    add_pull_request_env, add_release_env, add_repository_env, add_user_env, changes_env,
    comment_env, commit_env, commits_env, earlier_value_env, issue_env, lemma_changes_env_under,
    lemma_comment_env_under, lemma_commit_env_under, lemma_commits_env_under,
    lemma_earlier_value_env_under, lemma_issue_env_under, lemma_pull_request_env_under,
    lemma_release_env_under, lemma_repository_env_full_name, lemma_repository_env_id,
    lemma_repository_env_under, lemma_user_env_under, pull_request_env,
    release_env, repository_env, user_env,
};
use crate::cli_handler::Config;
use crate::command::{
    fresh_command, last_value, lemma_last_value_concat, lemma_last_value_single, lemma_no_value_apart,
    lemma_no_value_shorter, lemma_starts_with_char, lemma_with_envs_twice, lemma_with_no_envs, starts_with, CommandSpec,
    CommandView, EnvEntry,
};
use crate::luffy_gitea::payloads::{
    CreatePayload, DeletePayload, ForkPayload, IssueCommentPayload, IssuePayload,
    PullRequestPayload, PushPayload, ReleasePayload, RepositoryPayload,
};
use crate::text::{bool_text, bool_to_text, i64_text, join, signed_decimal, to_uppercase, upper_case};

verus! {

/// The environment that describes the creation of a branch or tag.
pub open spec fn create_payload_env(payload: CreatePayload) -> Seq<EnvEntry> {
    seq![("SHA"@, payload.sha@)]
    + seq![("REF_PATH"@, payload.ref_path@)]
    + seq![("REF_TYPE"@, payload.ref_type@)]
    + repository_env("REPOSITORY"@, payload.repository)
    + user_env("SENDER"@, payload.sender)
}

/// The command that answers the creation of a branch or tag: the program that the configuration
/// names for it, with no arguments, in the environment that describes it.
pub open spec fn create_command(config: Config, payload: CreatePayload) -> CommandView {
    fresh_command(config.create@).with_envs(create_payload_env(payload))
}

/// Builds the command that answers the creation of a branch or tag.
pub fn get_create_command(config: &Config, payload: &CreatePayload) -> (r: CommandSpec)
    ensures
        r@ == create_command(*config, *payload),
        last_value(r@.envs, "SHA"@) == Some(payload.sha@),
        last_value(r@.envs, "REF_PATH"@) == Some(payload.ref_path@),
        last_value(r@.envs, "REF_TYPE"@) == Some(payload.ref_type@),
        forall|name: Seq<char>| #[trigger] starts_with(name, "REPOSITORY"@) ==> last_value(r@.envs, name) == last_value(repository_env("REPOSITORY"@, payload.repository), name),
        forall|name: Seq<char>| #[trigger] starts_with(name, "SENDER"@) ==> last_value(r@.envs, name) == last_value(user_env("SENDER"@, payload.sender), name),
{
    let mut cmd = CommandSpec::new(config.create.as_str());
    let ghost start = cmd@;
    cmd.set_var("SHA", payload.sha.clone());
    let ghost mut acc: Seq<EnvEntry> = seq![("SHA"@, (*payload).sha@)];
    cmd.set_var("REF_PATH", payload.ref_path.clone());
    proof {
        lemma_with_envs_twice(start, acc, seq![("REF_PATH"@, (*payload).ref_path@)]);
        acc = acc + seq![("REF_PATH"@, (*payload).ref_path@)];
    }
    cmd.set_var("REF_TYPE", payload.ref_type.clone());
    proof {
        lemma_with_envs_twice(start, acc, seq![("REF_TYPE"@, (*payload).ref_type@)]);
        acc = acc + seq![("REF_TYPE"@, (*payload).ref_type@)];
    }
    add_repository_env(&mut cmd, "REPOSITORY", &payload.repository);
    proof {
        lemma_with_envs_twice(start, acc, repository_env("REPOSITORY"@, (*payload).repository));
        acc = acc + repository_env("REPOSITORY"@, (*payload).repository);
    }
    add_user_env(&mut cmd, "SENDER", &payload.sender);
    proof {
        lemma_with_envs_twice(start, acc, user_env("SENDER"@, (*payload).sender));
    }
    proof {
        lemma_create_command_sha(*config, *payload);
        lemma_create_command_ref_path(*config, *payload);
        lemma_create_command_ref_type(*config, *payload);
        assert forall|name: Seq<char>| #[trigger] starts_with(name, "REPOSITORY"@) implies last_value(cmd@.envs, name) == last_value(repository_env("REPOSITORY"@, payload.repository), name) by {
            lemma_create_command_repository(*config, *payload, name);
        }
        assert forall|name: Seq<char>| #[trigger] starts_with(name, "SENDER"@) implies last_value(cmd@.envs, name) == last_value(user_env("SENDER"@, payload.sender), name) by {
            lemma_create_command_sender(*config, *payload, name);
        }
    }
    cmd
}

/// The environment that describes the deletion of a branch or tag.
pub open spec fn delete_payload_env(payload: DeletePayload) -> Seq<EnvEntry> {
    seq![("PUSHER_TYPE"@, payload.pusher_type@)]
    + seq![("REF_PATH"@, payload.ref_path@)]
    + seq![("REF_TYPE"@, payload.ref_type@)]
    + repository_env("REPOSITORY"@, payload.repository)
    + user_env("SENDER"@, payload.sender)
}

/// The command that answers the deletion of a branch or tag: the program that the configuration
/// names for it, with no arguments, in the environment that describes it.
pub open spec fn delete_command(config: Config, payload: DeletePayload) -> CommandView {
    fresh_command(config.delete@).with_envs(delete_payload_env(payload))
}

/// Builds the command that answers the deletion of a branch or tag.
pub fn get_delete_command(config: &Config, payload: &DeletePayload) -> (r: CommandSpec)
    ensures
        r@ == delete_command(*config, *payload),
        last_value(r@.envs, "PUSHER_TYPE"@) == Some(payload.pusher_type@),
        last_value(r@.envs, "REF_PATH"@) == Some(payload.ref_path@),
        last_value(r@.envs, "REF_TYPE"@) == Some(payload.ref_type@),
        forall|name: Seq<char>| #[trigger] starts_with(name, "REPOSITORY"@) ==> last_value(r@.envs, name) == last_value(repository_env("REPOSITORY"@, payload.repository), name),
        forall|name: Seq<char>| #[trigger] starts_with(name, "SENDER"@) ==> last_value(r@.envs, name) == last_value(user_env("SENDER"@, payload.sender), name),
{
    let mut cmd = CommandSpec::new(config.delete.as_str());
    let ghost start = cmd@;
    cmd.set_var("PUSHER_TYPE", payload.pusher_type.clone());
    let ghost mut acc: Seq<EnvEntry> = seq![("PUSHER_TYPE"@, (*payload).pusher_type@)];
    cmd.set_var("REF_PATH", payload.ref_path.clone());
    proof {
        lemma_with_envs_twice(start, acc, seq![("REF_PATH"@, (*payload).ref_path@)]);
        acc = acc + seq![("REF_PATH"@, (*payload).ref_path@)];
    }
    cmd.set_var("REF_TYPE", payload.ref_type.clone());
    proof {
        lemma_with_envs_twice(start, acc, seq![("REF_TYPE"@, (*payload).ref_type@)]);
        acc = acc + seq![("REF_TYPE"@, (*payload).ref_type@)];
    }
    add_repository_env(&mut cmd, "REPOSITORY", &payload.repository);
    proof {
        lemma_with_envs_twice(start, acc, repository_env("REPOSITORY"@, (*payload).repository));
        acc = acc + repository_env("REPOSITORY"@, (*payload).repository);
    }
    add_user_env(&mut cmd, "SENDER", &payload.sender);
    proof {
        lemma_with_envs_twice(start, acc, user_env("SENDER"@, (*payload).sender));
    }
    proof {
        lemma_delete_command_pusher_type(*config, *payload);
        lemma_delete_command_ref_path(*config, *payload);
        lemma_delete_command_ref_type(*config, *payload);
        assert forall|name: Seq<char>| #[trigger] starts_with(name, "REPOSITORY"@) implies last_value(cmd@.envs, name) == last_value(repository_env("REPOSITORY"@, payload.repository), name) by {
            lemma_delete_command_repository(*config, *payload, name);
        }
        assert forall|name: Seq<char>| #[trigger] starts_with(name, "SENDER"@) implies last_value(cmd@.envs, name) == last_value(user_env("SENDER"@, payload.sender), name) by {
            lemma_delete_command_sender(*config, *payload, name);
        }
    }
    cmd
}

/// The environment that describes a fork.
pub open spec fn fork_payload_env(payload: ForkPayload) -> Seq<EnvEntry> {
    repository_env("FORKEE"@, payload.forkee)
    + repository_env("REPOSITORY"@, payload.repository)
    + user_env("SENDER"@, payload.sender)
}

/// The command that answers a fork: the program that the configuration
/// names for it, with no arguments, in the environment that describes it.
pub open spec fn fork_command(config: Config, payload: ForkPayload) -> CommandView {
    fresh_command(config.fork@).with_envs(fork_payload_env(payload))
}

/// Builds the command that answers a fork.
pub fn get_fork_command(config: &Config, payload: &ForkPayload) -> (r: CommandSpec)
    ensures
        r@ == fork_command(*config, *payload),
        forall|name: Seq<char>| #[trigger] starts_with(name, "FORKEE"@) ==> last_value(r@.envs, name) == last_value(repository_env("FORKEE"@, payload.forkee), name),
        forall|name: Seq<char>| #[trigger] starts_with(name, "REPOSITORY"@) ==> last_value(r@.envs, name) == last_value(repository_env("REPOSITORY"@, payload.repository), name),
        forall|name: Seq<char>| #[trigger] starts_with(name, "SENDER"@) ==> last_value(r@.envs, name) == last_value(user_env("SENDER"@, payload.sender), name),
{
    let mut cmd = CommandSpec::new(config.fork.as_str());
    let ghost start = cmd@;
    add_repository_env(&mut cmd, "FORKEE", &payload.forkee);
    let ghost mut acc: Seq<EnvEntry> = repository_env("FORKEE"@, (*payload).forkee);
    add_repository_env(&mut cmd, "REPOSITORY", &payload.repository);
    proof {
        lemma_with_envs_twice(start, acc, repository_env("REPOSITORY"@, (*payload).repository));
        acc = acc + repository_env("REPOSITORY"@, (*payload).repository);
    }
    add_user_env(&mut cmd, "SENDER", &payload.sender);
    proof {
        lemma_with_envs_twice(start, acc, user_env("SENDER"@, (*payload).sender));
    }
    proof {
        assert forall|name: Seq<char>| #[trigger] starts_with(name, "FORKEE"@) implies last_value(cmd@.envs, name) == last_value(repository_env("FORKEE"@, payload.forkee), name) by {
            lemma_fork_command_forkee(*config, *payload, name);
        }
        assert forall|name: Seq<char>| #[trigger] starts_with(name, "REPOSITORY"@) implies last_value(cmd@.envs, name) == last_value(repository_env("REPOSITORY"@, payload.repository), name) by {
            lemma_fork_command_repository(*config, *payload, name);
        }
        assert forall|name: Seq<char>| #[trigger] starts_with(name, "SENDER"@) implies last_value(cmd@.envs, name) == last_value(user_env("SENDER"@, payload.sender), name) by {
            lemma_fork_command_sender(*config, *payload, name);
        }
    }
    cmd
}

/// The environment that describes a change to an issue.
pub open spec fn issue_payload_env(payload: IssuePayload) -> Seq<EnvEntry> {
    seq![("NUMBER"@, signed_decimal(payload.number as int))]
    + seq![("ACTION"@, payload.action@)]
    + (match &payload.changes { Some(v) => changes_env("CHANGES"@, *v), None => seq![] })
    + issue_env("ISSUE"@, payload.issue)
    + repository_env("REPOSITORY"@, payload.repository)
    + user_env("SENDER"@, payload.sender)
}

/// The command that answers a change to an issue: the program that the configuration
/// names for it, with no arguments, in the environment that describes it.
pub open spec fn issue_command(config: Config, payload: IssuePayload) -> CommandView {
    fresh_command(config.issues@).with_envs(issue_payload_env(payload))
}

/// Builds the command that answers a change to an issue.
pub fn get_issue_command(config: &Config, payload: &IssuePayload) -> (r: CommandSpec)
    ensures
        r@ == issue_command(*config, *payload),
        last_value(r@.envs, "NUMBER"@) == Some(signed_decimal(payload.number as int)),
        last_value(r@.envs, "ACTION"@) == Some(payload.action@),
        forall|name: Seq<char>| #[trigger] starts_with(name, "CHANGES"@) ==> last_value(r@.envs, name) == last_value((match &payload.changes { Some(v) => changes_env("CHANGES"@, *v), None => seq![] }), name),
        forall|name: Seq<char>| #[trigger] starts_with(name, "ISSUE"@) ==> last_value(r@.envs, name) == last_value(issue_env("ISSUE"@, payload.issue), name),
        forall|name: Seq<char>| #[trigger] starts_with(name, "REPOSITORY"@) ==> last_value(r@.envs, name) == last_value(repository_env("REPOSITORY"@, payload.repository), name),
        forall|name: Seq<char>| #[trigger] starts_with(name, "SENDER"@) ==> last_value(r@.envs, name) == last_value(user_env("SENDER"@, payload.sender), name),
{
    let mut cmd = CommandSpec::new(config.issues.as_str());
    let ghost start = cmd@;
    cmd.set_var("NUMBER", i64_text(payload.number));
    let ghost mut acc: Seq<EnvEntry> = seq![("NUMBER"@, signed_decimal((*payload).number as int))];
    cmd.set_var("ACTION", payload.action.clone());
    proof {
        lemma_with_envs_twice(start, acc, seq![("ACTION"@, (*payload).action@)]);
        acc = acc + seq![("ACTION"@, (*payload).action@)];
    }
    if let Some(v) = &payload.changes {
        add_changes_env(&mut cmd, "CHANGES", v);
    } else {
        proof {
            lemma_with_no_envs(cmd@);
        }
    }
    proof {
        lemma_with_envs_twice(start, acc, (match &(*payload).changes { Some(v) => changes_env("CHANGES"@, *v), None => seq![] }));
        acc = acc + (match &(*payload).changes { Some(v) => changes_env("CHANGES"@, *v), None => seq![] });
    }
    add_issue_env(&mut cmd, "ISSUE", &payload.issue);
    proof {
        lemma_with_envs_twice(start, acc, issue_env("ISSUE"@, (*payload).issue));
        acc = acc + issue_env("ISSUE"@, (*payload).issue);
    }
    add_repository_env(&mut cmd, "REPOSITORY", &payload.repository);
    proof {
        lemma_with_envs_twice(start, acc, repository_env("REPOSITORY"@, (*payload).repository));
        acc = acc + repository_env("REPOSITORY"@, (*payload).repository);
    }
    add_user_env(&mut cmd, "SENDER", &payload.sender);
    proof {
        lemma_with_envs_twice(start, acc, user_env("SENDER"@, (*payload).sender));
    }
    proof {
        lemma_issue_command_number(*config, *payload);
        lemma_issue_command_action(*config, *payload);
        assert forall|name: Seq<char>| #[trigger] starts_with(name, "CHANGES"@) implies last_value(cmd@.envs, name) == last_value((match &payload.changes { Some(v) => changes_env("CHANGES"@, *v), None => seq![] }), name) by {
            lemma_issue_command_changes(*config, *payload, name);
        }
        assert forall|name: Seq<char>| #[trigger] starts_with(name, "ISSUE"@) implies last_value(cmd@.envs, name) == last_value(issue_env("ISSUE"@, payload.issue), name) by {
            lemma_issue_command_issue(*config, *payload, name);
        }
        assert forall|name: Seq<char>| #[trigger] starts_with(name, "REPOSITORY"@) implies last_value(cmd@.envs, name) == last_value(repository_env("REPOSITORY"@, payload.repository), name) by {
            lemma_issue_command_repository(*config, *payload, name);
        }
        assert forall|name: Seq<char>| #[trigger] starts_with(name, "SENDER"@) implies last_value(cmd@.envs, name) == last_value(user_env("SENDER"@, payload.sender), name) by {
            lemma_issue_command_sender(*config, *payload, name);
        }
    }
    cmd
}

/// The environment that describes a change to a comment.
pub open spec fn issue_comment_payload_env(payload: IssueCommentPayload) -> Seq<EnvEntry> {
    seq![("ACTION"@, payload.action@)]
    + comment_env("COMMENT"@, payload.comment)
    + issue_env("ISSUE"@, payload.issue)
    + (match &payload.changes { Some(v) => changes_env("CHANGES"@, *v), None => seq![] })
    + seq![("IS_PULL"@, bool_text(payload.is_pull))]
    + repository_env("REPOSITORY"@, payload.repository)
    + user_env("SENDER"@, payload.sender)
}

/// The command that answers a change to a comment: the program that the configuration
/// names for it, with no arguments, in the environment that describes it.
pub open spec fn issue_comment_command(config: Config, payload: IssueCommentPayload) -> CommandView {
    fresh_command(config.issue_comment@).with_envs(issue_comment_payload_env(payload))
}

/// Builds the command that answers a change to a comment.
pub fn get_issue_comment_command(config: &Config, payload: &IssueCommentPayload) -> (r: CommandSpec)
    ensures
        r@ == issue_comment_command(*config, *payload),
        last_value(r@.envs, "ACTION"@) == Some(payload.action@),
        forall|name: Seq<char>| #[trigger] starts_with(name, "COMMENT"@) ==> last_value(r@.envs, name) == last_value(comment_env("COMMENT"@, payload.comment), name),
        forall|name: Seq<char>| #[trigger] starts_with(name, "ISSUE"@) ==> last_value(r@.envs, name) == last_value(issue_env("ISSUE"@, payload.issue), name),
        forall|name: Seq<char>| #[trigger] starts_with(name, "CHANGES"@) ==> last_value(r@.envs, name) == last_value((match &payload.changes { Some(v) => changes_env("CHANGES"@, *v), None => seq![] }), name),
        last_value(r@.envs, "IS_PULL"@) == Some(bool_text(payload.is_pull)),
        forall|name: Seq<char>| #[trigger] starts_with(name, "REPOSITORY"@) ==> last_value(r@.envs, name) == last_value(repository_env("REPOSITORY"@, payload.repository), name),
        forall|name: Seq<char>| #[trigger] starts_with(name, "SENDER"@) ==> last_value(r@.envs, name) == last_value(user_env("SENDER"@, payload.sender), name),
{
    let mut cmd = CommandSpec::new(config.issue_comment.as_str());
    let ghost start = cmd@;
    cmd.set_var("ACTION", payload.action.clone());
    let ghost mut acc: Seq<EnvEntry> = seq![("ACTION"@, (*payload).action@)];
    add_comment_env(&mut cmd, "COMMENT", &payload.comment);
    proof {
        lemma_with_envs_twice(start, acc, comment_env("COMMENT"@, (*payload).comment));
        acc = acc + comment_env("COMMENT"@, (*payload).comment);
    }
    add_issue_env(&mut cmd, "ISSUE", &payload.issue);
    proof {
        lemma_with_envs_twice(start, acc, issue_env("ISSUE"@, (*payload).issue));
        acc = acc + issue_env("ISSUE"@, (*payload).issue);
    }
    if let Some(v) = &payload.changes {
        add_changes_env(&mut cmd, "CHANGES", v);
    } else {
        proof {
            lemma_with_no_envs(cmd@);
        }
    }
    proof {
        lemma_with_envs_twice(start, acc, (match &(*payload).changes { Some(v) => changes_env("CHANGES"@, *v), None => seq![] }));
        acc = acc + (match &(*payload).changes { Some(v) => changes_env("CHANGES"@, *v), None => seq![] });
    }
    cmd.set_var("IS_PULL", bool_to_text(payload.is_pull));
    proof {
        lemma_with_envs_twice(start, acc, seq![("IS_PULL"@, bool_text((*payload).is_pull))]);
        acc = acc + seq![("IS_PULL"@, bool_text((*payload).is_pull))];
    }
    add_repository_env(&mut cmd, "REPOSITORY", &payload.repository);
    proof {
        lemma_with_envs_twice(start, acc, repository_env("REPOSITORY"@, (*payload).repository));
        acc = acc + repository_env("REPOSITORY"@, (*payload).repository);
    }
    add_user_env(&mut cmd, "SENDER", &payload.sender);
    proof {
        lemma_with_envs_twice(start, acc, user_env("SENDER"@, (*payload).sender));
    }
    proof {
        lemma_issue_comment_command_action(*config, *payload);
        assert forall|name: Seq<char>| #[trigger] starts_with(name, "COMMENT"@) implies last_value(cmd@.envs, name) == last_value(comment_env("COMMENT"@, payload.comment), name) by {
            lemma_issue_comment_command_comment(*config, *payload, name);
        }
        assert forall|name: Seq<char>| #[trigger] starts_with(name, "ISSUE"@) implies last_value(cmd@.envs, name) == last_value(issue_env("ISSUE"@, payload.issue), name) by {
            lemma_issue_comment_command_issue(*config, *payload, name);
        }
        assert forall|name: Seq<char>| #[trigger] starts_with(name, "CHANGES"@) implies last_value(cmd@.envs, name) == last_value((match &payload.changes { Some(v) => changes_env("CHANGES"@, *v), None => seq![] }), name) by {
            lemma_issue_comment_command_changes(*config, *payload, name);
        }
        lemma_issue_comment_command_is_pull(*config, *payload);
        assert forall|name: Seq<char>| #[trigger] starts_with(name, "REPOSITORY"@) implies last_value(cmd@.envs, name) == last_value(repository_env("REPOSITORY"@, payload.repository), name) by {
            lemma_issue_comment_command_repository(*config, *payload, name);
        }
        assert forall|name: Seq<char>| #[trigger] starts_with(name, "SENDER"@) implies last_value(cmd@.envs, name) == last_value(user_env("SENDER"@, payload.sender), name) by {
            lemma_issue_comment_command_sender(*config, *payload, name);
        }
    }
    cmd
}

/// The environment that describes a change to a pull request.
pub open spec fn pull_request_payload_env(payload: PullRequestPayload) -> Seq<EnvEntry> {
    seq![("ACTION"@, payload.action@)]
    + seq![("NUMBER"@, signed_decimal(payload.number as int))]
    + pull_request_env("PULL_REQUEST"@, payload.pull_request)
    + (match &payload.changes { Some(v) => changes_env("CHANGES"@, *v), None => seq![] })
    + repository_env("REPOSITORY"@, payload.repository)
    + user_env("SENDER"@, payload.sender)
}

/// The command that answers a change to a pull request: the program that the configuration
/// names for it, with no arguments, in the environment that describes it.
pub open spec fn pull_request_command(config: Config, payload: PullRequestPayload) -> CommandView {
    fresh_command(config.pull_request@).with_envs(pull_request_payload_env(payload))
}

/// Builds the command that answers a change to a pull request.
pub fn get_pull_request_command(config: &Config, payload: &PullRequestPayload) -> (r: CommandSpec)
    ensures
        r@ == pull_request_command(*config, *payload),
        last_value(r@.envs, "ACTION"@) == Some(payload.action@),
        last_value(r@.envs, "NUMBER"@) == Some(signed_decimal(payload.number as int)),
        forall|name: Seq<char>| #[trigger] starts_with(name, "PULL_REQUEST"@) ==> last_value(r@.envs, name) == last_value(pull_request_env("PULL_REQUEST"@, payload.pull_request), name),
        forall|name: Seq<char>| #[trigger] starts_with(name, "CHANGES"@) ==> last_value(r@.envs, name) == last_value((match &payload.changes { Some(v) => changes_env("CHANGES"@, *v), None => seq![] }), name),
        forall|name: Seq<char>| #[trigger] starts_with(name, "REPOSITORY"@) ==> last_value(r@.envs, name) == last_value(repository_env("REPOSITORY"@, payload.repository), name),
        forall|name: Seq<char>| #[trigger] starts_with(name, "SENDER"@) ==> last_value(r@.envs, name) == last_value(user_env("SENDER"@, payload.sender), name),
{
    let mut cmd = CommandSpec::new(config.pull_request.as_str());
    let ghost start = cmd@;
    cmd.set_var("ACTION", payload.action.clone());
    let ghost mut acc: Seq<EnvEntry> = seq![("ACTION"@, (*payload).action@)];
    cmd.set_var("NUMBER", i64_text(payload.number));
    proof {
        lemma_with_envs_twice(start, acc, seq![("NUMBER"@, signed_decimal((*payload).number as int))]);
        acc = acc + seq![("NUMBER"@, signed_decimal((*payload).number as int))];
    }
    add_pull_request_env(&mut cmd, "PULL_REQUEST", &payload.pull_request);
    proof {
        lemma_with_envs_twice(start, acc, pull_request_env("PULL_REQUEST"@, (*payload).pull_request));
        acc = acc + pull_request_env("PULL_REQUEST"@, (*payload).pull_request);
    }
    if let Some(v) = &payload.changes {
        add_changes_env(&mut cmd, "CHANGES", v);
    } else {
        proof {
            lemma_with_no_envs(cmd@);
        }
    }
    proof {
        lemma_with_envs_twice(start, acc, (match &(*payload).changes { Some(v) => changes_env("CHANGES"@, *v), None => seq![] }));
        acc = acc + (match &(*payload).changes { Some(v) => changes_env("CHANGES"@, *v), None => seq![] });
    }
    add_repository_env(&mut cmd, "REPOSITORY", &payload.repository);
    proof {
        lemma_with_envs_twice(start, acc, repository_env("REPOSITORY"@, (*payload).repository));
        acc = acc + repository_env("REPOSITORY"@, (*payload).repository);
    }
    add_user_env(&mut cmd, "SENDER", &payload.sender);
    proof {
        lemma_with_envs_twice(start, acc, user_env("SENDER"@, (*payload).sender));
    }
    proof {
        lemma_pull_request_command_action(*config, *payload);
        lemma_pull_request_command_number(*config, *payload);
        assert forall|name: Seq<char>| #[trigger] starts_with(name, "PULL_REQUEST"@) implies last_value(cmd@.envs, name) == last_value(pull_request_env("PULL_REQUEST"@, payload.pull_request), name) by {
            lemma_pull_request_command_pull_request(*config, *payload, name);
        }
        assert forall|name: Seq<char>| #[trigger] starts_with(name, "CHANGES"@) implies last_value(cmd@.envs, name) == last_value((match &payload.changes { Some(v) => changes_env("CHANGES"@, *v), None => seq![] }), name) by {
            lemma_pull_request_command_changes(*config, *payload, name);
        }
        assert forall|name: Seq<char>| #[trigger] starts_with(name, "REPOSITORY"@) implies last_value(cmd@.envs, name) == last_value(repository_env("REPOSITORY"@, payload.repository), name) by {
            lemma_pull_request_command_repository(*config, *payload, name);
        }
        assert forall|name: Seq<char>| #[trigger] starts_with(name, "SENDER"@) implies last_value(cmd@.envs, name) == last_value(user_env("SENDER"@, payload.sender), name) by {
            lemma_pull_request_command_sender(*config, *payload, name);
        }
    }
    cmd
}

/// The environment that describes a push.
pub open spec fn push_payload_env(payload: PushPayload) -> Seq<EnvEntry> {
    seq![("REF_PATH"@, payload.ref_path@)]
    + seq![("BEFORE"@, payload.before@)]
    + seq![("AFTER"@, payload.after@)]
    + seq![("COMPARE_URL"@, payload.compare_url@)]
    + repository_env("REPOSITORY"@, payload.repository)
    + user_env("PUSHER"@, payload.pusher)
    + user_env("SENDER"@, payload.sender)
    + (match &payload.head_commit { Some(v) => commit_env("HEAD_COMMIT"@, *v), None => seq![] })
    + commits_env("COMMIT_"@, payload.commits@)
}

/// The command that answers a push: the program that the configuration
/// names for it, with no arguments, in the environment that describes it.
pub open spec fn push_command(config: Config, payload: PushPayload) -> CommandView {
    fresh_command(config.push@).with_envs(push_payload_env(payload))
}

/// Builds the command that answers a push.
pub fn get_push_command(config: &Config, payload: &PushPayload) -> (r: CommandSpec)
    ensures
        r@ == push_command(*config, *payload),
        last_value(r@.envs, "REF_PATH"@) == Some(payload.ref_path@),
        last_value(r@.envs, "BEFORE"@) == Some(payload.before@),
        last_value(r@.envs, "AFTER"@) == Some(payload.after@),
        last_value(r@.envs, "COMPARE_URL"@) == Some(payload.compare_url@),
        forall|name: Seq<char>| #[trigger] starts_with(name, "REPOSITORY"@) ==> last_value(r@.envs, name) == last_value(repository_env("REPOSITORY"@, payload.repository), name),
        forall|name: Seq<char>| #[trigger] starts_with(name, "PUSHER"@) ==> last_value(r@.envs, name) == last_value(user_env("PUSHER"@, payload.pusher), name),
        forall|name: Seq<char>| #[trigger] starts_with(name, "SENDER"@) ==> last_value(r@.envs, name) == last_value(user_env("SENDER"@, payload.sender), name),
        forall|name: Seq<char>| #[trigger] starts_with(name, "HEAD_COMMIT"@) ==> last_value(r@.envs, name) == last_value((match &payload.head_commit { Some(v) => commit_env("HEAD_COMMIT"@, *v), None => seq![] }), name),
        forall|name: Seq<char>| #[trigger] starts_with(name, "COMMIT_"@) ==> last_value(r@.envs, name) == last_value(commits_env("COMMIT_"@, payload.commits@), name),
{
    let mut cmd = CommandSpec::new(config.push.as_str());
    let ghost start = cmd@;
    cmd.set_var("REF_PATH", payload.ref_path.clone());
    let ghost mut acc: Seq<EnvEntry> = seq![("REF_PATH"@, (*payload).ref_path@)];
    cmd.set_var("BEFORE", payload.before.clone());
    proof {
        lemma_with_envs_twice(start, acc, seq![("BEFORE"@, (*payload).before@)]);
        acc = acc + seq![("BEFORE"@, (*payload).before@)];
    }
    cmd.set_var("AFTER", payload.after.clone());
    proof {
        lemma_with_envs_twice(start, acc, seq![("AFTER"@, (*payload).after@)]);
        acc = acc + seq![("AFTER"@, (*payload).after@)];
    }
    cmd.set_var("COMPARE_URL", payload.compare_url.clone());
    proof {
        lemma_with_envs_twice(start, acc, seq![("COMPARE_URL"@, (*payload).compare_url@)]);
        acc = acc + seq![("COMPARE_URL"@, (*payload).compare_url@)];
    }
    add_repository_env(&mut cmd, "REPOSITORY", &payload.repository);
    proof {
        lemma_with_envs_twice(start, acc, repository_env("REPOSITORY"@, (*payload).repository));
        acc = acc + repository_env("REPOSITORY"@, (*payload).repository);
    }
    add_user_env(&mut cmd, "PUSHER", &payload.pusher);
    proof {
        lemma_with_envs_twice(start, acc, user_env("PUSHER"@, (*payload).pusher));
        acc = acc + user_env("PUSHER"@, (*payload).pusher);
    }
    add_user_env(&mut cmd, "SENDER", &payload.sender);
    proof {
        lemma_with_envs_twice(start, acc, user_env("SENDER"@, (*payload).sender));
        acc = acc + user_env("SENDER"@, (*payload).sender);
    }
    if let Some(v) = &payload.head_commit {
        add_commit_env(&mut cmd, "HEAD_COMMIT", v);
    } else {
        proof {
            lemma_with_no_envs(cmd@);
        }
    }
    proof {
        lemma_with_envs_twice(start, acc, (match &(*payload).head_commit { Some(v) => commit_env("HEAD_COMMIT"@, *v), None => seq![] }));
        acc = acc + (match &(*payload).head_commit { Some(v) => commit_env("HEAD_COMMIT"@, *v), None => seq![] });
    }
    add_commits_env(&mut cmd, "COMMIT_", &payload.commits);
    proof {
        lemma_with_envs_twice(start, acc, commits_env("COMMIT_"@, (*payload).commits@));
    }
    proof {
        lemma_push_command_ref_path(*config, *payload);
        lemma_push_command_before(*config, *payload);
        lemma_push_command_after(*config, *payload);
        lemma_push_command_compare_url(*config, *payload);
        assert forall|name: Seq<char>| #[trigger] starts_with(name, "REPOSITORY"@) implies last_value(cmd@.envs, name) == last_value(repository_env("REPOSITORY"@, payload.repository), name) by {
            lemma_push_command_repository(*config, *payload, name);
        }
        assert forall|name: Seq<char>| #[trigger] starts_with(name, "PUSHER"@) implies last_value(cmd@.envs, name) == last_value(user_env("PUSHER"@, payload.pusher), name) by {
            lemma_push_command_pusher(*config, *payload, name);
        }
        assert forall|name: Seq<char>| #[trigger] starts_with(name, "SENDER"@) implies last_value(cmd@.envs, name) == last_value(user_env("SENDER"@, payload.sender), name) by {
            lemma_push_command_sender(*config, *payload, name);
        }
        assert forall|name: Seq<char>| #[trigger] starts_with(name, "HEAD_COMMIT"@) implies last_value(cmd@.envs, name) == last_value((match &payload.head_commit { Some(v) => commit_env("HEAD_COMMIT"@, *v), None => seq![] }), name) by {
            lemma_push_command_head_commit(*config, *payload, name);
        }
        assert forall|name: Seq<char>| #[trigger] starts_with(name, "COMMIT_"@) implies last_value(cmd@.envs, name) == last_value(commits_env("COMMIT_"@, payload.commits@), name) by {
            lemma_push_command_commit(*config, *payload, name);
        }
    }
    cmd
}

/// The environment that describes a change to a release.
pub open spec fn release_payload_env(payload: ReleasePayload) -> Seq<EnvEntry> {
    seq![("ACTION"@, payload.action@)]
    + release_env("RELEASE"@, payload.release)
    + repository_env("REPOSITORY"@, payload.repository)
    + user_env("SENDER"@, payload.sender)
}

/// The command that answers a change to a release: the program that the configuration
/// names for it, with no arguments, in the environment that describes it.
pub open spec fn release_command(config: Config, payload: ReleasePayload) -> CommandView {
    fresh_command(config.release@).with_envs(release_payload_env(payload))
}

/// Builds the command that answers a change to a release.
pub fn get_release_command(config: &Config, payload: &ReleasePayload) -> (r: CommandSpec)
    ensures
        r@ == release_command(*config, *payload),
        last_value(r@.envs, "ACTION"@) == Some(payload.action@),
        forall|name: Seq<char>| #[trigger] starts_with(name, "RELEASE"@) ==> last_value(r@.envs, name) == last_value(release_env("RELEASE"@, payload.release), name),
        forall|name: Seq<char>| #[trigger] starts_with(name, "REPOSITORY"@) ==> last_value(r@.envs, name) == last_value(repository_env("REPOSITORY"@, payload.repository), name),
        forall|name: Seq<char>| #[trigger] starts_with(name, "SENDER"@) ==> last_value(r@.envs, name) == last_value(user_env("SENDER"@, payload.sender), name),
{
    let mut cmd = CommandSpec::new(config.release.as_str());
    let ghost start = cmd@;
    cmd.set_var("ACTION", payload.action.clone());
    let ghost mut acc: Seq<EnvEntry> = seq![("ACTION"@, (*payload).action@)];
    add_release_env(&mut cmd, "RELEASE", &payload.release);
    proof {
        lemma_with_envs_twice(start, acc, release_env("RELEASE"@, (*payload).release));
        acc = acc + release_env("RELEASE"@, (*payload).release);
    }
    add_repository_env(&mut cmd, "REPOSITORY", &payload.repository);
    proof {
        lemma_with_envs_twice(start, acc, repository_env("REPOSITORY"@, (*payload).repository));
        acc = acc + repository_env("REPOSITORY"@, (*payload).repository);
    }
    add_user_env(&mut cmd, "SENDER", &payload.sender);
    proof {
        lemma_with_envs_twice(start, acc, user_env("SENDER"@, (*payload).sender));
    }
    proof {
        lemma_release_command_action(*config, *payload);
        assert forall|name: Seq<char>| #[trigger] starts_with(name, "RELEASE"@) implies last_value(cmd@.envs, name) == last_value(release_env("RELEASE"@, payload.release), name) by {
            lemma_release_command_release(*config, *payload, name);
        }
        assert forall|name: Seq<char>| #[trigger] starts_with(name, "REPOSITORY"@) implies last_value(cmd@.envs, name) == last_value(repository_env("REPOSITORY"@, payload.repository), name) by {
            lemma_release_command_repository(*config, *payload, name);
        }
        assert forall|name: Seq<char>| #[trigger] starts_with(name, "SENDER"@) implies last_value(cmd@.envs, name) == last_value(user_env("SENDER"@, payload.sender), name) by {
            lemma_release_command_sender(*config, *payload, name);
        }
    }
    cmd
}

/// The environment that describes a change to a repository, where `upper`
/// is the action in capitals: the action, then the repository, the
/// organization and the sender, each under the capitalized action, an
/// underscore and its own name.
pub open spec fn repo_payload_env(payload: RepositoryPayload, upper: Seq<char>) -> Seq<EnvEntry> {
    seq![("ACTION"@, payload.action@)]
    + repository_env(upper + "_REPOSITORY"@, payload.repository)
    + user_env(upper + "_ORGANIZATION"@, payload.organization)
    + user_env(upper + "_SENDER"@, payload.sender)
}

/// The command that answers a change to a repository: the program that the
/// configuration names for it, with no arguments, in the environment that
/// describes the change under the action's upper case.
pub open spec fn repo_command(config: Config, payload: RepositoryPayload) -> CommandView {
    fresh_command(config.repository@).with_envs(repo_payload_env(payload, upper_case(payload.action@)))
}

/// The command that answers a change to a repository, with the action in
/// capitals `upper`, leaves the action in ACTION and describes the
/// repository, the organization and the sender, each alone, in the variables
/// whose names start with `upper` followed by _REPOSITORY, _ORGANIZATION and
/// _SENDER.
pub proof fn lemma_repo_command_vars(payload: RepositoryPayload, upper: Seq<char>, name: Seq<char>)
    ensures
        last_value(repo_payload_env(payload, upper), "ACTION"@) == Some(payload.action@),
        starts_with(name, upper + "_REPOSITORY"@) ==> last_value(repo_payload_env(payload, upper), name)
            == last_value(repository_env(upper + "_REPOSITORY"@, payload.repository), name),
        starts_with(name, upper + "_ORGANIZATION"@) ==> last_value(repo_payload_env(payload, upper), name)
            == last_value(user_env(upper + "_ORGANIZATION"@, payload.organization), name),
        starts_with(name, upper + "_SENDER"@) ==> last_value(repo_payload_env(payload, upper), name)
            == last_value(user_env(upper + "_SENDER"@, payload.sender), name),
{
    reveal_strlit("ACTION");
    reveal_strlit("_REPOSITORY");
    reveal_strlit("_ORGANIZATION");
    reveal_strlit("_SENDER");
    let action = seq![("ACTION"@, payload.action@)];
    let rp = upper + "_REPOSITORY"@;
    let op = upper + "_ORGANIZATION"@;
    let sp = upper + "_SENDER"@;
    let repo = repository_env(rp, payload.repository);
    let org = user_env(op, payload.organization);
    let sender = user_env(sp, payload.sender);
    let u = upper.len() as int;
    lemma_repository_env_under(rp, payload.repository);
    lemma_user_env_under(op, payload.organization);
    lemma_user_env_under(sp, payload.sender);
    assert(rp[u + 1] == 'R' && op[u + 1] == 'O' && sp[u + 1] == 'S');
    // ACTION is shorter than every prefix of a block
    lemma_no_value_shorter(rp, repo, "ACTION"@);
    lemma_no_value_shorter(op, org, "ACTION"@);
    lemma_no_value_shorter(sp, sender, "ACTION"@);
    lemma_last_value_concat(action + repo + org, sender, "ACTION"@);
    lemma_last_value_concat(action + repo, org, "ACTION"@);
    lemma_last_value_concat(action, repo, "ACTION"@);
    lemma_last_value_single("ACTION"@, payload.action@, "ACTION"@);
    lemma_last_value_concat(action + repo + org, sender, name);
    lemma_last_value_concat(action + repo, org, name);
    lemma_last_value_concat(action, repo, name);
    lemma_last_value_single("ACTION"@, payload.action@, name);
    if starts_with(name, rp) {
        lemma_starts_with_char(name, rp, u + 1);
        lemma_no_value_apart(op, org, name, u + 1);
        lemma_no_value_apart(sp, sender, name, u + 1);
    }
    if starts_with(name, op) {
        lemma_starts_with_char(name, op, u + 1);
        lemma_no_value_apart(rp, repo, name, u + 1);
        lemma_no_value_apart(sp, sender, name, u + 1);
    }
    if starts_with(name, sp) {
        lemma_starts_with_char(name, sp, u + 1);
        lemma_no_value_apart(rp, repo, name, u + 1);
        lemma_no_value_apart(op, org, name, u + 1);
    }
}

/// Builds the command that answers a change to a repository, given the
/// action in capitals.
pub fn get_repo_command_with(config: &Config, payload: &RepositoryPayload, upper: &str) -> (r: CommandSpec)
    ensures
        r@ == fresh_command(config.repository@).with_envs(repo_payload_env(*payload, upper@)),
        last_value(r@.envs, "ACTION"@) == Some(payload.action@),
        forall|name: Seq<char>| #[trigger] starts_with(name, upper@ + "_REPOSITORY"@) ==> last_value(r@.envs, name)
            == last_value(repository_env(upper@ + "_REPOSITORY"@, payload.repository), name),
        forall|name: Seq<char>| #[trigger] starts_with(name, upper@ + "_ORGANIZATION"@) ==> last_value(r@.envs, name)
            == last_value(user_env(upper@ + "_ORGANIZATION"@, payload.organization), name),
        forall|name: Seq<char>| #[trigger] starts_with(name, upper@ + "_SENDER"@) ==> last_value(r@.envs, name)
            == last_value(user_env(upper@ + "_SENDER"@, payload.sender), name),
{
    let mut cmd = CommandSpec::new(config.repository.as_str());
    let ghost start = cmd@;
    cmd.set_var("ACTION", payload.action.clone());
    let ghost acc = seq![("ACTION"@, payload.action@)];
    add_repository_env(&mut cmd, join(upper, "_REPOSITORY").as_str(), &payload.repository);
    proof {
        lemma_with_envs_twice(start, acc, repository_env(upper@ + "_REPOSITORY"@, payload.repository));
    }
    let ghost acc = acc + repository_env(upper@ + "_REPOSITORY"@, payload.repository);
    add_user_env(&mut cmd, join(upper, "_ORGANIZATION").as_str(), &payload.organization);
    proof {
        lemma_with_envs_twice(start, acc, user_env(upper@ + "_ORGANIZATION"@, payload.organization));
    }
    let ghost acc = acc + user_env(upper@ + "_ORGANIZATION"@, payload.organization);
    add_user_env(&mut cmd, join(upper, "_SENDER").as_str(), &payload.sender);
    proof {
        lemma_with_envs_twice(start, acc, user_env(upper@ + "_SENDER"@, payload.sender));
        lemma_repo_command_vars(*payload, upper@, seq![]);
        assert forall|name: Seq<char>| true implies {
            &&& starts_with(name, upper@ + "_REPOSITORY"@) ==> last_value(cmd@.envs, name)
                == last_value(repository_env(upper@ + "_REPOSITORY"@, payload.repository), name)
            &&& starts_with(name, upper@ + "_ORGANIZATION"@) ==> last_value(cmd@.envs, name)
                == last_value(user_env(upper@ + "_ORGANIZATION"@, payload.organization), name)
            &&& starts_with(name, upper@ + "_SENDER"@) ==> last_value(cmd@.envs, name)
                == last_value(user_env(upper@ + "_SENDER"@, payload.sender), name)
        } by {
            lemma_repo_command_vars(*payload, upper@, name);
        }
    }
    cmd
}

/// Builds the command that answers a change to a repository.
pub fn get_repo_command(config: &Config, payload: &RepositoryPayload) -> (r: CommandSpec)
    ensures
        r@ == repo_command(*config, *payload),
        last_value(r@.envs, "ACTION"@) == Some(payload.action@),
        forall|name: Seq<char>| #[trigger] starts_with(name, upper_case(payload.action@) + "_REPOSITORY"@) ==> last_value(r@.envs, name)
            == last_value(repository_env(upper_case(payload.action@) + "_REPOSITORY"@, payload.repository), name),
        forall|name: Seq<char>| #[trigger] starts_with(name, upper_case(payload.action@) + "_ORGANIZATION"@) ==> last_value(r@.envs, name)
            == last_value(user_env(upper_case(payload.action@) + "_ORGANIZATION"@, payload.organization), name),
        forall|name: Seq<char>| #[trigger] starts_with(name, upper_case(payload.action@) + "_SENDER"@) ==> last_value(r@.envs, name)
            == last_value(user_env(upper_case(payload.action@) + "_SENDER"@, payload.sender), name),
{
    let upper = to_uppercase(payload.action.as_str());
    get_repo_command_with(config, payload, upper.as_str())
}





/// Where an issue's title changed, the command that answers the change leaves
/// the earlier title in CHANGES_TITLE_FROM.
pub proof fn lemma_issue_title_change(config: Config, payload: IssuePayload)
    requires
        payload.changes matches Some(c) && c.title is Some,
    ensures
        last_value(issue_command(config, payload).envs, "CHANGES"@ + "_TITLE"@ + "_FROM"@)
            == Some(payload.changes->Some_0.title->Some_0.from@),
{
    reveal_strlit("CHANGES");
    reveal_strlit("_TITLE");
    reveal_strlit("_BODY");
    reveal_strlit("_REF");
    reveal_strlit("_FROM");
    let name = "CHANGES"@ + "_TITLE"@ + "_FROM"@;
    let c = payload.changes->Some_0;
    assert(name.subrange(0, 7) =~= "CHANGES"@);
    lemma_issue_command_changes(config, payload, name);
    let title = earlier_value_env("CHANGES"@ + "_TITLE"@, c.title->Some_0);
    let body = match &c.body { Some(v) => earlier_value_env("CHANGES"@ + "_BODY"@, *v), None => seq![] };
    let ref_path = match &c.ref_path { Some(v) => earlier_value_env("CHANGES"@ + "_REF"@, *v), None => seq![] };
    match &c.body {
        Some(v) => {
            lemma_earlier_value_env_under("CHANGES"@ + "_BODY"@, *v);
            lemma_no_value_apart("CHANGES"@ + "_BODY"@, body, name, 8);
        },
        None => {},
    }
    match &c.ref_path {
        Some(v) => {
            lemma_earlier_value_env_under("CHANGES"@ + "_REF"@, *v);
            lemma_no_value_apart("CHANGES"@ + "_REF"@, ref_path, name, 8);
        },
        None => {},
    }
    lemma_last_value_concat(title + body, ref_path, name);
    lemma_last_value_concat(title, body, name);
    lemma_last_value_single(name, c.title->Some_0.from@, name);
}


/// The command that answers the creation of a branch or tag leaves its sha in SHA.
pub proof fn lemma_create_command_sha(config: Config, payload: CreatePayload)
    ensures
        last_value(create_command(config, payload).envs, "SHA"@) == Some(payload.sha@),
{
    reveal_strlit("REF_PATH");
    reveal_strlit("REF_TYPE");
    reveal_strlit("REPOSITORY");
    reveal_strlit("SENDER");
    reveal_strlit("SHA");
    assert(create_command(config, payload).envs =~= create_payload_env(payload));
    lemma_last_value_single("REF_PATH"@, payload.ref_path@, "SHA"@);
    assert("REF_PATH"@.len() != "SHA"@.len());
    lemma_last_value_single("REF_TYPE"@, payload.ref_type@, "SHA"@);
    assert("REF_TYPE"@.len() != "SHA"@.len());
    lemma_repository_env_under("REPOSITORY"@, payload.repository);
    lemma_no_value_apart("REPOSITORY"@, repository_env("REPOSITORY"@, payload.repository), "SHA"@, 0);
    lemma_user_env_under("SENDER"@, payload.sender);
    lemma_no_value_apart("SENDER"@, user_env("SENDER"@, payload.sender), "SHA"@, 1);
    lemma_last_value_concat(seq![("SHA"@, payload.sha@)] + seq![("REF_PATH"@, payload.ref_path@)] + seq![("REF_TYPE"@, payload.ref_type@)] + repository_env("REPOSITORY"@, payload.repository), user_env("SENDER"@, payload.sender), "SHA"@);
    lemma_last_value_concat(seq![("SHA"@, payload.sha@)] + seq![("REF_PATH"@, payload.ref_path@)] + seq![("REF_TYPE"@, payload.ref_type@)], repository_env("REPOSITORY"@, payload.repository), "SHA"@);
    lemma_last_value_concat(seq![("SHA"@, payload.sha@)] + seq![("REF_PATH"@, payload.ref_path@)], seq![("REF_TYPE"@, payload.ref_type@)], "SHA"@);
    lemma_last_value_concat(seq![("SHA"@, payload.sha@)], seq![("REF_PATH"@, payload.ref_path@)], "SHA"@);
    lemma_last_value_single("SHA"@, payload.sha@, "SHA"@);
}

/// The command that answers the creation of a branch or tag leaves its ref path in REF_PATH.
pub proof fn lemma_create_command_ref_path(config: Config, payload: CreatePayload)
    ensures
        last_value(create_command(config, payload).envs, "REF_PATH"@) == Some(payload.ref_path@),
{
    reveal_strlit("REF_PATH");
    reveal_strlit("REF_TYPE");
    reveal_strlit("REPOSITORY");
    reveal_strlit("SENDER");
    reveal_strlit("SHA");
    assert(create_command(config, payload).envs =~= create_payload_env(payload));
    lemma_last_value_single("SHA"@, payload.sha@, "REF_PATH"@);
    assert("SHA"@.len() != "REF_PATH"@.len());
    lemma_last_value_single("REF_TYPE"@, payload.ref_type@, "REF_PATH"@);
    assert("REF_TYPE"@[4] != "REF_PATH"@[4]);
    lemma_repository_env_under("REPOSITORY"@, payload.repository);
    lemma_no_value_apart("REPOSITORY"@, repository_env("REPOSITORY"@, payload.repository), "REF_PATH"@, 2);
    lemma_user_env_under("SENDER"@, payload.sender);
    lemma_no_value_apart("SENDER"@, user_env("SENDER"@, payload.sender), "REF_PATH"@, 0);
    lemma_last_value_concat(seq![("SHA"@, payload.sha@)] + seq![("REF_PATH"@, payload.ref_path@)] + seq![("REF_TYPE"@, payload.ref_type@)] + repository_env("REPOSITORY"@, payload.repository), user_env("SENDER"@, payload.sender), "REF_PATH"@);
    lemma_last_value_concat(seq![("SHA"@, payload.sha@)] + seq![("REF_PATH"@, payload.ref_path@)] + seq![("REF_TYPE"@, payload.ref_type@)], repository_env("REPOSITORY"@, payload.repository), "REF_PATH"@);
    lemma_last_value_concat(seq![("SHA"@, payload.sha@)] + seq![("REF_PATH"@, payload.ref_path@)], seq![("REF_TYPE"@, payload.ref_type@)], "REF_PATH"@);
    lemma_last_value_concat(seq![("SHA"@, payload.sha@)], seq![("REF_PATH"@, payload.ref_path@)], "REF_PATH"@);
    lemma_last_value_single("REF_PATH"@, payload.ref_path@, "REF_PATH"@);
}

/// The command that answers the creation of a branch or tag leaves its ref type in REF_TYPE.
pub proof fn lemma_create_command_ref_type(config: Config, payload: CreatePayload)
    ensures
        last_value(create_command(config, payload).envs, "REF_TYPE"@) == Some(payload.ref_type@),
{
    reveal_strlit("REF_PATH");
    reveal_strlit("REF_TYPE");
    reveal_strlit("REPOSITORY");
    reveal_strlit("SENDER");
    reveal_strlit("SHA");
    assert(create_command(config, payload).envs =~= create_payload_env(payload));
    lemma_last_value_single("SHA"@, payload.sha@, "REF_TYPE"@);
    assert("SHA"@.len() != "REF_TYPE"@.len());
    lemma_last_value_single("REF_PATH"@, payload.ref_path@, "REF_TYPE"@);
    assert("REF_PATH"@[4] != "REF_TYPE"@[4]);
    lemma_repository_env_under("REPOSITORY"@, payload.repository);
    lemma_no_value_apart("REPOSITORY"@, repository_env("REPOSITORY"@, payload.repository), "REF_TYPE"@, 2);
    lemma_user_env_under("SENDER"@, payload.sender);
    lemma_no_value_apart("SENDER"@, user_env("SENDER"@, payload.sender), "REF_TYPE"@, 0);
    lemma_last_value_concat(seq![("SHA"@, payload.sha@)] + seq![("REF_PATH"@, payload.ref_path@)] + seq![("REF_TYPE"@, payload.ref_type@)] + repository_env("REPOSITORY"@, payload.repository), user_env("SENDER"@, payload.sender), "REF_TYPE"@);
    lemma_last_value_concat(seq![("SHA"@, payload.sha@)] + seq![("REF_PATH"@, payload.ref_path@)] + seq![("REF_TYPE"@, payload.ref_type@)], repository_env("REPOSITORY"@, payload.repository), "REF_TYPE"@);
    lemma_last_value_concat(seq![("SHA"@, payload.sha@)] + seq![("REF_PATH"@, payload.ref_path@)], seq![("REF_TYPE"@, payload.ref_type@)], "REF_TYPE"@);
    lemma_last_value_concat(seq![("SHA"@, payload.sha@)], seq![("REF_PATH"@, payload.ref_path@)], "REF_TYPE"@);
    lemma_last_value_single("REF_TYPE"@, payload.ref_type@, "REF_TYPE"@);
}

/// The command that answers the creation of a branch or tag describes its repository, and nothing else, in
/// the variables whose names start with REPOSITORY.
pub proof fn lemma_create_command_repository(config: Config, payload: CreatePayload, name: Seq<char>)
    ensures
        starts_with(name, "REPOSITORY"@) ==> last_value(create_command(config, payload).envs, name) == last_value(repository_env("REPOSITORY"@, payload.repository), name),
{
    reveal_strlit("REF_PATH");
    reveal_strlit("REF_TYPE");
    reveal_strlit("REPOSITORY");
    reveal_strlit("SENDER");
    reveal_strlit("SHA");
    assert(create_command(config, payload).envs =~= create_payload_env(payload));
    if starts_with(name, "REPOSITORY"@) {
        lemma_last_value_single("SHA"@, payload.sha@, name);
        lemma_starts_with_char(name, "REPOSITORY"@, 0);
        assert("SHA"@[0] != name[0]);
        lemma_last_value_single("REF_PATH"@, payload.ref_path@, name);
        lemma_starts_with_char(name, "REPOSITORY"@, 2);
        assert("REF_PATH"@[2] != name[2]);
        lemma_last_value_single("REF_TYPE"@, payload.ref_type@, name);
        lemma_starts_with_char(name, "REPOSITORY"@, 2);
        assert("REF_TYPE"@[2] != name[2]);
        lemma_user_env_under("SENDER"@, payload.sender);
        lemma_starts_with_char(name, "REPOSITORY"@, 0);
        lemma_no_value_apart("SENDER"@, user_env("SENDER"@, payload.sender), name, 0);
        lemma_last_value_concat(seq![("SHA"@, payload.sha@)] + seq![("REF_PATH"@, payload.ref_path@)] + seq![("REF_TYPE"@, payload.ref_type@)] + repository_env("REPOSITORY"@, payload.repository), user_env("SENDER"@, payload.sender), name);
        lemma_last_value_concat(seq![("SHA"@, payload.sha@)] + seq![("REF_PATH"@, payload.ref_path@)] + seq![("REF_TYPE"@, payload.ref_type@)], repository_env("REPOSITORY"@, payload.repository), name);
        lemma_last_value_concat(seq![("SHA"@, payload.sha@)] + seq![("REF_PATH"@, payload.ref_path@)], seq![("REF_TYPE"@, payload.ref_type@)], name);
        lemma_last_value_concat(seq![("SHA"@, payload.sha@)], seq![("REF_PATH"@, payload.ref_path@)], name);
    }
}

/// The command that answers the creation of a branch or tag describes its sender, and nothing else, in
/// the variables whose names start with SENDER.
pub proof fn lemma_create_command_sender(config: Config, payload: CreatePayload, name: Seq<char>)
    ensures
        starts_with(name, "SENDER"@) ==> last_value(create_command(config, payload).envs, name) == last_value(user_env("SENDER"@, payload.sender), name),
{
    reveal_strlit("REF_PATH");
    reveal_strlit("REF_TYPE");
    reveal_strlit("REPOSITORY");
    reveal_strlit("SENDER");
    reveal_strlit("SHA");
    assert(create_command(config, payload).envs =~= create_payload_env(payload));
    if starts_with(name, "SENDER"@) {
        lemma_last_value_single("SHA"@, payload.sha@, name);
        lemma_starts_with_char(name, "SENDER"@, 1);
        assert("SHA"@[1] != name[1]);
        lemma_last_value_single("REF_PATH"@, payload.ref_path@, name);
        lemma_starts_with_char(name, "SENDER"@, 0);
        assert("REF_PATH"@[0] != name[0]);
        lemma_last_value_single("REF_TYPE"@, payload.ref_type@, name);
        lemma_starts_with_char(name, "SENDER"@, 0);
        assert("REF_TYPE"@[0] != name[0]);
        lemma_repository_env_under("REPOSITORY"@, payload.repository);
        lemma_starts_with_char(name, "SENDER"@, 0);
        lemma_no_value_apart("REPOSITORY"@, repository_env("REPOSITORY"@, payload.repository), name, 0);
        lemma_last_value_concat(seq![("SHA"@, payload.sha@)] + seq![("REF_PATH"@, payload.ref_path@)] + seq![("REF_TYPE"@, payload.ref_type@)] + repository_env("REPOSITORY"@, payload.repository), user_env("SENDER"@, payload.sender), name);
        lemma_last_value_concat(seq![("SHA"@, payload.sha@)] + seq![("REF_PATH"@, payload.ref_path@)] + seq![("REF_TYPE"@, payload.ref_type@)], repository_env("REPOSITORY"@, payload.repository), name);
        lemma_last_value_concat(seq![("SHA"@, payload.sha@)] + seq![("REF_PATH"@, payload.ref_path@)], seq![("REF_TYPE"@, payload.ref_type@)], name);
        lemma_last_value_concat(seq![("SHA"@, payload.sha@)], seq![("REF_PATH"@, payload.ref_path@)], name);
    }
}

/// The command that answers the deletion of a branch or tag leaves its pusher type in PUSHER_TYPE.
pub proof fn lemma_delete_command_pusher_type(config: Config, payload: DeletePayload)
    ensures
        last_value(delete_command(config, payload).envs, "PUSHER_TYPE"@) == Some(payload.pusher_type@),
{
    reveal_strlit("PUSHER_TYPE");
    reveal_strlit("REF_PATH");
    reveal_strlit("REF_TYPE");
    reveal_strlit("REPOSITORY");
    reveal_strlit("SENDER");
    assert(delete_command(config, payload).envs =~= delete_payload_env(payload));
    lemma_last_value_single("REF_PATH"@, payload.ref_path@, "PUSHER_TYPE"@);
    assert("REF_PATH"@.len() != "PUSHER_TYPE"@.len());
    lemma_last_value_single("REF_TYPE"@, payload.ref_type@, "PUSHER_TYPE"@);
    assert("REF_TYPE"@.len() != "PUSHER_TYPE"@.len());
    lemma_repository_env_under("REPOSITORY"@, payload.repository);
    lemma_no_value_apart("REPOSITORY"@, repository_env("REPOSITORY"@, payload.repository), "PUSHER_TYPE"@, 0);
    lemma_user_env_under("SENDER"@, payload.sender);
    lemma_no_value_apart("SENDER"@, user_env("SENDER"@, payload.sender), "PUSHER_TYPE"@, 0);
    lemma_last_value_concat(seq![("PUSHER_TYPE"@, payload.pusher_type@)] + seq![("REF_PATH"@, payload.ref_path@)] + seq![("REF_TYPE"@, payload.ref_type@)] + repository_env("REPOSITORY"@, payload.repository), user_env("SENDER"@, payload.sender), "PUSHER_TYPE"@);
    lemma_last_value_concat(seq![("PUSHER_TYPE"@, payload.pusher_type@)] + seq![("REF_PATH"@, payload.ref_path@)] + seq![("REF_TYPE"@, payload.ref_type@)], repository_env("REPOSITORY"@, payload.repository), "PUSHER_TYPE"@);
    lemma_last_value_concat(seq![("PUSHER_TYPE"@, payload.pusher_type@)] + seq![("REF_PATH"@, payload.ref_path@)], seq![("REF_TYPE"@, payload.ref_type@)], "PUSHER_TYPE"@);
    lemma_last_value_concat(seq![("PUSHER_TYPE"@, payload.pusher_type@)], seq![("REF_PATH"@, payload.ref_path@)], "PUSHER_TYPE"@);
    lemma_last_value_single("PUSHER_TYPE"@, payload.pusher_type@, "PUSHER_TYPE"@);
}

/// The command that answers the deletion of a branch or tag leaves its ref path in REF_PATH.
pub proof fn lemma_delete_command_ref_path(config: Config, payload: DeletePayload)
    ensures
        last_value(delete_command(config, payload).envs, "REF_PATH"@) == Some(payload.ref_path@),
{
    reveal_strlit("PUSHER_TYPE");
    reveal_strlit("REF_PATH");
    reveal_strlit("REF_TYPE");
    reveal_strlit("REPOSITORY");
    reveal_strlit("SENDER");
    assert(delete_command(config, payload).envs =~= delete_payload_env(payload));
    lemma_last_value_single("PUSHER_TYPE"@, payload.pusher_type@, "REF_PATH"@);
    assert("PUSHER_TYPE"@.len() != "REF_PATH"@.len());
    lemma_last_value_single("REF_TYPE"@, payload.ref_type@, "REF_PATH"@);
    assert("REF_TYPE"@[4] != "REF_PATH"@[4]);
    lemma_repository_env_under("REPOSITORY"@, payload.repository);
    lemma_no_value_apart("REPOSITORY"@, repository_env("REPOSITORY"@, payload.repository), "REF_PATH"@, 2);
    lemma_user_env_under("SENDER"@, payload.sender);
    lemma_no_value_apart("SENDER"@, user_env("SENDER"@, payload.sender), "REF_PATH"@, 0);
    lemma_last_value_concat(seq![("PUSHER_TYPE"@, payload.pusher_type@)] + seq![("REF_PATH"@, payload.ref_path@)] + seq![("REF_TYPE"@, payload.ref_type@)] + repository_env("REPOSITORY"@, payload.repository), user_env("SENDER"@, payload.sender), "REF_PATH"@);
    lemma_last_value_concat(seq![("PUSHER_TYPE"@, payload.pusher_type@)] + seq![("REF_PATH"@, payload.ref_path@)] + seq![("REF_TYPE"@, payload.ref_type@)], repository_env("REPOSITORY"@, payload.repository), "REF_PATH"@);
    lemma_last_value_concat(seq![("PUSHER_TYPE"@, payload.pusher_type@)] + seq![("REF_PATH"@, payload.ref_path@)], seq![("REF_TYPE"@, payload.ref_type@)], "REF_PATH"@);
    lemma_last_value_concat(seq![("PUSHER_TYPE"@, payload.pusher_type@)], seq![("REF_PATH"@, payload.ref_path@)], "REF_PATH"@);
    lemma_last_value_single("REF_PATH"@, payload.ref_path@, "REF_PATH"@);
}

/// The command that answers the deletion of a branch or tag leaves its ref type in REF_TYPE.
pub proof fn lemma_delete_command_ref_type(config: Config, payload: DeletePayload)
    ensures
        last_value(delete_command(config, payload).envs, "REF_TYPE"@) == Some(payload.ref_type@),
{
    reveal_strlit("PUSHER_TYPE");
    reveal_strlit("REF_PATH");
    reveal_strlit("REF_TYPE");
    reveal_strlit("REPOSITORY");
    reveal_strlit("SENDER");
    assert(delete_command(config, payload).envs =~= delete_payload_env(payload));
    lemma_last_value_single("PUSHER_TYPE"@, payload.pusher_type@, "REF_TYPE"@);
    assert("PUSHER_TYPE"@.len() != "REF_TYPE"@.len());
    lemma_last_value_single("REF_PATH"@, payload.ref_path@, "REF_TYPE"@);
    assert("REF_PATH"@[4] != "REF_TYPE"@[4]);
    lemma_repository_env_under("REPOSITORY"@, payload.repository);
    lemma_no_value_apart("REPOSITORY"@, repository_env("REPOSITORY"@, payload.repository), "REF_TYPE"@, 2);
    lemma_user_env_under("SENDER"@, payload.sender);
    lemma_no_value_apart("SENDER"@, user_env("SENDER"@, payload.sender), "REF_TYPE"@, 0);
    lemma_last_value_concat(seq![("PUSHER_TYPE"@, payload.pusher_type@)] + seq![("REF_PATH"@, payload.ref_path@)] + seq![("REF_TYPE"@, payload.ref_type@)] + repository_env("REPOSITORY"@, payload.repository), user_env("SENDER"@, payload.sender), "REF_TYPE"@);
    lemma_last_value_concat(seq![("PUSHER_TYPE"@, payload.pusher_type@)] + seq![("REF_PATH"@, payload.ref_path@)] + seq![("REF_TYPE"@, payload.ref_type@)], repository_env("REPOSITORY"@, payload.repository), "REF_TYPE"@);
    lemma_last_value_concat(seq![("PUSHER_TYPE"@, payload.pusher_type@)] + seq![("REF_PATH"@, payload.ref_path@)], seq![("REF_TYPE"@, payload.ref_type@)], "REF_TYPE"@);
    lemma_last_value_concat(seq![("PUSHER_TYPE"@, payload.pusher_type@)], seq![("REF_PATH"@, payload.ref_path@)], "REF_TYPE"@);
    lemma_last_value_single("REF_TYPE"@, payload.ref_type@, "REF_TYPE"@);
}

/// The command that answers the deletion of a branch or tag describes its repository, and nothing else, in
/// the variables whose names start with REPOSITORY.
pub proof fn lemma_delete_command_repository(config: Config, payload: DeletePayload, name: Seq<char>)
    ensures
        starts_with(name, "REPOSITORY"@) ==> last_value(delete_command(config, payload).envs, name) == last_value(repository_env("REPOSITORY"@, payload.repository), name),
{
    reveal_strlit("PUSHER_TYPE");
    reveal_strlit("REF_PATH");
    reveal_strlit("REF_TYPE");
    reveal_strlit("REPOSITORY");
    reveal_strlit("SENDER");
    assert(delete_command(config, payload).envs =~= delete_payload_env(payload));
    if starts_with(name, "REPOSITORY"@) {
        lemma_last_value_single("PUSHER_TYPE"@, payload.pusher_type@, name);
        lemma_starts_with_char(name, "REPOSITORY"@, 0);
        assert("PUSHER_TYPE"@[0] != name[0]);
        lemma_last_value_single("REF_PATH"@, payload.ref_path@, name);
        lemma_starts_with_char(name, "REPOSITORY"@, 2);
        assert("REF_PATH"@[2] != name[2]);
        lemma_last_value_single("REF_TYPE"@, payload.ref_type@, name);
        lemma_starts_with_char(name, "REPOSITORY"@, 2);
        assert("REF_TYPE"@[2] != name[2]);
        lemma_user_env_under("SENDER"@, payload.sender);
        lemma_starts_with_char(name, "REPOSITORY"@, 0);
        lemma_no_value_apart("SENDER"@, user_env("SENDER"@, payload.sender), name, 0);
        lemma_last_value_concat(seq![("PUSHER_TYPE"@, payload.pusher_type@)] + seq![("REF_PATH"@, payload.ref_path@)] + seq![("REF_TYPE"@, payload.ref_type@)] + repository_env("REPOSITORY"@, payload.repository), user_env("SENDER"@, payload.sender), name);
        lemma_last_value_concat(seq![("PUSHER_TYPE"@, payload.pusher_type@)] + seq![("REF_PATH"@, payload.ref_path@)] + seq![("REF_TYPE"@, payload.ref_type@)], repository_env("REPOSITORY"@, payload.repository), name);
        lemma_last_value_concat(seq![("PUSHER_TYPE"@, payload.pusher_type@)] + seq![("REF_PATH"@, payload.ref_path@)], seq![("REF_TYPE"@, payload.ref_type@)], name);
        lemma_last_value_concat(seq![("PUSHER_TYPE"@, payload.pusher_type@)], seq![("REF_PATH"@, payload.ref_path@)], name);
    }
}

/// The command that answers the deletion of a branch or tag describes its sender, and nothing else, in
/// the variables whose names start with SENDER.
pub proof fn lemma_delete_command_sender(config: Config, payload: DeletePayload, name: Seq<char>)
    ensures
        starts_with(name, "SENDER"@) ==> last_value(delete_command(config, payload).envs, name) == last_value(user_env("SENDER"@, payload.sender), name),
{
    reveal_strlit("PUSHER_TYPE");
    reveal_strlit("REF_PATH");
    reveal_strlit("REF_TYPE");
    reveal_strlit("REPOSITORY");
    reveal_strlit("SENDER");
    assert(delete_command(config, payload).envs =~= delete_payload_env(payload));
    if starts_with(name, "SENDER"@) {
        lemma_last_value_single("PUSHER_TYPE"@, payload.pusher_type@, name);
        lemma_starts_with_char(name, "SENDER"@, 0);
        assert("PUSHER_TYPE"@[0] != name[0]);
        lemma_last_value_single("REF_PATH"@, payload.ref_path@, name);
        lemma_starts_with_char(name, "SENDER"@, 0);
        assert("REF_PATH"@[0] != name[0]);
        lemma_last_value_single("REF_TYPE"@, payload.ref_type@, name);
        lemma_starts_with_char(name, "SENDER"@, 0);
        assert("REF_TYPE"@[0] != name[0]);
        lemma_repository_env_under("REPOSITORY"@, payload.repository);
        lemma_starts_with_char(name, "SENDER"@, 0);
        lemma_no_value_apart("REPOSITORY"@, repository_env("REPOSITORY"@, payload.repository), name, 0);
        lemma_last_value_concat(seq![("PUSHER_TYPE"@, payload.pusher_type@)] + seq![("REF_PATH"@, payload.ref_path@)] + seq![("REF_TYPE"@, payload.ref_type@)] + repository_env("REPOSITORY"@, payload.repository), user_env("SENDER"@, payload.sender), name);
        lemma_last_value_concat(seq![("PUSHER_TYPE"@, payload.pusher_type@)] + seq![("REF_PATH"@, payload.ref_path@)] + seq![("REF_TYPE"@, payload.ref_type@)], repository_env("REPOSITORY"@, payload.repository), name);
        lemma_last_value_concat(seq![("PUSHER_TYPE"@, payload.pusher_type@)] + seq![("REF_PATH"@, payload.ref_path@)], seq![("REF_TYPE"@, payload.ref_type@)], name);
        lemma_last_value_concat(seq![("PUSHER_TYPE"@, payload.pusher_type@)], seq![("REF_PATH"@, payload.ref_path@)], name);
    }
}

/// The command that answers a fork describes its forkee, and nothing else, in
/// the variables whose names start with FORKEE.
pub proof fn lemma_fork_command_forkee(config: Config, payload: ForkPayload, name: Seq<char>)
    ensures
        starts_with(name, "FORKEE"@) ==> last_value(fork_command(config, payload).envs, name) == last_value(repository_env("FORKEE"@, payload.forkee), name),
{
    reveal_strlit("FORKEE");
    reveal_strlit("REPOSITORY");
    reveal_strlit("SENDER");
    assert(fork_command(config, payload).envs =~= fork_payload_env(payload));
    if starts_with(name, "FORKEE"@) {
        lemma_repository_env_under("REPOSITORY"@, payload.repository);
        lemma_starts_with_char(name, "FORKEE"@, 0);
        lemma_no_value_apart("REPOSITORY"@, repository_env("REPOSITORY"@, payload.repository), name, 0);
        lemma_user_env_under("SENDER"@, payload.sender);
        lemma_starts_with_char(name, "FORKEE"@, 0);
        lemma_no_value_apart("SENDER"@, user_env("SENDER"@, payload.sender), name, 0);
        lemma_last_value_concat(repository_env("FORKEE"@, payload.forkee) + repository_env("REPOSITORY"@, payload.repository), user_env("SENDER"@, payload.sender), name);
        lemma_last_value_concat(repository_env("FORKEE"@, payload.forkee), repository_env("REPOSITORY"@, payload.repository), name);
    }
}

/// The command that answers a fork describes its repository, and nothing else, in
/// the variables whose names start with REPOSITORY.
pub proof fn lemma_fork_command_repository(config: Config, payload: ForkPayload, name: Seq<char>)
    ensures
        starts_with(name, "REPOSITORY"@) ==> last_value(fork_command(config, payload).envs, name) == last_value(repository_env("REPOSITORY"@, payload.repository), name),
{
    reveal_strlit("FORKEE");
    reveal_strlit("REPOSITORY");
    reveal_strlit("SENDER");
    assert(fork_command(config, payload).envs =~= fork_payload_env(payload));
    if starts_with(name, "REPOSITORY"@) {
        lemma_repository_env_under("FORKEE"@, payload.forkee);
        lemma_starts_with_char(name, "REPOSITORY"@, 0);
        lemma_no_value_apart("FORKEE"@, repository_env("FORKEE"@, payload.forkee), name, 0);
        lemma_user_env_under("SENDER"@, payload.sender);
        lemma_starts_with_char(name, "REPOSITORY"@, 0);
        lemma_no_value_apart("SENDER"@, user_env("SENDER"@, payload.sender), name, 0);
        lemma_last_value_concat(repository_env("FORKEE"@, payload.forkee) + repository_env("REPOSITORY"@, payload.repository), user_env("SENDER"@, payload.sender), name);
        lemma_last_value_concat(repository_env("FORKEE"@, payload.forkee), repository_env("REPOSITORY"@, payload.repository), name);
    }
}

/// The command that answers a fork describes its sender, and nothing else, in
/// the variables whose names start with SENDER.
pub proof fn lemma_fork_command_sender(config: Config, payload: ForkPayload, name: Seq<char>)
    ensures
        starts_with(name, "SENDER"@) ==> last_value(fork_command(config, payload).envs, name) == last_value(user_env("SENDER"@, payload.sender), name),
{
    reveal_strlit("FORKEE");
    reveal_strlit("REPOSITORY");
    reveal_strlit("SENDER");
    assert(fork_command(config, payload).envs =~= fork_payload_env(payload));
    if starts_with(name, "SENDER"@) {
        lemma_repository_env_under("FORKEE"@, payload.forkee);
        lemma_starts_with_char(name, "SENDER"@, 0);
        lemma_no_value_apart("FORKEE"@, repository_env("FORKEE"@, payload.forkee), name, 0);
        lemma_repository_env_under("REPOSITORY"@, payload.repository);
        lemma_starts_with_char(name, "SENDER"@, 0);
        lemma_no_value_apart("REPOSITORY"@, repository_env("REPOSITORY"@, payload.repository), name, 0);
        lemma_last_value_concat(repository_env("FORKEE"@, payload.forkee) + repository_env("REPOSITORY"@, payload.repository), user_env("SENDER"@, payload.sender), name);
        lemma_last_value_concat(repository_env("FORKEE"@, payload.forkee), repository_env("REPOSITORY"@, payload.repository), name);
    }
}

/// The command that answers a change to an issue leaves its number in NUMBER.
pub proof fn lemma_issue_command_number(config: Config, payload: IssuePayload)
    ensures
        last_value(issue_command(config, payload).envs, "NUMBER"@) == Some(signed_decimal(payload.number as int)),
{
    reveal_strlit("ACTION");
    reveal_strlit("CHANGES");
    reveal_strlit("ISSUE");
    reveal_strlit("NUMBER");
    reveal_strlit("REPOSITORY");
    reveal_strlit("SENDER");
    assert(issue_command(config, payload).envs =~= issue_payload_env(payload));
    lemma_last_value_single("ACTION"@, payload.action@, "NUMBER"@);
    assert("ACTION"@[0] != "NUMBER"@[0]);
    match &payload.changes {
        Some(v) => {
            lemma_changes_env_under("CHANGES"@, *v);
            lemma_no_value_apart("CHANGES"@, changes_env("CHANGES"@, *v), "NUMBER"@, 0);
        },
        None => {},
    }
    lemma_issue_env_under("ISSUE"@, payload.issue);
    lemma_no_value_apart("ISSUE"@, issue_env("ISSUE"@, payload.issue), "NUMBER"@, 0);
    lemma_repository_env_under("REPOSITORY"@, payload.repository);
    lemma_no_value_apart("REPOSITORY"@, repository_env("REPOSITORY"@, payload.repository), "NUMBER"@, 0);
    lemma_user_env_under("SENDER"@, payload.sender);
    lemma_no_value_apart("SENDER"@, user_env("SENDER"@, payload.sender), "NUMBER"@, 0);
    lemma_last_value_concat(seq![("NUMBER"@, signed_decimal(payload.number as int))] + seq![("ACTION"@, payload.action@)] + (match &payload.changes { Some(v) => changes_env("CHANGES"@, *v), None => seq![] }) + issue_env("ISSUE"@, payload.issue) + repository_env("REPOSITORY"@, payload.repository), user_env("SENDER"@, payload.sender), "NUMBER"@);
    lemma_last_value_concat(seq![("NUMBER"@, signed_decimal(payload.number as int))] + seq![("ACTION"@, payload.action@)] + (match &payload.changes { Some(v) => changes_env("CHANGES"@, *v), None => seq![] }) + issue_env("ISSUE"@, payload.issue), repository_env("REPOSITORY"@, payload.repository), "NUMBER"@);
    lemma_last_value_concat(seq![("NUMBER"@, signed_decimal(payload.number as int))] + seq![("ACTION"@, payload.action@)] + (match &payload.changes { Some(v) => changes_env("CHANGES"@, *v), None => seq![] }), issue_env("ISSUE"@, payload.issue), "NUMBER"@);
    lemma_last_value_concat(seq![("NUMBER"@, signed_decimal(payload.number as int))] + seq![("ACTION"@, payload.action@)], (match &payload.changes { Some(v) => changes_env("CHANGES"@, *v), None => seq![] }), "NUMBER"@);
    lemma_last_value_concat(seq![("NUMBER"@, signed_decimal(payload.number as int))], seq![("ACTION"@, payload.action@)], "NUMBER"@);
    lemma_last_value_single("NUMBER"@, signed_decimal(payload.number as int), "NUMBER"@);
}

/// The command that answers a change to an issue leaves its action in ACTION.
pub proof fn lemma_issue_command_action(config: Config, payload: IssuePayload)
    ensures
        last_value(issue_command(config, payload).envs, "ACTION"@) == Some(payload.action@),
{
    reveal_strlit("ACTION");
    reveal_strlit("CHANGES");
    reveal_strlit("ISSUE");
    reveal_strlit("NUMBER");
    reveal_strlit("REPOSITORY");
    reveal_strlit("SENDER");
    assert(issue_command(config, payload).envs =~= issue_payload_env(payload));
    lemma_last_value_single("NUMBER"@, signed_decimal(payload.number as int), "ACTION"@);
    assert("NUMBER"@[0] != "ACTION"@[0]);
    match &payload.changes {
        Some(v) => {
            lemma_changes_env_under("CHANGES"@, *v);
            lemma_no_value_apart("CHANGES"@, changes_env("CHANGES"@, *v), "ACTION"@, 0);
        },
        None => {},
    }
    lemma_issue_env_under("ISSUE"@, payload.issue);
    lemma_no_value_apart("ISSUE"@, issue_env("ISSUE"@, payload.issue), "ACTION"@, 0);
    lemma_repository_env_under("REPOSITORY"@, payload.repository);
    lemma_no_value_apart("REPOSITORY"@, repository_env("REPOSITORY"@, payload.repository), "ACTION"@, 0);
    lemma_user_env_under("SENDER"@, payload.sender);
    lemma_no_value_apart("SENDER"@, user_env("SENDER"@, payload.sender), "ACTION"@, 0);
    lemma_last_value_concat(seq![("NUMBER"@, signed_decimal(payload.number as int))] + seq![("ACTION"@, payload.action@)] + (match &payload.changes { Some(v) => changes_env("CHANGES"@, *v), None => seq![] }) + issue_env("ISSUE"@, payload.issue) + repository_env("REPOSITORY"@, payload.repository), user_env("SENDER"@, payload.sender), "ACTION"@);
    lemma_last_value_concat(seq![("NUMBER"@, signed_decimal(payload.number as int))] + seq![("ACTION"@, payload.action@)] + (match &payload.changes { Some(v) => changes_env("CHANGES"@, *v), None => seq![] }) + issue_env("ISSUE"@, payload.issue), repository_env("REPOSITORY"@, payload.repository), "ACTION"@);
    lemma_last_value_concat(seq![("NUMBER"@, signed_decimal(payload.number as int))] + seq![("ACTION"@, payload.action@)] + (match &payload.changes { Some(v) => changes_env("CHANGES"@, *v), None => seq![] }), issue_env("ISSUE"@, payload.issue), "ACTION"@);
    lemma_last_value_concat(seq![("NUMBER"@, signed_decimal(payload.number as int))] + seq![("ACTION"@, payload.action@)], (match &payload.changes { Some(v) => changes_env("CHANGES"@, *v), None => seq![] }), "ACTION"@);
    lemma_last_value_concat(seq![("NUMBER"@, signed_decimal(payload.number as int))], seq![("ACTION"@, payload.action@)], "ACTION"@);
    lemma_last_value_single("ACTION"@, payload.action@, "ACTION"@);
}

/// The command that answers a change to an issue describes its changes, and nothing else, in
/// the variables whose names start with CHANGES.
pub proof fn lemma_issue_command_changes(config: Config, payload: IssuePayload, name: Seq<char>)
    ensures
        starts_with(name, "CHANGES"@) ==> last_value(issue_command(config, payload).envs, name) == last_value((match &payload.changes { Some(v) => changes_env("CHANGES"@, *v), None => seq![] }), name),
{
    reveal_strlit("ACTION");
    reveal_strlit("CHANGES");
    reveal_strlit("ISSUE");
    reveal_strlit("NUMBER");
    reveal_strlit("REPOSITORY");
    reveal_strlit("SENDER");
    assert(issue_command(config, payload).envs =~= issue_payload_env(payload));
    if starts_with(name, "CHANGES"@) {
        lemma_last_value_single("NUMBER"@, signed_decimal(payload.number as int), name);
        lemma_starts_with_char(name, "CHANGES"@, 0);
        assert("NUMBER"@[0] != name[0]);
        lemma_last_value_single("ACTION"@, payload.action@, name);
        lemma_starts_with_char(name, "CHANGES"@, 0);
        assert("ACTION"@[0] != name[0]);
        lemma_issue_env_under("ISSUE"@, payload.issue);
        lemma_starts_with_char(name, "CHANGES"@, 0);
        lemma_no_value_apart("ISSUE"@, issue_env("ISSUE"@, payload.issue), name, 0);
        lemma_repository_env_under("REPOSITORY"@, payload.repository);
        lemma_starts_with_char(name, "CHANGES"@, 0);
        lemma_no_value_apart("REPOSITORY"@, repository_env("REPOSITORY"@, payload.repository), name, 0);
        lemma_user_env_under("SENDER"@, payload.sender);
        lemma_starts_with_char(name, "CHANGES"@, 0);
        lemma_no_value_apart("SENDER"@, user_env("SENDER"@, payload.sender), name, 0);
        lemma_last_value_concat(seq![("NUMBER"@, signed_decimal(payload.number as int))] + seq![("ACTION"@, payload.action@)] + (match &payload.changes { Some(v) => changes_env("CHANGES"@, *v), None => seq![] }) + issue_env("ISSUE"@, payload.issue) + repository_env("REPOSITORY"@, payload.repository), user_env("SENDER"@, payload.sender), name);
        lemma_last_value_concat(seq![("NUMBER"@, signed_decimal(payload.number as int))] + seq![("ACTION"@, payload.action@)] + (match &payload.changes { Some(v) => changes_env("CHANGES"@, *v), None => seq![] }) + issue_env("ISSUE"@, payload.issue), repository_env("REPOSITORY"@, payload.repository), name);
        lemma_last_value_concat(seq![("NUMBER"@, signed_decimal(payload.number as int))] + seq![("ACTION"@, payload.action@)] + (match &payload.changes { Some(v) => changes_env("CHANGES"@, *v), None => seq![] }), issue_env("ISSUE"@, payload.issue), name);
        lemma_last_value_concat(seq![("NUMBER"@, signed_decimal(payload.number as int))] + seq![("ACTION"@, payload.action@)], (match &payload.changes { Some(v) => changes_env("CHANGES"@, *v), None => seq![] }), name);
        lemma_last_value_concat(seq![("NUMBER"@, signed_decimal(payload.number as int))], seq![("ACTION"@, payload.action@)], name);
    }
}

/// The command that answers a change to an issue describes its issue, and nothing else, in
/// the variables whose names start with ISSUE.
pub proof fn lemma_issue_command_issue(config: Config, payload: IssuePayload, name: Seq<char>)
    ensures
        starts_with(name, "ISSUE"@) ==> last_value(issue_command(config, payload).envs, name) == last_value(issue_env("ISSUE"@, payload.issue), name),
{
    reveal_strlit("ACTION");
    reveal_strlit("CHANGES");
    reveal_strlit("ISSUE");
    reveal_strlit("NUMBER");
    reveal_strlit("REPOSITORY");
    reveal_strlit("SENDER");
    assert(issue_command(config, payload).envs =~= issue_payload_env(payload));
    if starts_with(name, "ISSUE"@) {
        lemma_last_value_single("NUMBER"@, signed_decimal(payload.number as int), name);
        lemma_starts_with_char(name, "ISSUE"@, 0);
        assert("NUMBER"@[0] != name[0]);
        lemma_last_value_single("ACTION"@, payload.action@, name);
        lemma_starts_with_char(name, "ISSUE"@, 0);
        assert("ACTION"@[0] != name[0]);
        match &payload.changes {
            Some(v) => {
                lemma_changes_env_under("CHANGES"@, *v);
                lemma_starts_with_char(name, "ISSUE"@, 0);
                lemma_no_value_apart("CHANGES"@, changes_env("CHANGES"@, *v), name, 0);
            },
            None => {},
        }
        lemma_repository_env_under("REPOSITORY"@, payload.repository);
        lemma_starts_with_char(name, "ISSUE"@, 0);
        lemma_no_value_apart("REPOSITORY"@, repository_env("REPOSITORY"@, payload.repository), name, 0);
        lemma_user_env_under("SENDER"@, payload.sender);
        lemma_starts_with_char(name, "ISSUE"@, 0);
        lemma_no_value_apart("SENDER"@, user_env("SENDER"@, payload.sender), name, 0);
        lemma_last_value_concat(seq![("NUMBER"@, signed_decimal(payload.number as int))] + seq![("ACTION"@, payload.action@)] + (match &payload.changes { Some(v) => changes_env("CHANGES"@, *v), None => seq![] }) + issue_env("ISSUE"@, payload.issue) + repository_env("REPOSITORY"@, payload.repository), user_env("SENDER"@, payload.sender), name);
        lemma_last_value_concat(seq![("NUMBER"@, signed_decimal(payload.number as int))] + seq![("ACTION"@, payload.action@)] + (match &payload.changes { Some(v) => changes_env("CHANGES"@, *v), None => seq![] }) + issue_env("ISSUE"@, payload.issue), repository_env("REPOSITORY"@, payload.repository), name);
        lemma_last_value_concat(seq![("NUMBER"@, signed_decimal(payload.number as int))] + seq![("ACTION"@, payload.action@)] + (match &payload.changes { Some(v) => changes_env("CHANGES"@, *v), None => seq![] }), issue_env("ISSUE"@, payload.issue), name);
        lemma_last_value_concat(seq![("NUMBER"@, signed_decimal(payload.number as int))] + seq![("ACTION"@, payload.action@)], (match &payload.changes { Some(v) => changes_env("CHANGES"@, *v), None => seq![] }), name);
        lemma_last_value_concat(seq![("NUMBER"@, signed_decimal(payload.number as int))], seq![("ACTION"@, payload.action@)], name);
    }
}

/// The command that answers a change to an issue describes its repository, and nothing else, in
/// the variables whose names start with REPOSITORY.
pub proof fn lemma_issue_command_repository(config: Config, payload: IssuePayload, name: Seq<char>)
    ensures
        starts_with(name, "REPOSITORY"@) ==> last_value(issue_command(config, payload).envs, name) == last_value(repository_env("REPOSITORY"@, payload.repository), name),
{
    reveal_strlit("ACTION");
    reveal_strlit("CHANGES");
    reveal_strlit("ISSUE");
    reveal_strlit("NUMBER");
    reveal_strlit("REPOSITORY");
    reveal_strlit("SENDER");
    assert(issue_command(config, payload).envs =~= issue_payload_env(payload));
    if starts_with(name, "REPOSITORY"@) {
        lemma_last_value_single("NUMBER"@, signed_decimal(payload.number as int), name);
        lemma_starts_with_char(name, "REPOSITORY"@, 0);
        assert("NUMBER"@[0] != name[0]);
        lemma_last_value_single("ACTION"@, payload.action@, name);
        lemma_starts_with_char(name, "REPOSITORY"@, 0);
        assert("ACTION"@[0] != name[0]);
        match &payload.changes {
            Some(v) => {
                lemma_changes_env_under("CHANGES"@, *v);
                lemma_starts_with_char(name, "REPOSITORY"@, 0);
                lemma_no_value_apart("CHANGES"@, changes_env("CHANGES"@, *v), name, 0);
            },
            None => {},
        }
        lemma_issue_env_under("ISSUE"@, payload.issue);
        lemma_starts_with_char(name, "REPOSITORY"@, 0);
        lemma_no_value_apart("ISSUE"@, issue_env("ISSUE"@, payload.issue), name, 0);
        lemma_user_env_under("SENDER"@, payload.sender);
        lemma_starts_with_char(name, "REPOSITORY"@, 0);
        lemma_no_value_apart("SENDER"@, user_env("SENDER"@, payload.sender), name, 0);
        lemma_last_value_concat(seq![("NUMBER"@, signed_decimal(payload.number as int))] + seq![("ACTION"@, payload.action@)] + (match &payload.changes { Some(v) => changes_env("CHANGES"@, *v), None => seq![] }) + issue_env("ISSUE"@, payload.issue) + repository_env("REPOSITORY"@, payload.repository), user_env("SENDER"@, payload.sender), name);
        lemma_last_value_concat(seq![("NUMBER"@, signed_decimal(payload.number as int))] + seq![("ACTION"@, payload.action@)] + (match &payload.changes { Some(v) => changes_env("CHANGES"@, *v), None => seq![] }) + issue_env("ISSUE"@, payload.issue), repository_env("REPOSITORY"@, payload.repository), name);
        lemma_last_value_concat(seq![("NUMBER"@, signed_decimal(payload.number as int))] + seq![("ACTION"@, payload.action@)] + (match &payload.changes { Some(v) => changes_env("CHANGES"@, *v), None => seq![] }), issue_env("ISSUE"@, payload.issue), name);
        lemma_last_value_concat(seq![("NUMBER"@, signed_decimal(payload.number as int))] + seq![("ACTION"@, payload.action@)], (match &payload.changes { Some(v) => changes_env("CHANGES"@, *v), None => seq![] }), name);
        lemma_last_value_concat(seq![("NUMBER"@, signed_decimal(payload.number as int))], seq![("ACTION"@, payload.action@)], name);
    }
}

/// The command that answers a change to an issue describes its sender, and nothing else, in
/// the variables whose names start with SENDER.
pub proof fn lemma_issue_command_sender(config: Config, payload: IssuePayload, name: Seq<char>)
    ensures
        starts_with(name, "SENDER"@) ==> last_value(issue_command(config, payload).envs, name) == last_value(user_env("SENDER"@, payload.sender), name),
{
    reveal_strlit("ACTION");
    reveal_strlit("CHANGES");
    reveal_strlit("ISSUE");
    reveal_strlit("NUMBER");
    reveal_strlit("REPOSITORY");
    reveal_strlit("SENDER");
    assert(issue_command(config, payload).envs =~= issue_payload_env(payload));
    if starts_with(name, "SENDER"@) {
        lemma_last_value_single("NUMBER"@, signed_decimal(payload.number as int), name);
        lemma_starts_with_char(name, "SENDER"@, 0);
        assert("NUMBER"@[0] != name[0]);
        lemma_last_value_single("ACTION"@, payload.action@, name);
        lemma_starts_with_char(name, "SENDER"@, 0);
        assert("ACTION"@[0] != name[0]);
        match &payload.changes {
            Some(v) => {
                lemma_changes_env_under("CHANGES"@, *v);
                lemma_starts_with_char(name, "SENDER"@, 0);
                lemma_no_value_apart("CHANGES"@, changes_env("CHANGES"@, *v), name, 0);
            },
            None => {},
        }
        lemma_issue_env_under("ISSUE"@, payload.issue);
        lemma_starts_with_char(name, "SENDER"@, 0);
        lemma_no_value_apart("ISSUE"@, issue_env("ISSUE"@, payload.issue), name, 0);
        lemma_repository_env_under("REPOSITORY"@, payload.repository);
        lemma_starts_with_char(name, "SENDER"@, 0);
        lemma_no_value_apart("REPOSITORY"@, repository_env("REPOSITORY"@, payload.repository), name, 0);
        lemma_last_value_concat(seq![("NUMBER"@, signed_decimal(payload.number as int))] + seq![("ACTION"@, payload.action@)] + (match &payload.changes { Some(v) => changes_env("CHANGES"@, *v), None => seq![] }) + issue_env("ISSUE"@, payload.issue) + repository_env("REPOSITORY"@, payload.repository), user_env("SENDER"@, payload.sender), name);
        lemma_last_value_concat(seq![("NUMBER"@, signed_decimal(payload.number as int))] + seq![("ACTION"@, payload.action@)] + (match &payload.changes { Some(v) => changes_env("CHANGES"@, *v), None => seq![] }) + issue_env("ISSUE"@, payload.issue), repository_env("REPOSITORY"@, payload.repository), name);
        lemma_last_value_concat(seq![("NUMBER"@, signed_decimal(payload.number as int))] + seq![("ACTION"@, payload.action@)] + (match &payload.changes { Some(v) => changes_env("CHANGES"@, *v), None => seq![] }), issue_env("ISSUE"@, payload.issue), name);
        lemma_last_value_concat(seq![("NUMBER"@, signed_decimal(payload.number as int))] + seq![("ACTION"@, payload.action@)], (match &payload.changes { Some(v) => changes_env("CHANGES"@, *v), None => seq![] }), name);
        lemma_last_value_concat(seq![("NUMBER"@, signed_decimal(payload.number as int))], seq![("ACTION"@, payload.action@)], name);
    }
}

/// The command that answers a change to a comment leaves its action in ACTION.
pub proof fn lemma_issue_comment_command_action(config: Config, payload: IssueCommentPayload)
    ensures
        last_value(issue_comment_command(config, payload).envs, "ACTION"@) == Some(payload.action@),
{
    reveal_strlit("ACTION");
    reveal_strlit("CHANGES");
    reveal_strlit("COMMENT");
    reveal_strlit("ISSUE");
    reveal_strlit("IS_PULL");
    reveal_strlit("REPOSITORY");
    reveal_strlit("SENDER");
    assert(issue_comment_command(config, payload).envs =~= issue_comment_payload_env(payload));
    lemma_comment_env_under("COMMENT"@, payload.comment);
    lemma_no_value_apart("COMMENT"@, comment_env("COMMENT"@, payload.comment), "ACTION"@, 0);
    lemma_issue_env_under("ISSUE"@, payload.issue);
    lemma_no_value_apart("ISSUE"@, issue_env("ISSUE"@, payload.issue), "ACTION"@, 0);
    match &payload.changes {
        Some(v) => {
            lemma_changes_env_under("CHANGES"@, *v);
            lemma_no_value_apart("CHANGES"@, changes_env("CHANGES"@, *v), "ACTION"@, 0);
        },
        None => {},
    }
    lemma_last_value_single("IS_PULL"@, bool_text(payload.is_pull), "ACTION"@);
    assert("IS_PULL"@.len() != "ACTION"@.len());
    lemma_repository_env_under("REPOSITORY"@, payload.repository);
    lemma_no_value_apart("REPOSITORY"@, repository_env("REPOSITORY"@, payload.repository), "ACTION"@, 0);
    lemma_user_env_under("SENDER"@, payload.sender);
    lemma_no_value_apart("SENDER"@, user_env("SENDER"@, payload.sender), "ACTION"@, 0);
    lemma_last_value_concat(seq![("ACTION"@, payload.action@)] + comment_env("COMMENT"@, payload.comment) + issue_env("ISSUE"@, payload.issue) + (match &payload.changes { Some(v) => changes_env("CHANGES"@, *v), None => seq![] }) + seq![("IS_PULL"@, bool_text(payload.is_pull))] + repository_env("REPOSITORY"@, payload.repository), user_env("SENDER"@, payload.sender), "ACTION"@);
    lemma_last_value_concat(seq![("ACTION"@, payload.action@)] + comment_env("COMMENT"@, payload.comment) + issue_env("ISSUE"@, payload.issue) + (match &payload.changes { Some(v) => changes_env("CHANGES"@, *v), None => seq![] }) + seq![("IS_PULL"@, bool_text(payload.is_pull))], repository_env("REPOSITORY"@, payload.repository), "ACTION"@);
    lemma_last_value_concat(seq![("ACTION"@, payload.action@)] + comment_env("COMMENT"@, payload.comment) + issue_env("ISSUE"@, payload.issue) + (match &payload.changes { Some(v) => changes_env("CHANGES"@, *v), None => seq![] }), seq![("IS_PULL"@, bool_text(payload.is_pull))], "ACTION"@);
    lemma_last_value_concat(seq![("ACTION"@, payload.action@)] + comment_env("COMMENT"@, payload.comment) + issue_env("ISSUE"@, payload.issue), (match &payload.changes { Some(v) => changes_env("CHANGES"@, *v), None => seq![] }), "ACTION"@);
    lemma_last_value_concat(seq![("ACTION"@, payload.action@)] + comment_env("COMMENT"@, payload.comment), issue_env("ISSUE"@, payload.issue), "ACTION"@);
    lemma_last_value_concat(seq![("ACTION"@, payload.action@)], comment_env("COMMENT"@, payload.comment), "ACTION"@);
    lemma_last_value_single("ACTION"@, payload.action@, "ACTION"@);
}

/// The command that answers a change to a comment describes its comment, and nothing else, in
/// the variables whose names start with COMMENT.
pub proof fn lemma_issue_comment_command_comment(config: Config, payload: IssueCommentPayload, name: Seq<char>)
    ensures
        starts_with(name, "COMMENT"@) ==> last_value(issue_comment_command(config, payload).envs, name) == last_value(comment_env("COMMENT"@, payload.comment), name),
{
    reveal_strlit("ACTION");
    reveal_strlit("CHANGES");
    reveal_strlit("COMMENT");
    reveal_strlit("ISSUE");
    reveal_strlit("IS_PULL");
    reveal_strlit("REPOSITORY");
    reveal_strlit("SENDER");
    assert(issue_comment_command(config, payload).envs =~= issue_comment_payload_env(payload));
    if starts_with(name, "COMMENT"@) {
        lemma_last_value_single("ACTION"@, payload.action@, name);
        lemma_starts_with_char(name, "COMMENT"@, 0);
        assert("ACTION"@[0] != name[0]);
        lemma_issue_env_under("ISSUE"@, payload.issue);
        lemma_starts_with_char(name, "COMMENT"@, 0);
        lemma_no_value_apart("ISSUE"@, issue_env("ISSUE"@, payload.issue), name, 0);
        match &payload.changes {
            Some(v) => {
                lemma_changes_env_under("CHANGES"@, *v);
                lemma_starts_with_char(name, "COMMENT"@, 1);
                lemma_no_value_apart("CHANGES"@, changes_env("CHANGES"@, *v), name, 1);
            },
            None => {},
        }
        lemma_last_value_single("IS_PULL"@, bool_text(payload.is_pull), name);
        lemma_starts_with_char(name, "COMMENT"@, 0);
        assert("IS_PULL"@[0] != name[0]);
        lemma_repository_env_under("REPOSITORY"@, payload.repository);
        lemma_starts_with_char(name, "COMMENT"@, 0);
        lemma_no_value_apart("REPOSITORY"@, repository_env("REPOSITORY"@, payload.repository), name, 0);
        lemma_user_env_under("SENDER"@, payload.sender);
        lemma_starts_with_char(name, "COMMENT"@, 0);
        lemma_no_value_apart("SENDER"@, user_env("SENDER"@, payload.sender), name, 0);
        lemma_last_value_concat(seq![("ACTION"@, payload.action@)] + comment_env("COMMENT"@, payload.comment) + issue_env("ISSUE"@, payload.issue) + (match &payload.changes { Some(v) => changes_env("CHANGES"@, *v), None => seq![] }) + seq![("IS_PULL"@, bool_text(payload.is_pull))] + repository_env("REPOSITORY"@, payload.repository), user_env("SENDER"@, payload.sender), name);
        lemma_last_value_concat(seq![("ACTION"@, payload.action@)] + comment_env("COMMENT"@, payload.comment) + issue_env("ISSUE"@, payload.issue) + (match &payload.changes { Some(v) => changes_env("CHANGES"@, *v), None => seq![] }) + seq![("IS_PULL"@, bool_text(payload.is_pull))], repository_env("REPOSITORY"@, payload.repository), name);
        lemma_last_value_concat(seq![("ACTION"@, payload.action@)] + comment_env("COMMENT"@, payload.comment) + issue_env("ISSUE"@, payload.issue) + (match &payload.changes { Some(v) => changes_env("CHANGES"@, *v), None => seq![] }), seq![("IS_PULL"@, bool_text(payload.is_pull))], name);
        lemma_last_value_concat(seq![("ACTION"@, payload.action@)] + comment_env("COMMENT"@, payload.comment) + issue_env("ISSUE"@, payload.issue), (match &payload.changes { Some(v) => changes_env("CHANGES"@, *v), None => seq![] }), name);
        lemma_last_value_concat(seq![("ACTION"@, payload.action@)] + comment_env("COMMENT"@, payload.comment), issue_env("ISSUE"@, payload.issue), name);
        lemma_last_value_concat(seq![("ACTION"@, payload.action@)], comment_env("COMMENT"@, payload.comment), name);
    }
}

/// The command that answers a change to a comment describes its issue, and nothing else, in
/// the variables whose names start with ISSUE.
pub proof fn lemma_issue_comment_command_issue(config: Config, payload: IssueCommentPayload, name: Seq<char>)
    ensures
        starts_with(name, "ISSUE"@) ==> last_value(issue_comment_command(config, payload).envs, name) == last_value(issue_env("ISSUE"@, payload.issue), name),
{
    reveal_strlit("ACTION");
    reveal_strlit("CHANGES");
    reveal_strlit("COMMENT");
    reveal_strlit("ISSUE");
    reveal_strlit("IS_PULL");
    reveal_strlit("REPOSITORY");
    reveal_strlit("SENDER");
    assert(issue_comment_command(config, payload).envs =~= issue_comment_payload_env(payload));
    if starts_with(name, "ISSUE"@) {
        lemma_last_value_single("ACTION"@, payload.action@, name);
        lemma_starts_with_char(name, "ISSUE"@, 0);
        assert("ACTION"@[0] != name[0]);
        lemma_comment_env_under("COMMENT"@, payload.comment);
        lemma_starts_with_char(name, "ISSUE"@, 0);
        lemma_no_value_apart("COMMENT"@, comment_env("COMMENT"@, payload.comment), name, 0);
        match &payload.changes {
            Some(v) => {
                lemma_changes_env_under("CHANGES"@, *v);
                lemma_starts_with_char(name, "ISSUE"@, 0);
                lemma_no_value_apart("CHANGES"@, changes_env("CHANGES"@, *v), name, 0);
            },
            None => {},
        }
        lemma_last_value_single("IS_PULL"@, bool_text(payload.is_pull), name);
        lemma_starts_with_char(name, "ISSUE"@, 2);
        assert("IS_PULL"@[2] != name[2]);
        lemma_repository_env_under("REPOSITORY"@, payload.repository);
        lemma_starts_with_char(name, "ISSUE"@, 0);
        lemma_no_value_apart("REPOSITORY"@, repository_env("REPOSITORY"@, payload.repository), name, 0);
        lemma_user_env_under("SENDER"@, payload.sender);
        lemma_starts_with_char(name, "ISSUE"@, 0);
        lemma_no_value_apart("SENDER"@, user_env("SENDER"@, payload.sender), name, 0);
        lemma_last_value_concat(seq![("ACTION"@, payload.action@)] + comment_env("COMMENT"@, payload.comment) + issue_env("ISSUE"@, payload.issue) + (match &payload.changes { Some(v) => changes_env("CHANGES"@, *v), None => seq![] }) + seq![("IS_PULL"@, bool_text(payload.is_pull))] + repository_env("REPOSITORY"@, payload.repository), user_env("SENDER"@, payload.sender), name);
        lemma_last_value_concat(seq![("ACTION"@, payload.action@)] + comment_env("COMMENT"@, payload.comment) + issue_env("ISSUE"@, payload.issue) + (match &payload.changes { Some(v) => changes_env("CHANGES"@, *v), None => seq![] }) + seq![("IS_PULL"@, bool_text(payload.is_pull))], repository_env("REPOSITORY"@, payload.repository), name);
        lemma_last_value_concat(seq![("ACTION"@, payload.action@)] + comment_env("COMMENT"@, payload.comment) + issue_env("ISSUE"@, payload.issue) + (match &payload.changes { Some(v) => changes_env("CHANGES"@, *v), None => seq![] }), seq![("IS_PULL"@, bool_text(payload.is_pull))], name);
        lemma_last_value_concat(seq![("ACTION"@, payload.action@)] + comment_env("COMMENT"@, payload.comment) + issue_env("ISSUE"@, payload.issue), (match &payload.changes { Some(v) => changes_env("CHANGES"@, *v), None => seq![] }), name);
        lemma_last_value_concat(seq![("ACTION"@, payload.action@)] + comment_env("COMMENT"@, payload.comment), issue_env("ISSUE"@, payload.issue), name);
        lemma_last_value_concat(seq![("ACTION"@, payload.action@)], comment_env("COMMENT"@, payload.comment), name);
    }
}

/// The command that answers a change to a comment describes its changes, and nothing else, in
/// the variables whose names start with CHANGES.
pub proof fn lemma_issue_comment_command_changes(config: Config, payload: IssueCommentPayload, name: Seq<char>)
    ensures
        starts_with(name, "CHANGES"@) ==> last_value(issue_comment_command(config, payload).envs, name) == last_value((match &payload.changes { Some(v) => changes_env("CHANGES"@, *v), None => seq![] }), name),
{
    reveal_strlit("ACTION");
    reveal_strlit("CHANGES");
    reveal_strlit("COMMENT");
    reveal_strlit("ISSUE");
    reveal_strlit("IS_PULL");
    reveal_strlit("REPOSITORY");
    reveal_strlit("SENDER");
    assert(issue_comment_command(config, payload).envs =~= issue_comment_payload_env(payload));
    if starts_with(name, "CHANGES"@) {
        lemma_last_value_single("ACTION"@, payload.action@, name);
        lemma_starts_with_char(name, "CHANGES"@, 0);
        assert("ACTION"@[0] != name[0]);
        lemma_comment_env_under("COMMENT"@, payload.comment);
        lemma_starts_with_char(name, "CHANGES"@, 1);
        lemma_no_value_apart("COMMENT"@, comment_env("COMMENT"@, payload.comment), name, 1);
        lemma_issue_env_under("ISSUE"@, payload.issue);
        lemma_starts_with_char(name, "CHANGES"@, 0);
        lemma_no_value_apart("ISSUE"@, issue_env("ISSUE"@, payload.issue), name, 0);
        lemma_last_value_single("IS_PULL"@, bool_text(payload.is_pull), name);
        lemma_starts_with_char(name, "CHANGES"@, 0);
        assert("IS_PULL"@[0] != name[0]);
        lemma_repository_env_under("REPOSITORY"@, payload.repository);
        lemma_starts_with_char(name, "CHANGES"@, 0);
        lemma_no_value_apart("REPOSITORY"@, repository_env("REPOSITORY"@, payload.repository), name, 0);
        lemma_user_env_under("SENDER"@, payload.sender);
        lemma_starts_with_char(name, "CHANGES"@, 0);
        lemma_no_value_apart("SENDER"@, user_env("SENDER"@, payload.sender), name, 0);
        lemma_last_value_concat(seq![("ACTION"@, payload.action@)] + comment_env("COMMENT"@, payload.comment) + issue_env("ISSUE"@, payload.issue) + (match &payload.changes { Some(v) => changes_env("CHANGES"@, *v), None => seq![] }) + seq![("IS_PULL"@, bool_text(payload.is_pull))] + repository_env("REPOSITORY"@, payload.repository), user_env("SENDER"@, payload.sender), name);
        lemma_last_value_concat(seq![("ACTION"@, payload.action@)] + comment_env("COMMENT"@, payload.comment) + issue_env("ISSUE"@, payload.issue) + (match &payload.changes { Some(v) => changes_env("CHANGES"@, *v), None => seq![] }) + seq![("IS_PULL"@, bool_text(payload.is_pull))], repository_env("REPOSITORY"@, payload.repository), name);
        lemma_last_value_concat(seq![("ACTION"@, payload.action@)] + comment_env("COMMENT"@, payload.comment) + issue_env("ISSUE"@, payload.issue) + (match &payload.changes { Some(v) => changes_env("CHANGES"@, *v), None => seq![] }), seq![("IS_PULL"@, bool_text(payload.is_pull))], name);
        lemma_last_value_concat(seq![("ACTION"@, payload.action@)] + comment_env("COMMENT"@, payload.comment) + issue_env("ISSUE"@, payload.issue), (match &payload.changes { Some(v) => changes_env("CHANGES"@, *v), None => seq![] }), name);
        lemma_last_value_concat(seq![("ACTION"@, payload.action@)] + comment_env("COMMENT"@, payload.comment), issue_env("ISSUE"@, payload.issue), name);
        lemma_last_value_concat(seq![("ACTION"@, payload.action@)], comment_env("COMMENT"@, payload.comment), name);
    }
}

/// The command that answers a change to a comment leaves its is pull in IS_PULL.
pub proof fn lemma_issue_comment_command_is_pull(config: Config, payload: IssueCommentPayload)
    ensures
        last_value(issue_comment_command(config, payload).envs, "IS_PULL"@) == Some(bool_text(payload.is_pull)),
{
    reveal_strlit("ACTION");
    reveal_strlit("CHANGES");
    reveal_strlit("COMMENT");
    reveal_strlit("ISSUE");
    reveal_strlit("IS_PULL");
    reveal_strlit("REPOSITORY");
    reveal_strlit("SENDER");
    assert(issue_comment_command(config, payload).envs =~= issue_comment_payload_env(payload));
    lemma_last_value_single("ACTION"@, payload.action@, "IS_PULL"@);
    assert("ACTION"@.len() != "IS_PULL"@.len());
    lemma_comment_env_under("COMMENT"@, payload.comment);
    lemma_no_value_apart("COMMENT"@, comment_env("COMMENT"@, payload.comment), "IS_PULL"@, 0);
    lemma_issue_env_under("ISSUE"@, payload.issue);
    lemma_no_value_apart("ISSUE"@, issue_env("ISSUE"@, payload.issue), "IS_PULL"@, 2);
    match &payload.changes {
        Some(v) => {
            lemma_changes_env_under("CHANGES"@, *v);
            lemma_no_value_apart("CHANGES"@, changes_env("CHANGES"@, *v), "IS_PULL"@, 0);
        },
        None => {},
    }
    lemma_repository_env_under("REPOSITORY"@, payload.repository);
    lemma_no_value_apart("REPOSITORY"@, repository_env("REPOSITORY"@, payload.repository), "IS_PULL"@, 0);
    lemma_user_env_under("SENDER"@, payload.sender);
    lemma_no_value_apart("SENDER"@, user_env("SENDER"@, payload.sender), "IS_PULL"@, 0);
    lemma_last_value_concat(seq![("ACTION"@, payload.action@)] + comment_env("COMMENT"@, payload.comment) + issue_env("ISSUE"@, payload.issue) + (match &payload.changes { Some(v) => changes_env("CHANGES"@, *v), None => seq![] }) + seq![("IS_PULL"@, bool_text(payload.is_pull))] + repository_env("REPOSITORY"@, payload.repository), user_env("SENDER"@, payload.sender), "IS_PULL"@);
    lemma_last_value_concat(seq![("ACTION"@, payload.action@)] + comment_env("COMMENT"@, payload.comment) + issue_env("ISSUE"@, payload.issue) + (match &payload.changes { Some(v) => changes_env("CHANGES"@, *v), None => seq![] }) + seq![("IS_PULL"@, bool_text(payload.is_pull))], repository_env("REPOSITORY"@, payload.repository), "IS_PULL"@);
    lemma_last_value_concat(seq![("ACTION"@, payload.action@)] + comment_env("COMMENT"@, payload.comment) + issue_env("ISSUE"@, payload.issue) + (match &payload.changes { Some(v) => changes_env("CHANGES"@, *v), None => seq![] }), seq![("IS_PULL"@, bool_text(payload.is_pull))], "IS_PULL"@);
    lemma_last_value_concat(seq![("ACTION"@, payload.action@)] + comment_env("COMMENT"@, payload.comment) + issue_env("ISSUE"@, payload.issue), (match &payload.changes { Some(v) => changes_env("CHANGES"@, *v), None => seq![] }), "IS_PULL"@);
    lemma_last_value_concat(seq![("ACTION"@, payload.action@)] + comment_env("COMMENT"@, payload.comment), issue_env("ISSUE"@, payload.issue), "IS_PULL"@);
    lemma_last_value_concat(seq![("ACTION"@, payload.action@)], comment_env("COMMENT"@, payload.comment), "IS_PULL"@);
    lemma_last_value_single("IS_PULL"@, bool_text(payload.is_pull), "IS_PULL"@);
}

/// The command that answers a change to a comment describes its repository, and nothing else, in
/// the variables whose names start with REPOSITORY.
pub proof fn lemma_issue_comment_command_repository(config: Config, payload: IssueCommentPayload, name: Seq<char>)
    ensures
        starts_with(name, "REPOSITORY"@) ==> last_value(issue_comment_command(config, payload).envs, name) == last_value(repository_env("REPOSITORY"@, payload.repository), name),
{
    reveal_strlit("ACTION");
    reveal_strlit("CHANGES");
    reveal_strlit("COMMENT");
    reveal_strlit("ISSUE");
    reveal_strlit("IS_PULL");
    reveal_strlit("REPOSITORY");
    reveal_strlit("SENDER");
    assert(issue_comment_command(config, payload).envs =~= issue_comment_payload_env(payload));
    if starts_with(name, "REPOSITORY"@) {
        lemma_last_value_single("ACTION"@, payload.action@, name);
        lemma_starts_with_char(name, "REPOSITORY"@, 0);
        assert("ACTION"@[0] != name[0]);
        lemma_comment_env_under("COMMENT"@, payload.comment);
        lemma_starts_with_char(name, "REPOSITORY"@, 0);
        lemma_no_value_apart("COMMENT"@, comment_env("COMMENT"@, payload.comment), name, 0);
        lemma_issue_env_under("ISSUE"@, payload.issue);
        lemma_starts_with_char(name, "REPOSITORY"@, 0);
        lemma_no_value_apart("ISSUE"@, issue_env("ISSUE"@, payload.issue), name, 0);
        match &payload.changes {
            Some(v) => {
                lemma_changes_env_under("CHANGES"@, *v);
                lemma_starts_with_char(name, "REPOSITORY"@, 0);
                lemma_no_value_apart("CHANGES"@, changes_env("CHANGES"@, *v), name, 0);
            },
            None => {},
        }
        lemma_last_value_single("IS_PULL"@, bool_text(payload.is_pull), name);
        lemma_starts_with_char(name, "REPOSITORY"@, 0);
        assert("IS_PULL"@[0] != name[0]);
        lemma_user_env_under("SENDER"@, payload.sender);
        lemma_starts_with_char(name, "REPOSITORY"@, 0);
        lemma_no_value_apart("SENDER"@, user_env("SENDER"@, payload.sender), name, 0);
        lemma_last_value_concat(seq![("ACTION"@, payload.action@)] + comment_env("COMMENT"@, payload.comment) + issue_env("ISSUE"@, payload.issue) + (match &payload.changes { Some(v) => changes_env("CHANGES"@, *v), None => seq![] }) + seq![("IS_PULL"@, bool_text(payload.is_pull))] + repository_env("REPOSITORY"@, payload.repository), user_env("SENDER"@, payload.sender), name);
        lemma_last_value_concat(seq![("ACTION"@, payload.action@)] + comment_env("COMMENT"@, payload.comment) + issue_env("ISSUE"@, payload.issue) + (match &payload.changes { Some(v) => changes_env("CHANGES"@, *v), None => seq![] }) + seq![("IS_PULL"@, bool_text(payload.is_pull))], repository_env("REPOSITORY"@, payload.repository), name);
        lemma_last_value_concat(seq![("ACTION"@, payload.action@)] + comment_env("COMMENT"@, payload.comment) + issue_env("ISSUE"@, payload.issue) + (match &payload.changes { Some(v) => changes_env("CHANGES"@, *v), None => seq![] }), seq![("IS_PULL"@, bool_text(payload.is_pull))], name);
        lemma_last_value_concat(seq![("ACTION"@, payload.action@)] + comment_env("COMMENT"@, payload.comment) + issue_env("ISSUE"@, payload.issue), (match &payload.changes { Some(v) => changes_env("CHANGES"@, *v), None => seq![] }), name);
        lemma_last_value_concat(seq![("ACTION"@, payload.action@)] + comment_env("COMMENT"@, payload.comment), issue_env("ISSUE"@, payload.issue), name);
        lemma_last_value_concat(seq![("ACTION"@, payload.action@)], comment_env("COMMENT"@, payload.comment), name);
    }
}

/// The command that answers a change to a comment describes its sender, and nothing else, in
/// the variables whose names start with SENDER.
pub proof fn lemma_issue_comment_command_sender(config: Config, payload: IssueCommentPayload, name: Seq<char>)
    ensures
        starts_with(name, "SENDER"@) ==> last_value(issue_comment_command(config, payload).envs, name) == last_value(user_env("SENDER"@, payload.sender), name),
{
    reveal_strlit("ACTION");
    reveal_strlit("CHANGES");
    reveal_strlit("COMMENT");
    reveal_strlit("ISSUE");
    reveal_strlit("IS_PULL");
    reveal_strlit("REPOSITORY");
    reveal_strlit("SENDER");
    assert(issue_comment_command(config, payload).envs =~= issue_comment_payload_env(payload));
    if starts_with(name, "SENDER"@) {
        lemma_last_value_single("ACTION"@, payload.action@, name);
        lemma_starts_with_char(name, "SENDER"@, 0);
        assert("ACTION"@[0] != name[0]);
        lemma_comment_env_under("COMMENT"@, payload.comment);
        lemma_starts_with_char(name, "SENDER"@, 0);
        lemma_no_value_apart("COMMENT"@, comment_env("COMMENT"@, payload.comment), name, 0);
        lemma_issue_env_under("ISSUE"@, payload.issue);
        lemma_starts_with_char(name, "SENDER"@, 0);
        lemma_no_value_apart("ISSUE"@, issue_env("ISSUE"@, payload.issue), name, 0);
        match &payload.changes {
            Some(v) => {
                lemma_changes_env_under("CHANGES"@, *v);
                lemma_starts_with_char(name, "SENDER"@, 0);
                lemma_no_value_apart("CHANGES"@, changes_env("CHANGES"@, *v), name, 0);
            },
            None => {},
        }
        lemma_last_value_single("IS_PULL"@, bool_text(payload.is_pull), name);
        lemma_starts_with_char(name, "SENDER"@, 0);
        assert("IS_PULL"@[0] != name[0]);
        lemma_repository_env_under("REPOSITORY"@, payload.repository);
        lemma_starts_with_char(name, "SENDER"@, 0);
        lemma_no_value_apart("REPOSITORY"@, repository_env("REPOSITORY"@, payload.repository), name, 0);
        lemma_last_value_concat(seq![("ACTION"@, payload.action@)] + comment_env("COMMENT"@, payload.comment) + issue_env("ISSUE"@, payload.issue) + (match &payload.changes { Some(v) => changes_env("CHANGES"@, *v), None => seq![] }) + seq![("IS_PULL"@, bool_text(payload.is_pull))] + repository_env("REPOSITORY"@, payload.repository), user_env("SENDER"@, payload.sender), name);
        lemma_last_value_concat(seq![("ACTION"@, payload.action@)] + comment_env("COMMENT"@, payload.comment) + issue_env("ISSUE"@, payload.issue) + (match &payload.changes { Some(v) => changes_env("CHANGES"@, *v), None => seq![] }) + seq![("IS_PULL"@, bool_text(payload.is_pull))], repository_env("REPOSITORY"@, payload.repository), name);
        lemma_last_value_concat(seq![("ACTION"@, payload.action@)] + comment_env("COMMENT"@, payload.comment) + issue_env("ISSUE"@, payload.issue) + (match &payload.changes { Some(v) => changes_env("CHANGES"@, *v), None => seq![] }), seq![("IS_PULL"@, bool_text(payload.is_pull))], name);
        lemma_last_value_concat(seq![("ACTION"@, payload.action@)] + comment_env("COMMENT"@, payload.comment) + issue_env("ISSUE"@, payload.issue), (match &payload.changes { Some(v) => changes_env("CHANGES"@, *v), None => seq![] }), name);
        lemma_last_value_concat(seq![("ACTION"@, payload.action@)] + comment_env("COMMENT"@, payload.comment), issue_env("ISSUE"@, payload.issue), name);
        lemma_last_value_concat(seq![("ACTION"@, payload.action@)], comment_env("COMMENT"@, payload.comment), name);
    }
}

/// The command that answers a change to a pull request leaves its action in ACTION.
pub proof fn lemma_pull_request_command_action(config: Config, payload: PullRequestPayload)
    ensures
        last_value(pull_request_command(config, payload).envs, "ACTION"@) == Some(payload.action@),
{
    reveal_strlit("ACTION");
    reveal_strlit("CHANGES");
    reveal_strlit("NUMBER");
    reveal_strlit("PULL_REQUEST");
    reveal_strlit("REPOSITORY");
    reveal_strlit("SENDER");
    assert(pull_request_command(config, payload).envs =~= pull_request_payload_env(payload));
    lemma_last_value_single("NUMBER"@, signed_decimal(payload.number as int), "ACTION"@);
    assert("NUMBER"@[0] != "ACTION"@[0]);
    lemma_pull_request_env_under("PULL_REQUEST"@, payload.pull_request);
    lemma_no_value_apart("PULL_REQUEST"@, pull_request_env("PULL_REQUEST"@, payload.pull_request), "ACTION"@, 0);
    match &payload.changes {
        Some(v) => {
            lemma_changes_env_under("CHANGES"@, *v);
            lemma_no_value_apart("CHANGES"@, changes_env("CHANGES"@, *v), "ACTION"@, 0);
        },
        None => {},
    }
    lemma_repository_env_under("REPOSITORY"@, payload.repository);
    lemma_no_value_apart("REPOSITORY"@, repository_env("REPOSITORY"@, payload.repository), "ACTION"@, 0);
    lemma_user_env_under("SENDER"@, payload.sender);
    lemma_no_value_apart("SENDER"@, user_env("SENDER"@, payload.sender), "ACTION"@, 0);
    lemma_last_value_concat(seq![("ACTION"@, payload.action@)] + seq![("NUMBER"@, signed_decimal(payload.number as int))] + pull_request_env("PULL_REQUEST"@, payload.pull_request) + (match &payload.changes { Some(v) => changes_env("CHANGES"@, *v), None => seq![] }) + repository_env("REPOSITORY"@, payload.repository), user_env("SENDER"@, payload.sender), "ACTION"@);
    lemma_last_value_concat(seq![("ACTION"@, payload.action@)] + seq![("NUMBER"@, signed_decimal(payload.number as int))] + pull_request_env("PULL_REQUEST"@, payload.pull_request) + (match &payload.changes { Some(v) => changes_env("CHANGES"@, *v), None => seq![] }), repository_env("REPOSITORY"@, payload.repository), "ACTION"@);
    lemma_last_value_concat(seq![("ACTION"@, payload.action@)] + seq![("NUMBER"@, signed_decimal(payload.number as int))] + pull_request_env("PULL_REQUEST"@, payload.pull_request), (match &payload.changes { Some(v) => changes_env("CHANGES"@, *v), None => seq![] }), "ACTION"@);
    lemma_last_value_concat(seq![("ACTION"@, payload.action@)] + seq![("NUMBER"@, signed_decimal(payload.number as int))], pull_request_env("PULL_REQUEST"@, payload.pull_request), "ACTION"@);
    lemma_last_value_concat(seq![("ACTION"@, payload.action@)], seq![("NUMBER"@, signed_decimal(payload.number as int))], "ACTION"@);
    lemma_last_value_single("ACTION"@, payload.action@, "ACTION"@);
}

/// The command that answers a change to a pull request leaves its number in NUMBER.
pub proof fn lemma_pull_request_command_number(config: Config, payload: PullRequestPayload)
    ensures
        last_value(pull_request_command(config, payload).envs, "NUMBER"@) == Some(signed_decimal(payload.number as int)),
{
    reveal_strlit("ACTION");
    reveal_strlit("CHANGES");
    reveal_strlit("NUMBER");
    reveal_strlit("PULL_REQUEST");
    reveal_strlit("REPOSITORY");
    reveal_strlit("SENDER");
    assert(pull_request_command(config, payload).envs =~= pull_request_payload_env(payload));
    lemma_last_value_single("ACTION"@, payload.action@, "NUMBER"@);
    assert("ACTION"@[0] != "NUMBER"@[0]);
    lemma_pull_request_env_under("PULL_REQUEST"@, payload.pull_request);
    lemma_no_value_apart("PULL_REQUEST"@, pull_request_env("PULL_REQUEST"@, payload.pull_request), "NUMBER"@, 0);
    match &payload.changes {
        Some(v) => {
            lemma_changes_env_under("CHANGES"@, *v);
            lemma_no_value_apart("CHANGES"@, changes_env("CHANGES"@, *v), "NUMBER"@, 0);
        },
        None => {},
    }
    lemma_repository_env_under("REPOSITORY"@, payload.repository);
    lemma_no_value_apart("REPOSITORY"@, repository_env("REPOSITORY"@, payload.repository), "NUMBER"@, 0);
    lemma_user_env_under("SENDER"@, payload.sender);
    lemma_no_value_apart("SENDER"@, user_env("SENDER"@, payload.sender), "NUMBER"@, 0);
    lemma_last_value_concat(seq![("ACTION"@, payload.action@)] + seq![("NUMBER"@, signed_decimal(payload.number as int))] + pull_request_env("PULL_REQUEST"@, payload.pull_request) + (match &payload.changes { Some(v) => changes_env("CHANGES"@, *v), None => seq![] }) + repository_env("REPOSITORY"@, payload.repository), user_env("SENDER"@, payload.sender), "NUMBER"@);
    lemma_last_value_concat(seq![("ACTION"@, payload.action@)] + seq![("NUMBER"@, signed_decimal(payload.number as int))] + pull_request_env("PULL_REQUEST"@, payload.pull_request) + (match &payload.changes { Some(v) => changes_env("CHANGES"@, *v), None => seq![] }), repository_env("REPOSITORY"@, payload.repository), "NUMBER"@);
    lemma_last_value_concat(seq![("ACTION"@, payload.action@)] + seq![("NUMBER"@, signed_decimal(payload.number as int))] + pull_request_env("PULL_REQUEST"@, payload.pull_request), (match &payload.changes { Some(v) => changes_env("CHANGES"@, *v), None => seq![] }), "NUMBER"@);
    lemma_last_value_concat(seq![("ACTION"@, payload.action@)] + seq![("NUMBER"@, signed_decimal(payload.number as int))], pull_request_env("PULL_REQUEST"@, payload.pull_request), "NUMBER"@);
    lemma_last_value_concat(seq![("ACTION"@, payload.action@)], seq![("NUMBER"@, signed_decimal(payload.number as int))], "NUMBER"@);
    lemma_last_value_single("NUMBER"@, signed_decimal(payload.number as int), "NUMBER"@);
}

/// The command that answers a change to a pull request describes its pull request, and nothing else, in
/// the variables whose names start with PULL_REQUEST.
pub proof fn lemma_pull_request_command_pull_request(config: Config, payload: PullRequestPayload, name: Seq<char>)
    ensures
        starts_with(name, "PULL_REQUEST"@) ==> last_value(pull_request_command(config, payload).envs, name) == last_value(pull_request_env("PULL_REQUEST"@, payload.pull_request), name),
{
    reveal_strlit("ACTION");
    reveal_strlit("CHANGES");
    reveal_strlit("NUMBER");
    reveal_strlit("PULL_REQUEST");
    reveal_strlit("REPOSITORY");
    reveal_strlit("SENDER");
    assert(pull_request_command(config, payload).envs =~= pull_request_payload_env(payload));
    if starts_with(name, "PULL_REQUEST"@) {
        lemma_last_value_single("ACTION"@, payload.action@, name);
        lemma_starts_with_char(name, "PULL_REQUEST"@, 0);
        assert("ACTION"@[0] != name[0]);
        lemma_last_value_single("NUMBER"@, signed_decimal(payload.number as int), name);
        lemma_starts_with_char(name, "PULL_REQUEST"@, 0);
        assert("NUMBER"@[0] != name[0]);
        match &payload.changes {
            Some(v) => {
                lemma_changes_env_under("CHANGES"@, *v);
                lemma_starts_with_char(name, "PULL_REQUEST"@, 0);
                lemma_no_value_apart("CHANGES"@, changes_env("CHANGES"@, *v), name, 0);
            },
            None => {},
        }
        lemma_repository_env_under("REPOSITORY"@, payload.repository);
        lemma_starts_with_char(name, "PULL_REQUEST"@, 0);
        lemma_no_value_apart("REPOSITORY"@, repository_env("REPOSITORY"@, payload.repository), name, 0);
        lemma_user_env_under("SENDER"@, payload.sender);
        lemma_starts_with_char(name, "PULL_REQUEST"@, 0);
        lemma_no_value_apart("SENDER"@, user_env("SENDER"@, payload.sender), name, 0);
        lemma_last_value_concat(seq![("ACTION"@, payload.action@)] + seq![("NUMBER"@, signed_decimal(payload.number as int))] + pull_request_env("PULL_REQUEST"@, payload.pull_request) + (match &payload.changes { Some(v) => changes_env("CHANGES"@, *v), None => seq![] }) + repository_env("REPOSITORY"@, payload.repository), user_env("SENDER"@, payload.sender), name);
        lemma_last_value_concat(seq![("ACTION"@, payload.action@)] + seq![("NUMBER"@, signed_decimal(payload.number as int))] + pull_request_env("PULL_REQUEST"@, payload.pull_request) + (match &payload.changes { Some(v) => changes_env("CHANGES"@, *v), None => seq![] }), repository_env("REPOSITORY"@, payload.repository), name);
        lemma_last_value_concat(seq![("ACTION"@, payload.action@)] + seq![("NUMBER"@, signed_decimal(payload.number as int))] + pull_request_env("PULL_REQUEST"@, payload.pull_request), (match &payload.changes { Some(v) => changes_env("CHANGES"@, *v), None => seq![] }), name);
        lemma_last_value_concat(seq![("ACTION"@, payload.action@)] + seq![("NUMBER"@, signed_decimal(payload.number as int))], pull_request_env("PULL_REQUEST"@, payload.pull_request), name);
        lemma_last_value_concat(seq![("ACTION"@, payload.action@)], seq![("NUMBER"@, signed_decimal(payload.number as int))], name);
    }
}

/// The command that answers a change to a pull request describes its changes, and nothing else, in
/// the variables whose names start with CHANGES.
pub proof fn lemma_pull_request_command_changes(config: Config, payload: PullRequestPayload, name: Seq<char>)
    ensures
        starts_with(name, "CHANGES"@) ==> last_value(pull_request_command(config, payload).envs, name) == last_value((match &payload.changes { Some(v) => changes_env("CHANGES"@, *v), None => seq![] }), name),
{
    reveal_strlit("ACTION");
    reveal_strlit("CHANGES");
    reveal_strlit("NUMBER");
    reveal_strlit("PULL_REQUEST");
    reveal_strlit("REPOSITORY");
    reveal_strlit("SENDER");
    assert(pull_request_command(config, payload).envs =~= pull_request_payload_env(payload));
    if starts_with(name, "CHANGES"@) {
        lemma_last_value_single("ACTION"@, payload.action@, name);
        lemma_starts_with_char(name, "CHANGES"@, 0);
        assert("ACTION"@[0] != name[0]);
        lemma_last_value_single("NUMBER"@, signed_decimal(payload.number as int), name);
        lemma_starts_with_char(name, "CHANGES"@, 0);
        assert("NUMBER"@[0] != name[0]);
        lemma_pull_request_env_under("PULL_REQUEST"@, payload.pull_request);
        lemma_starts_with_char(name, "CHANGES"@, 0);
        lemma_no_value_apart("PULL_REQUEST"@, pull_request_env("PULL_REQUEST"@, payload.pull_request), name, 0);
        lemma_repository_env_under("REPOSITORY"@, payload.repository);
        lemma_starts_with_char(name, "CHANGES"@, 0);
        lemma_no_value_apart("REPOSITORY"@, repository_env("REPOSITORY"@, payload.repository), name, 0);
        lemma_user_env_under("SENDER"@, payload.sender);
        lemma_starts_with_char(name, "CHANGES"@, 0);
        lemma_no_value_apart("SENDER"@, user_env("SENDER"@, payload.sender), name, 0);
        lemma_last_value_concat(seq![("ACTION"@, payload.action@)] + seq![("NUMBER"@, signed_decimal(payload.number as int))] + pull_request_env("PULL_REQUEST"@, payload.pull_request) + (match &payload.changes { Some(v) => changes_env("CHANGES"@, *v), None => seq![] }) + repository_env("REPOSITORY"@, payload.repository), user_env("SENDER"@, payload.sender), name);
        lemma_last_value_concat(seq![("ACTION"@, payload.action@)] + seq![("NUMBER"@, signed_decimal(payload.number as int))] + pull_request_env("PULL_REQUEST"@, payload.pull_request) + (match &payload.changes { Some(v) => changes_env("CHANGES"@, *v), None => seq![] }), repository_env("REPOSITORY"@, payload.repository), name);
        lemma_last_value_concat(seq![("ACTION"@, payload.action@)] + seq![("NUMBER"@, signed_decimal(payload.number as int))] + pull_request_env("PULL_REQUEST"@, payload.pull_request), (match &payload.changes { Some(v) => changes_env("CHANGES"@, *v), None => seq![] }), name);
        lemma_last_value_concat(seq![("ACTION"@, payload.action@)] + seq![("NUMBER"@, signed_decimal(payload.number as int))], pull_request_env("PULL_REQUEST"@, payload.pull_request), name);
        lemma_last_value_concat(seq![("ACTION"@, payload.action@)], seq![("NUMBER"@, signed_decimal(payload.number as int))], name);
    }
}

/// The command that answers a change to a pull request describes its repository, and nothing else, in
/// the variables whose names start with REPOSITORY.
pub proof fn lemma_pull_request_command_repository(config: Config, payload: PullRequestPayload, name: Seq<char>)
    ensures
        starts_with(name, "REPOSITORY"@) ==> last_value(pull_request_command(config, payload).envs, name) == last_value(repository_env("REPOSITORY"@, payload.repository), name),
{
    reveal_strlit("ACTION");
    reveal_strlit("CHANGES");
    reveal_strlit("NUMBER");
    reveal_strlit("PULL_REQUEST");
    reveal_strlit("REPOSITORY");
    reveal_strlit("SENDER");
    assert(pull_request_command(config, payload).envs =~= pull_request_payload_env(payload));
    if starts_with(name, "REPOSITORY"@) {
        lemma_last_value_single("ACTION"@, payload.action@, name);
        lemma_starts_with_char(name, "REPOSITORY"@, 0);
        assert("ACTION"@[0] != name[0]);
        lemma_last_value_single("NUMBER"@, signed_decimal(payload.number as int), name);
        lemma_starts_with_char(name, "REPOSITORY"@, 0);
        assert("NUMBER"@[0] != name[0]);
        lemma_pull_request_env_under("PULL_REQUEST"@, payload.pull_request);
        lemma_starts_with_char(name, "REPOSITORY"@, 0);
        lemma_no_value_apart("PULL_REQUEST"@, pull_request_env("PULL_REQUEST"@, payload.pull_request), name, 0);
        match &payload.changes {
            Some(v) => {
                lemma_changes_env_under("CHANGES"@, *v);
                lemma_starts_with_char(name, "REPOSITORY"@, 0);
                lemma_no_value_apart("CHANGES"@, changes_env("CHANGES"@, *v), name, 0);
            },
            None => {},
        }
        lemma_user_env_under("SENDER"@, payload.sender);
        lemma_starts_with_char(name, "REPOSITORY"@, 0);
        lemma_no_value_apart("SENDER"@, user_env("SENDER"@, payload.sender), name, 0);
        lemma_last_value_concat(seq![("ACTION"@, payload.action@)] + seq![("NUMBER"@, signed_decimal(payload.number as int))] + pull_request_env("PULL_REQUEST"@, payload.pull_request) + (match &payload.changes { Some(v) => changes_env("CHANGES"@, *v), None => seq![] }) + repository_env("REPOSITORY"@, payload.repository), user_env("SENDER"@, payload.sender), name);
        lemma_last_value_concat(seq![("ACTION"@, payload.action@)] + seq![("NUMBER"@, signed_decimal(payload.number as int))] + pull_request_env("PULL_REQUEST"@, payload.pull_request) + (match &payload.changes { Some(v) => changes_env("CHANGES"@, *v), None => seq![] }), repository_env("REPOSITORY"@, payload.repository), name);
        lemma_last_value_concat(seq![("ACTION"@, payload.action@)] + seq![("NUMBER"@, signed_decimal(payload.number as int))] + pull_request_env("PULL_REQUEST"@, payload.pull_request), (match &payload.changes { Some(v) => changes_env("CHANGES"@, *v), None => seq![] }), name);
        lemma_last_value_concat(seq![("ACTION"@, payload.action@)] + seq![("NUMBER"@, signed_decimal(payload.number as int))], pull_request_env("PULL_REQUEST"@, payload.pull_request), name);
        lemma_last_value_concat(seq![("ACTION"@, payload.action@)], seq![("NUMBER"@, signed_decimal(payload.number as int))], name);
    }
}

/// The command that answers a change to a pull request describes its sender, and nothing else, in
/// the variables whose names start with SENDER.
pub proof fn lemma_pull_request_command_sender(config: Config, payload: PullRequestPayload, name: Seq<char>)
    ensures
        starts_with(name, "SENDER"@) ==> last_value(pull_request_command(config, payload).envs, name) == last_value(user_env("SENDER"@, payload.sender), name),
{
    reveal_strlit("ACTION");
    reveal_strlit("CHANGES");
    reveal_strlit("NUMBER");
    reveal_strlit("PULL_REQUEST");
    reveal_strlit("REPOSITORY");
    reveal_strlit("SENDER");
    assert(pull_request_command(config, payload).envs =~= pull_request_payload_env(payload));
    if starts_with(name, "SENDER"@) {
        lemma_last_value_single("ACTION"@, payload.action@, name);
        lemma_starts_with_char(name, "SENDER"@, 0);
        assert("ACTION"@[0] != name[0]);
        lemma_last_value_single("NUMBER"@, signed_decimal(payload.number as int), name);
        lemma_starts_with_char(name, "SENDER"@, 0);
        assert("NUMBER"@[0] != name[0]);
        lemma_pull_request_env_under("PULL_REQUEST"@, payload.pull_request);
        lemma_starts_with_char(name, "SENDER"@, 0);
        lemma_no_value_apart("PULL_REQUEST"@, pull_request_env("PULL_REQUEST"@, payload.pull_request), name, 0);
        match &payload.changes {
            Some(v) => {
                lemma_changes_env_under("CHANGES"@, *v);
                lemma_starts_with_char(name, "SENDER"@, 0);
                lemma_no_value_apart("CHANGES"@, changes_env("CHANGES"@, *v), name, 0);
            },
            None => {},
        }
        lemma_repository_env_under("REPOSITORY"@, payload.repository);
        lemma_starts_with_char(name, "SENDER"@, 0);
        lemma_no_value_apart("REPOSITORY"@, repository_env("REPOSITORY"@, payload.repository), name, 0);
        lemma_last_value_concat(seq![("ACTION"@, payload.action@)] + seq![("NUMBER"@, signed_decimal(payload.number as int))] + pull_request_env("PULL_REQUEST"@, payload.pull_request) + (match &payload.changes { Some(v) => changes_env("CHANGES"@, *v), None => seq![] }) + repository_env("REPOSITORY"@, payload.repository), user_env("SENDER"@, payload.sender), name);
        lemma_last_value_concat(seq![("ACTION"@, payload.action@)] + seq![("NUMBER"@, signed_decimal(payload.number as int))] + pull_request_env("PULL_REQUEST"@, payload.pull_request) + (match &payload.changes { Some(v) => changes_env("CHANGES"@, *v), None => seq![] }), repository_env("REPOSITORY"@, payload.repository), name);
        lemma_last_value_concat(seq![("ACTION"@, payload.action@)] + seq![("NUMBER"@, signed_decimal(payload.number as int))] + pull_request_env("PULL_REQUEST"@, payload.pull_request), (match &payload.changes { Some(v) => changes_env("CHANGES"@, *v), None => seq![] }), name);
        lemma_last_value_concat(seq![("ACTION"@, payload.action@)] + seq![("NUMBER"@, signed_decimal(payload.number as int))], pull_request_env("PULL_REQUEST"@, payload.pull_request), name);
        lemma_last_value_concat(seq![("ACTION"@, payload.action@)], seq![("NUMBER"@, signed_decimal(payload.number as int))], name);
    }
}

/// The command that answers a push leaves its ref path in REF_PATH.
pub proof fn lemma_push_command_ref_path(config: Config, payload: PushPayload)
    ensures
        last_value(push_command(config, payload).envs, "REF_PATH"@) == Some(payload.ref_path@),
{
    reveal_strlit("AFTER");
    reveal_strlit("BEFORE");
    reveal_strlit("COMMIT_");
    reveal_strlit("COMPARE_URL");
    reveal_strlit("HEAD_COMMIT");
    reveal_strlit("PUSHER");
    reveal_strlit("REF_PATH");
    reveal_strlit("REPOSITORY");
    reveal_strlit("SENDER");
    assert(push_command(config, payload).envs =~= push_payload_env(payload));
    lemma_last_value_single("BEFORE"@, payload.before@, "REF_PATH"@);
    assert("BEFORE"@.len() != "REF_PATH"@.len());
    lemma_last_value_single("AFTER"@, payload.after@, "REF_PATH"@);
    assert("AFTER"@.len() != "REF_PATH"@.len());
    lemma_last_value_single("COMPARE_URL"@, payload.compare_url@, "REF_PATH"@);
    assert("COMPARE_URL"@.len() != "REF_PATH"@.len());
    lemma_repository_env_under("REPOSITORY"@, payload.repository);
    lemma_no_value_apart("REPOSITORY"@, repository_env("REPOSITORY"@, payload.repository), "REF_PATH"@, 2);
    lemma_user_env_under("PUSHER"@, payload.pusher);
    lemma_no_value_apart("PUSHER"@, user_env("PUSHER"@, payload.pusher), "REF_PATH"@, 0);
    lemma_user_env_under("SENDER"@, payload.sender);
    lemma_no_value_apart("SENDER"@, user_env("SENDER"@, payload.sender), "REF_PATH"@, 0);
    match &payload.head_commit {
        Some(v) => {
            lemma_commit_env_under("HEAD_COMMIT"@, *v);
            lemma_no_value_apart("HEAD_COMMIT"@, commit_env("HEAD_COMMIT"@, *v), "REF_PATH"@, 0);
        },
        None => {},
    }
    lemma_commits_env_under("COMMIT_"@, payload.commits@);
    lemma_no_value_apart("COMMIT_"@, commits_env("COMMIT_"@, payload.commits@), "REF_PATH"@, 0);
    lemma_last_value_concat(seq![("REF_PATH"@, payload.ref_path@)] + seq![("BEFORE"@, payload.before@)] + seq![("AFTER"@, payload.after@)] + seq![("COMPARE_URL"@, payload.compare_url@)] + repository_env("REPOSITORY"@, payload.repository) + user_env("PUSHER"@, payload.pusher) + user_env("SENDER"@, payload.sender) + (match &payload.head_commit { Some(v) => commit_env("HEAD_COMMIT"@, *v), None => seq![] }), commits_env("COMMIT_"@, payload.commits@), "REF_PATH"@);
    lemma_last_value_concat(seq![("REF_PATH"@, payload.ref_path@)] + seq![("BEFORE"@, payload.before@)] + seq![("AFTER"@, payload.after@)] + seq![("COMPARE_URL"@, payload.compare_url@)] + repository_env("REPOSITORY"@, payload.repository) + user_env("PUSHER"@, payload.pusher) + user_env("SENDER"@, payload.sender), (match &payload.head_commit { Some(v) => commit_env("HEAD_COMMIT"@, *v), None => seq![] }), "REF_PATH"@);
    lemma_last_value_concat(seq![("REF_PATH"@, payload.ref_path@)] + seq![("BEFORE"@, payload.before@)] + seq![("AFTER"@, payload.after@)] + seq![("COMPARE_URL"@, payload.compare_url@)] + repository_env("REPOSITORY"@, payload.repository) + user_env("PUSHER"@, payload.pusher), user_env("SENDER"@, payload.sender), "REF_PATH"@);
    lemma_last_value_concat(seq![("REF_PATH"@, payload.ref_path@)] + seq![("BEFORE"@, payload.before@)] + seq![("AFTER"@, payload.after@)] + seq![("COMPARE_URL"@, payload.compare_url@)] + repository_env("REPOSITORY"@, payload.repository), user_env("PUSHER"@, payload.pusher), "REF_PATH"@);
    lemma_last_value_concat(seq![("REF_PATH"@, payload.ref_path@)] + seq![("BEFORE"@, payload.before@)] + seq![("AFTER"@, payload.after@)] + seq![("COMPARE_URL"@, payload.compare_url@)], repository_env("REPOSITORY"@, payload.repository), "REF_PATH"@);
    lemma_last_value_concat(seq![("REF_PATH"@, payload.ref_path@)] + seq![("BEFORE"@, payload.before@)] + seq![("AFTER"@, payload.after@)], seq![("COMPARE_URL"@, payload.compare_url@)], "REF_PATH"@);
    lemma_last_value_concat(seq![("REF_PATH"@, payload.ref_path@)] + seq![("BEFORE"@, payload.before@)], seq![("AFTER"@, payload.after@)], "REF_PATH"@);
    lemma_last_value_concat(seq![("REF_PATH"@, payload.ref_path@)], seq![("BEFORE"@, payload.before@)], "REF_PATH"@);
    lemma_last_value_single("REF_PATH"@, payload.ref_path@, "REF_PATH"@);
}

/// The command that answers a push leaves its before in BEFORE.
pub proof fn lemma_push_command_before(config: Config, payload: PushPayload)
    ensures
        last_value(push_command(config, payload).envs, "BEFORE"@) == Some(payload.before@),
{
    reveal_strlit("AFTER");
    reveal_strlit("BEFORE");
    reveal_strlit("COMMIT_");
    reveal_strlit("COMPARE_URL");
    reveal_strlit("HEAD_COMMIT");
    reveal_strlit("PUSHER");
    reveal_strlit("REF_PATH");
    reveal_strlit("REPOSITORY");
    reveal_strlit("SENDER");
    assert(push_command(config, payload).envs =~= push_payload_env(payload));
    lemma_last_value_single("REF_PATH"@, payload.ref_path@, "BEFORE"@);
    assert("REF_PATH"@.len() != "BEFORE"@.len());
    lemma_last_value_single("AFTER"@, payload.after@, "BEFORE"@);
    assert("AFTER"@.len() != "BEFORE"@.len());
    lemma_last_value_single("COMPARE_URL"@, payload.compare_url@, "BEFORE"@);
    assert("COMPARE_URL"@.len() != "BEFORE"@.len());
    lemma_repository_env_under("REPOSITORY"@, payload.repository);
    lemma_no_value_apart("REPOSITORY"@, repository_env("REPOSITORY"@, payload.repository), "BEFORE"@, 0);
    lemma_user_env_under("PUSHER"@, payload.pusher);
    lemma_no_value_apart("PUSHER"@, user_env("PUSHER"@, payload.pusher), "BEFORE"@, 0);
    lemma_user_env_under("SENDER"@, payload.sender);
    lemma_no_value_apart("SENDER"@, user_env("SENDER"@, payload.sender), "BEFORE"@, 0);
    match &payload.head_commit {
        Some(v) => {
            lemma_commit_env_under("HEAD_COMMIT"@, *v);
            lemma_no_value_apart("HEAD_COMMIT"@, commit_env("HEAD_COMMIT"@, *v), "BEFORE"@, 0);
        },
        None => {},
    }
    lemma_commits_env_under("COMMIT_"@, payload.commits@);
    lemma_no_value_apart("COMMIT_"@, commits_env("COMMIT_"@, payload.commits@), "BEFORE"@, 0);
    lemma_last_value_concat(seq![("REF_PATH"@, payload.ref_path@)] + seq![("BEFORE"@, payload.before@)] + seq![("AFTER"@, payload.after@)] + seq![("COMPARE_URL"@, payload.compare_url@)] + repository_env("REPOSITORY"@, payload.repository) + user_env("PUSHER"@, payload.pusher) + user_env("SENDER"@, payload.sender) + (match &payload.head_commit { Some(v) => commit_env("HEAD_COMMIT"@, *v), None => seq![] }), commits_env("COMMIT_"@, payload.commits@), "BEFORE"@);
    lemma_last_value_concat(seq![("REF_PATH"@, payload.ref_path@)] + seq![("BEFORE"@, payload.before@)] + seq![("AFTER"@, payload.after@)] + seq![("COMPARE_URL"@, payload.compare_url@)] + repository_env("REPOSITORY"@, payload.repository) + user_env("PUSHER"@, payload.pusher) + user_env("SENDER"@, payload.sender), (match &payload.head_commit { Some(v) => commit_env("HEAD_COMMIT"@, *v), None => seq![] }), "BEFORE"@);
    lemma_last_value_concat(seq![("REF_PATH"@, payload.ref_path@)] + seq![("BEFORE"@, payload.before@)] + seq![("AFTER"@, payload.after@)] + seq![("COMPARE_URL"@, payload.compare_url@)] + repository_env("REPOSITORY"@, payload.repository) + user_env("PUSHER"@, payload.pusher), user_env("SENDER"@, payload.sender), "BEFORE"@);
    lemma_last_value_concat(seq![("REF_PATH"@, payload.ref_path@)] + seq![("BEFORE"@, payload.before@)] + seq![("AFTER"@, payload.after@)] + seq![("COMPARE_URL"@, payload.compare_url@)] + repository_env("REPOSITORY"@, payload.repository), user_env("PUSHER"@, payload.pusher), "BEFORE"@);
    lemma_last_value_concat(seq![("REF_PATH"@, payload.ref_path@)] + seq![("BEFORE"@, payload.before@)] + seq![("AFTER"@, payload.after@)] + seq![("COMPARE_URL"@, payload.compare_url@)], repository_env("REPOSITORY"@, payload.repository), "BEFORE"@);
    lemma_last_value_concat(seq![("REF_PATH"@, payload.ref_path@)] + seq![("BEFORE"@, payload.before@)] + seq![("AFTER"@, payload.after@)], seq![("COMPARE_URL"@, payload.compare_url@)], "BEFORE"@);
    lemma_last_value_concat(seq![("REF_PATH"@, payload.ref_path@)] + seq![("BEFORE"@, payload.before@)], seq![("AFTER"@, payload.after@)], "BEFORE"@);
    lemma_last_value_concat(seq![("REF_PATH"@, payload.ref_path@)], seq![("BEFORE"@, payload.before@)], "BEFORE"@);
    lemma_last_value_single("BEFORE"@, payload.before@, "BEFORE"@);
}

/// The command that answers a push leaves its after in AFTER.
pub proof fn lemma_push_command_after(config: Config, payload: PushPayload)
    ensures
        last_value(push_command(config, payload).envs, "AFTER"@) == Some(payload.after@),
{
    reveal_strlit("AFTER");
    reveal_strlit("BEFORE");
    reveal_strlit("COMMIT_");
    reveal_strlit("COMPARE_URL");
    reveal_strlit("HEAD_COMMIT");
    reveal_strlit("PUSHER");
    reveal_strlit("REF_PATH");
    reveal_strlit("REPOSITORY");
    reveal_strlit("SENDER");
    assert(push_command(config, payload).envs =~= push_payload_env(payload));
    lemma_last_value_single("REF_PATH"@, payload.ref_path@, "AFTER"@);
    assert("REF_PATH"@.len() != "AFTER"@.len());
    lemma_last_value_single("BEFORE"@, payload.before@, "AFTER"@);
    assert("BEFORE"@.len() != "AFTER"@.len());
    lemma_last_value_single("COMPARE_URL"@, payload.compare_url@, "AFTER"@);
    assert("COMPARE_URL"@.len() != "AFTER"@.len());
    lemma_repository_env_under("REPOSITORY"@, payload.repository);
    lemma_no_value_apart("REPOSITORY"@, repository_env("REPOSITORY"@, payload.repository), "AFTER"@, 0);
    lemma_user_env_under("PUSHER"@, payload.pusher);
    lemma_no_value_apart("PUSHER"@, user_env("PUSHER"@, payload.pusher), "AFTER"@, 0);
    lemma_user_env_under("SENDER"@, payload.sender);
    lemma_no_value_apart("SENDER"@, user_env("SENDER"@, payload.sender), "AFTER"@, 0);
    match &payload.head_commit {
        Some(v) => {
            lemma_commit_env_under("HEAD_COMMIT"@, *v);
            lemma_no_value_apart("HEAD_COMMIT"@, commit_env("HEAD_COMMIT"@, *v), "AFTER"@, 0);
        },
        None => {},
    }
    lemma_commits_env_under("COMMIT_"@, payload.commits@);
    lemma_no_value_apart("COMMIT_"@, commits_env("COMMIT_"@, payload.commits@), "AFTER"@, 0);
    lemma_last_value_concat(seq![("REF_PATH"@, payload.ref_path@)] + seq![("BEFORE"@, payload.before@)] + seq![("AFTER"@, payload.after@)] + seq![("COMPARE_URL"@, payload.compare_url@)] + repository_env("REPOSITORY"@, payload.repository) + user_env("PUSHER"@, payload.pusher) + user_env("SENDER"@, payload.sender) + (match &payload.head_commit { Some(v) => commit_env("HEAD_COMMIT"@, *v), None => seq![] }), commits_env("COMMIT_"@, payload.commits@), "AFTER"@);
    lemma_last_value_concat(seq![("REF_PATH"@, payload.ref_path@)] + seq![("BEFORE"@, payload.before@)] + seq![("AFTER"@, payload.after@)] + seq![("COMPARE_URL"@, payload.compare_url@)] + repository_env("REPOSITORY"@, payload.repository) + user_env("PUSHER"@, payload.pusher) + user_env("SENDER"@, payload.sender), (match &payload.head_commit { Some(v) => commit_env("HEAD_COMMIT"@, *v), None => seq![] }), "AFTER"@);
    lemma_last_value_concat(seq![("REF_PATH"@, payload.ref_path@)] + seq![("BEFORE"@, payload.before@)] + seq![("AFTER"@, payload.after@)] + seq![("COMPARE_URL"@, payload.compare_url@)] + repository_env("REPOSITORY"@, payload.repository) + user_env("PUSHER"@, payload.pusher), user_env("SENDER"@, payload.sender), "AFTER"@);
    lemma_last_value_concat(seq![("REF_PATH"@, payload.ref_path@)] + seq![("BEFORE"@, payload.before@)] + seq![("AFTER"@, payload.after@)] + seq![("COMPARE_URL"@, payload.compare_url@)] + repository_env("REPOSITORY"@, payload.repository), user_env("PUSHER"@, payload.pusher), "AFTER"@);
    lemma_last_value_concat(seq![("REF_PATH"@, payload.ref_path@)] + seq![("BEFORE"@, payload.before@)] + seq![("AFTER"@, payload.after@)] + seq![("COMPARE_URL"@, payload.compare_url@)], repository_env("REPOSITORY"@, payload.repository), "AFTER"@);
    lemma_last_value_concat(seq![("REF_PATH"@, payload.ref_path@)] + seq![("BEFORE"@, payload.before@)] + seq![("AFTER"@, payload.after@)], seq![("COMPARE_URL"@, payload.compare_url@)], "AFTER"@);
    lemma_last_value_concat(seq![("REF_PATH"@, payload.ref_path@)] + seq![("BEFORE"@, payload.before@)], seq![("AFTER"@, payload.after@)], "AFTER"@);
    lemma_last_value_concat(seq![("REF_PATH"@, payload.ref_path@)], seq![("BEFORE"@, payload.before@)], "AFTER"@);
    lemma_last_value_single("AFTER"@, payload.after@, "AFTER"@);
}

/// The command that answers a push leaves its compare url in COMPARE_URL.
pub proof fn lemma_push_command_compare_url(config: Config, payload: PushPayload)
    ensures
        last_value(push_command(config, payload).envs, "COMPARE_URL"@) == Some(payload.compare_url@),
{
    reveal_strlit("AFTER");
    reveal_strlit("BEFORE");
    reveal_strlit("COMMIT_");
    reveal_strlit("COMPARE_URL");
    reveal_strlit("HEAD_COMMIT");
    reveal_strlit("PUSHER");
    reveal_strlit("REF_PATH");
    reveal_strlit("REPOSITORY");
    reveal_strlit("SENDER");
    assert(push_command(config, payload).envs =~= push_payload_env(payload));
    lemma_last_value_single("REF_PATH"@, payload.ref_path@, "COMPARE_URL"@);
    assert("REF_PATH"@.len() != "COMPARE_URL"@.len());
    lemma_last_value_single("BEFORE"@, payload.before@, "COMPARE_URL"@);
    assert("BEFORE"@.len() != "COMPARE_URL"@.len());
    lemma_last_value_single("AFTER"@, payload.after@, "COMPARE_URL"@);
    assert("AFTER"@.len() != "COMPARE_URL"@.len());
    lemma_repository_env_under("REPOSITORY"@, payload.repository);
    lemma_no_value_apart("REPOSITORY"@, repository_env("REPOSITORY"@, payload.repository), "COMPARE_URL"@, 0);
    lemma_user_env_under("PUSHER"@, payload.pusher);
    lemma_no_value_apart("PUSHER"@, user_env("PUSHER"@, payload.pusher), "COMPARE_URL"@, 0);
    lemma_user_env_under("SENDER"@, payload.sender);
    lemma_no_value_apart("SENDER"@, user_env("SENDER"@, payload.sender), "COMPARE_URL"@, 0);
    match &payload.head_commit {
        Some(v) => {
            lemma_commit_env_under("HEAD_COMMIT"@, *v);
            lemma_no_value_apart("HEAD_COMMIT"@, commit_env("HEAD_COMMIT"@, *v), "COMPARE_URL"@, 0);
        },
        None => {},
    }
    lemma_commits_env_under("COMMIT_"@, payload.commits@);
    lemma_no_value_apart("COMMIT_"@, commits_env("COMMIT_"@, payload.commits@), "COMPARE_URL"@, 3);
    lemma_last_value_concat(seq![("REF_PATH"@, payload.ref_path@)] + seq![("BEFORE"@, payload.before@)] + seq![("AFTER"@, payload.after@)] + seq![("COMPARE_URL"@, payload.compare_url@)] + repository_env("REPOSITORY"@, payload.repository) + user_env("PUSHER"@, payload.pusher) + user_env("SENDER"@, payload.sender) + (match &payload.head_commit { Some(v) => commit_env("HEAD_COMMIT"@, *v), None => seq![] }), commits_env("COMMIT_"@, payload.commits@), "COMPARE_URL"@);
    lemma_last_value_concat(seq![("REF_PATH"@, payload.ref_path@)] + seq![("BEFORE"@, payload.before@)] + seq![("AFTER"@, payload.after@)] + seq![("COMPARE_URL"@, payload.compare_url@)] + repository_env("REPOSITORY"@, payload.repository) + user_env("PUSHER"@, payload.pusher) + user_env("SENDER"@, payload.sender), (match &payload.head_commit { Some(v) => commit_env("HEAD_COMMIT"@, *v), None => seq![] }), "COMPARE_URL"@);
    lemma_last_value_concat(seq![("REF_PATH"@, payload.ref_path@)] + seq![("BEFORE"@, payload.before@)] + seq![("AFTER"@, payload.after@)] + seq![("COMPARE_URL"@, payload.compare_url@)] + repository_env("REPOSITORY"@, payload.repository) + user_env("PUSHER"@, payload.pusher), user_env("SENDER"@, payload.sender), "COMPARE_URL"@);
    lemma_last_value_concat(seq![("REF_PATH"@, payload.ref_path@)] + seq![("BEFORE"@, payload.before@)] + seq![("AFTER"@, payload.after@)] + seq![("COMPARE_URL"@, payload.compare_url@)] + repository_env("REPOSITORY"@, payload.repository), user_env("PUSHER"@, payload.pusher), "COMPARE_URL"@);
    lemma_last_value_concat(seq![("REF_PATH"@, payload.ref_path@)] + seq![("BEFORE"@, payload.before@)] + seq![("AFTER"@, payload.after@)] + seq![("COMPARE_URL"@, payload.compare_url@)], repository_env("REPOSITORY"@, payload.repository), "COMPARE_URL"@);
    lemma_last_value_concat(seq![("REF_PATH"@, payload.ref_path@)] + seq![("BEFORE"@, payload.before@)] + seq![("AFTER"@, payload.after@)], seq![("COMPARE_URL"@, payload.compare_url@)], "COMPARE_URL"@);
    lemma_last_value_concat(seq![("REF_PATH"@, payload.ref_path@)] + seq![("BEFORE"@, payload.before@)], seq![("AFTER"@, payload.after@)], "COMPARE_URL"@);
    lemma_last_value_concat(seq![("REF_PATH"@, payload.ref_path@)], seq![("BEFORE"@, payload.before@)], "COMPARE_URL"@);
    lemma_last_value_single("COMPARE_URL"@, payload.compare_url@, "COMPARE_URL"@);
}

/// The command that answers a push describes its repository, and nothing else, in
/// the variables whose names start with REPOSITORY.
pub proof fn lemma_push_command_repository(config: Config, payload: PushPayload, name: Seq<char>)
    ensures
        starts_with(name, "REPOSITORY"@) ==> last_value(push_command(config, payload).envs, name) == last_value(repository_env("REPOSITORY"@, payload.repository), name),
{
    reveal_strlit("AFTER");
    reveal_strlit("BEFORE");
    reveal_strlit("COMMIT_");
    reveal_strlit("COMPARE_URL");
    reveal_strlit("HEAD_COMMIT");
    reveal_strlit("PUSHER");
    reveal_strlit("REF_PATH");
    reveal_strlit("REPOSITORY");
    reveal_strlit("SENDER");
    assert(push_command(config, payload).envs =~= push_payload_env(payload));
    if starts_with(name, "REPOSITORY"@) {
        lemma_last_value_single("REF_PATH"@, payload.ref_path@, name);
        lemma_starts_with_char(name, "REPOSITORY"@, 2);
        assert("REF_PATH"@[2] != name[2]);
        lemma_last_value_single("BEFORE"@, payload.before@, name);
        lemma_starts_with_char(name, "REPOSITORY"@, 0);
        assert("BEFORE"@[0] != name[0]);
        lemma_last_value_single("AFTER"@, payload.after@, name);
        lemma_starts_with_char(name, "REPOSITORY"@, 0);
        assert("AFTER"@[0] != name[0]);
        lemma_last_value_single("COMPARE_URL"@, payload.compare_url@, name);
        lemma_starts_with_char(name, "REPOSITORY"@, 0);
        assert("COMPARE_URL"@[0] != name[0]);
        lemma_user_env_under("PUSHER"@, payload.pusher);
        lemma_starts_with_char(name, "REPOSITORY"@, 0);
        lemma_no_value_apart("PUSHER"@, user_env("PUSHER"@, payload.pusher), name, 0);
        lemma_user_env_under("SENDER"@, payload.sender);
        lemma_starts_with_char(name, "REPOSITORY"@, 0);
        lemma_no_value_apart("SENDER"@, user_env("SENDER"@, payload.sender), name, 0);
        match &payload.head_commit {
            Some(v) => {
                lemma_commit_env_under("HEAD_COMMIT"@, *v);
                lemma_starts_with_char(name, "REPOSITORY"@, 0);
                lemma_no_value_apart("HEAD_COMMIT"@, commit_env("HEAD_COMMIT"@, *v), name, 0);
            },
            None => {},
        }
        lemma_commits_env_under("COMMIT_"@, payload.commits@);
        lemma_starts_with_char(name, "REPOSITORY"@, 0);
        lemma_no_value_apart("COMMIT_"@, commits_env("COMMIT_"@, payload.commits@), name, 0);
        lemma_last_value_concat(seq![("REF_PATH"@, payload.ref_path@)] + seq![("BEFORE"@, payload.before@)] + seq![("AFTER"@, payload.after@)] + seq![("COMPARE_URL"@, payload.compare_url@)] + repository_env("REPOSITORY"@, payload.repository) + user_env("PUSHER"@, payload.pusher) + user_env("SENDER"@, payload.sender) + (match &payload.head_commit { Some(v) => commit_env("HEAD_COMMIT"@, *v), None => seq![] }), commits_env("COMMIT_"@, payload.commits@), name);
        lemma_last_value_concat(seq![("REF_PATH"@, payload.ref_path@)] + seq![("BEFORE"@, payload.before@)] + seq![("AFTER"@, payload.after@)] + seq![("COMPARE_URL"@, payload.compare_url@)] + repository_env("REPOSITORY"@, payload.repository) + user_env("PUSHER"@, payload.pusher) + user_env("SENDER"@, payload.sender), (match &payload.head_commit { Some(v) => commit_env("HEAD_COMMIT"@, *v), None => seq![] }), name);
        lemma_last_value_concat(seq![("REF_PATH"@, payload.ref_path@)] + seq![("BEFORE"@, payload.before@)] + seq![("AFTER"@, payload.after@)] + seq![("COMPARE_URL"@, payload.compare_url@)] + repository_env("REPOSITORY"@, payload.repository) + user_env("PUSHER"@, payload.pusher), user_env("SENDER"@, payload.sender), name);
        lemma_last_value_concat(seq![("REF_PATH"@, payload.ref_path@)] + seq![("BEFORE"@, payload.before@)] + seq![("AFTER"@, payload.after@)] + seq![("COMPARE_URL"@, payload.compare_url@)] + repository_env("REPOSITORY"@, payload.repository), user_env("PUSHER"@, payload.pusher), name);
        lemma_last_value_concat(seq![("REF_PATH"@, payload.ref_path@)] + seq![("BEFORE"@, payload.before@)] + seq![("AFTER"@, payload.after@)] + seq![("COMPARE_URL"@, payload.compare_url@)], repository_env("REPOSITORY"@, payload.repository), name);
        lemma_last_value_concat(seq![("REF_PATH"@, payload.ref_path@)] + seq![("BEFORE"@, payload.before@)] + seq![("AFTER"@, payload.after@)], seq![("COMPARE_URL"@, payload.compare_url@)], name);
        lemma_last_value_concat(seq![("REF_PATH"@, payload.ref_path@)] + seq![("BEFORE"@, payload.before@)], seq![("AFTER"@, payload.after@)], name);
        lemma_last_value_concat(seq![("REF_PATH"@, payload.ref_path@)], seq![("BEFORE"@, payload.before@)], name);
    }
}

/// The command that answers a push describes its pusher, and nothing else, in
/// the variables whose names start with PUSHER.
pub proof fn lemma_push_command_pusher(config: Config, payload: PushPayload, name: Seq<char>)
    ensures
        starts_with(name, "PUSHER"@) ==> last_value(push_command(config, payload).envs, name) == last_value(user_env("PUSHER"@, payload.pusher), name),
{
    reveal_strlit("AFTER");
    reveal_strlit("BEFORE");
    reveal_strlit("COMMIT_");
    reveal_strlit("COMPARE_URL");
    reveal_strlit("HEAD_COMMIT");
    reveal_strlit("PUSHER");
    reveal_strlit("REF_PATH");
    reveal_strlit("REPOSITORY");
    reveal_strlit("SENDER");
    assert(push_command(config, payload).envs =~= push_payload_env(payload));
    if starts_with(name, "PUSHER"@) {
        lemma_last_value_single("REF_PATH"@, payload.ref_path@, name);
        lemma_starts_with_char(name, "PUSHER"@, 0);
        assert("REF_PATH"@[0] != name[0]);
        lemma_last_value_single("BEFORE"@, payload.before@, name);
        lemma_starts_with_char(name, "PUSHER"@, 0);
        assert("BEFORE"@[0] != name[0]);
        lemma_last_value_single("AFTER"@, payload.after@, name);
        lemma_starts_with_char(name, "PUSHER"@, 0);
        assert("AFTER"@[0] != name[0]);
        lemma_last_value_single("COMPARE_URL"@, payload.compare_url@, name);
        lemma_starts_with_char(name, "PUSHER"@, 0);
        assert("COMPARE_URL"@[0] != name[0]);
        lemma_repository_env_under("REPOSITORY"@, payload.repository);
        lemma_starts_with_char(name, "PUSHER"@, 0);
        lemma_no_value_apart("REPOSITORY"@, repository_env("REPOSITORY"@, payload.repository), name, 0);
        lemma_user_env_under("SENDER"@, payload.sender);
        lemma_starts_with_char(name, "PUSHER"@, 0);
        lemma_no_value_apart("SENDER"@, user_env("SENDER"@, payload.sender), name, 0);
        match &payload.head_commit {
            Some(v) => {
                lemma_commit_env_under("HEAD_COMMIT"@, *v);
                lemma_starts_with_char(name, "PUSHER"@, 0);
                lemma_no_value_apart("HEAD_COMMIT"@, commit_env("HEAD_COMMIT"@, *v), name, 0);
            },
            None => {},
        }
        lemma_commits_env_under("COMMIT_"@, payload.commits@);
        lemma_starts_with_char(name, "PUSHER"@, 0);
        lemma_no_value_apart("COMMIT_"@, commits_env("COMMIT_"@, payload.commits@), name, 0);
        lemma_last_value_concat(seq![("REF_PATH"@, payload.ref_path@)] + seq![("BEFORE"@, payload.before@)] + seq![("AFTER"@, payload.after@)] + seq![("COMPARE_URL"@, payload.compare_url@)] + repository_env("REPOSITORY"@, payload.repository) + user_env("PUSHER"@, payload.pusher) + user_env("SENDER"@, payload.sender) + (match &payload.head_commit { Some(v) => commit_env("HEAD_COMMIT"@, *v), None => seq![] }), commits_env("COMMIT_"@, payload.commits@), name);
        lemma_last_value_concat(seq![("REF_PATH"@, payload.ref_path@)] + seq![("BEFORE"@, payload.before@)] + seq![("AFTER"@, payload.after@)] + seq![("COMPARE_URL"@, payload.compare_url@)] + repository_env("REPOSITORY"@, payload.repository) + user_env("PUSHER"@, payload.pusher) + user_env("SENDER"@, payload.sender), (match &payload.head_commit { Some(v) => commit_env("HEAD_COMMIT"@, *v), None => seq![] }), name);
        lemma_last_value_concat(seq![("REF_PATH"@, payload.ref_path@)] + seq![("BEFORE"@, payload.before@)] + seq![("AFTER"@, payload.after@)] + seq![("COMPARE_URL"@, payload.compare_url@)] + repository_env("REPOSITORY"@, payload.repository) + user_env("PUSHER"@, payload.pusher), user_env("SENDER"@, payload.sender), name);
        lemma_last_value_concat(seq![("REF_PATH"@, payload.ref_path@)] + seq![("BEFORE"@, payload.before@)] + seq![("AFTER"@, payload.after@)] + seq![("COMPARE_URL"@, payload.compare_url@)] + repository_env("REPOSITORY"@, payload.repository), user_env("PUSHER"@, payload.pusher), name);
        lemma_last_value_concat(seq![("REF_PATH"@, payload.ref_path@)] + seq![("BEFORE"@, payload.before@)] + seq![("AFTER"@, payload.after@)] + seq![("COMPARE_URL"@, payload.compare_url@)], repository_env("REPOSITORY"@, payload.repository), name);
        lemma_last_value_concat(seq![("REF_PATH"@, payload.ref_path@)] + seq![("BEFORE"@, payload.before@)] + seq![("AFTER"@, payload.after@)], seq![("COMPARE_URL"@, payload.compare_url@)], name);
        lemma_last_value_concat(seq![("REF_PATH"@, payload.ref_path@)] + seq![("BEFORE"@, payload.before@)], seq![("AFTER"@, payload.after@)], name);
        lemma_last_value_concat(seq![("REF_PATH"@, payload.ref_path@)], seq![("BEFORE"@, payload.before@)], name);
    }
}

/// The command that answers a push describes its sender, and nothing else, in
/// the variables whose names start with SENDER.
pub proof fn lemma_push_command_sender(config: Config, payload: PushPayload, name: Seq<char>)
    ensures
        starts_with(name, "SENDER"@) ==> last_value(push_command(config, payload).envs, name) == last_value(user_env("SENDER"@, payload.sender), name),
{
    reveal_strlit("AFTER");
    reveal_strlit("BEFORE");
    reveal_strlit("COMMIT_");
    reveal_strlit("COMPARE_URL");
    reveal_strlit("HEAD_COMMIT");
    reveal_strlit("PUSHER");
    reveal_strlit("REF_PATH");
    reveal_strlit("REPOSITORY");
    reveal_strlit("SENDER");
    assert(push_command(config, payload).envs =~= push_payload_env(payload));
    if starts_with(name, "SENDER"@) {
        lemma_last_value_single("REF_PATH"@, payload.ref_path@, name);
        lemma_starts_with_char(name, "SENDER"@, 0);
        assert("REF_PATH"@[0] != name[0]);
        lemma_last_value_single("BEFORE"@, payload.before@, name);
        lemma_starts_with_char(name, "SENDER"@, 0);
        assert("BEFORE"@[0] != name[0]);
        lemma_last_value_single("AFTER"@, payload.after@, name);
        lemma_starts_with_char(name, "SENDER"@, 0);
        assert("AFTER"@[0] != name[0]);
        lemma_last_value_single("COMPARE_URL"@, payload.compare_url@, name);
        lemma_starts_with_char(name, "SENDER"@, 0);
        assert("COMPARE_URL"@[0] != name[0]);
        lemma_repository_env_under("REPOSITORY"@, payload.repository);
        lemma_starts_with_char(name, "SENDER"@, 0);
        lemma_no_value_apart("REPOSITORY"@, repository_env("REPOSITORY"@, payload.repository), name, 0);
        lemma_user_env_under("PUSHER"@, payload.pusher);
        lemma_starts_with_char(name, "SENDER"@, 0);
        lemma_no_value_apart("PUSHER"@, user_env("PUSHER"@, payload.pusher), name, 0);
        match &payload.head_commit {
            Some(v) => {
                lemma_commit_env_under("HEAD_COMMIT"@, *v);
                lemma_starts_with_char(name, "SENDER"@, 0);
                lemma_no_value_apart("HEAD_COMMIT"@, commit_env("HEAD_COMMIT"@, *v), name, 0);
            },
            None => {},
        }
        lemma_commits_env_under("COMMIT_"@, payload.commits@);
        lemma_starts_with_char(name, "SENDER"@, 0);
        lemma_no_value_apart("COMMIT_"@, commits_env("COMMIT_"@, payload.commits@), name, 0);
        lemma_last_value_concat(seq![("REF_PATH"@, payload.ref_path@)] + seq![("BEFORE"@, payload.before@)] + seq![("AFTER"@, payload.after@)] + seq![("COMPARE_URL"@, payload.compare_url@)] + repository_env("REPOSITORY"@, payload.repository) + user_env("PUSHER"@, payload.pusher) + user_env("SENDER"@, payload.sender) + (match &payload.head_commit { Some(v) => commit_env("HEAD_COMMIT"@, *v), None => seq![] }), commits_env("COMMIT_"@, payload.commits@), name);
        lemma_last_value_concat(seq![("REF_PATH"@, payload.ref_path@)] + seq![("BEFORE"@, payload.before@)] + seq![("AFTER"@, payload.after@)] + seq![("COMPARE_URL"@, payload.compare_url@)] + repository_env("REPOSITORY"@, payload.repository) + user_env("PUSHER"@, payload.pusher) + user_env("SENDER"@, payload.sender), (match &payload.head_commit { Some(v) => commit_env("HEAD_COMMIT"@, *v), None => seq![] }), name);
        lemma_last_value_concat(seq![("REF_PATH"@, payload.ref_path@)] + seq![("BEFORE"@, payload.before@)] + seq![("AFTER"@, payload.after@)] + seq![("COMPARE_URL"@, payload.compare_url@)] + repository_env("REPOSITORY"@, payload.repository) + user_env("PUSHER"@, payload.pusher), user_env("SENDER"@, payload.sender), name);
        lemma_last_value_concat(seq![("REF_PATH"@, payload.ref_path@)] + seq![("BEFORE"@, payload.before@)] + seq![("AFTER"@, payload.after@)] + seq![("COMPARE_URL"@, payload.compare_url@)] + repository_env("REPOSITORY"@, payload.repository), user_env("PUSHER"@, payload.pusher), name);
        lemma_last_value_concat(seq![("REF_PATH"@, payload.ref_path@)] + seq![("BEFORE"@, payload.before@)] + seq![("AFTER"@, payload.after@)] + seq![("COMPARE_URL"@, payload.compare_url@)], repository_env("REPOSITORY"@, payload.repository), name);
        lemma_last_value_concat(seq![("REF_PATH"@, payload.ref_path@)] + seq![("BEFORE"@, payload.before@)] + seq![("AFTER"@, payload.after@)], seq![("COMPARE_URL"@, payload.compare_url@)], name);
        lemma_last_value_concat(seq![("REF_PATH"@, payload.ref_path@)] + seq![("BEFORE"@, payload.before@)], seq![("AFTER"@, payload.after@)], name);
        lemma_last_value_concat(seq![("REF_PATH"@, payload.ref_path@)], seq![("BEFORE"@, payload.before@)], name);
    }
}

/// The command that answers a push describes its head commit, and nothing else, in
/// the variables whose names start with HEAD_COMMIT.
pub proof fn lemma_push_command_head_commit(config: Config, payload: PushPayload, name: Seq<char>)
    ensures
        starts_with(name, "HEAD_COMMIT"@) ==> last_value(push_command(config, payload).envs, name) == last_value((match &payload.head_commit { Some(v) => commit_env("HEAD_COMMIT"@, *v), None => seq![] }), name),
{
    reveal_strlit("AFTER");
    reveal_strlit("BEFORE");
    reveal_strlit("COMMIT_");
    reveal_strlit("COMPARE_URL");
    reveal_strlit("HEAD_COMMIT");
    reveal_strlit("PUSHER");
    reveal_strlit("REF_PATH");
    reveal_strlit("REPOSITORY");
    reveal_strlit("SENDER");
    assert(push_command(config, payload).envs =~= push_payload_env(payload));
    if starts_with(name, "HEAD_COMMIT"@) {
        lemma_last_value_single("REF_PATH"@, payload.ref_path@, name);
        lemma_starts_with_char(name, "HEAD_COMMIT"@, 0);
        assert("REF_PATH"@[0] != name[0]);
        lemma_last_value_single("BEFORE"@, payload.before@, name);
        lemma_starts_with_char(name, "HEAD_COMMIT"@, 0);
        assert("BEFORE"@[0] != name[0]);
        lemma_last_value_single("AFTER"@, payload.after@, name);
        lemma_starts_with_char(name, "HEAD_COMMIT"@, 0);
        assert("AFTER"@[0] != name[0]);
        lemma_last_value_single("COMPARE_URL"@, payload.compare_url@, name);
        lemma_starts_with_char(name, "HEAD_COMMIT"@, 0);
        assert("COMPARE_URL"@[0] != name[0]);
        lemma_repository_env_under("REPOSITORY"@, payload.repository);
        lemma_starts_with_char(name, "HEAD_COMMIT"@, 0);
        lemma_no_value_apart("REPOSITORY"@, repository_env("REPOSITORY"@, payload.repository), name, 0);
        lemma_user_env_under("PUSHER"@, payload.pusher);
        lemma_starts_with_char(name, "HEAD_COMMIT"@, 0);
        lemma_no_value_apart("PUSHER"@, user_env("PUSHER"@, payload.pusher), name, 0);
        lemma_user_env_under("SENDER"@, payload.sender);
        lemma_starts_with_char(name, "HEAD_COMMIT"@, 0);
        lemma_no_value_apart("SENDER"@, user_env("SENDER"@, payload.sender), name, 0);
        lemma_commits_env_under("COMMIT_"@, payload.commits@);
        lemma_starts_with_char(name, "HEAD_COMMIT"@, 0);
        lemma_no_value_apart("COMMIT_"@, commits_env("COMMIT_"@, payload.commits@), name, 0);
        lemma_last_value_concat(seq![("REF_PATH"@, payload.ref_path@)] + seq![("BEFORE"@, payload.before@)] + seq![("AFTER"@, payload.after@)] + seq![("COMPARE_URL"@, payload.compare_url@)] + repository_env("REPOSITORY"@, payload.repository) + user_env("PUSHER"@, payload.pusher) + user_env("SENDER"@, payload.sender) + (match &payload.head_commit { Some(v) => commit_env("HEAD_COMMIT"@, *v), None => seq![] }), commits_env("COMMIT_"@, payload.commits@), name);
        lemma_last_value_concat(seq![("REF_PATH"@, payload.ref_path@)] + seq![("BEFORE"@, payload.before@)] + seq![("AFTER"@, payload.after@)] + seq![("COMPARE_URL"@, payload.compare_url@)] + repository_env("REPOSITORY"@, payload.repository) + user_env("PUSHER"@, payload.pusher) + user_env("SENDER"@, payload.sender), (match &payload.head_commit { Some(v) => commit_env("HEAD_COMMIT"@, *v), None => seq![] }), name);
        lemma_last_value_concat(seq![("REF_PATH"@, payload.ref_path@)] + seq![("BEFORE"@, payload.before@)] + seq![("AFTER"@, payload.after@)] + seq![("COMPARE_URL"@, payload.compare_url@)] + repository_env("REPOSITORY"@, payload.repository) + user_env("PUSHER"@, payload.pusher), user_env("SENDER"@, payload.sender), name);
        lemma_last_value_concat(seq![("REF_PATH"@, payload.ref_path@)] + seq![("BEFORE"@, payload.before@)] + seq![("AFTER"@, payload.after@)] + seq![("COMPARE_URL"@, payload.compare_url@)] + repository_env("REPOSITORY"@, payload.repository), user_env("PUSHER"@, payload.pusher), name);
        lemma_last_value_concat(seq![("REF_PATH"@, payload.ref_path@)] + seq![("BEFORE"@, payload.before@)] + seq![("AFTER"@, payload.after@)] + seq![("COMPARE_URL"@, payload.compare_url@)], repository_env("REPOSITORY"@, payload.repository), name);
        lemma_last_value_concat(seq![("REF_PATH"@, payload.ref_path@)] + seq![("BEFORE"@, payload.before@)] + seq![("AFTER"@, payload.after@)], seq![("COMPARE_URL"@, payload.compare_url@)], name);
        lemma_last_value_concat(seq![("REF_PATH"@, payload.ref_path@)] + seq![("BEFORE"@, payload.before@)], seq![("AFTER"@, payload.after@)], name);
        lemma_last_value_concat(seq![("REF_PATH"@, payload.ref_path@)], seq![("BEFORE"@, payload.before@)], name);
    }
}

/// The command that answers a push describes its commits, and nothing else, in
/// the variables whose names start with COMMIT_.
pub proof fn lemma_push_command_commit(config: Config, payload: PushPayload, name: Seq<char>)
    ensures
        starts_with(name, "COMMIT_"@) ==> last_value(push_command(config, payload).envs, name) == last_value(commits_env("COMMIT_"@, payload.commits@), name),
{
    reveal_strlit("AFTER");
    reveal_strlit("BEFORE");
    reveal_strlit("COMMIT_");
    reveal_strlit("COMPARE_URL");
    reveal_strlit("HEAD_COMMIT");
    reveal_strlit("PUSHER");
    reveal_strlit("REF_PATH");
    reveal_strlit("REPOSITORY");
    reveal_strlit("SENDER");
    assert(push_command(config, payload).envs =~= push_payload_env(payload));
    if starts_with(name, "COMMIT_"@) {
        lemma_last_value_single("REF_PATH"@, payload.ref_path@, name);
        lemma_starts_with_char(name, "COMMIT_"@, 0);
        assert("REF_PATH"@[0] != name[0]);
        lemma_last_value_single("BEFORE"@, payload.before@, name);
        lemma_starts_with_char(name, "COMMIT_"@, 0);
        assert("BEFORE"@[0] != name[0]);
        lemma_last_value_single("AFTER"@, payload.after@, name);
        lemma_starts_with_char(name, "COMMIT_"@, 0);
        assert("AFTER"@[0] != name[0]);
        lemma_last_value_single("COMPARE_URL"@, payload.compare_url@, name);
        lemma_starts_with_char(name, "COMMIT_"@, 3);
        assert("COMPARE_URL"@[3] != name[3]);
        lemma_repository_env_under("REPOSITORY"@, payload.repository);
        lemma_starts_with_char(name, "COMMIT_"@, 0);
        lemma_no_value_apart("REPOSITORY"@, repository_env("REPOSITORY"@, payload.repository), name, 0);
        lemma_user_env_under("PUSHER"@, payload.pusher);
        lemma_starts_with_char(name, "COMMIT_"@, 0);
        lemma_no_value_apart("PUSHER"@, user_env("PUSHER"@, payload.pusher), name, 0);
        lemma_user_env_under("SENDER"@, payload.sender);
        lemma_starts_with_char(name, "COMMIT_"@, 0);
        lemma_no_value_apart("SENDER"@, user_env("SENDER"@, payload.sender), name, 0);
        match &payload.head_commit {
            Some(v) => {
                lemma_commit_env_under("HEAD_COMMIT"@, *v);
                lemma_starts_with_char(name, "COMMIT_"@, 0);
                lemma_no_value_apart("HEAD_COMMIT"@, commit_env("HEAD_COMMIT"@, *v), name, 0);
            },
            None => {},
        }
        lemma_last_value_concat(seq![("REF_PATH"@, payload.ref_path@)] + seq![("BEFORE"@, payload.before@)] + seq![("AFTER"@, payload.after@)] + seq![("COMPARE_URL"@, payload.compare_url@)] + repository_env("REPOSITORY"@, payload.repository) + user_env("PUSHER"@, payload.pusher) + user_env("SENDER"@, payload.sender) + (match &payload.head_commit { Some(v) => commit_env("HEAD_COMMIT"@, *v), None => seq![] }), commits_env("COMMIT_"@, payload.commits@), name);
        lemma_last_value_concat(seq![("REF_PATH"@, payload.ref_path@)] + seq![("BEFORE"@, payload.before@)] + seq![("AFTER"@, payload.after@)] + seq![("COMPARE_URL"@, payload.compare_url@)] + repository_env("REPOSITORY"@, payload.repository) + user_env("PUSHER"@, payload.pusher) + user_env("SENDER"@, payload.sender), (match &payload.head_commit { Some(v) => commit_env("HEAD_COMMIT"@, *v), None => seq![] }), name);
        lemma_last_value_concat(seq![("REF_PATH"@, payload.ref_path@)] + seq![("BEFORE"@, payload.before@)] + seq![("AFTER"@, payload.after@)] + seq![("COMPARE_URL"@, payload.compare_url@)] + repository_env("REPOSITORY"@, payload.repository) + user_env("PUSHER"@, payload.pusher), user_env("SENDER"@, payload.sender), name);
        lemma_last_value_concat(seq![("REF_PATH"@, payload.ref_path@)] + seq![("BEFORE"@, payload.before@)] + seq![("AFTER"@, payload.after@)] + seq![("COMPARE_URL"@, payload.compare_url@)] + repository_env("REPOSITORY"@, payload.repository), user_env("PUSHER"@, payload.pusher), name);
        lemma_last_value_concat(seq![("REF_PATH"@, payload.ref_path@)] + seq![("BEFORE"@, payload.before@)] + seq![("AFTER"@, payload.after@)] + seq![("COMPARE_URL"@, payload.compare_url@)], repository_env("REPOSITORY"@, payload.repository), name);
        lemma_last_value_concat(seq![("REF_PATH"@, payload.ref_path@)] + seq![("BEFORE"@, payload.before@)] + seq![("AFTER"@, payload.after@)], seq![("COMPARE_URL"@, payload.compare_url@)], name);
        lemma_last_value_concat(seq![("REF_PATH"@, payload.ref_path@)] + seq![("BEFORE"@, payload.before@)], seq![("AFTER"@, payload.after@)], name);
        lemma_last_value_concat(seq![("REF_PATH"@, payload.ref_path@)], seq![("BEFORE"@, payload.before@)], name);
    }
}

/// The command that answers a change to a release leaves its action in ACTION.
pub proof fn lemma_release_command_action(config: Config, payload: ReleasePayload)
    ensures
        last_value(release_command(config, payload).envs, "ACTION"@) == Some(payload.action@),
{
    reveal_strlit("ACTION");
    reveal_strlit("RELEASE");
    reveal_strlit("REPOSITORY");
    reveal_strlit("SENDER");
    assert(release_command(config, payload).envs =~= release_payload_env(payload));
    lemma_release_env_under("RELEASE"@, payload.release);
    lemma_no_value_apart("RELEASE"@, release_env("RELEASE"@, payload.release), "ACTION"@, 0);
    lemma_repository_env_under("REPOSITORY"@, payload.repository);
    lemma_no_value_apart("REPOSITORY"@, repository_env("REPOSITORY"@, payload.repository), "ACTION"@, 0);
    lemma_user_env_under("SENDER"@, payload.sender);
    lemma_no_value_apart("SENDER"@, user_env("SENDER"@, payload.sender), "ACTION"@, 0);
    lemma_last_value_concat(seq![("ACTION"@, payload.action@)] + release_env("RELEASE"@, payload.release) + repository_env("REPOSITORY"@, payload.repository), user_env("SENDER"@, payload.sender), "ACTION"@);
    lemma_last_value_concat(seq![("ACTION"@, payload.action@)] + release_env("RELEASE"@, payload.release), repository_env("REPOSITORY"@, payload.repository), "ACTION"@);
    lemma_last_value_concat(seq![("ACTION"@, payload.action@)], release_env("RELEASE"@, payload.release), "ACTION"@);
    lemma_last_value_single("ACTION"@, payload.action@, "ACTION"@);
}

/// The command that answers a change to a release describes its release, and nothing else, in
/// the variables whose names start with RELEASE.
pub proof fn lemma_release_command_release(config: Config, payload: ReleasePayload, name: Seq<char>)
    ensures
        starts_with(name, "RELEASE"@) ==> last_value(release_command(config, payload).envs, name) == last_value(release_env("RELEASE"@, payload.release), name),
{
    reveal_strlit("ACTION");
    reveal_strlit("RELEASE");
    reveal_strlit("REPOSITORY");
    reveal_strlit("SENDER");
    assert(release_command(config, payload).envs =~= release_payload_env(payload));
    if starts_with(name, "RELEASE"@) {
        lemma_last_value_single("ACTION"@, payload.action@, name);
        lemma_starts_with_char(name, "RELEASE"@, 0);
        assert("ACTION"@[0] != name[0]);
        lemma_repository_env_under("REPOSITORY"@, payload.repository);
        lemma_starts_with_char(name, "RELEASE"@, 2);
        lemma_no_value_apart("REPOSITORY"@, repository_env("REPOSITORY"@, payload.repository), name, 2);
        lemma_user_env_under("SENDER"@, payload.sender);
        lemma_starts_with_char(name, "RELEASE"@, 0);
        lemma_no_value_apart("SENDER"@, user_env("SENDER"@, payload.sender), name, 0);
        lemma_last_value_concat(seq![("ACTION"@, payload.action@)] + release_env("RELEASE"@, payload.release) + repository_env("REPOSITORY"@, payload.repository), user_env("SENDER"@, payload.sender), name);
        lemma_last_value_concat(seq![("ACTION"@, payload.action@)] + release_env("RELEASE"@, payload.release), repository_env("REPOSITORY"@, payload.repository), name);
        lemma_last_value_concat(seq![("ACTION"@, payload.action@)], release_env("RELEASE"@, payload.release), name);
    }
}

/// The command that answers a change to a release describes its repository, and nothing else, in
/// the variables whose names start with REPOSITORY.
pub proof fn lemma_release_command_repository(config: Config, payload: ReleasePayload, name: Seq<char>)
    ensures
        starts_with(name, "REPOSITORY"@) ==> last_value(release_command(config, payload).envs, name) == last_value(repository_env("REPOSITORY"@, payload.repository), name),
{
    reveal_strlit("ACTION");
    reveal_strlit("RELEASE");
    reveal_strlit("REPOSITORY");
    reveal_strlit("SENDER");
    assert(release_command(config, payload).envs =~= release_payload_env(payload));
    if starts_with(name, "REPOSITORY"@) {
        lemma_last_value_single("ACTION"@, payload.action@, name);
        lemma_starts_with_char(name, "REPOSITORY"@, 0);
        assert("ACTION"@[0] != name[0]);
        lemma_release_env_under("RELEASE"@, payload.release);
        lemma_starts_with_char(name, "REPOSITORY"@, 2);
        lemma_no_value_apart("RELEASE"@, release_env("RELEASE"@, payload.release), name, 2);
        lemma_user_env_under("SENDER"@, payload.sender);
        lemma_starts_with_char(name, "REPOSITORY"@, 0);
        lemma_no_value_apart("SENDER"@, user_env("SENDER"@, payload.sender), name, 0);
        lemma_last_value_concat(seq![("ACTION"@, payload.action@)] + release_env("RELEASE"@, payload.release) + repository_env("REPOSITORY"@, payload.repository), user_env("SENDER"@, payload.sender), name);
        lemma_last_value_concat(seq![("ACTION"@, payload.action@)] + release_env("RELEASE"@, payload.release), repository_env("REPOSITORY"@, payload.repository), name);
        lemma_last_value_concat(seq![("ACTION"@, payload.action@)], release_env("RELEASE"@, payload.release), name);
    }
}

/// The command that answers a change to a release describes its sender, and nothing else, in
/// the variables whose names start with SENDER.
pub proof fn lemma_release_command_sender(config: Config, payload: ReleasePayload, name: Seq<char>)
    ensures
        starts_with(name, "SENDER"@) ==> last_value(release_command(config, payload).envs, name) == last_value(user_env("SENDER"@, payload.sender), name),
{
    reveal_strlit("ACTION");
    reveal_strlit("RELEASE");
    reveal_strlit("REPOSITORY");
    reveal_strlit("SENDER");
    assert(release_command(config, payload).envs =~= release_payload_env(payload));
    if starts_with(name, "SENDER"@) {
        lemma_last_value_single("ACTION"@, payload.action@, name);
        lemma_starts_with_char(name, "SENDER"@, 0);
        assert("ACTION"@[0] != name[0]);
        lemma_release_env_under("RELEASE"@, payload.release);
        lemma_starts_with_char(name, "SENDER"@, 0);
        lemma_no_value_apart("RELEASE"@, release_env("RELEASE"@, payload.release), name, 0);
        lemma_repository_env_under("REPOSITORY"@, payload.repository);
        lemma_starts_with_char(name, "SENDER"@, 0);
        lemma_no_value_apart("REPOSITORY"@, repository_env("REPOSITORY"@, payload.repository), name, 0);
        lemma_last_value_concat(seq![("ACTION"@, payload.action@)] + release_env("RELEASE"@, payload.release) + repository_env("REPOSITORY"@, payload.repository), user_env("SENDER"@, payload.sender), name);
        lemma_last_value_concat(seq![("ACTION"@, payload.action@)] + release_env("RELEASE"@, payload.release), repository_env("REPOSITORY"@, payload.repository), name);
        lemma_last_value_concat(seq![("ACTION"@, payload.action@)], release_env("RELEASE"@, payload.release), name);
    }
}



/// The command that answers a fork names the forkee in FORKEE_ID and
/// FORKEE_FULL_NAME, and the repository it was forked from in REPOSITORY_ID and
/// REPOSITORY_FULL_NAME.
pub proof fn lemma_fork_command_sides(config: Config, payload: ForkPayload)
    ensures
        last_value(fork_command(config, payload).envs, "FORKEE_ID"@) == Some(signed_decimal(payload.forkee.id as int)),
        last_value(fork_command(config, payload).envs, "FORKEE_FULL_NAME"@) == Some(payload.forkee.full_name@),
        last_value(fork_command(config, payload).envs, "REPOSITORY_ID"@) == Some(signed_decimal(payload.repository.id as int)),
        last_value(fork_command(config, payload).envs, "REPOSITORY_FULL_NAME"@) == Some(payload.repository.full_name@),
{
    reveal_strlit("FORKEE");
    reveal_strlit("REPOSITORY");
    reveal_strlit("_ID");
    reveal_strlit("_FULL_NAME");
    reveal_strlit("FORKEE_ID");
    reveal_strlit("FORKEE_FULL_NAME");
    reveal_strlit("REPOSITORY_ID");
    reveal_strlit("REPOSITORY_FULL_NAME");
    assert("FORKEE_ID"@ =~= "FORKEE"@ + "_ID"@);
    assert("FORKEE_FULL_NAME"@ =~= "FORKEE"@ + "_FULL_NAME"@);
    assert("REPOSITORY_ID"@ =~= "REPOSITORY"@ + "_ID"@);
    assert("REPOSITORY_FULL_NAME"@ =~= "REPOSITORY"@ + "_FULL_NAME"@);
    assert(starts_with("FORKEE_ID"@, "FORKEE"@)) by {
        assert("FORKEE_ID"@.subrange(0, 6) =~= "FORKEE"@);
    }
    assert(starts_with("FORKEE_FULL_NAME"@, "FORKEE"@)) by {
        assert("FORKEE_FULL_NAME"@.subrange(0, 6) =~= "FORKEE"@);
    }
    assert(starts_with("REPOSITORY_ID"@, "REPOSITORY"@)) by {
        assert("REPOSITORY_ID"@.subrange(0, 10) =~= "REPOSITORY"@);
    }
    assert(starts_with("REPOSITORY_FULL_NAME"@, "REPOSITORY"@)) by {
        assert("REPOSITORY_FULL_NAME"@.subrange(0, 10) =~= "REPOSITORY"@);
    }
    lemma_fork_command_forkee(config, payload, "FORKEE_ID"@);
    lemma_fork_command_forkee(config, payload, "FORKEE_FULL_NAME"@);
    lemma_fork_command_repository(config, payload, "REPOSITORY_ID"@);
    lemma_fork_command_repository(config, payload, "REPOSITORY_FULL_NAME"@);
    lemma_repository_env_id("FORKEE"@, payload.forkee);
    lemma_repository_env_full_name("FORKEE"@, payload.forkee);
    lemma_repository_env_id("REPOSITORY"@, payload.repository);
    lemma_repository_env_full_name("REPOSITORY"@, payload.repository);
}

} // verus!
