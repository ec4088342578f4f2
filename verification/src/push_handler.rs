//! A fixed answer to Gitea's events: a push runs `echoer` in an
//! environment that describes the push under `PUSH_` names; other events
//! are not answered.
use vstd::prelude::*;
use vstd::string::*;
use crate::command::{
    last_value, lemma_last_value_concat, lemma_last_value_single, lemma_with_envs_twice, CommandSpec,
    CommandView, EnvEntry,
};
use crate::gitea::{HookEvent, PushEvent};
use crate::text::{bool_text, bool_to_text, decimal, u64_text};

verus! {

/// Answers a push by running `echoer`.
pub struct CliHandler;

/// The assignments from PUSH_REF_PATH to PUSH_SENDER_FULL_NAME that describe a push.
pub open spec fn push_event_env_part1(push: PushEvent) -> Seq<EnvEntry> {
    seq![("PUSH_REF_PATH"@, push.ref_path@)]
    + seq![("PUSH_BEFORE"@, push.before@)]
    + seq![("PUSH_AFTER"@, push.after@)]
    + seq![("PUSH_PUSHER_ID"@, decimal(push.pusher.id as nat))]
    + seq![("PUSH_PUSHER_LOGIN"@, push.pusher.login@)]
    + seq![("PUSH_PUSHER_FULL_NAME"@, push.pusher.full_name@)]
    + seq![("PUSH_PUSHER_EMAIL"@, push.pusher.email@)]
    + seq![("PUSH_PUSHER_AVATAR_URL"@, push.pusher.avatar_url@)]
    + seq![("PUSH_PUSHER_USERNAME"@, push.pusher.username@)]
    + seq![("PUSH_SENDER_ID"@, decimal(push.sender.id as nat))]
    + seq![("PUSH_SENDER_LOGIN"@, push.sender.login@)]
    + seq![("PUSH_SENDER_FULL_NAME"@, push.sender.full_name@)]
}

/// Makes the assignments from PUSH_REF_PATH to PUSH_SENDER_FULL_NAME that describe a push.
fn add_push_event_env_part1(cmd: &mut CommandSpec, push: &PushEvent)
    ensures
        final(cmd)@ == old(cmd)@.with_envs(push_event_env_part1(*push)),
{
    let ghost start = cmd@;
    cmd.set_var("PUSH_REF_PATH", push.ref_path.clone());
    let ghost mut acc: Seq<EnvEntry> = seq![("PUSH_REF_PATH"@, (*push).ref_path@)];
    cmd.set_var("PUSH_BEFORE", push.before.clone());
    proof {
        lemma_with_envs_twice(start, acc, seq![("PUSH_BEFORE"@, (*push).before@)]);
        acc = acc + seq![("PUSH_BEFORE"@, (*push).before@)];
    }
    cmd.set_var("PUSH_AFTER", push.after.clone());
    proof {
        lemma_with_envs_twice(start, acc, seq![("PUSH_AFTER"@, (*push).after@)]);
        acc = acc + seq![("PUSH_AFTER"@, (*push).after@)];
    }
    cmd.set_var("PUSH_PUSHER_ID", u64_text(push.pusher.id as u64));
    proof {
        lemma_with_envs_twice(start, acc, seq![("PUSH_PUSHER_ID"@, decimal((*push).pusher.id as nat))]);
        acc = acc + seq![("PUSH_PUSHER_ID"@, decimal((*push).pusher.id as nat))];
    }
    cmd.set_var("PUSH_PUSHER_LOGIN", push.pusher.login.clone());
    proof {
        lemma_with_envs_twice(start, acc, seq![("PUSH_PUSHER_LOGIN"@, (*push).pusher.login@)]);
        acc = acc + seq![("PUSH_PUSHER_LOGIN"@, (*push).pusher.login@)];
    }
    cmd.set_var("PUSH_PUSHER_FULL_NAME", push.pusher.full_name.clone());
    proof {
        lemma_with_envs_twice(start, acc, seq![("PUSH_PUSHER_FULL_NAME"@, (*push).pusher.full_name@)]);
        acc = acc + seq![("PUSH_PUSHER_FULL_NAME"@, (*push).pusher.full_name@)];
    }
    cmd.set_var("PUSH_PUSHER_EMAIL", push.pusher.email.clone());
    proof {
        lemma_with_envs_twice(start, acc, seq![("PUSH_PUSHER_EMAIL"@, (*push).pusher.email@)]);
        acc = acc + seq![("PUSH_PUSHER_EMAIL"@, (*push).pusher.email@)];
    }
    cmd.set_var("PUSH_PUSHER_AVATAR_URL", push.pusher.avatar_url.clone());
    proof {
        lemma_with_envs_twice(start, acc, seq![("PUSH_PUSHER_AVATAR_URL"@, (*push).pusher.avatar_url@)]);
        acc = acc + seq![("PUSH_PUSHER_AVATAR_URL"@, (*push).pusher.avatar_url@)];
    }
    cmd.set_var("PUSH_PUSHER_USERNAME", push.pusher.username.clone());
    proof {
        lemma_with_envs_twice(start, acc, seq![("PUSH_PUSHER_USERNAME"@, (*push).pusher.username@)]);
        acc = acc + seq![("PUSH_PUSHER_USERNAME"@, (*push).pusher.username@)];
    }
    cmd.set_var("PUSH_SENDER_ID", u64_text(push.sender.id as u64));
    proof {
        lemma_with_envs_twice(start, acc, seq![("PUSH_SENDER_ID"@, decimal((*push).sender.id as nat))]);
        acc = acc + seq![("PUSH_SENDER_ID"@, decimal((*push).sender.id as nat))];
    }
    cmd.set_var("PUSH_SENDER_LOGIN", push.sender.login.clone());
    proof {
        lemma_with_envs_twice(start, acc, seq![("PUSH_SENDER_LOGIN"@, (*push).sender.login@)]);
        acc = acc + seq![("PUSH_SENDER_LOGIN"@, (*push).sender.login@)];
    }
    cmd.set_var("PUSH_SENDER_FULL_NAME", push.sender.full_name.clone());
    proof {
        lemma_with_envs_twice(start, acc, seq![("PUSH_SENDER_FULL_NAME"@, (*push).sender.full_name@)]);
    }
}

/// The assignments from PUSH_SENDER_EMAIL to PUSH_REPOSITORY_FULL_NAME that describe a push.
pub open spec fn push_event_env_part2(push: PushEvent) -> Seq<EnvEntry> {
    seq![("PUSH_SENDER_EMAIL"@, push.sender.email@)]
    + seq![("PUSH_SENDER_AVATAR_URL"@, push.sender.avatar_url@)]
    + seq![("PUSH_SENDER_USERNAME"@, push.sender.username@)]
    + seq![("PUSH_REPOSITORY_ID"@, decimal(push.repository.id as nat))]
    + seq![("PUSH_REPOSITORY_OWNER_ID"@, decimal(push.repository.owner.id as nat))]
    + seq![("PUSH_REPOSITORY_OWNER_LOGIN"@, push.repository.owner.login@)]
    + seq![("PUSH_REPOSITORY_OWNER_FULL_NAME"@, push.repository.owner.full_name@)]
    + seq![("PUSH_REPOSITORY_OWNER_EMAIL"@, push.repository.owner.email@)]
    + seq![("PUSH_REPOSITORY_OWNER_AVATAR_URL"@, push.repository.owner.avatar_url@)]
    + seq![("PUSH_REPOSITORY_OWNER_USERNAME"@, push.repository.owner.username@)]
    + seq![("PUSH_REPOSITORY_NAME"@, push.repository.name@)]
    + seq![("PUSH_REPOSITORY_FULL_NAME"@, push.repository.full_name@)]
}

/// Makes the assignments from PUSH_SENDER_EMAIL to PUSH_REPOSITORY_FULL_NAME that describe a push.
fn add_push_event_env_part2(cmd: &mut CommandSpec, push: &PushEvent)
    ensures
        final(cmd)@ == old(cmd)@.with_envs(push_event_env_part2(*push)),
{
    let ghost start = cmd@;
    cmd.set_var("PUSH_SENDER_EMAIL", push.sender.email.clone());
    let ghost mut acc: Seq<EnvEntry> = seq![("PUSH_SENDER_EMAIL"@, (*push).sender.email@)];
    cmd.set_var("PUSH_SENDER_AVATAR_URL", push.sender.avatar_url.clone());
    proof {
        lemma_with_envs_twice(start, acc, seq![("PUSH_SENDER_AVATAR_URL"@, (*push).sender.avatar_url@)]);
        acc = acc + seq![("PUSH_SENDER_AVATAR_URL"@, (*push).sender.avatar_url@)];
    }
    cmd.set_var("PUSH_SENDER_USERNAME", push.sender.username.clone());
    proof {
        lemma_with_envs_twice(start, acc, seq![("PUSH_SENDER_USERNAME"@, (*push).sender.username@)]);
        acc = acc + seq![("PUSH_SENDER_USERNAME"@, (*push).sender.username@)];
    }
    cmd.set_var("PUSH_REPOSITORY_ID", u64_text(push.repository.id as u64));
    proof {
        lemma_with_envs_twice(start, acc, seq![("PUSH_REPOSITORY_ID"@, decimal((*push).repository.id as nat))]);
        acc = acc + seq![("PUSH_REPOSITORY_ID"@, decimal((*push).repository.id as nat))];
    }
    cmd.set_var("PUSH_REPOSITORY_OWNER_ID", u64_text(push.repository.owner.id as u64));
    proof {
        lemma_with_envs_twice(start, acc, seq![("PUSH_REPOSITORY_OWNER_ID"@, decimal((*push).repository.owner.id as nat))]);
        acc = acc + seq![("PUSH_REPOSITORY_OWNER_ID"@, decimal((*push).repository.owner.id as nat))];
    }
    cmd.set_var("PUSH_REPOSITORY_OWNER_LOGIN", push.repository.owner.login.clone());
    proof {
        lemma_with_envs_twice(start, acc, seq![("PUSH_REPOSITORY_OWNER_LOGIN"@, (*push).repository.owner.login@)]);
        acc = acc + seq![("PUSH_REPOSITORY_OWNER_LOGIN"@, (*push).repository.owner.login@)];
    }
    cmd.set_var("PUSH_REPOSITORY_OWNER_FULL_NAME", push.repository.owner.full_name.clone());
    proof {
        lemma_with_envs_twice(start, acc, seq![("PUSH_REPOSITORY_OWNER_FULL_NAME"@, (*push).repository.owner.full_name@)]);
        acc = acc + seq![("PUSH_REPOSITORY_OWNER_FULL_NAME"@, (*push).repository.owner.full_name@)];
    }
    cmd.set_var("PUSH_REPOSITORY_OWNER_EMAIL", push.repository.owner.email.clone());
    proof {
        lemma_with_envs_twice(start, acc, seq![("PUSH_REPOSITORY_OWNER_EMAIL"@, (*push).repository.owner.email@)]);
        acc = acc + seq![("PUSH_REPOSITORY_OWNER_EMAIL"@, (*push).repository.owner.email@)];
    }
    cmd.set_var("PUSH_REPOSITORY_OWNER_AVATAR_URL", push.repository.owner.avatar_url.clone());
    proof {
        lemma_with_envs_twice(start, acc, seq![("PUSH_REPOSITORY_OWNER_AVATAR_URL"@, (*push).repository.owner.avatar_url@)]);
        acc = acc + seq![("PUSH_REPOSITORY_OWNER_AVATAR_URL"@, (*push).repository.owner.avatar_url@)];
    }
    cmd.set_var("PUSH_REPOSITORY_OWNER_USERNAME", push.repository.owner.username.clone());
    proof {
        lemma_with_envs_twice(start, acc, seq![("PUSH_REPOSITORY_OWNER_USERNAME"@, (*push).repository.owner.username@)]);
        acc = acc + seq![("PUSH_REPOSITORY_OWNER_USERNAME"@, (*push).repository.owner.username@)];
    }
    cmd.set_var("PUSH_REPOSITORY_NAME", push.repository.name.clone());
    proof {
        lemma_with_envs_twice(start, acc, seq![("PUSH_REPOSITORY_NAME"@, (*push).repository.name@)]);
        acc = acc + seq![("PUSH_REPOSITORY_NAME"@, (*push).repository.name@)];
    }
    cmd.set_var("PUSH_REPOSITORY_FULL_NAME", push.repository.full_name.clone());
    proof {
        lemma_with_envs_twice(start, acc, seq![("PUSH_REPOSITORY_FULL_NAME"@, (*push).repository.full_name@)]);
    }
}

/// The assignments from PUSH_REPOSITORY_DESCRIPTION to PUSH_REPOSITORY_DEFAULT_BRANCH that describe a push.
pub open spec fn push_event_env_part3(push: PushEvent) -> Seq<EnvEntry> {
    seq![("PUSH_REPOSITORY_DESCRIPTION"@, push.repository.description@)]
    + seq![("PUSH_REPOSITORY_PRIVATE"@, bool_text(push.repository.private))]
    + seq![("PUSH_REPOSITORY_FORK"@, bool_text(push.repository.fork))]
    + seq![("PUSH_REPOSITORY_HTML_URL"@, push.repository.html_url@)]
    + seq![("PUSH_REPOSITORY_SSH_URL"@, push.repository.ssh_url@)]
    + seq![("PUSH_REPOSITORY_CLONE_URL"@, push.repository.clone_url@)]
    + seq![("PUSH_REPOSITORY_WEBSITE"@, push.repository.website@)]
    + seq![("PUSH_REPOSITORY_STARS_COUNT"@, decimal(push.repository.stars_count as nat))]
    + seq![("PUSH_REPOSITORY_FORKS_COUNT"@, decimal(push.repository.forks_count as nat))]
    + seq![("PUSH_REPOSITORY_WATCHERS_COUNT"@, decimal(push.repository.watchers_count as nat))]
    + seq![("PUSH_REPOSITORY_OPEN_ISSUES_COUNT"@, decimal(push.repository.open_issues_count as nat))]
    + seq![("PUSH_REPOSITORY_DEFAULT_BRANCH"@, push.repository.default_branch@)]
}

/// Makes the assignments from PUSH_REPOSITORY_DESCRIPTION to PUSH_REPOSITORY_DEFAULT_BRANCH that describe a push.
fn add_push_event_env_part3(cmd: &mut CommandSpec, push: &PushEvent)
    ensures
        final(cmd)@ == old(cmd)@.with_envs(push_event_env_part3(*push)),
{
    let ghost start = cmd@;
    cmd.set_var("PUSH_REPOSITORY_DESCRIPTION", push.repository.description.clone());
    let ghost mut acc: Seq<EnvEntry> = seq![("PUSH_REPOSITORY_DESCRIPTION"@, (*push).repository.description@)];
    cmd.set_var("PUSH_REPOSITORY_PRIVATE", bool_to_text(push.repository.private));
    proof {
        lemma_with_envs_twice(start, acc, seq![("PUSH_REPOSITORY_PRIVATE"@, bool_text((*push).repository.private))]);
        acc = acc + seq![("PUSH_REPOSITORY_PRIVATE"@, bool_text((*push).repository.private))];
    }
    cmd.set_var("PUSH_REPOSITORY_FORK", bool_to_text(push.repository.fork));
    proof {
        lemma_with_envs_twice(start, acc, seq![("PUSH_REPOSITORY_FORK"@, bool_text((*push).repository.fork))]);
        acc = acc + seq![("PUSH_REPOSITORY_FORK"@, bool_text((*push).repository.fork))];
    }
    cmd.set_var("PUSH_REPOSITORY_HTML_URL", push.repository.html_url.clone());
    proof {
        lemma_with_envs_twice(start, acc, seq![("PUSH_REPOSITORY_HTML_URL"@, (*push).repository.html_url@)]);
        acc = acc + seq![("PUSH_REPOSITORY_HTML_URL"@, (*push).repository.html_url@)];
    }
    cmd.set_var("PUSH_REPOSITORY_SSH_URL", push.repository.ssh_url.clone());
    proof {
        lemma_with_envs_twice(start, acc, seq![("PUSH_REPOSITORY_SSH_URL"@, (*push).repository.ssh_url@)]);
        acc = acc + seq![("PUSH_REPOSITORY_SSH_URL"@, (*push).repository.ssh_url@)];
    }
    cmd.set_var("PUSH_REPOSITORY_CLONE_URL", push.repository.clone_url.clone());
    proof {
        lemma_with_envs_twice(start, acc, seq![("PUSH_REPOSITORY_CLONE_URL"@, (*push).repository.clone_url@)]);
        acc = acc + seq![("PUSH_REPOSITORY_CLONE_URL"@, (*push).repository.clone_url@)];
    }
    cmd.set_var("PUSH_REPOSITORY_WEBSITE", push.repository.website.clone());
    proof {
        lemma_with_envs_twice(start, acc, seq![("PUSH_REPOSITORY_WEBSITE"@, (*push).repository.website@)]);
        acc = acc + seq![("PUSH_REPOSITORY_WEBSITE"@, (*push).repository.website@)];
    }
    cmd.set_var("PUSH_REPOSITORY_STARS_COUNT", u64_text(push.repository.stars_count as u64));
    proof {
        lemma_with_envs_twice(start, acc, seq![("PUSH_REPOSITORY_STARS_COUNT"@, decimal((*push).repository.stars_count as nat))]);
        acc = acc + seq![("PUSH_REPOSITORY_STARS_COUNT"@, decimal((*push).repository.stars_count as nat))];
    }
    cmd.set_var("PUSH_REPOSITORY_FORKS_COUNT", u64_text(push.repository.forks_count as u64));
    proof {
        lemma_with_envs_twice(start, acc, seq![("PUSH_REPOSITORY_FORKS_COUNT"@, decimal((*push).repository.forks_count as nat))]);
        acc = acc + seq![("PUSH_REPOSITORY_FORKS_COUNT"@, decimal((*push).repository.forks_count as nat))];
    }
    cmd.set_var("PUSH_REPOSITORY_WATCHERS_COUNT", u64_text(push.repository.watchers_count as u64));
    proof {
        lemma_with_envs_twice(start, acc, seq![("PUSH_REPOSITORY_WATCHERS_COUNT"@, decimal((*push).repository.watchers_count as nat))]);
        acc = acc + seq![("PUSH_REPOSITORY_WATCHERS_COUNT"@, decimal((*push).repository.watchers_count as nat))];
    }
    cmd.set_var("PUSH_REPOSITORY_OPEN_ISSUES_COUNT", u64_text(push.repository.open_issues_count as u64));
    proof {
        lemma_with_envs_twice(start, acc, seq![("PUSH_REPOSITORY_OPEN_ISSUES_COUNT"@, decimal((*push).repository.open_issues_count as nat))]);
        acc = acc + seq![("PUSH_REPOSITORY_OPEN_ISSUES_COUNT"@, decimal((*push).repository.open_issues_count as nat))];
    }
    cmd.set_var("PUSH_REPOSITORY_DEFAULT_BRANCH", push.repository.default_branch.clone());
    proof {
        lemma_with_envs_twice(start, acc, seq![("PUSH_REPOSITORY_DEFAULT_BRANCH"@, (*push).repository.default_branch@)]);
    }
}

/// The assignments from PUSH_REPOSITORY_CREATED_AT to PUSH_REPOSITORY_UPDATED_AT that describe a push.
pub open spec fn push_event_env_part4(push: PushEvent) -> Seq<EnvEntry> {
    seq![("PUSH_REPOSITORY_CREATED_AT"@, push.repository.created_at@)]
    + seq![("PUSH_REPOSITORY_UPDATED_AT"@, push.repository.updated_at@)]
}

/// Makes the assignments from PUSH_REPOSITORY_CREATED_AT to PUSH_REPOSITORY_UPDATED_AT that describe a push.
fn add_push_event_env_part4(cmd: &mut CommandSpec, push: &PushEvent)
    ensures
        final(cmd)@ == old(cmd)@.with_envs(push_event_env_part4(*push)),
{
    let ghost start = cmd@;
    cmd.set_var("PUSH_REPOSITORY_CREATED_AT", push.repository.created_at.clone());
    let ghost acc: Seq<EnvEntry> = seq![("PUSH_REPOSITORY_CREATED_AT"@, (*push).repository.created_at@)];
    cmd.set_var("PUSH_REPOSITORY_UPDATED_AT", push.repository.updated_at.clone());
    proof {
        lemma_with_envs_twice(start, acc, seq![("PUSH_REPOSITORY_UPDATED_AT"@, (*push).repository.updated_at@)]);
    }
}

/// The assignments that describe a push: its ref and commit hashes, the
/// pusher, the sender and the repository with its owner.
pub open spec fn push_event_env(push: PushEvent) -> Seq<EnvEntry> {
    push_event_env_part1(push) + push_event_env_part2(push) + push_event_env_part3(push)
        + push_event_env_part4(push)
}

/// The command that answers a push: `echoer`, in the environment that
/// describes the push, with the one argument "hi $PUSH_PUSHER_FULL_NAME".
pub open spec fn push_event_command(push: PushEvent) -> CommandView {
    CommandView {
        program: "echoer"@,
        envs: push_event_env(push),
        args: seq!["hi $PUSH_PUSHER_FULL_NAME"@],
    }
}

/// Builds the command that answers a push.
pub fn handle_push_event(push_event: &PushEvent) -> (r: CommandSpec)
    ensures
        r@ == push_event_command(*push_event),
        last_value(r@.envs, "PUSH_REF_PATH"@) == Some(push_event.ref_path@),
        last_value(r@.envs, "PUSH_BEFORE"@) == Some(push_event.before@),
        last_value(r@.envs, "PUSH_AFTER"@) == Some(push_event.after@),
        last_value(r@.envs, "PUSH_PUSHER_ID"@) == Some(decimal(push_event.pusher.id as nat)),
        last_value(r@.envs, "PUSH_PUSHER_LOGIN"@) == Some(push_event.pusher.login@),
        last_value(r@.envs, "PUSH_PUSHER_FULL_NAME"@) == Some(push_event.pusher.full_name@),
        last_value(r@.envs, "PUSH_PUSHER_EMAIL"@) == Some(push_event.pusher.email@),
        last_value(r@.envs, "PUSH_PUSHER_AVATAR_URL"@) == Some(push_event.pusher.avatar_url@),
        last_value(r@.envs, "PUSH_PUSHER_USERNAME"@) == Some(push_event.pusher.username@),
        last_value(r@.envs, "PUSH_SENDER_ID"@) == Some(decimal(push_event.sender.id as nat)),
        last_value(r@.envs, "PUSH_SENDER_LOGIN"@) == Some(push_event.sender.login@),
        last_value(r@.envs, "PUSH_SENDER_FULL_NAME"@) == Some(push_event.sender.full_name@),
        last_value(r@.envs, "PUSH_SENDER_EMAIL"@) == Some(push_event.sender.email@),
        last_value(r@.envs, "PUSH_SENDER_AVATAR_URL"@) == Some(push_event.sender.avatar_url@),
        last_value(r@.envs, "PUSH_SENDER_USERNAME"@) == Some(push_event.sender.username@),
        last_value(r@.envs, "PUSH_REPOSITORY_ID"@) == Some(decimal(push_event.repository.id as nat)),
        last_value(r@.envs, "PUSH_REPOSITORY_OWNER_ID"@) == Some(decimal(push_event.repository.owner.id as nat)),
        last_value(r@.envs, "PUSH_REPOSITORY_OWNER_LOGIN"@) == Some(push_event.repository.owner.login@),
        last_value(r@.envs, "PUSH_REPOSITORY_OWNER_FULL_NAME"@) == Some(push_event.repository.owner.full_name@),
        last_value(r@.envs, "PUSH_REPOSITORY_OWNER_EMAIL"@) == Some(push_event.repository.owner.email@),
        last_value(r@.envs, "PUSH_REPOSITORY_OWNER_AVATAR_URL"@) == Some(push_event.repository.owner.avatar_url@),
        last_value(r@.envs, "PUSH_REPOSITORY_OWNER_USERNAME"@) == Some(push_event.repository.owner.username@),
        last_value(r@.envs, "PUSH_REPOSITORY_NAME"@) == Some(push_event.repository.name@),
        last_value(r@.envs, "PUSH_REPOSITORY_FULL_NAME"@) == Some(push_event.repository.full_name@),
        last_value(r@.envs, "PUSH_REPOSITORY_DESCRIPTION"@) == Some(push_event.repository.description@),
        last_value(r@.envs, "PUSH_REPOSITORY_PRIVATE"@) == Some(bool_text(push_event.repository.private)),
        last_value(r@.envs, "PUSH_REPOSITORY_FORK"@) == Some(bool_text(push_event.repository.fork)),
        last_value(r@.envs, "PUSH_REPOSITORY_HTML_URL"@) == Some(push_event.repository.html_url@),
        last_value(r@.envs, "PUSH_REPOSITORY_SSH_URL"@) == Some(push_event.repository.ssh_url@),
        last_value(r@.envs, "PUSH_REPOSITORY_CLONE_URL"@) == Some(push_event.repository.clone_url@),
        last_value(r@.envs, "PUSH_REPOSITORY_WEBSITE"@) == Some(push_event.repository.website@),
        last_value(r@.envs, "PUSH_REPOSITORY_STARS_COUNT"@) == Some(decimal(push_event.repository.stars_count as nat)),
        last_value(r@.envs, "PUSH_REPOSITORY_FORKS_COUNT"@) == Some(decimal(push_event.repository.forks_count as nat)),
        last_value(r@.envs, "PUSH_REPOSITORY_WATCHERS_COUNT"@) == Some(decimal(push_event.repository.watchers_count as nat)),
        last_value(r@.envs, "PUSH_REPOSITORY_OPEN_ISSUES_COUNT"@) == Some(decimal(push_event.repository.open_issues_count as nat)),
        last_value(r@.envs, "PUSH_REPOSITORY_DEFAULT_BRANCH"@) == Some(push_event.repository.default_branch@),
        last_value(r@.envs, "PUSH_REPOSITORY_CREATED_AT"@) == Some(push_event.repository.created_at@),
        last_value(r@.envs, "PUSH_REPOSITORY_UPDATED_AT"@) == Some(push_event.repository.updated_at@),
{
    let mut cmd = CommandSpec::new("echoer");
    let ghost start = cmd@;
    add_push_event_env_part1(&mut cmd, push_event);
    add_push_event_env_part2(&mut cmd, push_event);
    proof {
        lemma_with_envs_twice(start, push_event_env_part1(*push_event), push_event_env_part2(*push_event));
    }
    add_push_event_env_part3(&mut cmd, push_event);
    proof {
        lemma_with_envs_twice(
            start,
            push_event_env_part1(*push_event) + push_event_env_part2(*push_event),
            push_event_env_part3(*push_event),
        );
    }
    add_push_event_env_part4(&mut cmd, push_event);
    proof {
        lemma_with_envs_twice(
            start,
            push_event_env_part1(*push_event) + push_event_env_part2(*push_event)
                + push_event_env_part3(*push_event),
            push_event_env_part4(*push_event),
        );
    }
    cmd.arg(String::from_str("hi $PUSH_PUSHER_FULL_NAME"));
    assert(cmd@.envs =~= push_event_env(*push_event));
    proof {
        lemma_push_event_ref_path(*push_event);
        lemma_push_event_before(*push_event);
        lemma_push_event_after(*push_event);
        lemma_push_event_pusher_id(*push_event);
        lemma_push_event_pusher_login(*push_event);
        lemma_push_event_pusher_full_name(*push_event);
        lemma_push_event_pusher_email(*push_event);
        lemma_push_event_pusher_avatar_url(*push_event);
        lemma_push_event_pusher_username(*push_event);
        lemma_push_event_sender_id(*push_event);
        lemma_push_event_sender_login(*push_event);
        lemma_push_event_sender_full_name(*push_event);
        lemma_push_event_sender_email(*push_event);
        lemma_push_event_sender_avatar_url(*push_event);
        lemma_push_event_sender_username(*push_event);
        lemma_push_event_repository_id(*push_event);
        lemma_push_event_repository_owner_id(*push_event);
        lemma_push_event_repository_owner_login(*push_event);
        lemma_push_event_repository_owner_full_name(*push_event);
        lemma_push_event_repository_owner_email(*push_event);
        lemma_push_event_repository_owner_avatar_url(*push_event);
        lemma_push_event_repository_owner_username(*push_event);
        lemma_push_event_repository_name(*push_event);
        lemma_push_event_repository_full_name(*push_event);
        lemma_push_event_repository_description(*push_event);
        lemma_push_event_repository_private(*push_event);
        lemma_push_event_repository_fork(*push_event);
        lemma_push_event_repository_html_url(*push_event);
        lemma_push_event_repository_ssh_url(*push_event);
        lemma_push_event_repository_clone_url(*push_event);
        lemma_push_event_repository_website(*push_event);
        lemma_push_event_repository_stars_count(*push_event);
        lemma_push_event_repository_forks_count(*push_event);
        lemma_push_event_repository_watchers_count(*push_event);
        lemma_push_event_repository_open_issues_count(*push_event);
        lemma_push_event_repository_default_branch(*push_event);
        lemma_push_event_repository_created_at(*push_event);
        lemma_push_event_repository_updated_at(*push_event);
    }
    cmd
}

impl CliHandler {
    /// The command that answers an event: for a push, the command that
    /// [`handle_push_event`] builds; no command for any other event.
    pub fn handle_event(&self, event: &HookEvent) -> (r: Option<CommandSpec>)
        ensures
            match event {
                HookEvent::Push(push) => r matches Some(cmd) && cmd@ == push_event_command(*push),
                _ => r is None,
            },
    {
        match event {
            HookEvent::Push(push_event) => Some(handle_push_event(push_event)),
            _ => None,
        }
    }
}

/// The command that answers a push leaves the push's ref path in PUSH_REF_PATH.
pub proof fn lemma_push_event_ref_path(push: PushEvent)
    ensures
        last_value(push_event_command(push).envs, "PUSH_REF_PATH"@) == Some(push.ref_path@),
{
    reveal_strlit("PUSH_REF_PATH");
    reveal_strlit("PUSH_BEFORE");
    reveal_strlit("PUSH_AFTER");
    reveal_strlit("PUSH_PUSHER_ID");
    reveal_strlit("PUSH_PUSHER_LOGIN");
    reveal_strlit("PUSH_PUSHER_FULL_NAME");
    reveal_strlit("PUSH_PUSHER_EMAIL");
    reveal_strlit("PUSH_PUSHER_AVATAR_URL");
    reveal_strlit("PUSH_PUSHER_USERNAME");
    reveal_strlit("PUSH_SENDER_ID");
    reveal_strlit("PUSH_SENDER_LOGIN");
    reveal_strlit("PUSH_SENDER_FULL_NAME");
    reveal_strlit("PUSH_SENDER_EMAIL");
    reveal_strlit("PUSH_SENDER_AVATAR_URL");
    reveal_strlit("PUSH_SENDER_USERNAME");
    reveal_strlit("PUSH_REPOSITORY_ID");
    reveal_strlit("PUSH_REPOSITORY_OWNER_ID");
    reveal_strlit("PUSH_REPOSITORY_OWNER_LOGIN");
    reveal_strlit("PUSH_REPOSITORY_OWNER_FULL_NAME");
    reveal_strlit("PUSH_REPOSITORY_OWNER_EMAIL");
    reveal_strlit("PUSH_REPOSITORY_OWNER_AVATAR_URL");
    reveal_strlit("PUSH_REPOSITORY_OWNER_USERNAME");
    reveal_strlit("PUSH_REPOSITORY_NAME");
    reveal_strlit("PUSH_REPOSITORY_FULL_NAME");
    reveal_strlit("PUSH_REPOSITORY_DESCRIPTION");
    reveal_strlit("PUSH_REPOSITORY_PRIVATE");
    reveal_strlit("PUSH_REPOSITORY_FORK");
    reveal_strlit("PUSH_REPOSITORY_HTML_URL");
    reveal_strlit("PUSH_REPOSITORY_SSH_URL");
    reveal_strlit("PUSH_REPOSITORY_CLONE_URL");
    reveal_strlit("PUSH_REPOSITORY_WEBSITE");
    reveal_strlit("PUSH_REPOSITORY_STARS_COUNT");
    reveal_strlit("PUSH_REPOSITORY_FORKS_COUNT");
    reveal_strlit("PUSH_REPOSITORY_WATCHERS_COUNT");
    reveal_strlit("PUSH_REPOSITORY_OPEN_ISSUES_COUNT");
    reveal_strlit("PUSH_REPOSITORY_DEFAULT_BRANCH");
    reveal_strlit("PUSH_REPOSITORY_CREATED_AT");
    reveal_strlit("PUSH_REPOSITORY_UPDATED_AT");
    lemma_last_value_concat(push_event_env_part1(push) + push_event_env_part2(push) + push_event_env_part3(push), push_event_env_part4(push), "PUSH_REF_PATH"@);
    lemma_last_value_concat(seq![("PUSH_REPOSITORY_CREATED_AT"@, push.repository.created_at@)], seq![("PUSH_REPOSITORY_UPDATED_AT"@, push.repository.updated_at@)], "PUSH_REF_PATH"@);
    lemma_last_value_single("PUSH_REPOSITORY_CREATED_AT"@, push.repository.created_at@, "PUSH_REF_PATH"@);
    assert("PUSH_REPOSITORY_CREATED_AT"@.len() != "PUSH_REF_PATH"@.len());
    lemma_last_value_single("PUSH_REPOSITORY_UPDATED_AT"@, push.repository.updated_at@, "PUSH_REF_PATH"@);
    assert("PUSH_REPOSITORY_UPDATED_AT"@.len() != "PUSH_REF_PATH"@.len());
    lemma_last_value_concat(push_event_env_part1(push) + push_event_env_part2(push), push_event_env_part3(push), "PUSH_REF_PATH"@);
    lemma_last_value_concat(seq![("PUSH_REPOSITORY_DESCRIPTION"@, push.repository.description@)] + seq![("PUSH_REPOSITORY_PRIVATE"@, bool_text(push.repository.private))] + seq![("PUSH_REPOSITORY_FORK"@, bool_text(push.repository.fork))] + seq![("PUSH_REPOSITORY_HTML_URL"@, push.repository.html_url@)] + seq![("PUSH_REPOSITORY_SSH_URL"@, push.repository.ssh_url@)] + seq![("PUSH_REPOSITORY_CLONE_URL"@, push.repository.clone_url@)] + seq![("PUSH_REPOSITORY_WEBSITE"@, push.repository.website@)] + seq![("PUSH_REPOSITORY_STARS_COUNT"@, decimal(push.repository.stars_count as nat))] + seq![("PUSH_REPOSITORY_FORKS_COUNT"@, decimal(push.repository.forks_count as nat))] + seq![("PUSH_REPOSITORY_WATCHERS_COUNT"@, decimal(push.repository.watchers_count as nat))] + seq![("PUSH_REPOSITORY_OPEN_ISSUES_COUNT"@, decimal(push.repository.open_issues_count as nat))], seq![("PUSH_REPOSITORY_DEFAULT_BRANCH"@, push.repository.default_branch@)], "PUSH_REF_PATH"@);
    lemma_last_value_concat(seq![("PUSH_REPOSITORY_DESCRIPTION"@, push.repository.description@)] + seq![("PUSH_REPOSITORY_PRIVATE"@, bool_text(push.repository.private))] + seq![("PUSH_REPOSITORY_FORK"@, bool_text(push.repository.fork))] + seq![("PUSH_REPOSITORY_HTML_URL"@, push.repository.html_url@)] + seq![("PUSH_REPOSITORY_SSH_URL"@, push.repository.ssh_url@)] + seq![("PUSH_REPOSITORY_CLONE_URL"@, push.repository.clone_url@)] + seq![("PUSH_REPOSITORY_WEBSITE"@, push.repository.website@)] + seq![("PUSH_REPOSITORY_STARS_COUNT"@, decimal(push.repository.stars_count as nat))] + seq![("PUSH_REPOSITORY_FORKS_COUNT"@, decimal(push.repository.forks_count as nat))] + seq![("PUSH_REPOSITORY_WATCHERS_COUNT"@, decimal(push.repository.watchers_count as nat))], seq![("PUSH_REPOSITORY_OPEN_ISSUES_COUNT"@, decimal(push.repository.open_issues_count as nat))], "PUSH_REF_PATH"@);
    lemma_last_value_concat(seq![("PUSH_REPOSITORY_DESCRIPTION"@, push.repository.description@)] + seq![("PUSH_REPOSITORY_PRIVATE"@, bool_text(push.repository.private))] + seq![("PUSH_REPOSITORY_FORK"@, bool_text(push.repository.fork))] + seq![("PUSH_REPOSITORY_HTML_URL"@, push.repository.html_url@)] + seq![("PUSH_REPOSITORY_SSH_URL"@, push.repository.ssh_url@)] + seq![("PUSH_REPOSITORY_CLONE_URL"@, push.repository.clone_url@)] + seq![("PUSH_REPOSITORY_WEBSITE"@, push.repository.website@)] + seq![("PUSH_REPOSITORY_STARS_COUNT"@, decimal(push.repository.stars_count as nat))] + seq![("PUSH_REPOSITORY_FORKS_COUNT"@, decimal(push.repository.forks_count as nat))], seq![("PUSH_REPOSITORY_WATCHERS_COUNT"@, decimal(push.repository.watchers_count as nat))], "PUSH_REF_PATH"@);
    lemma_last_value_concat(seq![("PUSH_REPOSITORY_DESCRIPTION"@, push.repository.description@)] + seq![("PUSH_REPOSITORY_PRIVATE"@, bool_text(push.repository.private))] + seq![("PUSH_REPOSITORY_FORK"@, bool_text(push.repository.fork))] + seq![("PUSH_REPOSITORY_HTML_URL"@, push.repository.html_url@)] + seq![("PUSH_REPOSITORY_SSH_URL"@, push.repository.ssh_url@)] + seq![("PUSH_REPOSITORY_CLONE_URL"@, push.repository.clone_url@)] + seq![("PUSH_REPOSITORY_WEBSITE"@, push.repository.website@)] + seq![("PUSH_REPOSITORY_STARS_COUNT"@, decimal(push.repository.stars_count as nat))], seq![("PUSH_REPOSITORY_FORKS_COUNT"@, decimal(push.repository.forks_count as nat))], "PUSH_REF_PATH"@);
    lemma_last_value_concat(seq![("PUSH_REPOSITORY_DESCRIPTION"@, push.repository.description@)] + seq![("PUSH_REPOSITORY_PRIVATE"@, bool_text(push.repository.private))] + seq![("PUSH_REPOSITORY_FORK"@, bool_text(push.repository.fork))] + seq![("PUSH_REPOSITORY_HTML_URL"@, push.repository.html_url@)] + seq![("PUSH_REPOSITORY_SSH_URL"@, push.repository.ssh_url@)] + seq![("PUSH_REPOSITORY_CLONE_URL"@, push.repository.clone_url@)] + seq![("PUSH_REPOSITORY_WEBSITE"@, push.repository.website@)], seq![("PUSH_REPOSITORY_STARS_COUNT"@, decimal(push.repository.stars_count as nat))], "PUSH_REF_PATH"@);
    lemma_last_value_concat(seq![("PUSH_REPOSITORY_DESCRIPTION"@, push.repository.description@)] + seq![("PUSH_REPOSITORY_PRIVATE"@, bool_text(push.repository.private))] + seq![("PUSH_REPOSITORY_FORK"@, bool_text(push.repository.fork))] + seq![("PUSH_REPOSITORY_HTML_URL"@, push.repository.html_url@)] + seq![("PUSH_REPOSITORY_SSH_URL"@, push.repository.ssh_url@)] + seq![("PUSH_REPOSITORY_CLONE_URL"@, push.repository.clone_url@)], seq![("PUSH_REPOSITORY_WEBSITE"@, push.repository.website@)], "PUSH_REF_PATH"@);
    lemma_last_value_concat(seq![("PUSH_REPOSITORY_DESCRIPTION"@, push.repository.description@)] + seq![("PUSH_REPOSITORY_PRIVATE"@, bool_text(push.repository.private))] + seq![("PUSH_REPOSITORY_FORK"@, bool_text(push.repository.fork))] + seq![("PUSH_REPOSITORY_HTML_URL"@, push.repository.html_url@)] + seq![("PUSH_REPOSITORY_SSH_URL"@, push.repository.ssh_url@)], seq![("PUSH_REPOSITORY_CLONE_URL"@, push.repository.clone_url@)], "PUSH_REF_PATH"@);
    lemma_last_value_concat(seq![("PUSH_REPOSITORY_DESCRIPTION"@, push.repository.description@)] + seq![("PUSH_REPOSITORY_PRIVATE"@, bool_text(push.repository.private))] + seq![("PUSH_REPOSITORY_FORK"@, bool_text(push.repository.fork))] + seq![("PUSH_REPOSITORY_HTML_URL"@, push.repository.html_url@)], seq![("PUSH_REPOSITORY_SSH_URL"@, push.repository.ssh_url@)], "PUSH_REF_PATH"@);
    lemma_last_value_concat(seq![("PUSH_REPOSITORY_DESCRIPTION"@, push.repository.description@)] + seq![("PUSH_REPOSITORY_PRIVATE"@, bool_text(push.repository.private))] + seq![("PUSH_REPOSITORY_FORK"@, bool_text(push.repository.fork))], seq![("PUSH_REPOSITORY_HTML_URL"@, push.repository.html_url@)], "PUSH_REF_PATH"@);
    lemma_last_value_concat(seq![("PUSH_REPOSITORY_DESCRIPTION"@, push.repository.description@)] + seq![("PUSH_REPOSITORY_PRIVATE"@, bool_text(push.repository.private))], seq![("PUSH_REPOSITORY_FORK"@, bool_text(push.repository.fork))], "PUSH_REF_PATH"@);
    lemma_last_value_concat(seq![("PUSH_REPOSITORY_DESCRIPTION"@, push.repository.description@)], seq![("PUSH_REPOSITORY_PRIVATE"@, bool_text(push.repository.private))], "PUSH_REF_PATH"@);
    lemma_last_value_single("PUSH_REPOSITORY_DESCRIPTION"@, push.repository.description@, "PUSH_REF_PATH"@);
    assert("PUSH_REPOSITORY_DESCRIPTION"@.len() != "PUSH_REF_PATH"@.len());
    lemma_last_value_single("PUSH_REPOSITORY_PRIVATE"@, bool_text(push.repository.private), "PUSH_REF_PATH"@);
    assert("PUSH_REPOSITORY_PRIVATE"@.len() != "PUSH_REF_PATH"@.len());
    lemma_last_value_single("PUSH_REPOSITORY_FORK"@, bool_text(push.repository.fork), "PUSH_REF_PATH"@);
    assert("PUSH_REPOSITORY_FORK"@.len() != "PUSH_REF_PATH"@.len());
    lemma_last_value_single("PUSH_REPOSITORY_HTML_URL"@, push.repository.html_url@, "PUSH_REF_PATH"@);
    assert("PUSH_REPOSITORY_HTML_URL"@.len() != "PUSH_REF_PATH"@.len());
    lemma_last_value_single("PUSH_REPOSITORY_SSH_URL"@, push.repository.ssh_url@, "PUSH_REF_PATH"@);
    assert("PUSH_REPOSITORY_SSH_URL"@.len() != "PUSH_REF_PATH"@.len());
    lemma_last_value_single("PUSH_REPOSITORY_CLONE_URL"@, push.repository.clone_url@, "PUSH_REF_PATH"@);
    assert("PUSH_REPOSITORY_CLONE_URL"@.len() != "PUSH_REF_PATH"@.len());
    lemma_last_value_single("PUSH_REPOSITORY_WEBSITE"@, push.repository.website@, "PUSH_REF_PATH"@);
    assert("PUSH_REPOSITORY_WEBSITE"@.len() != "PUSH_REF_PATH"@.len());
    lemma_last_value_single("PUSH_REPOSITORY_STARS_COUNT"@, decimal(push.repository.stars_count as nat), "PUSH_REF_PATH"@);
    assert("PUSH_REPOSITORY_STARS_COUNT"@.len() != "PUSH_REF_PATH"@.len());
    lemma_last_value_single("PUSH_REPOSITORY_FORKS_COUNT"@, decimal(push.repository.forks_count as nat), "PUSH_REF_PATH"@);
    assert("PUSH_REPOSITORY_FORKS_COUNT"@.len() != "PUSH_REF_PATH"@.len());
    lemma_last_value_single("PUSH_REPOSITORY_WATCHERS_COUNT"@, decimal(push.repository.watchers_count as nat), "PUSH_REF_PATH"@);
    assert("PUSH_REPOSITORY_WATCHERS_COUNT"@.len() != "PUSH_REF_PATH"@.len());
    lemma_last_value_single("PUSH_REPOSITORY_OPEN_ISSUES_COUNT"@, decimal(push.repository.open_issues_count as nat), "PUSH_REF_PATH"@);
    assert("PUSH_REPOSITORY_OPEN_ISSUES_COUNT"@.len() != "PUSH_REF_PATH"@.len());
    lemma_last_value_single("PUSH_REPOSITORY_DEFAULT_BRANCH"@, push.repository.default_branch@, "PUSH_REF_PATH"@);
    assert("PUSH_REPOSITORY_DEFAULT_BRANCH"@.len() != "PUSH_REF_PATH"@.len());
    lemma_last_value_concat(push_event_env_part1(push), push_event_env_part2(push), "PUSH_REF_PATH"@);
    lemma_last_value_concat(seq![("PUSH_SENDER_EMAIL"@, push.sender.email@)] + seq![("PUSH_SENDER_AVATAR_URL"@, push.sender.avatar_url@)] + seq![("PUSH_SENDER_USERNAME"@, push.sender.username@)] + seq![("PUSH_REPOSITORY_ID"@, decimal(push.repository.id as nat))] + seq![("PUSH_REPOSITORY_OWNER_ID"@, decimal(push.repository.owner.id as nat))] + seq![("PUSH_REPOSITORY_OWNER_LOGIN"@, push.repository.owner.login@)] + seq![("PUSH_REPOSITORY_OWNER_FULL_NAME"@, push.repository.owner.full_name@)] + seq![("PUSH_REPOSITORY_OWNER_EMAIL"@, push.repository.owner.email@)] + seq![("PUSH_REPOSITORY_OWNER_AVATAR_URL"@, push.repository.owner.avatar_url@)] + seq![("PUSH_REPOSITORY_OWNER_USERNAME"@, push.repository.owner.username@)] + seq![("PUSH_REPOSITORY_NAME"@, push.repository.name@)], seq![("PUSH_REPOSITORY_FULL_NAME"@, push.repository.full_name@)], "PUSH_REF_PATH"@);
    lemma_last_value_concat(seq![("PUSH_SENDER_EMAIL"@, push.sender.email@)] + seq![("PUSH_SENDER_AVATAR_URL"@, push.sender.avatar_url@)] + seq![("PUSH_SENDER_USERNAME"@, push.sender.username@)] + seq![("PUSH_REPOSITORY_ID"@, decimal(push.repository.id as nat))] + seq![("PUSH_REPOSITORY_OWNER_ID"@, decimal(push.repository.owner.id as nat))] + seq![("PUSH_REPOSITORY_OWNER_LOGIN"@, push.repository.owner.login@)] + seq![("PUSH_REPOSITORY_OWNER_FULL_NAME"@, push.repository.owner.full_name@)] + seq![("PUSH_REPOSITORY_OWNER_EMAIL"@, push.repository.owner.email@)] + seq![("PUSH_REPOSITORY_OWNER_AVATAR_URL"@, push.repository.owner.avatar_url@)] + seq![("PUSH_REPOSITORY_OWNER_USERNAME"@, push.repository.owner.username@)], seq![("PUSH_REPOSITORY_NAME"@, push.repository.name@)], "PUSH_REF_PATH"@);
    lemma_last_value_concat(seq![("PUSH_SENDER_EMAIL"@, push.sender.email@)] + seq![("PUSH_SENDER_AVATAR_URL"@, push.sender.avatar_url@)] + seq![("PUSH_SENDER_USERNAME"@, push.sender.username@)] + seq![("PUSH_REPOSITORY_ID"@, decimal(push.repository.id as nat))] + seq![("PUSH_REPOSITORY_OWNER_ID"@, decimal(push.repository.owner.id as nat))] + seq![("PUSH_REPOSITORY_OWNER_LOGIN"@, push.repository.owner.login@)] + seq![("PUSH_REPOSITORY_OWNER_FULL_NAME"@, push.repository.owner.full_name@)] + seq![("PUSH_REPOSITORY_OWNER_EMAIL"@, push.repository.owner.email@)] + seq![("PUSH_REPOSITORY_OWNER_AVATAR_URL"@, push.repository.owner.avatar_url@)], seq![("PUSH_REPOSITORY_OWNER_USERNAME"@, push.repository.owner.username@)], "PUSH_REF_PATH"@);
    lemma_last_value_concat(seq![("PUSH_SENDER_EMAIL"@, push.sender.email@)] + seq![("PUSH_SENDER_AVATAR_URL"@, push.sender.avatar_url@)] + seq![("PUSH_SENDER_USERNAME"@, push.sender.username@)] + seq![("PUSH_REPOSITORY_ID"@, decimal(push.repository.id as nat))] + seq![("PUSH_REPOSITORY_OWNER_ID"@, decimal(push.repository.owner.id as nat))] + seq![("PUSH_REPOSITORY_OWNER_LOGIN"@, push.repository.owner.login@)] + seq![("PUSH_REPOSITORY_OWNER_FULL_NAME"@, push.repository.owner.full_name@)] + seq![("PUSH_REPOSITORY_OWNER_EMAIL"@, push.repository.owner.email@)], seq![("PUSH_REPOSITORY_OWNER_AVATAR_URL"@, push.repository.owner.avatar_url@)], "PUSH_REF_PATH"@);
    lemma_last_value_concat(seq![("PUSH_SENDER_EMAIL"@, push.sender.email@)] + seq![("PUSH_SENDER_AVATAR_URL"@, push.sender.avatar_url@)] + seq![("PUSH_SENDER_USERNAME"@, push.sender.username@)] + seq![("PUSH_REPOSITORY_ID"@, decimal(push.repository.id as nat))] + seq![("PUSH_REPOSITORY_OWNER_ID"@, decimal(push.repository.owner.id as nat))] + seq![("PUSH_REPOSITORY_OWNER_LOGIN"@, push.repository.owner.login@)] + seq![("PUSH_REPOSITORY_OWNER_FULL_NAME"@, push.repository.owner.full_name@)], seq![("PUSH_REPOSITORY_OWNER_EMAIL"@, push.repository.owner.email@)], "PUSH_REF_PATH"@);
    lemma_last_value_concat(seq![("PUSH_SENDER_EMAIL"@, push.sender.email@)] + seq![("PUSH_SENDER_AVATAR_URL"@, push.sender.avatar_url@)] + seq![("PUSH_SENDER_USERNAME"@, push.sender.username@)] + seq![("PUSH_REPOSITORY_ID"@, decimal(push.repository.id as nat))] + seq![("PUSH_REPOSITORY_OWNER_ID"@, decimal(push.repository.owner.id as nat))] + seq![("PUSH_REPOSITORY_OWNER_LOGIN"@, push.repository.owner.login@)], seq![("PUSH_REPOSITORY_OWNER_FULL_NAME"@, push.repository.owner.full_name@)], "PUSH_REF_PATH"@);
    lemma_last_value_concat(seq![("PUSH_SENDER_EMAIL"@, push.sender.email@)] + seq![("PUSH_SENDER_AVATAR_URL"@, push.sender.avatar_url@)] + seq![("PUSH_SENDER_USERNAME"@, push.sender.username@)] + seq![("PUSH_REPOSITORY_ID"@, decimal(push.repository.id as nat))] + seq![("PUSH_REPOSITORY_OWNER_ID"@, decimal(push.repository.owner.id as nat))], seq![("PUSH_REPOSITORY_OWNER_LOGIN"@, push.repository.owner.login@)], "PUSH_REF_PATH"@);
    lemma_last_value_concat(seq![("PUSH_SENDER_EMAIL"@, push.sender.email@)] + seq![("PUSH_SENDER_AVATAR_URL"@, push.sender.avatar_url@)] + seq![("PUSH_SENDER_USERNAME"@, push.sender.username@)] + seq![("PUSH_REPOSITORY_ID"@, decimal(push.repository.id as nat))], seq![("PUSH_REPOSITORY_OWNER_ID"@, decimal(push.repository.owner.id as nat))], "PUSH_REF_PATH"@);
    lemma_last_value_concat(seq![("PUSH_SENDER_EMAIL"@, push.sender.email@)] + seq![("PUSH_SENDER_AVATAR_URL"@, push.sender.avatar_url@)] + seq![("PUSH_SENDER_USERNAME"@, push.sender.username@)], seq![("PUSH_REPOSITORY_ID"@, decimal(push.repository.id as nat))], "PUSH_REF_PATH"@);
    lemma_last_value_concat(seq![("PUSH_SENDER_EMAIL"@, push.sender.email@)] + seq![("PUSH_SENDER_AVATAR_URL"@, push.sender.avatar_url@)], seq![("PUSH_SENDER_USERNAME"@, push.sender.username@)], "PUSH_REF_PATH"@);
    lemma_last_value_concat(seq![("PUSH_SENDER_EMAIL"@, push.sender.email@)], seq![("PUSH_SENDER_AVATAR_URL"@, push.sender.avatar_url@)], "PUSH_REF_PATH"@);
    lemma_last_value_single("PUSH_SENDER_EMAIL"@, push.sender.email@, "PUSH_REF_PATH"@);
    assert("PUSH_SENDER_EMAIL"@.len() != "PUSH_REF_PATH"@.len());
    lemma_last_value_single("PUSH_SENDER_AVATAR_URL"@, push.sender.avatar_url@, "PUSH_REF_PATH"@);
    assert("PUSH_SENDER_AVATAR_URL"@.len() != "PUSH_REF_PATH"@.len());
    lemma_last_value_single("PUSH_SENDER_USERNAME"@, push.sender.username@, "PUSH_REF_PATH"@);
    assert("PUSH_SENDER_USERNAME"@.len() != "PUSH_REF_PATH"@.len());
    lemma_last_value_single("PUSH_REPOSITORY_ID"@, decimal(push.repository.id as nat), "PUSH_REF_PATH"@);
    assert("PUSH_REPOSITORY_ID"@.len() != "PUSH_REF_PATH"@.len());
    lemma_last_value_single("PUSH_REPOSITORY_OWNER_ID"@, decimal(push.repository.owner.id as nat), "PUSH_REF_PATH"@);
    assert("PUSH_REPOSITORY_OWNER_ID"@.len() != "PUSH_REF_PATH"@.len());
    lemma_last_value_single("PUSH_REPOSITORY_OWNER_LOGIN"@, push.repository.owner.login@, "PUSH_REF_PATH"@);
    assert("PUSH_REPOSITORY_OWNER_LOGIN"@.len() != "PUSH_REF_PATH"@.len());
    lemma_last_value_single("PUSH_REPOSITORY_OWNER_FULL_NAME"@, push.repository.owner.full_name@, "PUSH_REF_PATH"@);
    assert("PUSH_REPOSITORY_OWNER_FULL_NAME"@.len() != "PUSH_REF_PATH"@.len());
    lemma_last_value_single("PUSH_REPOSITORY_OWNER_EMAIL"@, push.repository.owner.email@, "PUSH_REF_PATH"@);
    assert("PUSH_REPOSITORY_OWNER_EMAIL"@.len() != "PUSH_REF_PATH"@.len());
    lemma_last_value_single("PUSH_REPOSITORY_OWNER_AVATAR_URL"@, push.repository.owner.avatar_url@, "PUSH_REF_PATH"@);
    assert("PUSH_REPOSITORY_OWNER_AVATAR_URL"@.len() != "PUSH_REF_PATH"@.len());
    lemma_last_value_single("PUSH_REPOSITORY_OWNER_USERNAME"@, push.repository.owner.username@, "PUSH_REF_PATH"@);
    assert("PUSH_REPOSITORY_OWNER_USERNAME"@.len() != "PUSH_REF_PATH"@.len());
    lemma_last_value_single("PUSH_REPOSITORY_NAME"@, push.repository.name@, "PUSH_REF_PATH"@);
    assert("PUSH_REPOSITORY_NAME"@.len() != "PUSH_REF_PATH"@.len());
    lemma_last_value_single("PUSH_REPOSITORY_FULL_NAME"@, push.repository.full_name@, "PUSH_REF_PATH"@);
    assert("PUSH_REPOSITORY_FULL_NAME"@.len() != "PUSH_REF_PATH"@.len());
    lemma_last_value_concat(seq![("PUSH_REF_PATH"@, push.ref_path@)] + seq![("PUSH_BEFORE"@, push.before@)] + seq![("PUSH_AFTER"@, push.after@)] + seq![("PUSH_PUSHER_ID"@, decimal(push.pusher.id as nat))] + seq![("PUSH_PUSHER_LOGIN"@, push.pusher.login@)] + seq![("PUSH_PUSHER_FULL_NAME"@, push.pusher.full_name@)] + seq![("PUSH_PUSHER_EMAIL"@, push.pusher.email@)] + seq![("PUSH_PUSHER_AVATAR_URL"@, push.pusher.avatar_url@)] + seq![("PUSH_PUSHER_USERNAME"@, push.pusher.username@)] + seq![("PUSH_SENDER_ID"@, decimal(push.sender.id as nat))] + seq![("PUSH_SENDER_LOGIN"@, push.sender.login@)], seq![("PUSH_SENDER_FULL_NAME"@, push.sender.full_name@)], "PUSH_REF_PATH"@);
    lemma_last_value_single("PUSH_SENDER_FULL_NAME"@, push.sender.full_name@, "PUSH_REF_PATH"@);
    assert("PUSH_SENDER_FULL_NAME"@.len() != "PUSH_REF_PATH"@.len());
    lemma_last_value_concat(seq![("PUSH_REF_PATH"@, push.ref_path@)] + seq![("PUSH_BEFORE"@, push.before@)] + seq![("PUSH_AFTER"@, push.after@)] + seq![("PUSH_PUSHER_ID"@, decimal(push.pusher.id as nat))] + seq![("PUSH_PUSHER_LOGIN"@, push.pusher.login@)] + seq![("PUSH_PUSHER_FULL_NAME"@, push.pusher.full_name@)] + seq![("PUSH_PUSHER_EMAIL"@, push.pusher.email@)] + seq![("PUSH_PUSHER_AVATAR_URL"@, push.pusher.avatar_url@)] + seq![("PUSH_PUSHER_USERNAME"@, push.pusher.username@)] + seq![("PUSH_SENDER_ID"@, decimal(push.sender.id as nat))], seq![("PUSH_SENDER_LOGIN"@, push.sender.login@)], "PUSH_REF_PATH"@);
    lemma_last_value_single("PUSH_SENDER_LOGIN"@, push.sender.login@, "PUSH_REF_PATH"@);
    assert("PUSH_SENDER_LOGIN"@.len() != "PUSH_REF_PATH"@.len());
    lemma_last_value_concat(seq![("PUSH_REF_PATH"@, push.ref_path@)] + seq![("PUSH_BEFORE"@, push.before@)] + seq![("PUSH_AFTER"@, push.after@)] + seq![("PUSH_PUSHER_ID"@, decimal(push.pusher.id as nat))] + seq![("PUSH_PUSHER_LOGIN"@, push.pusher.login@)] + seq![("PUSH_PUSHER_FULL_NAME"@, push.pusher.full_name@)] + seq![("PUSH_PUSHER_EMAIL"@, push.pusher.email@)] + seq![("PUSH_PUSHER_AVATAR_URL"@, push.pusher.avatar_url@)] + seq![("PUSH_PUSHER_USERNAME"@, push.pusher.username@)], seq![("PUSH_SENDER_ID"@, decimal(push.sender.id as nat))], "PUSH_REF_PATH"@);
    lemma_last_value_single("PUSH_SENDER_ID"@, decimal(push.sender.id as nat), "PUSH_REF_PATH"@);
    assert("PUSH_SENDER_ID"@.len() != "PUSH_REF_PATH"@.len());
    lemma_last_value_concat(seq![("PUSH_REF_PATH"@, push.ref_path@)] + seq![("PUSH_BEFORE"@, push.before@)] + seq![("PUSH_AFTER"@, push.after@)] + seq![("PUSH_PUSHER_ID"@, decimal(push.pusher.id as nat))] + seq![("PUSH_PUSHER_LOGIN"@, push.pusher.login@)] + seq![("PUSH_PUSHER_FULL_NAME"@, push.pusher.full_name@)] + seq![("PUSH_PUSHER_EMAIL"@, push.pusher.email@)] + seq![("PUSH_PUSHER_AVATAR_URL"@, push.pusher.avatar_url@)], seq![("PUSH_PUSHER_USERNAME"@, push.pusher.username@)], "PUSH_REF_PATH"@);
    lemma_last_value_single("PUSH_PUSHER_USERNAME"@, push.pusher.username@, "PUSH_REF_PATH"@);
    assert("PUSH_PUSHER_USERNAME"@.len() != "PUSH_REF_PATH"@.len());
    lemma_last_value_concat(seq![("PUSH_REF_PATH"@, push.ref_path@)] + seq![("PUSH_BEFORE"@, push.before@)] + seq![("PUSH_AFTER"@, push.after@)] + seq![("PUSH_PUSHER_ID"@, decimal(push.pusher.id as nat))] + seq![("PUSH_PUSHER_LOGIN"@, push.pusher.login@)] + seq![("PUSH_PUSHER_FULL_NAME"@, push.pusher.full_name@)] + seq![("PUSH_PUSHER_EMAIL"@, push.pusher.email@)], seq![("PUSH_PUSHER_AVATAR_URL"@, push.pusher.avatar_url@)], "PUSH_REF_PATH"@);
    lemma_last_value_single("PUSH_PUSHER_AVATAR_URL"@, push.pusher.avatar_url@, "PUSH_REF_PATH"@);
    assert("PUSH_PUSHER_AVATAR_URL"@.len() != "PUSH_REF_PATH"@.len());
    lemma_last_value_concat(seq![("PUSH_REF_PATH"@, push.ref_path@)] + seq![("PUSH_BEFORE"@, push.before@)] + seq![("PUSH_AFTER"@, push.after@)] + seq![("PUSH_PUSHER_ID"@, decimal(push.pusher.id as nat))] + seq![("PUSH_PUSHER_LOGIN"@, push.pusher.login@)] + seq![("PUSH_PUSHER_FULL_NAME"@, push.pusher.full_name@)], seq![("PUSH_PUSHER_EMAIL"@, push.pusher.email@)], "PUSH_REF_PATH"@);
    lemma_last_value_single("PUSH_PUSHER_EMAIL"@, push.pusher.email@, "PUSH_REF_PATH"@);
    assert("PUSH_PUSHER_EMAIL"@.len() != "PUSH_REF_PATH"@.len());
    lemma_last_value_concat(seq![("PUSH_REF_PATH"@, push.ref_path@)] + seq![("PUSH_BEFORE"@, push.before@)] + seq![("PUSH_AFTER"@, push.after@)] + seq![("PUSH_PUSHER_ID"@, decimal(push.pusher.id as nat))] + seq![("PUSH_PUSHER_LOGIN"@, push.pusher.login@)], seq![("PUSH_PUSHER_FULL_NAME"@, push.pusher.full_name@)], "PUSH_REF_PATH"@);
    lemma_last_value_single("PUSH_PUSHER_FULL_NAME"@, push.pusher.full_name@, "PUSH_REF_PATH"@);
    assert("PUSH_PUSHER_FULL_NAME"@.len() != "PUSH_REF_PATH"@.len());
    lemma_last_value_concat(seq![("PUSH_REF_PATH"@, push.ref_path@)] + seq![("PUSH_BEFORE"@, push.before@)] + seq![("PUSH_AFTER"@, push.after@)] + seq![("PUSH_PUSHER_ID"@, decimal(push.pusher.id as nat))], seq![("PUSH_PUSHER_LOGIN"@, push.pusher.login@)], "PUSH_REF_PATH"@);
    lemma_last_value_single("PUSH_PUSHER_LOGIN"@, push.pusher.login@, "PUSH_REF_PATH"@);
    assert("PUSH_PUSHER_LOGIN"@.len() != "PUSH_REF_PATH"@.len());
    lemma_last_value_concat(seq![("PUSH_REF_PATH"@, push.ref_path@)] + seq![("PUSH_BEFORE"@, push.before@)] + seq![("PUSH_AFTER"@, push.after@)], seq![("PUSH_PUSHER_ID"@, decimal(push.pusher.id as nat))], "PUSH_REF_PATH"@);
    lemma_last_value_single("PUSH_PUSHER_ID"@, decimal(push.pusher.id as nat), "PUSH_REF_PATH"@);
    assert("PUSH_PUSHER_ID"@.len() != "PUSH_REF_PATH"@.len());
    lemma_last_value_concat(seq![("PUSH_REF_PATH"@, push.ref_path@)] + seq![("PUSH_BEFORE"@, push.before@)], seq![("PUSH_AFTER"@, push.after@)], "PUSH_REF_PATH"@);
    lemma_last_value_single("PUSH_AFTER"@, push.after@, "PUSH_REF_PATH"@);
    assert("PUSH_AFTER"@.len() != "PUSH_REF_PATH"@.len());
    lemma_last_value_concat(seq![("PUSH_REF_PATH"@, push.ref_path@)], seq![("PUSH_BEFORE"@, push.before@)], "PUSH_REF_PATH"@);
    lemma_last_value_single("PUSH_BEFORE"@, push.before@, "PUSH_REF_PATH"@);
    assert("PUSH_BEFORE"@.len() != "PUSH_REF_PATH"@.len());
    lemma_last_value_single("PUSH_REF_PATH"@, push.ref_path@, "PUSH_REF_PATH"@);
}

/// The command that answers a push leaves the push's before in PUSH_BEFORE.
pub proof fn lemma_push_event_before(push: PushEvent)
    ensures
        last_value(push_event_command(push).envs, "PUSH_BEFORE"@) == Some(push.before@),
{
    reveal_strlit("PUSH_REF_PATH");
    reveal_strlit("PUSH_BEFORE");
    reveal_strlit("PUSH_AFTER");
    reveal_strlit("PUSH_PUSHER_ID");
    reveal_strlit("PUSH_PUSHER_LOGIN");
    reveal_strlit("PUSH_PUSHER_FULL_NAME");
    reveal_strlit("PUSH_PUSHER_EMAIL");
    reveal_strlit("PUSH_PUSHER_AVATAR_URL");
    reveal_strlit("PUSH_PUSHER_USERNAME");
    reveal_strlit("PUSH_SENDER_ID");
    reveal_strlit("PUSH_SENDER_LOGIN");
    reveal_strlit("PUSH_SENDER_FULL_NAME");
    reveal_strlit("PUSH_SENDER_EMAIL");
    reveal_strlit("PUSH_SENDER_AVATAR_URL");
    reveal_strlit("PUSH_SENDER_USERNAME");
    reveal_strlit("PUSH_REPOSITORY_ID");
    reveal_strlit("PUSH_REPOSITORY_OWNER_ID");
    reveal_strlit("PUSH_REPOSITORY_OWNER_LOGIN");
    reveal_strlit("PUSH_REPOSITORY_OWNER_FULL_NAME");
    reveal_strlit("PUSH_REPOSITORY_OWNER_EMAIL");
    reveal_strlit("PUSH_REPOSITORY_OWNER_AVATAR_URL");
    reveal_strlit("PUSH_REPOSITORY_OWNER_USERNAME");
    reveal_strlit("PUSH_REPOSITORY_NAME");
    reveal_strlit("PUSH_REPOSITORY_FULL_NAME");
    reveal_strlit("PUSH_REPOSITORY_DESCRIPTION");
    reveal_strlit("PUSH_REPOSITORY_PRIVATE");
    reveal_strlit("PUSH_REPOSITORY_FORK");
    reveal_strlit("PUSH_REPOSITORY_HTML_URL");
    reveal_strlit("PUSH_REPOSITORY_SSH_URL");
    reveal_strlit("PUSH_REPOSITORY_CLONE_URL");
    reveal_strlit("PUSH_REPOSITORY_WEBSITE");
    reveal_strlit("PUSH_REPOSITORY_STARS_COUNT");
    reveal_strlit("PUSH_REPOSITORY_FORKS_COUNT");
    reveal_strlit("PUSH_REPOSITORY_WATCHERS_COUNT");
    reveal_strlit("PUSH_REPOSITORY_OPEN_ISSUES_COUNT");
    reveal_strlit("PUSH_REPOSITORY_DEFAULT_BRANCH");
    reveal_strlit("PUSH_REPOSITORY_CREATED_AT");
    reveal_strlit("PUSH_REPOSITORY_UPDATED_AT");
    lemma_last_value_concat(push_event_env_part1(push) + push_event_env_part2(push) + push_event_env_part3(push), push_event_env_part4(push), "PUSH_BEFORE"@);
    lemma_last_value_concat(seq![("PUSH_REPOSITORY_CREATED_AT"@, push.repository.created_at@)], seq![("PUSH_REPOSITORY_UPDATED_AT"@, push.repository.updated_at@)], "PUSH_BEFORE"@);
    lemma_last_value_single("PUSH_REPOSITORY_CREATED_AT"@, push.repository.created_at@, "PUSH_BEFORE"@);
    assert("PUSH_REPOSITORY_CREATED_AT"@.len() != "PUSH_BEFORE"@.len());
    lemma_last_value_single("PUSH_REPOSITORY_UPDATED_AT"@, push.repository.updated_at@, "PUSH_BEFORE"@);
    assert("PUSH_REPOSITORY_UPDATED_AT"@.len() != "PUSH_BEFORE"@.len());
    lemma_last_value_concat(push_event_env_part1(push) + push_event_env_part2(push), push_event_env_part3(push), "PUSH_BEFORE"@);
    lemma_last_value_concat(seq![("PUSH_REPOSITORY_DESCRIPTION"@, push.repository.description@)] + seq![("PUSH_REPOSITORY_PRIVATE"@, bool_text(push.repository.private))] + seq![("PUSH_REPOSITORY_FORK"@, bool_text(push.repository.fork))] + seq![("PUSH_REPOSITORY_HTML_URL"@, push.repository.html_url@)] + seq![("PUSH_REPOSITORY_SSH_URL"@, push.repository.ssh_url@)] + seq![("PUSH_REPOSITORY_CLONE_URL"@, push.repository.clone_url@)] + seq![("PUSH_REPOSITORY_WEBSITE"@, push.repository.website@)] + seq![("PUSH_REPOSITORY_STARS_COUNT"@, decimal(push.repository.stars_count as nat))] + seq![("PUSH_REPOSITORY_FORKS_COUNT"@, decimal(push.repository.forks_count as nat))] + seq![("PUSH_REPOSITORY_WATCHERS_COUNT"@, decimal(push.repository.watchers_count as nat))] + seq![("PUSH_REPOSITORY_OPEN_ISSUES_COUNT"@, decimal(push.repository.open_issues_count as nat))], seq![("PUSH_REPOSITORY_DEFAULT_BRANCH"@, push.repository.default_branch@)], "PUSH_BEFORE"@);
    lemma_last_value_concat(seq![("PUSH_REPOSITORY_DESCRIPTION"@, push.repository.description@)] + seq![("PUSH_REPOSITORY_PRIVATE"@, bool_text(push.repository.private))] + seq![("PUSH_REPOSITORY_FORK"@, bool_text(push.repository.fork))] + seq![("PUSH_REPOSITORY_HTML_URL"@, push.repository.html_url@)] + seq![("PUSH_REPOSITORY_SSH_URL"@, push.repository.ssh_url@)] + seq![("PUSH_REPOSITORY_CLONE_URL"@, push.repository.clone_url@)] + seq![("PUSH_REPOSITORY_WEBSITE"@, push.repository.website@)] + seq![("PUSH_REPOSITORY_STARS_COUNT"@, decimal(push.repository.stars_count as nat))] + seq![("PUSH_REPOSITORY_FORKS_COUNT"@, decimal(push.repository.forks_count as nat))] + seq![("PUSH_REPOSITORY_WATCHERS_COUNT"@, decimal(push.repository.watchers_count as nat))], seq![("PUSH_REPOSITORY_OPEN_ISSUES_COUNT"@, decimal(push.repository.open_issues_count as nat))], "PUSH_BEFORE"@);
    lemma_last_value_concat(seq![("PUSH_REPOSITORY_DESCRIPTION"@, push.repository.description@)] + seq![("PUSH_REPOSITORY_PRIVATE"@, bool_text(push.repository.private))] + seq![("PUSH_REPOSITORY_FORK"@, bool_text(push.repository.fork))] + seq![("PUSH_REPOSITORY_HTML_URL"@, push.repository.html_url@)] + seq![("PUSH_REPOSITORY_SSH_URL"@, push.repository.ssh_url@)] + seq![("PUSH_REPOSITORY_CLONE_URL"@, push.repository.clone_url@)] + seq![("PUSH_REPOSITORY_WEBSITE"@, push.repository.website@)] + seq![("PUSH_REPOSITORY_STARS_COUNT"@, decimal(push.repository.stars_count as nat))] + seq![("PUSH_REPOSITORY_FORKS_COUNT"@, decimal(push.repository.forks_count as nat))], seq![("PUSH_REPOSITORY_WATCHERS_COUNT"@, decimal(push.repository.watchers_count as nat))], "PUSH_BEFORE"@);
    lemma_last_value_concat(seq![("PUSH_REPOSITORY_DESCRIPTION"@, push.repository.description@)] + seq![("PUSH_REPOSITORY_PRIVATE"@, bool_text(push.repository.private))] + seq![("PUSH_REPOSITORY_FORK"@, bool_text(push.repository.fork))] + seq![("PUSH_REPOSITORY_HTML_URL"@, push.repository.html_url@)] + seq![("PUSH_REPOSITORY_SSH_URL"@, push.repository.ssh_url@)] + seq![("PUSH_REPOSITORY_CLONE_URL"@, push.repository.clone_url@)] + seq![("PUSH_REPOSITORY_WEBSITE"@, push.repository.website@)] + seq![("PUSH_REPOSITORY_STARS_COUNT"@, decimal(push.repository.stars_count as nat))], seq![("PUSH_REPOSITORY_FORKS_COUNT"@, decimal(push.repository.forks_count as nat))], "PUSH_BEFORE"@);
    lemma_last_value_concat(seq![("PUSH_REPOSITORY_DESCRIPTION"@, push.repository.description@)] + seq![("PUSH_REPOSITORY_PRIVATE"@, bool_text(push.repository.private))] + seq![("PUSH_REPOSITORY_FORK"@, bool_text(push.repository.fork))] + seq![("PUSH_REPOSITORY_HTML_URL"@, push.repository.html_url@)] + seq![("PUSH_REPOSITORY_SSH_URL"@, push.repository.ssh_url@)] + seq![("PUSH_REPOSITORY_CLONE_URL"@, push.repository.clone_url@)] + seq![("PUSH_REPOSITORY_WEBSITE"@, push.repository.website@)], seq![("PUSH_REPOSITORY_STARS_COUNT"@, decimal(push.repository.stars_count as nat))], "PUSH_BEFORE"@);
    lemma_last_value_concat(seq![("PUSH_REPOSITORY_DESCRIPTION"@, push.repository.description@)] + seq![("PUSH_REPOSITORY_PRIVATE"@, bool_text(push.repository.private))] + seq![("PUSH_REPOSITORY_FORK"@, bool_text(push.repository.fork))] + seq![("PUSH_REPOSITORY_HTML_URL"@, push.repository.html_url@)] + seq![("PUSH_REPOSITORY_SSH_URL"@, push.repository.ssh_url@)] + seq![("PUSH_REPOSITORY_CLONE_URL"@, push.repository.clone_url@)], seq![("PUSH_REPOSITORY_WEBSITE"@, push.repository.website@)], "PUSH_BEFORE"@);
    lemma_last_value_concat(seq![("PUSH_REPOSITORY_DESCRIPTION"@, push.repository.description@)] + seq![("PUSH_REPOSITORY_PRIVATE"@, bool_text(push.repository.private))] + seq![("PUSH_REPOSITORY_FORK"@, bool_text(push.repository.fork))] + seq![("PUSH_REPOSITORY_HTML_URL"@, push.repository.html_url@)] + seq![("PUSH_REPOSITORY_SSH_URL"@, push.repository.ssh_url@)], seq![("PUSH_REPOSITORY_CLONE_URL"@, push.repository.clone_url@)], "PUSH_BEFORE"@);
    lemma_last_value_concat(seq![("PUSH_REPOSITORY_DESCRIPTION"@, push.repository.description@)] + seq![("PUSH_REPOSITORY_PRIVATE"@, bool_text(push.repository.private))] + seq![("PUSH_REPOSITORY_FORK"@, bool_text(push.repository.fork))] + seq![("PUSH_REPOSITORY_HTML_URL"@, push.repository.html_url@)], seq![("PUSH_REPOSITORY_SSH_URL"@, push.repository.ssh_url@)], "PUSH_BEFORE"@);
    lemma_last_value_concat(seq![("PUSH_REPOSITORY_DESCRIPTION"@, push.repository.description@)] + seq![("PUSH_REPOSITORY_PRIVATE"@, bool_text(push.repository.private))] + seq![("PUSH_REPOSITORY_FORK"@, bool_text(push.repository.fork))], seq![("PUSH_REPOSITORY_HTML_URL"@, push.repository.html_url@)], "PUSH_BEFORE"@);
    lemma_last_value_concat(seq![("PUSH_REPOSITORY_DESCRIPTION"@, push.repository.description@)] + seq![("PUSH_REPOSITORY_PRIVATE"@, bool_text(push.repository.private))], seq![("PUSH_REPOSITORY_FORK"@, bool_text(push.repository.fork))], "PUSH_BEFORE"@);
    lemma_last_value_concat(seq![("PUSH_REPOSITORY_DESCRIPTION"@, push.repository.description@)], seq![("PUSH_REPOSITORY_PRIVATE"@, bool_text(push.repository.private))], "PUSH_BEFORE"@);
    lemma_last_value_single("PUSH_REPOSITORY_DESCRIPTION"@, push.repository.description@, "PUSH_BEFORE"@);
    assert("PUSH_REPOSITORY_DESCRIPTION"@.len() != "PUSH_BEFORE"@.len());
    lemma_last_value_single("PUSH_REPOSITORY_PRIVATE"@, bool_text(push.repository.private), "PUSH_BEFORE"@);
    assert("PUSH_REPOSITORY_PRIVATE"@.len() != "PUSH_BEFORE"@.len());
    lemma_last_value_single("PUSH_REPOSITORY_FORK"@, bool_text(push.repository.fork), "PUSH_BEFORE"@);
    assert("PUSH_REPOSITORY_FORK"@.len() != "PUSH_BEFORE"@.len());
    lemma_last_value_single("PUSH_REPOSITORY_HTML_URL"@, push.repository.html_url@, "PUSH_BEFORE"@);
    assert("PUSH_REPOSITORY_HTML_URL"@.len() != "PUSH_BEFORE"@.len());
    lemma_last_value_single("PUSH_REPOSITORY_SSH_URL"@, push.repository.ssh_url@, "PUSH_BEFORE"@);
    assert("PUSH_REPOSITORY_SSH_URL"@.len() != "PUSH_BEFORE"@.len());
    lemma_last_value_single("PUSH_REPOSITORY_CLONE_URL"@, push.repository.clone_url@, "PUSH_BEFORE"@);
    assert("PUSH_REPOSITORY_CLONE_URL"@.len() != "PUSH_BEFORE"@.len());
    lemma_last_value_single("PUSH_REPOSITORY_WEBSITE"@, push.repository.website@, "PUSH_BEFORE"@);
    assert("PUSH_REPOSITORY_WEBSITE"@.len() != "PUSH_BEFORE"@.len());
    lemma_last_value_single("PUSH_REPOSITORY_STARS_COUNT"@, decimal(push.repository.stars_count as nat), "PUSH_BEFORE"@);
    assert("PUSH_REPOSITORY_STARS_COUNT"@.len() != "PUSH_BEFORE"@.len());
    lemma_last_value_single("PUSH_REPOSITORY_FORKS_COUNT"@, decimal(push.repository.forks_count as nat), "PUSH_BEFORE"@);
    assert("PUSH_REPOSITORY_FORKS_COUNT"@.len() != "PUSH_BEFORE"@.len());
    lemma_last_value_single("PUSH_REPOSITORY_WATCHERS_COUNT"@, decimal(push.repository.watchers_count as nat), "PUSH_BEFORE"@);
    assert("PUSH_REPOSITORY_WATCHERS_COUNT"@.len() != "PUSH_BEFORE"@.len());
    lemma_last_value_single("PUSH_REPOSITORY_OPEN_ISSUES_COUNT"@, decimal(push.repository.open_issues_count as nat), "PUSH_BEFORE"@);
    assert("PUSH_REPOSITORY_OPEN_ISSUES_COUNT"@.len() != "PUSH_BEFORE"@.len());
    lemma_last_value_single("PUSH_REPOSITORY_DEFAULT_BRANCH"@, push.repository.default_branch@, "PUSH_BEFORE"@);
    assert("PUSH_REPOSITORY_DEFAULT_BRANCH"@.len() != "PUSH_BEFORE"@.len());
    lemma_last_value_concat(push_event_env_part1(push), push_event_env_part2(push), "PUSH_BEFORE"@);
    lemma_last_value_concat(seq![("PUSH_SENDER_EMAIL"@, push.sender.email@)] + seq![("PUSH_SENDER_AVATAR_URL"@, push.sender.avatar_url@)] + seq![("PUSH_SENDER_USERNAME"@, push.sender.username@)] + seq![("PUSH_REPOSITORY_ID"@, decimal(push.repository.id as nat))] + seq![("PUSH_REPOSITORY_OWNER_ID"@, decimal(push.repository.owner.id as nat))] + seq![("PUSH_REPOSITORY_OWNER_LOGIN"@, push.repository.owner.login@)] + seq![("PUSH_REPOSITORY_OWNER_FULL_NAME"@, push.repository.owner.full_name@)] + seq![("PUSH_REPOSITORY_OWNER_EMAIL"@, push.repository.owner.email@)] + seq![("PUSH_REPOSITORY_OWNER_AVATAR_URL"@, push.repository.owner.avatar_url@)] + seq![("PUSH_REPOSITORY_OWNER_USERNAME"@, push.repository.owner.username@)] + seq![("PUSH_REPOSITORY_NAME"@, push.repository.name@)], seq![("PUSH_REPOSITORY_FULL_NAME"@, push.repository.full_name@)], "PUSH_BEFORE"@);
    lemma_last_value_concat(seq![("PUSH_SENDER_EMAIL"@, push.sender.email@)] + seq![("PUSH_SENDER_AVATAR_URL"@, push.sender.avatar_url@)] + seq![("PUSH_SENDER_USERNAME"@, push.sender.username@)] + seq![("PUSH_REPOSITORY_ID"@, decimal(push.repository.id as nat))] + seq![("PUSH_REPOSITORY_OWNER_ID"@, decimal(push.repository.owner.id as nat))] + seq![("PUSH_REPOSITORY_OWNER_LOGIN"@, push.repository.owner.login@)] + seq![("PUSH_REPOSITORY_OWNER_FULL_NAME"@, push.repository.owner.full_name@)] + seq![("PUSH_REPOSITORY_OWNER_EMAIL"@, push.repository.owner.email@)] + seq![("PUSH_REPOSITORY_OWNER_AVATAR_URL"@, push.repository.owner.avatar_url@)] + seq![("PUSH_REPOSITORY_OWNER_USERNAME"@, push.repository.owner.username@)], seq![("PUSH_REPOSITORY_NAME"@, push.repository.name@)], "PUSH_BEFORE"@);
    lemma_last_value_concat(seq![("PUSH_SENDER_EMAIL"@, push.sender.email@)] + seq![("PUSH_SENDER_AVATAR_URL"@, push.sender.avatar_url@)] + seq![("PUSH_SENDER_USERNAME"@, push.sender.username@)] + seq![("PUSH_REPOSITORY_ID"@, decimal(push.repository.id as nat))] + seq![("PUSH_REPOSITORY_OWNER_ID"@, decimal(push.repository.owner.id as nat))] + seq![("PUSH_REPOSITORY_OWNER_LOGIN"@, push.repository.owner.login@)] + seq![("PUSH_REPOSITORY_OWNER_FULL_NAME"@, push.repository.owner.full_name@)] + seq![("PUSH_REPOSITORY_OWNER_EMAIL"@, push.repository.owner.email@)] + seq![("PUSH_REPOSITORY_OWNER_AVATAR_URL"@, push.repository.owner.avatar_url@)], seq![("PUSH_REPOSITORY_OWNER_USERNAME"@, push.repository.owner.username@)], "PUSH_BEFORE"@);
    lemma_last_value_concat(seq![("PUSH_SENDER_EMAIL"@, push.sender.email@)] + seq![("PUSH_SENDER_AVATAR_URL"@, push.sender.avatar_url@)] + seq![("PUSH_SENDER_USERNAME"@, push.sender.username@)] + seq![("PUSH_REPOSITORY_ID"@, decimal(push.repository.id as nat))] + seq![("PUSH_REPOSITORY_OWNER_ID"@, decimal(push.repository.owner.id as nat))] + seq![("PUSH_REPOSITORY_OWNER_LOGIN"@, push.repository.owner.login@)] + seq![("PUSH_REPOSITORY_OWNER_FULL_NAME"@, push.repository.owner.full_name@)] + seq![("PUSH_REPOSITORY_OWNER_EMAIL"@, push.repository.owner.email@)], seq![("PUSH_REPOSITORY_OWNER_AVATAR_URL"@, push.repository.owner.avatar_url@)], "PUSH_BEFORE"@);
    lemma_last_value_concat(seq![("PUSH_SENDER_EMAIL"@, push.sender.email@)] + seq![("PUSH_SENDER_AVATAR_URL"@, push.sender.avatar_url@)] + seq![("PUSH_SENDER_USERNAME"@, push.sender.username@)] + seq![("PUSH_REPOSITORY_ID"@, decimal(push.repository.id as nat))] + seq![("PUSH_REPOSITORY_OWNER_ID"@, decimal(push.repository.owner.id as nat))] + seq![("PUSH_REPOSITORY_OWNER_LOGIN"@, push.repository.owner.login@)] + seq![("PUSH_REPOSITORY_OWNER_FULL_NAME"@, push.repository.owner.full_name@)], seq![("PUSH_REPOSITORY_OWNER_EMAIL"@, push.repository.owner.email@)], "PUSH_BEFORE"@);
    lemma_last_value_concat(seq![("PUSH_SENDER_EMAIL"@, push.sender.email@)] + seq![("PUSH_SENDER_AVATAR_URL"@, push.sender.avatar_url@)] + seq![("PUSH_SENDER_USERNAME"@, push.sender.username@)] + seq![("PUSH_REPOSITORY_ID"@, decimal(push.repository.id as nat))] + seq![("PUSH_REPOSITORY_OWNER_ID"@, decimal(push.repository.owner.id as nat))] + seq![("PUSH_REPOSITORY_OWNER_LOGIN"@, push.repository.owner.login@)], seq![("PUSH_REPOSITORY_OWNER_FULL_NAME"@, push.repository.owner.full_name@)], "PUSH_BEFORE"@);
    lemma_last_value_concat(seq![("PUSH_SENDER_EMAIL"@, push.sender.email@)] + seq![("PUSH_SENDER_AVATAR_URL"@, push.sender.avatar_url@)] + seq![("PUSH_SENDER_USERNAME"@, push.sender.username@)] + seq![("PUSH_REPOSITORY_ID"@, decimal(push.repository.id as nat))] + seq![("PUSH_REPOSITORY_OWNER_ID"@, decimal(push.repository.owner.id as nat))], seq![("PUSH_REPOSITORY_OWNER_LOGIN"@, push.repository.owner.login@)], "PUSH_BEFORE"@);
    lemma_last_value_concat(seq![("PUSH_SENDER_EMAIL"@, push.sender.email@)] + seq![("PUSH_SENDER_AVATAR_URL"@, push.sender.avatar_url@)] + seq![("PUSH_SENDER_USERNAME"@, push.sender.username@)] + seq![("PUSH_REPOSITORY_ID"@, decimal(push.repository.id as nat))], seq![("PUSH_REPOSITORY_OWNER_ID"@, decimal(push.repository.owner.id as nat))], "PUSH_BEFORE"@);
    lemma_last_value_concat(seq![("PUSH_SENDER_EMAIL"@, push.sender.email@)] + seq![("PUSH_SENDER_AVATAR_URL"@, push.sender.avatar_url@)] + seq![("PUSH_SENDER_USERNAME"@, push.sender.username@)], seq![("PUSH_REPOSITORY_ID"@, decimal(push.repository.id as nat))], "PUSH_BEFORE"@);
    lemma_last_value_concat(seq![("PUSH_SENDER_EMAIL"@, push.sender.email@)] + seq![("PUSH_SENDER_AVATAR_URL"@, push.sender.avatar_url@)], seq![("PUSH_SENDER_USERNAME"@, push.sender.username@)], "PUSH_BEFORE"@);
    lemma_last_value_concat(seq![("PUSH_SENDER_EMAIL"@, push.sender.email@)], seq![("PUSH_SENDER_AVATAR_URL"@, push.sender.avatar_url@)], "PUSH_BEFORE"@);
    lemma_last_value_single("PUSH_SENDER_EMAIL"@, push.sender.email@, "PUSH_BEFORE"@);
    assert("PUSH_SENDER_EMAIL"@.len() != "PUSH_BEFORE"@.len());
    lemma_last_value_single("PUSH_SENDER_AVATAR_URL"@, push.sender.avatar_url@, "PUSH_BEFORE"@);
    assert("PUSH_SENDER_AVATAR_URL"@.len() != "PUSH_BEFORE"@.len());
    lemma_last_value_single("PUSH_SENDER_USERNAME"@, push.sender.username@, "PUSH_BEFORE"@);
    assert("PUSH_SENDER_USERNAME"@.len() != "PUSH_BEFORE"@.len());
    lemma_last_value_single("PUSH_REPOSITORY_ID"@, decimal(push.repository.id as nat), "PUSH_BEFORE"@);
    assert("PUSH_REPOSITORY_ID"@.len() != "PUSH_BEFORE"@.len());
    lemma_last_value_single("PUSH_REPOSITORY_OWNER_ID"@, decimal(push.repository.owner.id as nat), "PUSH_BEFORE"@);
    assert("PUSH_REPOSITORY_OWNER_ID"@.len() != "PUSH_BEFORE"@.len());
    lemma_last_value_single("PUSH_REPOSITORY_OWNER_LOGIN"@, push.repository.owner.login@, "PUSH_BEFORE"@);
    assert("PUSH_REPOSITORY_OWNER_LOGIN"@.len() != "PUSH_BEFORE"@.len());
    lemma_last_value_single("PUSH_REPOSITORY_OWNER_FULL_NAME"@, push.repository.owner.full_name@, "PUSH_BEFORE"@);
    assert("PUSH_REPOSITORY_OWNER_FULL_NAME"@.len() != "PUSH_BEFORE"@.len());
    lemma_last_value_single("PUSH_REPOSITORY_OWNER_EMAIL"@, push.repository.owner.email@, "PUSH_BEFORE"@);
    assert("PUSH_REPOSITORY_OWNER_EMAIL"@.len() != "PUSH_BEFORE"@.len());
    lemma_last_value_single("PUSH_REPOSITORY_OWNER_AVATAR_URL"@, push.repository.owner.avatar_url@, "PUSH_BEFORE"@);
    assert("PUSH_REPOSITORY_OWNER_AVATAR_URL"@.len() != "PUSH_BEFORE"@.len());
    lemma_last_value_single("PUSH_REPOSITORY_OWNER_USERNAME"@, push.repository.owner.username@, "PUSH_BEFORE"@);
    assert("PUSH_REPOSITORY_OWNER_USERNAME"@.len() != "PUSH_BEFORE"@.len());
    lemma_last_value_single("PUSH_REPOSITORY_NAME"@, push.repository.name@, "PUSH_BEFORE"@);
    assert("PUSH_REPOSITORY_NAME"@.len() != "PUSH_BEFORE"@.len());
    lemma_last_value_single("PUSH_REPOSITORY_FULL_NAME"@, push.repository.full_name@, "PUSH_BEFORE"@);
    assert("PUSH_REPOSITORY_FULL_NAME"@.len() != "PUSH_BEFORE"@.len());
    lemma_last_value_concat(seq![("PUSH_REF_PATH"@, push.ref_path@)] + seq![("PUSH_BEFORE"@, push.before@)] + seq![("PUSH_AFTER"@, push.after@)] + seq![("PUSH_PUSHER_ID"@, decimal(push.pusher.id as nat))] + seq![("PUSH_PUSHER_LOGIN"@, push.pusher.login@)] + seq![("PUSH_PUSHER_FULL_NAME"@, push.pusher.full_name@)] + seq![("PUSH_PUSHER_EMAIL"@, push.pusher.email@)] + seq![("PUSH_PUSHER_AVATAR_URL"@, push.pusher.avatar_url@)] + seq![("PUSH_PUSHER_USERNAME"@, push.pusher.username@)] + seq![("PUSH_SENDER_ID"@, decimal(push.sender.id as nat))] + seq![("PUSH_SENDER_LOGIN"@, push.sender.login@)], seq![("PUSH_SENDER_FULL_NAME"@, push.sender.full_name@)], "PUSH_BEFORE"@);
    lemma_last_value_single("PUSH_SENDER_FULL_NAME"@, push.sender.full_name@, "PUSH_BEFORE"@);
    assert("PUSH_SENDER_FULL_NAME"@.len() != "PUSH_BEFORE"@.len());
    lemma_last_value_concat(seq![("PUSH_REF_PATH"@, push.ref_path@)] + seq![("PUSH_BEFORE"@, push.before@)] + seq![("PUSH_AFTER"@, push.after@)] + seq![("PUSH_PUSHER_ID"@, decimal(push.pusher.id as nat))] + seq![("PUSH_PUSHER_LOGIN"@, push.pusher.login@)] + seq![("PUSH_PUSHER_FULL_NAME"@, push.pusher.full_name@)] + seq![("PUSH_PUSHER_EMAIL"@, push.pusher.email@)] + seq![("PUSH_PUSHER_AVATAR_URL"@, push.pusher.avatar_url@)] + seq![("PUSH_PUSHER_USERNAME"@, push.pusher.username@)] + seq![("PUSH_SENDER_ID"@, decimal(push.sender.id as nat))], seq![("PUSH_SENDER_LOGIN"@, push.sender.login@)], "PUSH_BEFORE"@);
    lemma_last_value_single("PUSH_SENDER_LOGIN"@, push.sender.login@, "PUSH_BEFORE"@);
    assert("PUSH_SENDER_LOGIN"@.len() != "PUSH_BEFORE"@.len());
    lemma_last_value_concat(seq![("PUSH_REF_PATH"@, push.ref_path@)] + seq![("PUSH_BEFORE"@, push.before@)] + seq![("PUSH_AFTER"@, push.after@)] + seq![("PUSH_PUSHER_ID"@, decimal(push.pusher.id as nat))] + seq![("PUSH_PUSHER_LOGIN"@, push.pusher.login@)] + seq![("PUSH_PUSHER_FULL_NAME"@, push.pusher.full_name@)] + seq![("PUSH_PUSHER_EMAIL"@, push.pusher.email@)] + seq![("PUSH_PUSHER_AVATAR_URL"@, push.pusher.avatar_url@)] + seq![("PUSH_PUSHER_USERNAME"@, push.pusher.username@)], seq![("PUSH_SENDER_ID"@, decimal(push.sender.id as nat))], "PUSH_BEFORE"@);
    lemma_last_value_single("PUSH_SENDER_ID"@, decimal(push.sender.id as nat), "PUSH_BEFORE"@);
    assert("PUSH_SENDER_ID"@.len() != "PUSH_BEFORE"@.len());
    lemma_last_value_concat(seq![("PUSH_REF_PATH"@, push.ref_path@)] + seq![("PUSH_BEFORE"@, push.before@)] + seq![("PUSH_AFTER"@, push.after@)] + seq![("PUSH_PUSHER_ID"@, decimal(push.pusher.id as nat))] + seq![("PUSH_PUSHER_LOGIN"@, push.pusher.login@)] + seq![("PUSH_PUSHER_FULL_NAME"@, push.pusher.full_name@)] + seq![("PUSH_PUSHER_EMAIL"@, push.pusher.email@)] + seq![("PUSH_PUSHER_AVATAR_URL"@, push.pusher.avatar_url@)], seq![("PUSH_PUSHER_USERNAME"@, push.pusher.username@)], "PUSH_BEFORE"@);
    lemma_last_value_single("PUSH_PUSHER_USERNAME"@, push.pusher.username@, "PUSH_BEFORE"@);
    assert("PUSH_PUSHER_USERNAME"@.len() != "PUSH_BEFORE"@.len());
    lemma_last_value_concat(seq![("PUSH_REF_PATH"@, push.ref_path@)] + seq![("PUSH_BEFORE"@, push.before@)] + seq![("PUSH_AFTER"@, push.after@)] + seq![("PUSH_PUSHER_ID"@, decimal(push.pusher.id as nat))] + seq![("PUSH_PUSHER_LOGIN"@, push.pusher.login@)] + seq![("PUSH_PUSHER_FULL_NAME"@, push.pusher.full_name@)] + seq![("PUSH_PUSHER_EMAIL"@, push.pusher.email@)], seq![("PUSH_PUSHER_AVATAR_URL"@, push.pusher.avatar_url@)], "PUSH_BEFORE"@);
    lemma_last_value_single("PUSH_PUSHER_AVATAR_URL"@, push.pusher.avatar_url@, "PUSH_BEFORE"@);
    assert("PUSH_PUSHER_AVATAR_URL"@.len() != "PUSH_BEFORE"@.len());
    lemma_last_value_concat(seq![("PUSH_REF_PATH"@, push.ref_path@)] + seq![("PUSH_BEFORE"@, push.before@)] + seq![("PUSH_AFTER"@, push.after@)] + seq![("PUSH_PUSHER_ID"@, decimal(push.pusher.id as nat))] + seq![("PUSH_PUSHER_LOGIN"@, push.pusher.login@)] + seq![("PUSH_PUSHER_FULL_NAME"@, push.pusher.full_name@)], seq![("PUSH_PUSHER_EMAIL"@, push.pusher.email@)], "PUSH_BEFORE"@);
    lemma_last_value_single("PUSH_PUSHER_EMAIL"@, push.pusher.email@, "PUSH_BEFORE"@);
    assert("PUSH_PUSHER_EMAIL"@.len() != "PUSH_BEFORE"@.len());
    lemma_last_value_concat(seq![("PUSH_REF_PATH"@, push.ref_path@)] + seq![("PUSH_BEFORE"@, push.before@)] + seq![("PUSH_AFTER"@, push.after@)] + seq![("PUSH_PUSHER_ID"@, decimal(push.pusher.id as nat))] + seq![("PUSH_PUSHER_LOGIN"@, push.pusher.login@)], seq![("PUSH_PUSHER_FULL_NAME"@, push.pusher.full_name@)], "PUSH_BEFORE"@);
    lemma_last_value_single("PUSH_PUSHER_FULL_NAME"@, push.pusher.full_name@, "PUSH_BEFORE"@);
    assert("PUSH_PUSHER_FULL_NAME"@.len() != "PUSH_BEFORE"@.len());
    lemma_last_value_concat(seq![("PUSH_REF_PATH"@, push.ref_path@)] + seq![("PUSH_BEFORE"@, push.before@)] + seq![("PUSH_AFTER"@, push.after@)] + seq![("PUSH_PUSHER_ID"@, decimal(push.pusher.id as nat))], seq![("PUSH_PUSHER_LOGIN"@, push.pusher.login@)], "PUSH_BEFORE"@);
    lemma_last_value_single("PUSH_PUSHER_LOGIN"@, push.pusher.login@, "PUSH_BEFORE"@);
    assert("PUSH_PUSHER_LOGIN"@.len() != "PUSH_BEFORE"@.len());
    lemma_last_value_concat(seq![("PUSH_REF_PATH"@, push.ref_path@)] + seq![("PUSH_BEFORE"@, push.before@)] + seq![("PUSH_AFTER"@, push.after@)], seq![("PUSH_PUSHER_ID"@, decimal(push.pusher.id as nat))], "PUSH_BEFORE"@);
    lemma_last_value_single("PUSH_PUSHER_ID"@, decimal(push.pusher.id as nat), "PUSH_BEFORE"@);
    assert("PUSH_PUSHER_ID"@.len() != "PUSH_BEFORE"@.len());
    lemma_last_value_concat(seq![("PUSH_REF_PATH"@, push.ref_path@)] + seq![("PUSH_BEFORE"@, push.before@)], seq![("PUSH_AFTER"@, push.after@)], "PUSH_BEFORE"@);
    lemma_last_value_single("PUSH_AFTER"@, push.after@, "PUSH_BEFORE"@);
    assert("PUSH_AFTER"@.len() != "PUSH_BEFORE"@.len());
    lemma_last_value_concat(seq![("PUSH_REF_PATH"@, push.ref_path@)], seq![("PUSH_BEFORE"@, push.before@)], "PUSH_BEFORE"@);
    lemma_last_value_single("PUSH_BEFORE"@, push.before@, "PUSH_BEFORE"@);
}

/// The command that answers a push leaves the push's after in PUSH_AFTER.
pub proof fn lemma_push_event_after(push: PushEvent)
    ensures
        last_value(push_event_command(push).envs, "PUSH_AFTER"@) == Some(push.after@),
{
    reveal_strlit("PUSH_REF_PATH");
    reveal_strlit("PUSH_BEFORE");
    reveal_strlit("PUSH_AFTER");
    reveal_strlit("PUSH_PUSHER_ID");
    reveal_strlit("PUSH_PUSHER_LOGIN");
    reveal_strlit("PUSH_PUSHER_FULL_NAME");
    reveal_strlit("PUSH_PUSHER_EMAIL");
    reveal_strlit("PUSH_PUSHER_AVATAR_URL");
    reveal_strlit("PUSH_PUSHER_USERNAME");
    reveal_strlit("PUSH_SENDER_ID");
    reveal_strlit("PUSH_SENDER_LOGIN");
    reveal_strlit("PUSH_SENDER_FULL_NAME");
    reveal_strlit("PUSH_SENDER_EMAIL");
    reveal_strlit("PUSH_SENDER_AVATAR_URL");
    reveal_strlit("PUSH_SENDER_USERNAME");
    reveal_strlit("PUSH_REPOSITORY_ID");
    reveal_strlit("PUSH_REPOSITORY_OWNER_ID");
    reveal_strlit("PUSH_REPOSITORY_OWNER_LOGIN");
    reveal_strlit("PUSH_REPOSITORY_OWNER_FULL_NAME");
    reveal_strlit("PUSH_REPOSITORY_OWNER_EMAIL");
    reveal_strlit("PUSH_REPOSITORY_OWNER_AVATAR_URL");
    reveal_strlit("PUSH_REPOSITORY_OWNER_USERNAME");
    reveal_strlit("PUSH_REPOSITORY_NAME");
    reveal_strlit("PUSH_REPOSITORY_FULL_NAME");
    reveal_strlit("PUSH_REPOSITORY_DESCRIPTION");
    reveal_strlit("PUSH_REPOSITORY_PRIVATE");
    reveal_strlit("PUSH_REPOSITORY_FORK");
    reveal_strlit("PUSH_REPOSITORY_HTML_URL");
    reveal_strlit("PUSH_REPOSITORY_SSH_URL");
    reveal_strlit("PUSH_REPOSITORY_CLONE_URL");
    reveal_strlit("PUSH_REPOSITORY_WEBSITE");
    reveal_strlit("PUSH_REPOSITORY_STARS_COUNT");
    reveal_strlit("PUSH_REPOSITORY_FORKS_COUNT");
    reveal_strlit("PUSH_REPOSITORY_WATCHERS_COUNT");
    reveal_strlit("PUSH_REPOSITORY_OPEN_ISSUES_COUNT");
    reveal_strlit("PUSH_REPOSITORY_DEFAULT_BRANCH");
    reveal_strlit("PUSH_REPOSITORY_CREATED_AT");
    reveal_strlit("PUSH_REPOSITORY_UPDATED_AT");
    lemma_last_value_concat(push_event_env_part1(push) + push_event_env_part2(push) + push_event_env_part3(push), push_event_env_part4(push), "PUSH_AFTER"@);
    lemma_last_value_concat(seq![("PUSH_REPOSITORY_CREATED_AT"@, push.repository.created_at@)], seq![("PUSH_REPOSITORY_UPDATED_AT"@, push.repository.updated_at@)], "PUSH_AFTER"@);
    lemma_last_value_single("PUSH_REPOSITORY_CREATED_AT"@, push.repository.created_at@, "PUSH_AFTER"@);
    assert("PUSH_REPOSITORY_CREATED_AT"@.len() != "PUSH_AFTER"@.len());
    lemma_last_value_single("PUSH_REPOSITORY_UPDATED_AT"@, push.repository.updated_at@, "PUSH_AFTER"@);
    assert("PUSH_REPOSITORY_UPDATED_AT"@.len() != "PUSH_AFTER"@.len());
    lemma_last_value_concat(push_event_env_part1(push) + push_event_env_part2(push), push_event_env_part3(push), "PUSH_AFTER"@);
    lemma_last_value_concat(seq![("PUSH_REPOSITORY_DESCRIPTION"@, push.repository.description@)] + seq![("PUSH_REPOSITORY_PRIVATE"@, bool_text(push.repository.private))] + seq![("PUSH_REPOSITORY_FORK"@, bool_text(push.repository.fork))] + seq![("PUSH_REPOSITORY_HTML_URL"@, push.repository.html_url@)] + seq![("PUSH_REPOSITORY_SSH_URL"@, push.repository.ssh_url@)] + seq![("PUSH_REPOSITORY_CLONE_URL"@, push.repository.clone_url@)] + seq![("PUSH_REPOSITORY_WEBSITE"@, push.repository.website@)] + seq![("PUSH_REPOSITORY_STARS_COUNT"@, decimal(push.repository.stars_count as nat))] + seq![("PUSH_REPOSITORY_FORKS_COUNT"@, decimal(push.repository.forks_count as nat))] + seq![("PUSH_REPOSITORY_WATCHERS_COUNT"@, decimal(push.repository.watchers_count as nat))] + seq![("PUSH_REPOSITORY_OPEN_ISSUES_COUNT"@, decimal(push.repository.open_issues_count as nat))], seq![("PUSH_REPOSITORY_DEFAULT_BRANCH"@, push.repository.default_branch@)], "PUSH_AFTER"@);
    lemma_last_value_concat(seq![("PUSH_REPOSITORY_DESCRIPTION"@, push.repository.description@)] + seq![("PUSH_REPOSITORY_PRIVATE"@, bool_text(push.repository.private))] + seq![("PUSH_REPOSITORY_FORK"@, bool_text(push.repository.fork))] + seq![("PUSH_REPOSITORY_HTML_URL"@, push.repository.html_url@)] + seq![("PUSH_REPOSITORY_SSH_URL"@, push.repository.ssh_url@)] + seq![("PUSH_REPOSITORY_CLONE_URL"@, push.repository.clone_url@)] + seq![("PUSH_REPOSITORY_WEBSITE"@, push.repository.website@)] + seq![("PUSH_REPOSITORY_STARS_COUNT"@, decimal(push.repository.stars_count as nat))] + seq![("PUSH_REPOSITORY_FORKS_COUNT"@, decimal(push.repository.forks_count as nat))] + seq![("PUSH_REPOSITORY_WATCHERS_COUNT"@, decimal(push.repository.watchers_count as nat))], seq![("PUSH_REPOSITORY_OPEN_ISSUES_COUNT"@, decimal(push.repository.open_issues_count as nat))], "PUSH_AFTER"@);
    lemma_last_value_concat(seq![("PUSH_REPOSITORY_DESCRIPTION"@, push.repository.description@)] + seq![("PUSH_REPOSITORY_PRIVATE"@, bool_text(push.repository.private))] + seq![("PUSH_REPOSITORY_FORK"@, bool_text(push.repository.fork))] + seq![("PUSH_REPOSITORY_HTML_URL"@, push.repository.html_url@)] + seq![("PUSH_REPOSITORY_SSH_URL"@, push.repository.ssh_url@)] + seq![("PUSH_REPOSITORY_CLONE_URL"@, push.repository.clone_url@)] + seq![("PUSH_REPOSITORY_WEBSITE"@, push.repository.website@)] + seq![("PUSH_REPOSITORY_STARS_COUNT"@, decimal(push.repository.stars_count as nat))] + seq![("PUSH_REPOSITORY_FORKS_COUNT"@, decimal(push.repository.forks_count as nat))], seq![("PUSH_REPOSITORY_WATCHERS_COUNT"@, decimal(push.repository.watchers_count as nat))], "PUSH_AFTER"@);
    lemma_last_value_concat(seq![("PUSH_REPOSITORY_DESCRIPTION"@, push.repository.description@)] + seq![("PUSH_REPOSITORY_PRIVATE"@, bool_text(push.repository.private))] + seq![("PUSH_REPOSITORY_FORK"@, bool_text(push.repository.fork))] + seq![("PUSH_REPOSITORY_HTML_URL"@, push.repository.html_url@)] + seq![("PUSH_REPOSITORY_SSH_URL"@, push.repository.ssh_url@)] + seq![("PUSH_REPOSITORY_CLONE_URL"@, push.repository.clone_url@)] + seq![("PUSH_REPOSITORY_WEBSITE"@, push.repository.website@)] + seq![("PUSH_REPOSITORY_STARS_COUNT"@, decimal(push.repository.stars_count as nat))], seq![("PUSH_REPOSITORY_FORKS_COUNT"@, decimal(push.repository.forks_count as nat))], "PUSH_AFTER"@);
    lemma_last_value_concat(seq![("PUSH_REPOSITORY_DESCRIPTION"@, push.repository.description@)] + seq![("PUSH_REPOSITORY_PRIVATE"@, bool_text(push.repository.private))] + seq![("PUSH_REPOSITORY_FORK"@, bool_text(push.repository.fork))] + seq![("PUSH_REPOSITORY_HTML_URL"@, push.repository.html_url@)] + seq![("PUSH_REPOSITORY_SSH_URL"@, push.repository.ssh_url@)] + seq![("PUSH_REPOSITORY_CLONE_URL"@, push.repository.clone_url@)] + seq![("PUSH_REPOSITORY_WEBSITE"@, push.repository.website@)], seq![("PUSH_REPOSITORY_STARS_COUNT"@, decimal(push.repository.stars_count as nat))], "PUSH_AFTER"@);
    lemma_last_value_concat(seq![("PUSH_REPOSITORY_DESCRIPTION"@, push.repository.description@)] + seq![("PUSH_REPOSITORY_PRIVATE"@, bool_text(push.repository.private))] + seq![("PUSH_REPOSITORY_FORK"@, bool_text(push.repository.fork))] + seq![("PUSH_REPOSITORY_HTML_URL"@, push.repository.html_url@)] + seq![("PUSH_REPOSITORY_SSH_URL"@, push.repository.ssh_url@)] + seq![("PUSH_REPOSITORY_CLONE_URL"@, push.repository.clone_url@)], seq![("PUSH_REPOSITORY_WEBSITE"@, push.repository.website@)], "PUSH_AFTER"@);
    lemma_last_value_concat(seq![("PUSH_REPOSITORY_DESCRIPTION"@, push.repository.description@)] + seq![("PUSH_REPOSITORY_PRIVATE"@, bool_text(push.repository.private))] + seq![("PUSH_REPOSITORY_FORK"@, bool_text(push.repository.fork))] + seq![("PUSH_REPOSITORY_HTML_URL"@, push.repository.html_url@)] + seq![("PUSH_REPOSITORY_SSH_URL"@, push.repository.ssh_url@)], seq![("PUSH_REPOSITORY_CLONE_URL"@, push.repository.clone_url@)], "PUSH_AFTER"@);
    lemma_last_value_concat(seq![("PUSH_REPOSITORY_DESCRIPTION"@, push.repository.description@)] + seq![("PUSH_REPOSITORY_PRIVATE"@, bool_text(push.repository.private))] + seq![("PUSH_REPOSITORY_FORK"@, bool_text(push.repository.fork))] + seq![("PUSH_REPOSITORY_HTML_URL"@, push.repository.html_url@)], seq![("PUSH_REPOSITORY_SSH_URL"@, push.repository.ssh_url@)], "PUSH_AFTER"@);
    lemma_last_value_concat(seq![("PUSH_REPOSITORY_DESCRIPTION"@, push.repository.description@)] + seq![("PUSH_REPOSITORY_PRIVATE"@, bool_text(push.repository.private))] + seq![("PUSH_REPOSITORY_FORK"@, bool_text(push.repository.fork))], seq![("PUSH_REPOSITORY_HTML_URL"@, push.repository.html_url@)], "PUSH_AFTER"@);
    lemma_last_value_concat(seq![("PUSH_REPOSITORY_DESCRIPTION"@, push.repository.description@)] + seq![("PUSH_REPOSITORY_PRIVATE"@, bool_text(push.repository.private))], seq![("PUSH_REPOSITORY_FORK"@, bool_text(push.repository.fork))], "PUSH_AFTER"@);
    lemma_last_value_concat(seq![("PUSH_REPOSITORY_DESCRIPTION"@, push.repository.description@)], seq![("PUSH_REPOSITORY_PRIVATE"@, bool_text(push.repository.private))], "PUSH_AFTER"@);
    lemma_last_value_single("PUSH_REPOSITORY_DESCRIPTION"@, push.repository.description@, "PUSH_AFTER"@);
    assert("PUSH_REPOSITORY_DESCRIPTION"@.len() != "PUSH_AFTER"@.len());
    lemma_last_value_single("PUSH_REPOSITORY_PRIVATE"@, bool_text(push.repository.private), "PUSH_AFTER"@);
    assert("PUSH_REPOSITORY_PRIVATE"@.len() != "PUSH_AFTER"@.len());
    lemma_last_value_single("PUSH_REPOSITORY_FORK"@, bool_text(push.repository.fork), "PUSH_AFTER"@);
    assert("PUSH_REPOSITORY_FORK"@.len() != "PUSH_AFTER"@.len());
    lemma_last_value_single("PUSH_REPOSITORY_HTML_URL"@, push.repository.html_url@, "PUSH_AFTER"@);
    assert("PUSH_REPOSITORY_HTML_URL"@.len() != "PUSH_AFTER"@.len());
    lemma_last_value_single("PUSH_REPOSITORY_SSH_URL"@, push.repository.ssh_url@, "PUSH_AFTER"@);
    assert("PUSH_REPOSITORY_SSH_URL"@.len() != "PUSH_AFTER"@.len());
    lemma_last_value_single("PUSH_REPOSITORY_CLONE_URL"@, push.repository.clone_url@, "PUSH_AFTER"@);
    assert("PUSH_REPOSITORY_CLONE_URL"@.len() != "PUSH_AFTER"@.len());
    lemma_last_value_single("PUSH_REPOSITORY_WEBSITE"@, push.repository.website@, "PUSH_AFTER"@);
    assert("PUSH_REPOSITORY_WEBSITE"@.len() != "PUSH_AFTER"@.len());
    lemma_last_value_single("PUSH_REPOSITORY_STARS_COUNT"@, decimal(push.repository.stars_count as nat), "PUSH_AFTER"@);
    assert("PUSH_REPOSITORY_STARS_COUNT"@.len() != "PUSH_AFTER"@.len());
    lemma_last_value_single("PUSH_REPOSITORY_FORKS_COUNT"@, decimal(push.repository.forks_count as nat), "PUSH_AFTER"@);
    assert("PUSH_REPOSITORY_FORKS_COUNT"@.len() != "PUSH_AFTER"@.len());
    lemma_last_value_single("PUSH_REPOSITORY_WATCHERS_COUNT"@, decimal(push.repository.watchers_count as nat), "PUSH_AFTER"@);
    assert("PUSH_REPOSITORY_WATCHERS_COUNT"@.len() != "PUSH_AFTER"@.len());
    lemma_last_value_single("PUSH_REPOSITORY_OPEN_ISSUES_COUNT"@, decimal(push.repository.open_issues_count as nat), "PUSH_AFTER"@);
    assert("PUSH_REPOSITORY_OPEN_ISSUES_COUNT"@.len() != "PUSH_AFTER"@.len());
    lemma_last_value_single("PUSH_REPOSITORY_DEFAULT_BRANCH"@, push.repository.default_branch@, "PUSH_AFTER"@);
    assert("PUSH_REPOSITORY_DEFAULT_BRANCH"@.len() != "PUSH_AFTER"@.len());
    lemma_last_value_concat(push_event_env_part1(push), push_event_env_part2(push), "PUSH_AFTER"@);
    lemma_last_value_concat(seq![("PUSH_SENDER_EMAIL"@, push.sender.email@)] + seq![("PUSH_SENDER_AVATAR_URL"@, push.sender.avatar_url@)] + seq![("PUSH_SENDER_USERNAME"@, push.sender.username@)] + seq![("PUSH_REPOSITORY_ID"@, decimal(push.repository.id as nat))] + seq![("PUSH_REPOSITORY_OWNER_ID"@, decimal(push.repository.owner.id as nat))] + seq![("PUSH_REPOSITORY_OWNER_LOGIN"@, push.repository.owner.login@)] + seq![("PUSH_REPOSITORY_OWNER_FULL_NAME"@, push.repository.owner.full_name@)] + seq![("PUSH_REPOSITORY_OWNER_EMAIL"@, push.repository.owner.email@)] + seq![("PUSH_REPOSITORY_OWNER_AVATAR_URL"@, push.repository.owner.avatar_url@)] + seq![("PUSH_REPOSITORY_OWNER_USERNAME"@, push.repository.owner.username@)] + seq![("PUSH_REPOSITORY_NAME"@, push.repository.name@)], seq![("PUSH_REPOSITORY_FULL_NAME"@, push.repository.full_name@)], "PUSH_AFTER"@);
    lemma_last_value_concat(seq![("PUSH_SENDER_EMAIL"@, push.sender.email@)] + seq![("PUSH_SENDER_AVATAR_URL"@, push.sender.avatar_url@)] + seq![("PUSH_SENDER_USERNAME"@, push.sender.username@)] + seq![("PUSH_REPOSITORY_ID"@, decimal(push.repository.id as nat))] + seq![("PUSH_REPOSITORY_OWNER_ID"@, decimal(push.repository.owner.id as nat))] + seq![("PUSH_REPOSITORY_OWNER_LOGIN"@, push.repository.owner.login@)] + seq![("PUSH_REPOSITORY_OWNER_FULL_NAME"@, push.repository.owner.full_name@)] + seq![("PUSH_REPOSITORY_OWNER_EMAIL"@, push.repository.owner.email@)] + seq![("PUSH_REPOSITORY_OWNER_AVATAR_URL"@, push.repository.owner.avatar_url@)] + seq![("PUSH_REPOSITORY_OWNER_USERNAME"@, push.repository.owner.username@)], seq![("PUSH_REPOSITORY_NAME"@, push.repository.name@)], "PUSH_AFTER"@);
    lemma_last_value_concat(seq![("PUSH_SENDER_EMAIL"@, push.sender.email@)] + seq![("PUSH_SENDER_AVATAR_URL"@, push.sender.avatar_url@)] + seq![("PUSH_SENDER_USERNAME"@, push.sender.username@)] + seq![("PUSH_REPOSITORY_ID"@, decimal(push.repository.id as nat))] + seq![("PUSH_REPOSITORY_OWNER_ID"@, decimal(push.repository.owner.id as nat))] + seq![("PUSH_REPOSITORY_OWNER_LOGIN"@, push.repository.owner.login@)] + seq![("PUSH_REPOSITORY_OWNER_FULL_NAME"@, push.repository.owner.full_name@)] + seq![("PUSH_REPOSITORY_OWNER_EMAIL"@, push.repository.owner.email@)] + seq![("PUSH_REPOSITORY_OWNER_AVATAR_URL"@, push.repository.owner.avatar_url@)], seq![("PUSH_REPOSITORY_OWNER_USERNAME"@, push.repository.owner.username@)], "PUSH_AFTER"@);
    lemma_last_value_concat(seq![("PUSH_SENDER_EMAIL"@, push.sender.email@)] + seq![("PUSH_SENDER_AVATAR_URL"@, push.sender.avatar_url@)] + seq![("PUSH_SENDER_USERNAME"@, push.sender.username@)] + seq![("PUSH_REPOSITORY_ID"@, decimal(push.repository.id as nat))] + seq![("PUSH_REPOSITORY_OWNER_ID"@, decimal(push.repository.owner.id as nat))] + seq![("PUSH_REPOSITORY_OWNER_LOGIN"@, push.repository.owner.login@)] + seq![("PUSH_REPOSITORY_OWNER_FULL_NAME"@, push.repository.owner.full_name@)] + seq![("PUSH_REPOSITORY_OWNER_EMAIL"@, push.repository.owner.email@)], seq![("PUSH_REPOSITORY_OWNER_AVATAR_URL"@, push.repository.owner.avatar_url@)], "PUSH_AFTER"@);
    lemma_last_value_concat(seq![("PUSH_SENDER_EMAIL"@, push.sender.email@)] + seq![("PUSH_SENDER_AVATAR_URL"@, push.sender.avatar_url@)] + seq![("PUSH_SENDER_USERNAME"@, push.sender.username@)] + seq![("PUSH_REPOSITORY_ID"@, decimal(push.repository.id as nat))] + seq![("PUSH_REPOSITORY_OWNER_ID"@, decimal(push.repository.owner.id as nat))] + seq![("PUSH_REPOSITORY_OWNER_LOGIN"@, push.repository.owner.login@)] + seq![("PUSH_REPOSITORY_OWNER_FULL_NAME"@, push.repository.owner.full_name@)], seq![("PUSH_REPOSITORY_OWNER_EMAIL"@, push.repository.owner.email@)], "PUSH_AFTER"@);
    lemma_last_value_concat(seq![("PUSH_SENDER_EMAIL"@, push.sender.email@)] + seq![("PUSH_SENDER_AVATAR_URL"@, push.sender.avatar_url@)] + seq![("PUSH_SENDER_USERNAME"@, push.sender.username@)] + seq![("PUSH_REPOSITORY_ID"@, decimal(push.repository.id as nat))] + seq![("PUSH_REPOSITORY_OWNER_ID"@, decimal(push.repository.owner.id as nat))] + seq![("PUSH_REPOSITORY_OWNER_LOGIN"@, push.repository.owner.login@)], seq![("PUSH_REPOSITORY_OWNER_FULL_NAME"@, push.repository.owner.full_name@)], "PUSH_AFTER"@);
    lemma_last_value_concat(seq![("PUSH_SENDER_EMAIL"@, push.sender.email@)] + seq![("PUSH_SENDER_AVATAR_URL"@, push.sender.avatar_url@)] + seq![("PUSH_SENDER_USERNAME"@, push.sender.username@)] + seq![("PUSH_REPOSITORY_ID"@, decimal(push.repository.id as nat))] + seq![("PUSH_REPOSITORY_OWNER_ID"@, decimal(push.repository.owner.id as nat))], seq![("PUSH_REPOSITORY_OWNER_LOGIN"@, push.repository.owner.login@)], "PUSH_AFTER"@);
    lemma_last_value_concat(seq![("PUSH_SENDER_EMAIL"@, push.sender.email@)] + seq![("PUSH_SENDER_AVATAR_URL"@, push.sender.avatar_url@)] + seq![("PUSH_SENDER_USERNAME"@, push.sender.username@)] + seq![("PUSH_REPOSITORY_ID"@, decimal(push.repository.id as nat))], seq![("PUSH_REPOSITORY_OWNER_ID"@, decimal(push.repository.owner.id as nat))], "PUSH_AFTER"@);
    lemma_last_value_concat(seq![("PUSH_SENDER_EMAIL"@, push.sender.email@)] + seq![("PUSH_SENDER_AVATAR_URL"@, push.sender.avatar_url@)] + seq![("PUSH_SENDER_USERNAME"@, push.sender.username@)], seq![("PUSH_REPOSITORY_ID"@, decimal(push.repository.id as nat))], "PUSH_AFTER"@);
    lemma_last_value_concat(seq![("PUSH_SENDER_EMAIL"@, push.sender.email@)] + seq![("PUSH_SENDER_AVATAR_URL"@, push.sender.avatar_url@)], seq![("PUSH_SENDER_USERNAME"@, push.sender.username@)], "PUSH_AFTER"@);
    lemma_last_value_concat(seq![("PUSH_SENDER_EMAIL"@, push.sender.email@)], seq![("PUSH_SENDER_AVATAR_URL"@, push.sender.avatar_url@)], "PUSH_AFTER"@);
    lemma_last_value_single("PUSH_SENDER_EMAIL"@, push.sender.email@, "PUSH_AFTER"@);
    assert("PUSH_SENDER_EMAIL"@.len() != "PUSH_AFTER"@.len());
    lemma_last_value_single("PUSH_SENDER_AVATAR_URL"@, push.sender.avatar_url@, "PUSH_AFTER"@);
    assert("PUSH_SENDER_AVATAR_URL"@.len() != "PUSH_AFTER"@.len());
    lemma_last_value_single("PUSH_SENDER_USERNAME"@, push.sender.username@, "PUSH_AFTER"@);
    assert("PUSH_SENDER_USERNAME"@.len() != "PUSH_AFTER"@.len());
    lemma_last_value_single("PUSH_REPOSITORY_ID"@, decimal(push.repository.id as nat), "PUSH_AFTER"@);
    assert("PUSH_REPOSITORY_ID"@.len() != "PUSH_AFTER"@.len());
    lemma_last_value_single("PUSH_REPOSITORY_OWNER_ID"@, decimal(push.repository.owner.id as nat), "PUSH_AFTER"@);
    assert("PUSH_REPOSITORY_OWNER_ID"@.len() != "PUSH_AFTER"@.len());
    lemma_last_value_single("PUSH_REPOSITORY_OWNER_LOGIN"@, push.repository.owner.login@, "PUSH_AFTER"@);
    assert("PUSH_REPOSITORY_OWNER_LOGIN"@.len() != "PUSH_AFTER"@.len());
    lemma_last_value_single("PUSH_REPOSITORY_OWNER_FULL_NAME"@, push.repository.owner.full_name@, "PUSH_AFTER"@);
    assert("PUSH_REPOSITORY_OWNER_FULL_NAME"@.len() != "PUSH_AFTER"@.len());
    lemma_last_value_single("PUSH_REPOSITORY_OWNER_EMAIL"@, push.repository.owner.email@, "PUSH_AFTER"@);
    assert("PUSH_REPOSITORY_OWNER_EMAIL"@.len() != "PUSH_AFTER"@.len());
    lemma_last_value_single("PUSH_REPOSITORY_OWNER_AVATAR_URL"@, push.repository.owner.avatar_url@, "PUSH_AFTER"@);
    assert("PUSH_REPOSITORY_OWNER_AVATAR_URL"@.len() != "PUSH_AFTER"@.len());
    lemma_last_value_single("PUSH_REPOSITORY_OWNER_USERNAME"@, push.repository.owner.username@, "PUSH_AFTER"@);
    assert("PUSH_REPOSITORY_OWNER_USERNAME"@.len() != "PUSH_AFTER"@.len());
    lemma_last_value_single("PUSH_REPOSITORY_NAME"@, push.repository.name@, "PUSH_AFTER"@);
    assert("PUSH_REPOSITORY_NAME"@.len() != "PUSH_AFTER"@.len());
    lemma_last_value_single("PUSH_REPOSITORY_FULL_NAME"@, push.repository.full_name@, "PUSH_AFTER"@);
    assert("PUSH_REPOSITORY_FULL_NAME"@.len() != "PUSH_AFTER"@.len());
    lemma_last_value_concat(seq![("PUSH_REF_PATH"@, push.ref_path@)] + seq![("PUSH_BEFORE"@, push.before@)] + seq![("PUSH_AFTER"@, push.after@)] + seq![("PUSH_PUSHER_ID"@, decimal(push.pusher.id as nat))] + seq![("PUSH_PUSHER_LOGIN"@, push.pusher.login@)] + seq![("PUSH_PUSHER_FULL_NAME"@, push.pusher.full_name@)] + seq![("PUSH_PUSHER_EMAIL"@, push.pusher.email@)] + seq![("PUSH_PUSHER_AVATAR_URL"@, push.pusher.avatar_url@)] + seq![("PUSH_PUSHER_USERNAME"@, push.pusher.username@)] + seq![("PUSH_SENDER_ID"@, decimal(push.sender.id as nat))] + seq![("PUSH_SENDER_LOGIN"@, push.sender.login@)], seq![("PUSH_SENDER_FULL_NAME"@, push.sender.full_name@)], "PUSH_AFTER"@);
    lemma_last_value_single("PUSH_SENDER_FULL_NAME"@, push.sender.full_name@, "PUSH_AFTER"@);
    assert("PUSH_SENDER_FULL_NAME"@.len() != "PUSH_AFTER"@.len());
    lemma_last_value_concat(seq![("PUSH_REF_PATH"@, push.ref_path@)] + seq![("PUSH_BEFORE"@, push.before@)] + seq![("PUSH_AFTER"@, push.after@)] + seq![("PUSH_PUSHER_ID"@, decimal(push.pusher.id as nat))] + seq![("PUSH_PUSHER_LOGIN"@, push.pusher.login@)] + seq![("PUSH_PUSHER_FULL_NAME"@, push.pusher.full_name@)] + seq![("PUSH_PUSHER_EMAIL"@, push.pusher.email@)] + seq![("PUSH_PUSHER_AVATAR_URL"@, push.pusher.avatar_url@)] + seq![("PUSH_PUSHER_USERNAME"@, push.pusher.username@)] + seq![("PUSH_SENDER_ID"@, decimal(push.sender.id as nat))], seq![("PUSH_SENDER_LOGIN"@, push.sender.login@)], "PUSH_AFTER"@);
    lemma_last_value_single("PUSH_SENDER_LOGIN"@, push.sender.login@, "PUSH_AFTER"@);
    assert("PUSH_SENDER_LOGIN"@.len() != "PUSH_AFTER"@.len());
    lemma_last_value_concat(seq![("PUSH_REF_PATH"@, push.ref_path@)] + seq![("PUSH_BEFORE"@, push.before@)] + seq![("PUSH_AFTER"@, push.after@)] + seq![("PUSH_PUSHER_ID"@, decimal(push.pusher.id as nat))] + seq![("PUSH_PUSHER_LOGIN"@, push.pusher.login@)] + seq![("PUSH_PUSHER_FULL_NAME"@, push.pusher.full_name@)] + seq![("PUSH_PUSHER_EMAIL"@, push.pusher.email@)] + seq![("PUSH_PUSHER_AVATAR_URL"@, push.pusher.avatar_url@)] + seq![("PUSH_PUSHER_USERNAME"@, push.pusher.username@)], seq![("PUSH_SENDER_ID"@, decimal(push.sender.id as nat))], "PUSH_AFTER"@);
    lemma_last_value_single("PUSH_SENDER_ID"@, decimal(push.sender.id as nat), "PUSH_AFTER"@);
    assert("PUSH_SENDER_ID"@.len() != "PUSH_AFTER"@.len());
    lemma_last_value_concat(seq![("PUSH_REF_PATH"@, push.ref_path@)] + seq![("PUSH_BEFORE"@, push.before@)] + seq![("PUSH_AFTER"@, push.after@)] + seq![("PUSH_PUSHER_ID"@, decimal(push.pusher.id as nat))] + seq![("PUSH_PUSHER_LOGIN"@, push.pusher.login@)] + seq![("PUSH_PUSHER_FULL_NAME"@, push.pusher.full_name@)] + seq![("PUSH_PUSHER_EMAIL"@, push.pusher.email@)] + seq![("PUSH_PUSHER_AVATAR_URL"@, push.pusher.avatar_url@)], seq![("PUSH_PUSHER_USERNAME"@, push.pusher.username@)], "PUSH_AFTER"@);
    lemma_last_value_single("PUSH_PUSHER_USERNAME"@, push.pusher.username@, "PUSH_AFTER"@);
    assert("PUSH_PUSHER_USERNAME"@.len() != "PUSH_AFTER"@.len());
    lemma_last_value_concat(seq![("PUSH_REF_PATH"@, push.ref_path@)] + seq![("PUSH_BEFORE"@, push.before@)] + seq![("PUSH_AFTER"@, push.after@)] + seq![("PUSH_PUSHER_ID"@, decimal(push.pusher.id as nat))] + seq![("PUSH_PUSHER_LOGIN"@, push.pusher.login@)] + seq![("PUSH_PUSHER_FULL_NAME"@, push.pusher.full_name@)] + seq![("PUSH_PUSHER_EMAIL"@, push.pusher.email@)], seq![("PUSH_PUSHER_AVATAR_URL"@, push.pusher.avatar_url@)], "PUSH_AFTER"@);
    lemma_last_value_single("PUSH_PUSHER_AVATAR_URL"@, push.pusher.avatar_url@, "PUSH_AFTER"@);
    assert("PUSH_PUSHER_AVATAR_URL"@.len() != "PUSH_AFTER"@.len());
    lemma_last_value_concat(seq![("PUSH_REF_PATH"@, push.ref_path@)] + seq![("PUSH_BEFORE"@, push.before@)] + seq![("PUSH_AFTER"@, push.after@)] + seq![("PUSH_PUSHER_ID"@, decimal(push.pusher.id as nat))] + seq![("PUSH_PUSHER_LOGIN"@, push.pusher.login@)] + seq![("PUSH_PUSHER_FULL_NAME"@, push.pusher.full_name@)], seq![("PUSH_PUSHER_EMAIL"@, push.pusher.email@)], "PUSH_AFTER"@);
    lemma_last_value_single("PUSH_PUSHER_EMAIL"@, push.pusher.email@, "PUSH_AFTER"@);
    assert("PUSH_PUSHER_EMAIL"@.len() != "PUSH_AFTER"@.len());
    lemma_last_value_concat(seq![("PUSH_REF_PATH"@, push.ref_path@)] + seq![("PUSH_BEFORE"@, push.before@)] + seq![("PUSH_AFTER"@, push.after@)] + seq![("PUSH_PUSHER_ID"@, decimal(push.pusher.id as nat))] + seq![("PUSH_PUSHER_LOGIN"@, push.pusher.login@)], seq![("PUSH_PUSHER_FULL_NAME"@, push.pusher.full_name@)], "PUSH_AFTER"@);
    lemma_last_value_single("PUSH_PUSHER_FULL_NAME"@, push.pusher.full_name@, "PUSH_AFTER"@);
    assert("PUSH_PUSHER_FULL_NAME"@.len() != "PUSH_AFTER"@.len());
    lemma_last_value_concat(seq![("PUSH_REF_PATH"@, push.ref_path@)] + seq![("PUSH_BEFORE"@, push.before@)] + seq![("PUSH_AFTER"@, push.after@)] + seq![("PUSH_PUSHER_ID"@, decimal(push.pusher.id as nat))], seq![("PUSH_PUSHER_LOGIN"@, push.pusher.login@)], "PUSH_AFTER"@);
    lemma_last_value_single("PUSH_PUSHER_LOGIN"@, push.pusher.login@, "PUSH_AFTER"@);
    assert("PUSH_PUSHER_LOGIN"@.len() != "PUSH_AFTER"@.len());
    lemma_last_value_concat(seq![("PUSH_REF_PATH"@, push.ref_path@)] + seq![("PUSH_BEFORE"@, push.before@)] + seq![("PUSH_AFTER"@, push.after@)], seq![("PUSH_PUSHER_ID"@, decimal(push.pusher.id as nat))], "PUSH_AFTER"@);
    lemma_last_value_single("PUSH_PUSHER_ID"@, decimal(push.pusher.id as nat), "PUSH_AFTER"@);
    assert("PUSH_PUSHER_ID"@.len() != "PUSH_AFTER"@.len());
    lemma_last_value_concat(seq![("PUSH_REF_PATH"@, push.ref_path@)] + seq![("PUSH_BEFORE"@, push.before@)], seq![("PUSH_AFTER"@, push.after@)], "PUSH_AFTER"@);
    lemma_last_value_single("PUSH_AFTER"@, push.after@, "PUSH_AFTER"@);
}

/// The command that answers a push leaves the push's pusher id in PUSH_PUSHER_ID.
pub proof fn lemma_push_event_pusher_id(push: PushEvent)
    ensures
        last_value(push_event_command(push).envs, "PUSH_PUSHER_ID"@) == Some(decimal(push.pusher.id as nat)),
{
    reveal_strlit("PUSH_REF_PATH");
    reveal_strlit("PUSH_BEFORE");
    reveal_strlit("PUSH_AFTER");
    reveal_strlit("PUSH_PUSHER_ID");
    reveal_strlit("PUSH_PUSHER_LOGIN");
    reveal_strlit("PUSH_PUSHER_FULL_NAME");
    reveal_strlit("PUSH_PUSHER_EMAIL");
    reveal_strlit("PUSH_PUSHER_AVATAR_URL");
    reveal_strlit("PUSH_PUSHER_USERNAME");
    reveal_strlit("PUSH_SENDER_ID");
    reveal_strlit("PUSH_SENDER_LOGIN");
    reveal_strlit("PUSH_SENDER_FULL_NAME");
    reveal_strlit("PUSH_SENDER_EMAIL");
    reveal_strlit("PUSH_SENDER_AVATAR_URL");
    reveal_strlit("PUSH_SENDER_USERNAME");
    reveal_strlit("PUSH_REPOSITORY_ID");
    reveal_strlit("PUSH_REPOSITORY_OWNER_ID");
    reveal_strlit("PUSH_REPOSITORY_OWNER_LOGIN");
    reveal_strlit("PUSH_REPOSITORY_OWNER_FULL_NAME");
    reveal_strlit("PUSH_REPOSITORY_OWNER_EMAIL");
    reveal_strlit("PUSH_REPOSITORY_OWNER_AVATAR_URL");
    reveal_strlit("PUSH_REPOSITORY_OWNER_USERNAME");
    reveal_strlit("PUSH_REPOSITORY_NAME");
    reveal_strlit("PUSH_REPOSITORY_FULL_NAME");
    reveal_strlit("PUSH_REPOSITORY_DESCRIPTION");
    reveal_strlit("PUSH_REPOSITORY_PRIVATE");
    reveal_strlit("PUSH_REPOSITORY_FORK");
    reveal_strlit("PUSH_REPOSITORY_HTML_URL");
    reveal_strlit("PUSH_REPOSITORY_SSH_URL");
    reveal_strlit("PUSH_REPOSITORY_CLONE_URL");
    reveal_strlit("PUSH_REPOSITORY_WEBSITE");
    reveal_strlit("PUSH_REPOSITORY_STARS_COUNT");
    reveal_strlit("PUSH_REPOSITORY_FORKS_COUNT");
    reveal_strlit("PUSH_REPOSITORY_WATCHERS_COUNT");
    reveal_strlit("PUSH_REPOSITORY_OPEN_ISSUES_COUNT");
    reveal_strlit("PUSH_REPOSITORY_DEFAULT_BRANCH");
    reveal_strlit("PUSH_REPOSITORY_CREATED_AT");
    reveal_strlit("PUSH_REPOSITORY_UPDATED_AT");
    lemma_last_value_concat(push_event_env_part1(push) + push_event_env_part2(push) + push_event_env_part3(push), push_event_env_part4(push), "PUSH_PUSHER_ID"@);
    lemma_last_value_concat(seq![("PUSH_REPOSITORY_CREATED_AT"@, push.repository.created_at@)], seq![("PUSH_REPOSITORY_UPDATED_AT"@, push.repository.updated_at@)], "PUSH_PUSHER_ID"@);
    lemma_last_value_single("PUSH_REPOSITORY_CREATED_AT"@, push.repository.created_at@, "PUSH_PUSHER_ID"@);
    assert("PUSH_REPOSITORY_CREATED_AT"@.len() != "PUSH_PUSHER_ID"@.len());
    lemma_last_value_single("PUSH_REPOSITORY_UPDATED_AT"@, push.repository.updated_at@, "PUSH_PUSHER_ID"@);
    assert("PUSH_REPOSITORY_UPDATED_AT"@.len() != "PUSH_PUSHER_ID"@.len());
    lemma_last_value_concat(push_event_env_part1(push) + push_event_env_part2(push), push_event_env_part3(push), "PUSH_PUSHER_ID"@);
    lemma_last_value_concat(seq![("PUSH_REPOSITORY_DESCRIPTION"@, push.repository.description@)] + seq![("PUSH_REPOSITORY_PRIVATE"@, bool_text(push.repository.private))] + seq![("PUSH_REPOSITORY_FORK"@, bool_text(push.repository.fork))] + seq![("PUSH_REPOSITORY_HTML_URL"@, push.repository.html_url@)] + seq![("PUSH_REPOSITORY_SSH_URL"@, push.repository.ssh_url@)] + seq![("PUSH_REPOSITORY_CLONE_URL"@, push.repository.clone_url@)] + seq![("PUSH_REPOSITORY_WEBSITE"@, push.repository.website@)] + seq![("PUSH_REPOSITORY_STARS_COUNT"@, decimal(push.repository.stars_count as nat))] + seq![("PUSH_REPOSITORY_FORKS_COUNT"@, decimal(push.repository.forks_count as nat))] + seq![("PUSH_REPOSITORY_WATCHERS_COUNT"@, decimal(push.repository.watchers_count as nat))] + seq![("PUSH_REPOSITORY_OPEN_ISSUES_COUNT"@, decimal(push.repository.open_issues_count as nat))], seq![("PUSH_REPOSITORY_DEFAULT_BRANCH"@, push.repository.default_branch@)], "PUSH_PUSHER_ID"@);
    lemma_last_value_concat(seq![("PUSH_REPOSITORY_DESCRIPTION"@, push.repository.description@)] + seq![("PUSH_REPOSITORY_PRIVATE"@, bool_text(push.repository.private))] + seq![("PUSH_REPOSITORY_FORK"@, bool_text(push.repository.fork))] + seq![("PUSH_REPOSITORY_HTML_URL"@, push.repository.html_url@)] + seq![("PUSH_REPOSITORY_SSH_URL"@, push.repository.ssh_url@)] + seq![("PUSH_REPOSITORY_CLONE_URL"@, push.repository.clone_url@)] + seq![("PUSH_REPOSITORY_WEBSITE"@, push.repository.website@)] + seq![("PUSH_REPOSITORY_STARS_COUNT"@, decimal(push.repository.stars_count as nat))] + seq![("PUSH_REPOSITORY_FORKS_COUNT"@, decimal(push.repository.forks_count as nat))] + seq![("PUSH_REPOSITORY_WATCHERS_COUNT"@, decimal(push.repository.watchers_count as nat))], seq![("PUSH_REPOSITORY_OPEN_ISSUES_COUNT"@, decimal(push.repository.open_issues_count as nat))], "PUSH_PUSHER_ID"@);
    lemma_last_value_concat(seq![("PUSH_REPOSITORY_DESCRIPTION"@, push.repository.description@)] + seq![("PUSH_REPOSITORY_PRIVATE"@, bool_text(push.repository.private))] + seq![("PUSH_REPOSITORY_FORK"@, bool_text(push.repository.fork))] + seq![("PUSH_REPOSITORY_HTML_URL"@, push.repository.html_url@)] + seq![("PUSH_REPOSITORY_SSH_URL"@, push.repository.ssh_url@)] + seq![("PUSH_REPOSITORY_CLONE_URL"@, push.repository.clone_url@)] + seq![("PUSH_REPOSITORY_WEBSITE"@, push.repository.website@)] + seq![("PUSH_REPOSITORY_STARS_COUNT"@, decimal(push.repository.stars_count as nat))] + seq![("PUSH_REPOSITORY_FORKS_COUNT"@, decimal(push.repository.forks_count as nat))], seq![("PUSH_REPOSITORY_WATCHERS_COUNT"@, decimal(push.repository.watchers_count as nat))], "PUSH_PUSHER_ID"@);
    lemma_last_value_concat(seq![("PUSH_REPOSITORY_DESCRIPTION"@, push.repository.description@)] + seq![("PUSH_REPOSITORY_PRIVATE"@, bool_text(push.repository.private))] + seq![("PUSH_REPOSITORY_FORK"@, bool_text(push.repository.fork))] + seq![("PUSH_REPOSITORY_HTML_URL"@, push.repository.html_url@)] + seq![("PUSH_REPOSITORY_SSH_URL"@, push.repository.ssh_url@)] + seq![("PUSH_REPOSITORY_CLONE_URL"@, push.repository.clone_url@)] + seq![("PUSH_REPOSITORY_WEBSITE"@, push.repository.website@)] + seq![("PUSH_REPOSITORY_STARS_COUNT"@, decimal(push.repository.stars_count as nat))], seq![("PUSH_REPOSITORY_FORKS_COUNT"@, decimal(push.repository.forks_count as nat))], "PUSH_PUSHER_ID"@);
    lemma_last_value_concat(seq![("PUSH_REPOSITORY_DESCRIPTION"@, push.repository.description@)] + seq![("PUSH_REPOSITORY_PRIVATE"@, bool_text(push.repository.private))] + seq![("PUSH_REPOSITORY_FORK"@, bool_text(push.repository.fork))] + seq![("PUSH_REPOSITORY_HTML_URL"@, push.repository.html_url@)] + seq![("PUSH_REPOSITORY_SSH_URL"@, push.repository.ssh_url@)] + seq![("PUSH_REPOSITORY_CLONE_URL"@, push.repository.clone_url@)] + seq![("PUSH_REPOSITORY_WEBSITE"@, push.repository.website@)], seq![("PUSH_REPOSITORY_STARS_COUNT"@, decimal(push.repository.stars_count as nat))], "PUSH_PUSHER_ID"@);
    lemma_last_value_concat(seq![("PUSH_REPOSITORY_DESCRIPTION"@, push.repository.description@)] + seq![("PUSH_REPOSITORY_PRIVATE"@, bool_text(push.repository.private))] + seq![("PUSH_REPOSITORY_FORK"@, bool_text(push.repository.fork))] + seq![("PUSH_REPOSITORY_HTML_URL"@, push.repository.html_url@)] + seq![("PUSH_REPOSITORY_SSH_URL"@, push.repository.ssh_url@)] + seq![("PUSH_REPOSITORY_CLONE_URL"@, push.repository.clone_url@)], seq![("PUSH_REPOSITORY_WEBSITE"@, push.repository.website@)], "PUSH_PUSHER_ID"@);
    lemma_last_value_concat(seq![("PUSH_REPOSITORY_DESCRIPTION"@, push.repository.description@)] + seq![("PUSH_REPOSITORY_PRIVATE"@, bool_text(push.repository.private))] + seq![("PUSH_REPOSITORY_FORK"@, bool_text(push.repository.fork))] + seq![("PUSH_REPOSITORY_HTML_URL"@, push.repository.html_url@)] + seq![("PUSH_REPOSITORY_SSH_URL"@, push.repository.ssh_url@)], seq![("PUSH_REPOSITORY_CLONE_URL"@, push.repository.clone_url@)], "PUSH_PUSHER_ID"@);
    lemma_last_value_concat(seq![("PUSH_REPOSITORY_DESCRIPTION"@, push.repository.description@)] + seq![("PUSH_REPOSITORY_PRIVATE"@, bool_text(push.repository.private))] + seq![("PUSH_REPOSITORY_FORK"@, bool_text(push.repository.fork))] + seq![("PUSH_REPOSITORY_HTML_URL"@, push.repository.html_url@)], seq![("PUSH_REPOSITORY_SSH_URL"@, push.repository.ssh_url@)], "PUSH_PUSHER_ID"@);
    lemma_last_value_concat(seq![("PUSH_REPOSITORY_DESCRIPTION"@, push.repository.description@)] + seq![("PUSH_REPOSITORY_PRIVATE"@, bool_text(push.repository.private))] + seq![("PUSH_REPOSITORY_FORK"@, bool_text(push.repository.fork))], seq![("PUSH_REPOSITORY_HTML_URL"@, push.repository.html_url@)], "PUSH_PUSHER_ID"@);
    lemma_last_value_concat(seq![("PUSH_REPOSITORY_DESCRIPTION"@, push.repository.description@)] + seq![("PUSH_REPOSITORY_PRIVATE"@, bool_text(push.repository.private))], seq![("PUSH_REPOSITORY_FORK"@, bool_text(push.repository.fork))], "PUSH_PUSHER_ID"@);
    lemma_last_value_concat(seq![("PUSH_REPOSITORY_DESCRIPTION"@, push.repository.description@)], seq![("PUSH_REPOSITORY_PRIVATE"@, bool_text(push.repository.private))], "PUSH_PUSHER_ID"@);
    lemma_last_value_single("PUSH_REPOSITORY_DESCRIPTION"@, push.repository.description@, "PUSH_PUSHER_ID"@);
    assert("PUSH_REPOSITORY_DESCRIPTION"@.len() != "PUSH_PUSHER_ID"@.len());
    lemma_last_value_single("PUSH_REPOSITORY_PRIVATE"@, bool_text(push.repository.private), "PUSH_PUSHER_ID"@);
    assert("PUSH_REPOSITORY_PRIVATE"@.len() != "PUSH_PUSHER_ID"@.len());
    lemma_last_value_single("PUSH_REPOSITORY_FORK"@, bool_text(push.repository.fork), "PUSH_PUSHER_ID"@);
    assert("PUSH_REPOSITORY_FORK"@.len() != "PUSH_PUSHER_ID"@.len());
    lemma_last_value_single("PUSH_REPOSITORY_HTML_URL"@, push.repository.html_url@, "PUSH_PUSHER_ID"@);
    assert("PUSH_REPOSITORY_HTML_URL"@.len() != "PUSH_PUSHER_ID"@.len());
    lemma_last_value_single("PUSH_REPOSITORY_SSH_URL"@, push.repository.ssh_url@, "PUSH_PUSHER_ID"@);
    assert("PUSH_REPOSITORY_SSH_URL"@.len() != "PUSH_PUSHER_ID"@.len());
    lemma_last_value_single("PUSH_REPOSITORY_CLONE_URL"@, push.repository.clone_url@, "PUSH_PUSHER_ID"@);
    assert("PUSH_REPOSITORY_CLONE_URL"@.len() != "PUSH_PUSHER_ID"@.len());
    lemma_last_value_single("PUSH_REPOSITORY_WEBSITE"@, push.repository.website@, "PUSH_PUSHER_ID"@);
    assert("PUSH_REPOSITORY_WEBSITE"@.len() != "PUSH_PUSHER_ID"@.len());
    lemma_last_value_single("PUSH_REPOSITORY_STARS_COUNT"@, decimal(push.repository.stars_count as nat), "PUSH_PUSHER_ID"@);
    assert("PUSH_REPOSITORY_STARS_COUNT"@.len() != "PUSH_PUSHER_ID"@.len());
    lemma_last_value_single("PUSH_REPOSITORY_FORKS_COUNT"@, decimal(push.repository.forks_count as nat), "PUSH_PUSHER_ID"@);
    assert("PUSH_REPOSITORY_FORKS_COUNT"@.len() != "PUSH_PUSHER_ID"@.len());
    lemma_last_value_single("PUSH_REPOSITORY_WATCHERS_COUNT"@, decimal(push.repository.watchers_count as nat), "PUSH_PUSHER_ID"@);
    assert("PUSH_REPOSITORY_WATCHERS_COUNT"@.len() != "PUSH_PUSHER_ID"@.len());
    lemma_last_value_single("PUSH_REPOSITORY_OPEN_ISSUES_COUNT"@, decimal(push.repository.open_issues_count as nat), "PUSH_PUSHER_ID"@);
    assert("PUSH_REPOSITORY_OPEN_ISSUES_COUNT"@.len() != "PUSH_PUSHER_ID"@.len());
    lemma_last_value_single("PUSH_REPOSITORY_DEFAULT_BRANCH"@, push.repository.default_branch@, "PUSH_PUSHER_ID"@);
    assert("PUSH_REPOSITORY_DEFAULT_BRANCH"@.len() != "PUSH_PUSHER_ID"@.len());
    lemma_last_value_concat(push_event_env_part1(push), push_event_env_part2(push), "PUSH_PUSHER_ID"@);
    lemma_last_value_concat(seq![("PUSH_SENDER_EMAIL"@, push.sender.email@)] + seq![("PUSH_SENDER_AVATAR_URL"@, push.sender.avatar_url@)] + seq![("PUSH_SENDER_USERNAME"@, push.sender.username@)] + seq![("PUSH_REPOSITORY_ID"@, decimal(push.repository.id as nat))] + seq![("PUSH_REPOSITORY_OWNER_ID"@, decimal(push.repository.owner.id as nat))] + seq![("PUSH_REPOSITORY_OWNER_LOGIN"@, push.repository.owner.login@)] + seq![("PUSH_REPOSITORY_OWNER_FULL_NAME"@, push.repository.owner.full_name@)] + seq![("PUSH_REPOSITORY_OWNER_EMAIL"@, push.repository.owner.email@)] + seq![("PUSH_REPOSITORY_OWNER_AVATAR_URL"@, push.repository.owner.avatar_url@)] + seq![("PUSH_REPOSITORY_OWNER_USERNAME"@, push.repository.owner.username@)] + seq![("PUSH_REPOSITORY_NAME"@, push.repository.name@)], seq![("PUSH_REPOSITORY_FULL_NAME"@, push.repository.full_name@)], "PUSH_PUSHER_ID"@);
    lemma_last_value_concat(seq![("PUSH_SENDER_EMAIL"@, push.sender.email@)] + seq![("PUSH_SENDER_AVATAR_URL"@, push.sender.avatar_url@)] + seq![("PUSH_SENDER_USERNAME"@, push.sender.username@)] + seq![("PUSH_REPOSITORY_ID"@, decimal(push.repository.id as nat))] + seq![("PUSH_REPOSITORY_OWNER_ID"@, decimal(push.repository.owner.id as nat))] + seq![("PUSH_REPOSITORY_OWNER_LOGIN"@, push.repository.owner.login@)] + seq![("PUSH_REPOSITORY_OWNER_FULL_NAME"@, push.repository.owner.full_name@)] + seq![("PUSH_REPOSITORY_OWNER_EMAIL"@, push.repository.owner.email@)] + seq![("PUSH_REPOSITORY_OWNER_AVATAR_URL"@, push.repository.owner.avatar_url@)] + seq![("PUSH_REPOSITORY_OWNER_USERNAME"@, push.repository.owner.username@)], seq![("PUSH_REPOSITORY_NAME"@, push.repository.name@)], "PUSH_PUSHER_ID"@);
    lemma_last_value_concat(seq![("PUSH_SENDER_EMAIL"@, push.sender.email@)] + seq![("PUSH_SENDER_AVATAR_URL"@, push.sender.avatar_url@)] + seq![("PUSH_SENDER_USERNAME"@, push.sender.username@)] + seq![("PUSH_REPOSITORY_ID"@, decimal(push.repository.id as nat))] + seq![("PUSH_REPOSITORY_OWNER_ID"@, decimal(push.repository.owner.id as nat))] + seq![("PUSH_REPOSITORY_OWNER_LOGIN"@, push.repository.owner.login@)] + seq![("PUSH_REPOSITORY_OWNER_FULL_NAME"@, push.repository.owner.full_name@)] + seq![("PUSH_REPOSITORY_OWNER_EMAIL"@, push.repository.owner.email@)] + seq![("PUSH_REPOSITORY_OWNER_AVATAR_URL"@, push.repository.owner.avatar_url@)], seq![("PUSH_REPOSITORY_OWNER_USERNAME"@, push.repository.owner.username@)], "PUSH_PUSHER_ID"@);
    lemma_last_value_concat(seq![("PUSH_SENDER_EMAIL"@, push.sender.email@)] + seq![("PUSH_SENDER_AVATAR_URL"@, push.sender.avatar_url@)] + seq![("PUSH_SENDER_USERNAME"@, push.sender.username@)] + seq![("PUSH_REPOSITORY_ID"@, decimal(push.repository.id as nat))] + seq![("PUSH_REPOSITORY_OWNER_ID"@, decimal(push.repository.owner.id as nat))] + seq![("PUSH_REPOSITORY_OWNER_LOGIN"@, push.repository.owner.login@)] + seq![("PUSH_REPOSITORY_OWNER_FULL_NAME"@, push.repository.owner.full_name@)] + seq![("PUSH_REPOSITORY_OWNER_EMAIL"@, push.repository.owner.email@)], seq![("PUSH_REPOSITORY_OWNER_AVATAR_URL"@, push.repository.owner.avatar_url@)], "PUSH_PUSHER_ID"@);
    lemma_last_value_concat(seq![("PUSH_SENDER_EMAIL"@, push.sender.email@)] + seq![("PUSH_SENDER_AVATAR_URL"@, push.sender.avatar_url@)] + seq![("PUSH_SENDER_USERNAME"@, push.sender.username@)] + seq![("PUSH_REPOSITORY_ID"@, decimal(push.repository.id as nat))] + seq![("PUSH_REPOSITORY_OWNER_ID"@, decimal(push.repository.owner.id as nat))] + seq![("PUSH_REPOSITORY_OWNER_LOGIN"@, push.repository.owner.login@)] + seq![("PUSH_REPOSITORY_OWNER_FULL_NAME"@, push.repository.owner.full_name@)], seq![("PUSH_REPOSITORY_OWNER_EMAIL"@, push.repository.owner.email@)], "PUSH_PUSHER_ID"@);
    lemma_last_value_concat(seq![("PUSH_SENDER_EMAIL"@, push.sender.email@)] + seq![("PUSH_SENDER_AVATAR_URL"@, push.sender.avatar_url@)] + seq![("PUSH_SENDER_USERNAME"@, push.sender.username@)] + seq![("PUSH_REPOSITORY_ID"@, decimal(push.repository.id as nat))] + seq![("PUSH_REPOSITORY_OWNER_ID"@, decimal(push.repository.owner.id as nat))] + seq![("PUSH_REPOSITORY_OWNER_LOGIN"@, push.repository.owner.login@)], seq![("PUSH_REPOSITORY_OWNER_FULL_NAME"@, push.repository.owner.full_name@)], "PUSH_PUSHER_ID"@);
    lemma_last_value_concat(seq![("PUSH_SENDER_EMAIL"@, push.sender.email@)] + seq![("PUSH_SENDER_AVATAR_URL"@, push.sender.avatar_url@)] + seq![("PUSH_SENDER_USERNAME"@, push.sender.username@)] + seq![("PUSH_REPOSITORY_ID"@, decimal(push.repository.id as nat))] + seq![("PUSH_REPOSITORY_OWNER_ID"@, decimal(push.repository.owner.id as nat))], seq![("PUSH_REPOSITORY_OWNER_LOGIN"@, push.repository.owner.login@)], "PUSH_PUSHER_ID"@);
    lemma_last_value_concat(seq![("PUSH_SENDER_EMAIL"@, push.sender.email@)] + seq![("PUSH_SENDER_AVATAR_URL"@, push.sender.avatar_url@)] + seq![("PUSH_SENDER_USERNAME"@, push.sender.username@)] + seq![("PUSH_REPOSITORY_ID"@, decimal(push.repository.id as nat))], seq![("PUSH_REPOSITORY_OWNER_ID"@, decimal(push.repository.owner.id as nat))], "PUSH_PUSHER_ID"@);
    lemma_last_value_concat(seq![("PUSH_SENDER_EMAIL"@, push.sender.email@)] + seq![("PUSH_SENDER_AVATAR_URL"@, push.sender.avatar_url@)] + seq![("PUSH_SENDER_USERNAME"@, push.sender.username@)], seq![("PUSH_REPOSITORY_ID"@, decimal(push.repository.id as nat))], "PUSH_PUSHER_ID"@);
    lemma_last_value_concat(seq![("PUSH_SENDER_EMAIL"@, push.sender.email@)] + seq![("PUSH_SENDER_AVATAR_URL"@, push.sender.avatar_url@)], seq![("PUSH_SENDER_USERNAME"@, push.sender.username@)], "PUSH_PUSHER_ID"@);
    lemma_last_value_concat(seq![("PUSH_SENDER_EMAIL"@, push.sender.email@)], seq![("PUSH_SENDER_AVATAR_URL"@, push.sender.avatar_url@)], "PUSH_PUSHER_ID"@);
    lemma_last_value_single("PUSH_SENDER_EMAIL"@, push.sender.email@, "PUSH_PUSHER_ID"@);
    assert("PUSH_SENDER_EMAIL"@.len() != "PUSH_PUSHER_ID"@.len());
    lemma_last_value_single("PUSH_SENDER_AVATAR_URL"@, push.sender.avatar_url@, "PUSH_PUSHER_ID"@);
    assert("PUSH_SENDER_AVATAR_URL"@.len() != "PUSH_PUSHER_ID"@.len());
    lemma_last_value_single("PUSH_SENDER_USERNAME"@, push.sender.username@, "PUSH_PUSHER_ID"@);
    assert("PUSH_SENDER_USERNAME"@.len() != "PUSH_PUSHER_ID"@.len());
    lemma_last_value_single("PUSH_REPOSITORY_ID"@, decimal(push.repository.id as nat), "PUSH_PUSHER_ID"@);
    assert("PUSH_REPOSITORY_ID"@.len() != "PUSH_PUSHER_ID"@.len());
    lemma_last_value_single("PUSH_REPOSITORY_OWNER_ID"@, decimal(push.repository.owner.id as nat), "PUSH_PUSHER_ID"@);
    assert("PUSH_REPOSITORY_OWNER_ID"@.len() != "PUSH_PUSHER_ID"@.len());
    lemma_last_value_single("PUSH_REPOSITORY_OWNER_LOGIN"@, push.repository.owner.login@, "PUSH_PUSHER_ID"@);
    assert("PUSH_REPOSITORY_OWNER_LOGIN"@.len() != "PUSH_PUSHER_ID"@.len());
    lemma_last_value_single("PUSH_REPOSITORY_OWNER_FULL_NAME"@, push.repository.owner.full_name@, "PUSH_PUSHER_ID"@);
    assert("PUSH_REPOSITORY_OWNER_FULL_NAME"@.len() != "PUSH_PUSHER_ID"@.len());
    lemma_last_value_single("PUSH_REPOSITORY_OWNER_EMAIL"@, push.repository.owner.email@, "PUSH_PUSHER_ID"@);
    assert("PUSH_REPOSITORY_OWNER_EMAIL"@.len() != "PUSH_PUSHER_ID"@.len());
    lemma_last_value_single("PUSH_REPOSITORY_OWNER_AVATAR_URL"@, push.repository.owner.avatar_url@, "PUSH_PUSHER_ID"@);
    assert("PUSH_REPOSITORY_OWNER_AVATAR_URL"@.len() != "PUSH_PUSHER_ID"@.len());
    lemma_last_value_single("PUSH_REPOSITORY_OWNER_USERNAME"@, push.repository.owner.username@, "PUSH_PUSHER_ID"@);
    assert("PUSH_REPOSITORY_OWNER_USERNAME"@.len() != "PUSH_PUSHER_ID"@.len());
    lemma_last_value_single("PUSH_REPOSITORY_NAME"@, push.repository.name@, "PUSH_PUSHER_ID"@);
    assert("PUSH_REPOSITORY_NAME"@.len() != "PUSH_PUSHER_ID"@.len());
    lemma_last_value_single("PUSH_REPOSITORY_FULL_NAME"@, push.repository.full_name@, "PUSH_PUSHER_ID"@);
    assert("PUSH_REPOSITORY_FULL_NAME"@.len() != "PUSH_PUSHER_ID"@.len());
    lemma_last_value_concat(seq![("PUSH_REF_PATH"@, push.ref_path@)] + seq![("PUSH_BEFORE"@, push.before@)] + seq![("PUSH_AFTER"@, push.after@)] + seq![("PUSH_PUSHER_ID"@, decimal(push.pusher.id as nat))] + seq![("PUSH_PUSHER_LOGIN"@, push.pusher.login@)] + seq![("PUSH_PUSHER_FULL_NAME"@, push.pusher.full_name@)] + seq![("PUSH_PUSHER_EMAIL"@, push.pusher.email@)] + seq![("PUSH_PUSHER_AVATAR_URL"@, push.pusher.avatar_url@)] + seq![("PUSH_PUSHER_USERNAME"@, push.pusher.username@)] + seq![("PUSH_SENDER_ID"@, decimal(push.sender.id as nat))] + seq![("PUSH_SENDER_LOGIN"@, push.sender.login@)], seq![("PUSH_SENDER_FULL_NAME"@, push.sender.full_name@)], "PUSH_PUSHER_ID"@);
    lemma_last_value_single("PUSH_SENDER_FULL_NAME"@, push.sender.full_name@, "PUSH_PUSHER_ID"@);
    assert("PUSH_SENDER_FULL_NAME"@.len() != "PUSH_PUSHER_ID"@.len());
    lemma_last_value_concat(seq![("PUSH_REF_PATH"@, push.ref_path@)] + seq![("PUSH_BEFORE"@, push.before@)] + seq![("PUSH_AFTER"@, push.after@)] + seq![("PUSH_PUSHER_ID"@, decimal(push.pusher.id as nat))] + seq![("PUSH_PUSHER_LOGIN"@, push.pusher.login@)] + seq![("PUSH_PUSHER_FULL_NAME"@, push.pusher.full_name@)] + seq![("PUSH_PUSHER_EMAIL"@, push.pusher.email@)] + seq![("PUSH_PUSHER_AVATAR_URL"@, push.pusher.avatar_url@)] + seq![("PUSH_PUSHER_USERNAME"@, push.pusher.username@)] + seq![("PUSH_SENDER_ID"@, decimal(push.sender.id as nat))], seq![("PUSH_SENDER_LOGIN"@, push.sender.login@)], "PUSH_PUSHER_ID"@);
    lemma_last_value_single("PUSH_SENDER_LOGIN"@, push.sender.login@, "PUSH_PUSHER_ID"@);
    assert("PUSH_SENDER_LOGIN"@.len() != "PUSH_PUSHER_ID"@.len());
    lemma_last_value_concat(seq![("PUSH_REF_PATH"@, push.ref_path@)] + seq![("PUSH_BEFORE"@, push.before@)] + seq![("PUSH_AFTER"@, push.after@)] + seq![("PUSH_PUSHER_ID"@, decimal(push.pusher.id as nat))] + seq![("PUSH_PUSHER_LOGIN"@, push.pusher.login@)] + seq![("PUSH_PUSHER_FULL_NAME"@, push.pusher.full_name@)] + seq![("PUSH_PUSHER_EMAIL"@, push.pusher.email@)] + seq![("PUSH_PUSHER_AVATAR_URL"@, push.pusher.avatar_url@)] + seq![("PUSH_PUSHER_USERNAME"@, push.pusher.username@)], seq![("PUSH_SENDER_ID"@, decimal(push.sender.id as nat))], "PUSH_PUSHER_ID"@);
    lemma_last_value_single("PUSH_SENDER_ID"@, decimal(push.sender.id as nat), "PUSH_PUSHER_ID"@);
    assert("PUSH_SENDER_ID"@[5] != "PUSH_PUSHER_ID"@[5]);
    lemma_last_value_concat(seq![("PUSH_REF_PATH"@, push.ref_path@)] + seq![("PUSH_BEFORE"@, push.before@)] + seq![("PUSH_AFTER"@, push.after@)] + seq![("PUSH_PUSHER_ID"@, decimal(push.pusher.id as nat))] + seq![("PUSH_PUSHER_LOGIN"@, push.pusher.login@)] + seq![("PUSH_PUSHER_FULL_NAME"@, push.pusher.full_name@)] + seq![("PUSH_PUSHER_EMAIL"@, push.pusher.email@)] + seq![("PUSH_PUSHER_AVATAR_URL"@, push.pusher.avatar_url@)], seq![("PUSH_PUSHER_USERNAME"@, push.pusher.username@)], "PUSH_PUSHER_ID"@);
    lemma_last_value_single("PUSH_PUSHER_USERNAME"@, push.pusher.username@, "PUSH_PUSHER_ID"@);
    assert("PUSH_PUSHER_USERNAME"@.len() != "PUSH_PUSHER_ID"@.len());
    lemma_last_value_concat(seq![("PUSH_REF_PATH"@, push.ref_path@)] + seq![("PUSH_BEFORE"@, push.before@)] + seq![("PUSH_AFTER"@, push.after@)] + seq![("PUSH_PUSHER_ID"@, decimal(push.pusher.id as nat))] + seq![("PUSH_PUSHER_LOGIN"@, push.pusher.login@)] + seq![("PUSH_PUSHER_FULL_NAME"@, push.pusher.full_name@)] + seq![("PUSH_PUSHER_EMAIL"@, push.pusher.email@)], seq![("PUSH_PUSHER_AVATAR_URL"@, push.pusher.avatar_url@)], "PUSH_PUSHER_ID"@);
    lemma_last_value_single("PUSH_PUSHER_AVATAR_URL"@, push.pusher.avatar_url@, "PUSH_PUSHER_ID"@);
    assert("PUSH_PUSHER_AVATAR_URL"@.len() != "PUSH_PUSHER_ID"@.len());
    lemma_last_value_concat(seq![("PUSH_REF_PATH"@, push.ref_path@)] + seq![("PUSH_BEFORE"@, push.before@)] + seq![("PUSH_AFTER"@, push.after@)] + seq![("PUSH_PUSHER_ID"@, decimal(push.pusher.id as nat))] + seq![("PUSH_PUSHER_LOGIN"@, push.pusher.login@)] + seq![("PUSH_PUSHER_FULL_NAME"@, push.pusher.full_name@)], seq![("PUSH_PUSHER_EMAIL"@, push.pusher.email@)], "PUSH_PUSHER_ID"@);
    lemma_last_value_single("PUSH_PUSHER_EMAIL"@, push.pusher.email@, "PUSH_PUSHER_ID"@);
    assert("PUSH_PUSHER_EMAIL"@.len() != "PUSH_PUSHER_ID"@.len());
    lemma_last_value_concat(seq![("PUSH_REF_PATH"@, push.ref_path@)] + seq![("PUSH_BEFORE"@, push.before@)] + seq![("PUSH_AFTER"@, push.after@)] + seq![("PUSH_PUSHER_ID"@, decimal(push.pusher.id as nat))] + seq![("PUSH_PUSHER_LOGIN"@, push.pusher.login@)], seq![("PUSH_PUSHER_FULL_NAME"@, push.pusher.full_name@)], "PUSH_PUSHER_ID"@);
    lemma_last_value_single("PUSH_PUSHER_FULL_NAME"@, push.pusher.full_name@, "PUSH_PUSHER_ID"@);
    assert("PUSH_PUSHER_FULL_NAME"@.len() != "PUSH_PUSHER_ID"@.len());
    lemma_last_value_concat(seq![("PUSH_REF_PATH"@, push.ref_path@)] + seq![("PUSH_BEFORE"@, push.before@)] + seq![("PUSH_AFTER"@, push.after@)] + seq![("PUSH_PUSHER_ID"@, decimal(push.pusher.id as nat))], seq![("PUSH_PUSHER_LOGIN"@, push.pusher.login@)], "PUSH_PUSHER_ID"@);
    lemma_last_value_single("PUSH_PUSHER_LOGIN"@, push.pusher.login@, "PUSH_PUSHER_ID"@);
    assert("PUSH_PUSHER_LOGIN"@.len() != "PUSH_PUSHER_ID"@.len());
    lemma_last_value_concat(seq![("PUSH_REF_PATH"@, push.ref_path@)] + seq![("PUSH_BEFORE"@, push.before@)] + seq![("PUSH_AFTER"@, push.after@)], seq![("PUSH_PUSHER_ID"@, decimal(push.pusher.id as nat))], "PUSH_PUSHER_ID"@);
    lemma_last_value_single("PUSH_PUSHER_ID"@, decimal(push.pusher.id as nat), "PUSH_PUSHER_ID"@);
}

/// The command that answers a push leaves the push's pusher login in PUSH_PUSHER_LOGIN.
pub proof fn lemma_push_event_pusher_login(push: PushEvent)
    ensures
        last_value(push_event_command(push).envs, "PUSH_PUSHER_LOGIN"@) == Some(push.pusher.login@),
{
    reveal_strlit("PUSH_REF_PATH");
    reveal_strlit("PUSH_BEFORE");
    reveal_strlit("PUSH_AFTER");
    reveal_strlit("PUSH_PUSHER_ID");
    reveal_strlit("PUSH_PUSHER_LOGIN");
    reveal_strlit("PUSH_PUSHER_FULL_NAME");
    reveal_strlit("PUSH_PUSHER_EMAIL");
    reveal_strlit("PUSH_PUSHER_AVATAR_URL");
    reveal_strlit("PUSH_PUSHER_USERNAME");
    reveal_strlit("PUSH_SENDER_ID");
    reveal_strlit("PUSH_SENDER_LOGIN");
    reveal_strlit("PUSH_SENDER_FULL_NAME");
    reveal_strlit("PUSH_SENDER_EMAIL");
    reveal_strlit("PUSH_SENDER_AVATAR_URL");
    reveal_strlit("PUSH_SENDER_USERNAME");
    reveal_strlit("PUSH_REPOSITORY_ID");
    reveal_strlit("PUSH_REPOSITORY_OWNER_ID");
    reveal_strlit("PUSH_REPOSITORY_OWNER_LOGIN");
    reveal_strlit("PUSH_REPOSITORY_OWNER_FULL_NAME");
    reveal_strlit("PUSH_REPOSITORY_OWNER_EMAIL");
    reveal_strlit("PUSH_REPOSITORY_OWNER_AVATAR_URL");
    reveal_strlit("PUSH_REPOSITORY_OWNER_USERNAME");
    reveal_strlit("PUSH_REPOSITORY_NAME");
    reveal_strlit("PUSH_REPOSITORY_FULL_NAME");
    reveal_strlit("PUSH_REPOSITORY_DESCRIPTION");
    reveal_strlit("PUSH_REPOSITORY_PRIVATE");
    reveal_strlit("PUSH_REPOSITORY_FORK");
    reveal_strlit("PUSH_REPOSITORY_HTML_URL");
    reveal_strlit("PUSH_REPOSITORY_SSH_URL");
    reveal_strlit("PUSH_REPOSITORY_CLONE_URL");
    reveal_strlit("PUSH_REPOSITORY_WEBSITE");
    reveal_strlit("PUSH_REPOSITORY_STARS_COUNT");
    reveal_strlit("PUSH_REPOSITORY_FORKS_COUNT");
    reveal_strlit("PUSH_REPOSITORY_WATCHERS_COUNT");
    reveal_strlit("PUSH_REPOSITORY_OPEN_ISSUES_COUNT");
    reveal_strlit("PUSH_REPOSITORY_DEFAULT_BRANCH");
    reveal_strlit("PUSH_REPOSITORY_CREATED_AT");
    reveal_strlit("PUSH_REPOSITORY_UPDATED_AT");
    lemma_last_value_concat(push_event_env_part1(push) + push_event_env_part2(push) + push_event_env_part3(push), push_event_env_part4(push), "PUSH_PUSHER_LOGIN"@);
    lemma_last_value_concat(seq![("PUSH_REPOSITORY_CREATED_AT"@, push.repository.created_at@)], seq![("PUSH_REPOSITORY_UPDATED_AT"@, push.repository.updated_at@)], "PUSH_PUSHER_LOGIN"@);
    lemma_last_value_single("PUSH_REPOSITORY_CREATED_AT"@, push.repository.created_at@, "PUSH_PUSHER_LOGIN"@);
    assert("PUSH_REPOSITORY_CREATED_AT"@.len() != "PUSH_PUSHER_LOGIN"@.len());
    lemma_last_value_single("PUSH_REPOSITORY_UPDATED_AT"@, push.repository.updated_at@, "PUSH_PUSHER_LOGIN"@);
    assert("PUSH_REPOSITORY_UPDATED_AT"@.len() != "PUSH_PUSHER_LOGIN"@.len());
    lemma_last_value_concat(push_event_env_part1(push) + push_event_env_part2(push), push_event_env_part3(push), "PUSH_PUSHER_LOGIN"@);
    lemma_last_value_concat(seq![("PUSH_REPOSITORY_DESCRIPTION"@, push.repository.description@)] + seq![("PUSH_REPOSITORY_PRIVATE"@, bool_text(push.repository.private))] + seq![("PUSH_REPOSITORY_FORK"@, bool_text(push.repository.fork))] + seq![("PUSH_REPOSITORY_HTML_URL"@, push.repository.html_url@)] + seq![("PUSH_REPOSITORY_SSH_URL"@, push.repository.ssh_url@)] + seq![("PUSH_REPOSITORY_CLONE_URL"@, push.repository.clone_url@)] + seq![("PUSH_REPOSITORY_WEBSITE"@, push.repository.website@)] + seq![("PUSH_REPOSITORY_STARS_COUNT"@, decimal(push.repository.stars_count as nat))] + seq![("PUSH_REPOSITORY_FORKS_COUNT"@, decimal(push.repository.forks_count as nat))] + seq![("PUSH_REPOSITORY_WATCHERS_COUNT"@, decimal(push.repository.watchers_count as nat))] + seq![("PUSH_REPOSITORY_OPEN_ISSUES_COUNT"@, decimal(push.repository.open_issues_count as nat))], seq![("PUSH_REPOSITORY_DEFAULT_BRANCH"@, push.repository.default_branch@)], "PUSH_PUSHER_LOGIN"@);
    lemma_last_value_concat(seq![("PUSH_REPOSITORY_DESCRIPTION"@, push.repository.description@)] + seq![("PUSH_REPOSITORY_PRIVATE"@, bool_text(push.repository.private))] + seq![("PUSH_REPOSITORY_FORK"@, bool_text(push.repository.fork))] + seq![("PUSH_REPOSITORY_HTML_URL"@, push.repository.html_url@)] + seq![("PUSH_REPOSITORY_SSH_URL"@, push.repository.ssh_url@)] + seq![("PUSH_REPOSITORY_CLONE_URL"@, push.repository.clone_url@)] + seq![("PUSH_REPOSITORY_WEBSITE"@, push.repository.website@)] + seq![("PUSH_REPOSITORY_STARS_COUNT"@, decimal(push.repository.stars_count as nat))] + seq![("PUSH_REPOSITORY_FORKS_COUNT"@, decimal(push.repository.forks_count as nat))] + seq![("PUSH_REPOSITORY_WATCHERS_COUNT"@, decimal(push.repository.watchers_count as nat))], seq![("PUSH_REPOSITORY_OPEN_ISSUES_COUNT"@, decimal(push.repository.open_issues_count as nat))], "PUSH_PUSHER_LOGIN"@);
    lemma_last_value_concat(seq![("PUSH_REPOSITORY_DESCRIPTION"@, push.repository.description@)] + seq![("PUSH_REPOSITORY_PRIVATE"@, bool_text(push.repository.private))] + seq![("PUSH_REPOSITORY_FORK"@, bool_text(push.repository.fork))] + seq![("PUSH_REPOSITORY_HTML_URL"@, push.repository.html_url@)] + seq![("PUSH_REPOSITORY_SSH_URL"@, push.repository.ssh_url@)] + seq![("PUSH_REPOSITORY_CLONE_URL"@, push.repository.clone_url@)] + seq![("PUSH_REPOSITORY_WEBSITE"@, push.repository.website@)] + seq![("PUSH_REPOSITORY_STARS_COUNT"@, decimal(push.repository.stars_count as nat))] + seq![("PUSH_REPOSITORY_FORKS_COUNT"@, decimal(push.repository.forks_count as nat))], seq![("PUSH_REPOSITORY_WATCHERS_COUNT"@, decimal(push.repository.watchers_count as nat))], "PUSH_PUSHER_LOGIN"@);
    lemma_last_value_concat(seq![("PUSH_REPOSITORY_DESCRIPTION"@, push.repository.description@)] + seq![("PUSH_REPOSITORY_PRIVATE"@, bool_text(push.repository.private))] + seq![("PUSH_REPOSITORY_FORK"@, bool_text(push.repository.fork))] + seq![("PUSH_REPOSITORY_HTML_URL"@, push.repository.html_url@)] + seq![("PUSH_REPOSITORY_SSH_URL"@, push.repository.ssh_url@)] + seq![("PUSH_REPOSITORY_CLONE_URL"@, push.repository.clone_url@)] + seq![("PUSH_REPOSITORY_WEBSITE"@, push.repository.website@)] + seq![("PUSH_REPOSITORY_STARS_COUNT"@, decimal(push.repository.stars_count as nat))], seq![("PUSH_REPOSITORY_FORKS_COUNT"@, decimal(push.repository.forks_count as nat))], "PUSH_PUSHER_LOGIN"@);
    lemma_last_value_concat(seq![("PUSH_REPOSITORY_DESCRIPTION"@, push.repository.description@)] + seq![("PUSH_REPOSITORY_PRIVATE"@, bool_text(push.repository.private))] + seq![("PUSH_REPOSITORY_FORK"@, bool_text(push.repository.fork))] + seq![("PUSH_REPOSITORY_HTML_URL"@, push.repository.html_url@)] + seq![("PUSH_REPOSITORY_SSH_URL"@, push.repository.ssh_url@)] + seq![("PUSH_REPOSITORY_CLONE_URL"@, push.repository.clone_url@)] + seq![("PUSH_REPOSITORY_WEBSITE"@, push.repository.website@)], seq![("PUSH_REPOSITORY_STARS_COUNT"@, decimal(push.repository.stars_count as nat))], "PUSH_PUSHER_LOGIN"@);
    lemma_last_value_concat(seq![("PUSH_REPOSITORY_DESCRIPTION"@, push.repository.description@)] + seq![("PUSH_REPOSITORY_PRIVATE"@, bool_text(push.repository.private))] + seq![("PUSH_REPOSITORY_FORK"@, bool_text(push.repository.fork))] + seq![("PUSH_REPOSITORY_HTML_URL"@, push.repository.html_url@)] + seq![("PUSH_REPOSITORY_SSH_URL"@, push.repository.ssh_url@)] + seq![("PUSH_REPOSITORY_CLONE_URL"@, push.repository.clone_url@)], seq![("PUSH_REPOSITORY_WEBSITE"@, push.repository.website@)], "PUSH_PUSHER_LOGIN"@);
    lemma_last_value_concat(seq![("PUSH_REPOSITORY_DESCRIPTION"@, push.repository.description@)] + seq![("PUSH_REPOSITORY_PRIVATE"@, bool_text(push.repository.private))] + seq![("PUSH_REPOSITORY_FORK"@, bool_text(push.repository.fork))] + seq![("PUSH_REPOSITORY_HTML_URL"@, push.repository.html_url@)] + seq![("PUSH_REPOSITORY_SSH_URL"@, push.repository.ssh_url@)], seq![("PUSH_REPOSITORY_CLONE_URL"@, push.repository.clone_url@)], "PUSH_PUSHER_LOGIN"@);
    lemma_last_value_concat(seq![("PUSH_REPOSITORY_DESCRIPTION"@, push.repository.description@)] + seq![("PUSH_REPOSITORY_PRIVATE"@, bool_text(push.repository.private))] + seq![("PUSH_REPOSITORY_FORK"@, bool_text(push.repository.fork))] + seq![("PUSH_REPOSITORY_HTML_URL"@, push.repository.html_url@)], seq![("PUSH_REPOSITORY_SSH_URL"@, push.repository.ssh_url@)], "PUSH_PUSHER_LOGIN"@);
    lemma_last_value_concat(seq![("PUSH_REPOSITORY_DESCRIPTION"@, push.repository.description@)] + seq![("PUSH_REPOSITORY_PRIVATE"@, bool_text(push.repository.private))] + seq![("PUSH_REPOSITORY_FORK"@, bool_text(push.repository.fork))], seq![("PUSH_REPOSITORY_HTML_URL"@, push.repository.html_url@)], "PUSH_PUSHER_LOGIN"@);
    lemma_last_value_concat(seq![("PUSH_REPOSITORY_DESCRIPTION"@, push.repository.description@)] + seq![("PUSH_REPOSITORY_PRIVATE"@, bool_text(push.repository.private))], seq![("PUSH_REPOSITORY_FORK"@, bool_text(push.repository.fork))], "PUSH_PUSHER_LOGIN"@);
    lemma_last_value_concat(seq![("PUSH_REPOSITORY_DESCRIPTION"@, push.repository.description@)], seq![("PUSH_REPOSITORY_PRIVATE"@, bool_text(push.repository.private))], "PUSH_PUSHER_LOGIN"@);
    lemma_last_value_single("PUSH_REPOSITORY_DESCRIPTION"@, push.repository.description@, "PUSH_PUSHER_LOGIN"@);
    assert("PUSH_REPOSITORY_DESCRIPTION"@.len() != "PUSH_PUSHER_LOGIN"@.len());
    lemma_last_value_single("PUSH_REPOSITORY_PRIVATE"@, bool_text(push.repository.private), "PUSH_PUSHER_LOGIN"@);
    assert("PUSH_REPOSITORY_PRIVATE"@.len() != "PUSH_PUSHER_LOGIN"@.len());
    lemma_last_value_single("PUSH_REPOSITORY_FORK"@, bool_text(push.repository.fork), "PUSH_PUSHER_LOGIN"@);
    assert("PUSH_REPOSITORY_FORK"@.len() != "PUSH_PUSHER_LOGIN"@.len());
    lemma_last_value_single("PUSH_REPOSITORY_HTML_URL"@, push.repository.html_url@, "PUSH_PUSHER_LOGIN"@);
    assert("PUSH_REPOSITORY_HTML_URL"@.len() != "PUSH_PUSHER_LOGIN"@.len());
    lemma_last_value_single("PUSH_REPOSITORY_SSH_URL"@, push.repository.ssh_url@, "PUSH_PUSHER_LOGIN"@);
    assert("PUSH_REPOSITORY_SSH_URL"@.len() != "PUSH_PUSHER_LOGIN"@.len());
    lemma_last_value_single("PUSH_REPOSITORY_CLONE_URL"@, push.repository.clone_url@, "PUSH_PUSHER_LOGIN"@);
    assert("PUSH_REPOSITORY_CLONE_URL"@.len() != "PUSH_PUSHER_LOGIN"@.len());
    lemma_last_value_single("PUSH_REPOSITORY_WEBSITE"@, push.repository.website@, "PUSH_PUSHER_LOGIN"@);
    assert("PUSH_REPOSITORY_WEBSITE"@.len() != "PUSH_PUSHER_LOGIN"@.len());
    lemma_last_value_single("PUSH_REPOSITORY_STARS_COUNT"@, decimal(push.repository.stars_count as nat), "PUSH_PUSHER_LOGIN"@);
    assert("PUSH_REPOSITORY_STARS_COUNT"@.len() != "PUSH_PUSHER_LOGIN"@.len());
    lemma_last_value_single("PUSH_REPOSITORY_FORKS_COUNT"@, decimal(push.repository.forks_count as nat), "PUSH_PUSHER_LOGIN"@);
    assert("PUSH_REPOSITORY_FORKS_COUNT"@.len() != "PUSH_PUSHER_LOGIN"@.len());
    lemma_last_value_single("PUSH_REPOSITORY_WATCHERS_COUNT"@, decimal(push.repository.watchers_count as nat), "PUSH_PUSHER_LOGIN"@);
    assert("PUSH_REPOSITORY_WATCHERS_COUNT"@.len() != "PUSH_PUSHER_LOGIN"@.len());
    lemma_last_value_single("PUSH_REPOSITORY_OPEN_ISSUES_COUNT"@, decimal(push.repository.open_issues_count as nat), "PUSH_PUSHER_LOGIN"@);
    assert("PUSH_REPOSITORY_OPEN_ISSUES_COUNT"@.len() != "PUSH_PUSHER_LOGIN"@.len());
    lemma_last_value_single("PUSH_REPOSITORY_DEFAULT_BRANCH"@, push.repository.default_branch@, "PUSH_PUSHER_LOGIN"@);
    assert("PUSH_REPOSITORY_DEFAULT_BRANCH"@.len() != "PUSH_PUSHER_LOGIN"@.len());
    lemma_last_value_concat(push_event_env_part1(push), push_event_env_part2(push), "PUSH_PUSHER_LOGIN"@);
    lemma_last_value_concat(seq![("PUSH_SENDER_EMAIL"@, push.sender.email@)] + seq![("PUSH_SENDER_AVATAR_URL"@, push.sender.avatar_url@)] + seq![("PUSH_SENDER_USERNAME"@, push.sender.username@)] + seq![("PUSH_REPOSITORY_ID"@, decimal(push.repository.id as nat))] + seq![("PUSH_REPOSITORY_OWNER_ID"@, decimal(push.repository.owner.id as nat))] + seq![("PUSH_REPOSITORY_OWNER_LOGIN"@, push.repository.owner.login@)] + seq![("PUSH_REPOSITORY_OWNER_FULL_NAME"@, push.repository.owner.full_name@)] + seq![("PUSH_REPOSITORY_OWNER_EMAIL"@, push.repository.owner.email@)] + seq![("PUSH_REPOSITORY_OWNER_AVATAR_URL"@, push.repository.owner.avatar_url@)] + seq![("PUSH_REPOSITORY_OWNER_USERNAME"@, push.repository.owner.username@)] + seq![("PUSH_REPOSITORY_NAME"@, push.repository.name@)], seq![("PUSH_REPOSITORY_FULL_NAME"@, push.repository.full_name@)], "PUSH_PUSHER_LOGIN"@);
    lemma_last_value_concat(seq![("PUSH_SENDER_EMAIL"@, push.sender.email@)] + seq![("PUSH_SENDER_AVATAR_URL"@, push.sender.avatar_url@)] + seq![("PUSH_SENDER_USERNAME"@, push.sender.username@)] + seq![("PUSH_REPOSITORY_ID"@, decimal(push.repository.id as nat))] + seq![("PUSH_REPOSITORY_OWNER_ID"@, decimal(push.repository.owner.id as nat))] + seq![("PUSH_REPOSITORY_OWNER_LOGIN"@, push.repository.owner.login@)] + seq![("PUSH_REPOSITORY_OWNER_FULL_NAME"@, push.repository.owner.full_name@)] + seq![("PUSH_REPOSITORY_OWNER_EMAIL"@, push.repository.owner.email@)] + seq![("PUSH_REPOSITORY_OWNER_AVATAR_URL"@, push.repository.owner.avatar_url@)] + seq![("PUSH_REPOSITORY_OWNER_USERNAME"@, push.repository.owner.username@)], seq![("PUSH_REPOSITORY_NAME"@, push.repository.name@)], "PUSH_PUSHER_LOGIN"@);
    lemma_last_value_concat(seq![("PUSH_SENDER_EMAIL"@, push.sender.email@)] + seq![("PUSH_SENDER_AVATAR_URL"@, push.sender.avatar_url@)] + seq![("PUSH_SENDER_USERNAME"@, push.sender.username@)] + seq![("PUSH_REPOSITORY_ID"@, decimal(push.repository.id as nat))] + seq![("PUSH_REPOSITORY_OWNER_ID"@, decimal(push.repository.owner.id as nat))] + seq![("PUSH_REPOSITORY_OWNER_LOGIN"@, push.repository.owner.login@)] + seq![("PUSH_REPOSITORY_OWNER_FULL_NAME"@, push.repository.owner.full_name@)] + seq![("PUSH_REPOSITORY_OWNER_EMAIL"@, push.repository.owner.email@)] + seq![("PUSH_REPOSITORY_OWNER_AVATAR_URL"@, push.repository.owner.avatar_url@)], seq![("PUSH_REPOSITORY_OWNER_USERNAME"@, push.repository.owner.username@)], "PUSH_PUSHER_LOGIN"@);
    lemma_last_value_concat(seq![("PUSH_SENDER_EMAIL"@, push.sender.email@)] + seq![("PUSH_SENDER_AVATAR_URL"@, push.sender.avatar_url@)] + seq![("PUSH_SENDER_USERNAME"@, push.sender.username@)] + seq![("PUSH_REPOSITORY_ID"@, decimal(push.repository.id as nat))] + seq![("PUSH_REPOSITORY_OWNER_ID"@, decimal(push.repository.owner.id as nat))] + seq![("PUSH_REPOSITORY_OWNER_LOGIN"@, push.repository.owner.login@)] + seq![("PUSH_REPOSITORY_OWNER_FULL_NAME"@, push.repository.owner.full_name@)] + seq![("PUSH_REPOSITORY_OWNER_EMAIL"@, push.repository.owner.email@)], seq![("PUSH_REPOSITORY_OWNER_AVATAR_URL"@, push.repository.owner.avatar_url@)], "PUSH_PUSHER_LOGIN"@);
    lemma_last_value_concat(seq![("PUSH_SENDER_EMAIL"@, push.sender.email@)] + seq![("PUSH_SENDER_AVATAR_URL"@, push.sender.avatar_url@)] + seq![("PUSH_SENDER_USERNAME"@, push.sender.username@)] + seq![("PUSH_REPOSITORY_ID"@, decimal(push.repository.id as nat))] + seq![("PUSH_REPOSITORY_OWNER_ID"@, decimal(push.repository.owner.id as nat))] + seq![("PUSH_REPOSITORY_OWNER_LOGIN"@, push.repository.owner.login@)] + seq![("PUSH_REPOSITORY_OWNER_FULL_NAME"@, push.repository.owner.full_name@)], seq![("PUSH_REPOSITORY_OWNER_EMAIL"@, push.repository.owner.email@)], "PUSH_PUSHER_LOGIN"@);
    lemma_last_value_concat(seq![("PUSH_SENDER_EMAIL"@, push.sender.email@)] + seq![("PUSH_SENDER_AVATAR_URL"@, push.sender.avatar_url@)] + seq![("PUSH_SENDER_USERNAME"@, push.sender.username@)] + seq![("PUSH_REPOSITORY_ID"@, decimal(push.repository.id as nat))] + seq![("PUSH_REPOSITORY_OWNER_ID"@, decimal(push.repository.owner.id as nat))] + seq![("PUSH_REPOSITORY_OWNER_LOGIN"@, push.repository.owner.login@)], seq![("PUSH_REPOSITORY_OWNER_FULL_NAME"@, push.repository.owner.full_name@)], "PUSH_PUSHER_LOGIN"@);
    lemma_last_value_concat(seq![("PUSH_SENDER_EMAIL"@, push.sender.email@)] + seq![("PUSH_SENDER_AVATAR_URL"@, push.sender.avatar_url@)] + seq![("PUSH_SENDER_USERNAME"@, push.sender.username@)] + seq![("PUSH_REPOSITORY_ID"@, decimal(push.repository.id as nat))] + seq![("PUSH_REPOSITORY_OWNER_ID"@, decimal(push.repository.owner.id as nat))], seq![("PUSH_REPOSITORY_OWNER_LOGIN"@, push.repository.owner.login@)], "PUSH_PUSHER_LOGIN"@);
    lemma_last_value_concat(seq![("PUSH_SENDER_EMAIL"@, push.sender.email@)] + seq![("PUSH_SENDER_AVATAR_URL"@, push.sender.avatar_url@)] + seq![("PUSH_SENDER_USERNAME"@, push.sender.username@)] + seq![("PUSH_REPOSITORY_ID"@, decimal(push.repository.id as nat))], seq![("PUSH_REPOSITORY_OWNER_ID"@, decimal(push.repository.owner.id as nat))], "PUSH_PUSHER_LOGIN"@);
    lemma_last_value_concat(seq![("PUSH_SENDER_EMAIL"@, push.sender.email@)] + seq![("PUSH_SENDER_AVATAR_URL"@, push.sender.avatar_url@)] + seq![("PUSH_SENDER_USERNAME"@, push.sender.username@)], seq![("PUSH_REPOSITORY_ID"@, decimal(push.repository.id as nat))], "PUSH_PUSHER_LOGIN"@);
    lemma_last_value_concat(seq![("PUSH_SENDER_EMAIL"@, push.sender.email@)] + seq![("PUSH_SENDER_AVATAR_URL"@, push.sender.avatar_url@)], seq![("PUSH_SENDER_USERNAME"@, push.sender.username@)], "PUSH_PUSHER_LOGIN"@);
    lemma_last_value_concat(seq![("PUSH_SENDER_EMAIL"@, push.sender.email@)], seq![("PUSH_SENDER_AVATAR_URL"@, push.sender.avatar_url@)], "PUSH_PUSHER_LOGIN"@);
    lemma_last_value_single("PUSH_SENDER_EMAIL"@, push.sender.email@, "PUSH_PUSHER_LOGIN"@);
    assert("PUSH_SENDER_EMAIL"@[5] != "PUSH_PUSHER_LOGIN"@[5]);
    lemma_last_value_single("PUSH_SENDER_AVATAR_URL"@, push.sender.avatar_url@, "PUSH_PUSHER_LOGIN"@);
    assert("PUSH_SENDER_AVATAR_URL"@.len() != "PUSH_PUSHER_LOGIN"@.len());
    lemma_last_value_single("PUSH_SENDER_USERNAME"@, push.sender.username@, "PUSH_PUSHER_LOGIN"@);
    assert("PUSH_SENDER_USERNAME"@.len() != "PUSH_PUSHER_LOGIN"@.len());
    lemma_last_value_single("PUSH_REPOSITORY_ID"@, decimal(push.repository.id as nat), "PUSH_PUSHER_LOGIN"@);
    assert("PUSH_REPOSITORY_ID"@.len() != "PUSH_PUSHER_LOGIN"@.len());
    lemma_last_value_single("PUSH_REPOSITORY_OWNER_ID"@, decimal(push.repository.owner.id as nat), "PUSH_PUSHER_LOGIN"@);
    assert("PUSH_REPOSITORY_OWNER_ID"@.len() != "PUSH_PUSHER_LOGIN"@.len());
    lemma_last_value_single("PUSH_REPOSITORY_OWNER_LOGIN"@, push.repository.owner.login@, "PUSH_PUSHER_LOGIN"@);
    assert("PUSH_REPOSITORY_OWNER_LOGIN"@.len() != "PUSH_PUSHER_LOGIN"@.len());
    lemma_last_value_single("PUSH_REPOSITORY_OWNER_FULL_NAME"@, push.repository.owner.full_name@, "PUSH_PUSHER_LOGIN"@);
    assert("PUSH_REPOSITORY_OWNER_FULL_NAME"@.len() != "PUSH_PUSHER_LOGIN"@.len());
    lemma_last_value_single("PUSH_REPOSITORY_OWNER_EMAIL"@, push.repository.owner.email@, "PUSH_PUSHER_LOGIN"@);
    assert("PUSH_REPOSITORY_OWNER_EMAIL"@.len() != "PUSH_PUSHER_LOGIN"@.len());
    lemma_last_value_single("PUSH_REPOSITORY_OWNER_AVATAR_URL"@, push.repository.owner.avatar_url@, "PUSH_PUSHER_LOGIN"@);
    assert("PUSH_REPOSITORY_OWNER_AVATAR_URL"@.len() != "PUSH_PUSHER_LOGIN"@.len());
    lemma_last_value_single("PUSH_REPOSITORY_OWNER_USERNAME"@, push.repository.owner.username@, "PUSH_PUSHER_LOGIN"@);
    assert("PUSH_REPOSITORY_OWNER_USERNAME"@.len() != "PUSH_PUSHER_LOGIN"@.len());
    lemma_last_value_single("PUSH_REPOSITORY_NAME"@, push.repository.name@, "PUSH_PUSHER_LOGIN"@);
    assert("PUSH_REPOSITORY_NAME"@.len() != "PUSH_PUSHER_LOGIN"@.len());
    lemma_last_value_single("PUSH_REPOSITORY_FULL_NAME"@, push.repository.full_name@, "PUSH_PUSHER_LOGIN"@);
    assert("PUSH_REPOSITORY_FULL_NAME"@.len() != "PUSH_PUSHER_LOGIN"@.len());
    lemma_last_value_concat(seq![("PUSH_REF_PATH"@, push.ref_path@)] + seq![("PUSH_BEFORE"@, push.before@)] + seq![("PUSH_AFTER"@, push.after@)] + seq![("PUSH_PUSHER_ID"@, decimal(push.pusher.id as nat))] + seq![("PUSH_PUSHER_LOGIN"@, push.pusher.login@)] + seq![("PUSH_PUSHER_FULL_NAME"@, push.pusher.full_name@)] + seq![("PUSH_PUSHER_EMAIL"@, push.pusher.email@)] + seq![("PUSH_PUSHER_AVATAR_URL"@, push.pusher.avatar_url@)] + seq![("PUSH_PUSHER_USERNAME"@, push.pusher.username@)] + seq![("PUSH_SENDER_ID"@, decimal(push.sender.id as nat))] + seq![("PUSH_SENDER_LOGIN"@, push.sender.login@)], seq![("PUSH_SENDER_FULL_NAME"@, push.sender.full_name@)], "PUSH_PUSHER_LOGIN"@);
    lemma_last_value_single("PUSH_SENDER_FULL_NAME"@, push.sender.full_name@, "PUSH_PUSHER_LOGIN"@);
    assert("PUSH_SENDER_FULL_NAME"@.len() != "PUSH_PUSHER_LOGIN"@.len());
    lemma_last_value_concat(seq![("PUSH_REF_PATH"@, push.ref_path@)] + seq![("PUSH_BEFORE"@, push.before@)] + seq![("PUSH_AFTER"@, push.after@)] + seq![("PUSH_PUSHER_ID"@, decimal(push.pusher.id as nat))] + seq![("PUSH_PUSHER_LOGIN"@, push.pusher.login@)] + seq![("PUSH_PUSHER_FULL_NAME"@, push.pusher.full_name@)] + seq![("PUSH_PUSHER_EMAIL"@, push.pusher.email@)] + seq![("PUSH_PUSHER_AVATAR_URL"@, push.pusher.avatar_url@)] + seq![("PUSH_PUSHER_USERNAME"@, push.pusher.username@)] + seq![("PUSH_SENDER_ID"@, decimal(push.sender.id as nat))], seq![("PUSH_SENDER_LOGIN"@, push.sender.login@)], "PUSH_PUSHER_LOGIN"@);
    lemma_last_value_single("PUSH_SENDER_LOGIN"@, push.sender.login@, "PUSH_PUSHER_LOGIN"@);
    assert("PUSH_SENDER_LOGIN"@[5] != "PUSH_PUSHER_LOGIN"@[5]);
    lemma_last_value_concat(seq![("PUSH_REF_PATH"@, push.ref_path@)] + seq![("PUSH_BEFORE"@, push.before@)] + seq![("PUSH_AFTER"@, push.after@)] + seq![("PUSH_PUSHER_ID"@, decimal(push.pusher.id as nat))] + seq![("PUSH_PUSHER_LOGIN"@, push.pusher.login@)] + seq![("PUSH_PUSHER_FULL_NAME"@, push.pusher.full_name@)] + seq![("PUSH_PUSHER_EMAIL"@, push.pusher.email@)] + seq![("PUSH_PUSHER_AVATAR_URL"@, push.pusher.avatar_url@)] + seq![("PUSH_PUSHER_USERNAME"@, push.pusher.username@)], seq![("PUSH_SENDER_ID"@, decimal(push.sender.id as nat))], "PUSH_PUSHER_LOGIN"@);
    lemma_last_value_single("PUSH_SENDER_ID"@, decimal(push.sender.id as nat), "PUSH_PUSHER_LOGIN"@);
    assert("PUSH_SENDER_ID"@.len() != "PUSH_PUSHER_LOGIN"@.len());
    lemma_last_value_concat(seq![("PUSH_REF_PATH"@, push.ref_path@)] + seq![("PUSH_BEFORE"@, push.before@)] + seq![("PUSH_AFTER"@, push.after@)] + seq![("PUSH_PUSHER_ID"@, decimal(push.pusher.id as nat))] + seq![("PUSH_PUSHER_LOGIN"@, push.pusher.login@)] + seq![("PUSH_PUSHER_FULL_NAME"@, push.pusher.full_name@)] + seq![("PUSH_PUSHER_EMAIL"@, push.pusher.email@)] + seq![("PUSH_PUSHER_AVATAR_URL"@, push.pusher.avatar_url@)], seq![("PUSH_PUSHER_USERNAME"@, push.pusher.username@)], "PUSH_PUSHER_LOGIN"@);
    lemma_last_value_single("PUSH_PUSHER_USERNAME"@, push.pusher.username@, "PUSH_PUSHER_LOGIN"@);
    assert("PUSH_PUSHER_USERNAME"@.len() != "PUSH_PUSHER_LOGIN"@.len());
    lemma_last_value_concat(seq![("PUSH_REF_PATH"@, push.ref_path@)] + seq![("PUSH_BEFORE"@, push.before@)] + seq![("PUSH_AFTER"@, push.after@)] + seq![("PUSH_PUSHER_ID"@, decimal(push.pusher.id as nat))] + seq![("PUSH_PUSHER_LOGIN"@, push.pusher.login@)] + seq![("PUSH_PUSHER_FULL_NAME"@, push.pusher.full_name@)] + seq![("PUSH_PUSHER_EMAIL"@, push.pusher.email@)], seq![("PUSH_PUSHER_AVATAR_URL"@, push.pusher.avatar_url@)], "PUSH_PUSHER_LOGIN"@);
    lemma_last_value_single("PUSH_PUSHER_AVATAR_URL"@, push.pusher.avatar_url@, "PUSH_PUSHER_LOGIN"@);
    assert("PUSH_PUSHER_AVATAR_URL"@.len() != "PUSH_PUSHER_LOGIN"@.len());
    lemma_last_value_concat(seq![("PUSH_REF_PATH"@, push.ref_path@)] + seq![("PUSH_BEFORE"@, push.before@)] + seq![("PUSH_AFTER"@, push.after@)] + seq![("PUSH_PUSHER_ID"@, decimal(push.pusher.id as nat))] + seq![("PUSH_PUSHER_LOGIN"@, push.pusher.login@)] + seq![("PUSH_PUSHER_FULL_NAME"@, push.pusher.full_name@)], seq![("PUSH_PUSHER_EMAIL"@, push.pusher.email@)], "PUSH_PUSHER_LOGIN"@);
    lemma_last_value_single("PUSH_PUSHER_EMAIL"@, push.pusher.email@, "PUSH_PUSHER_LOGIN"@);
    assert("PUSH_PUSHER_EMAIL"@[12] != "PUSH_PUSHER_LOGIN"@[12]);
    lemma_last_value_concat(seq![("PUSH_REF_PATH"@, push.ref_path@)] + seq![("PUSH_BEFORE"@, push.before@)] + seq![("PUSH_AFTER"@, push.after@)] + seq![("PUSH_PUSHER_ID"@, decimal(push.pusher.id as nat))] + seq![("PUSH_PUSHER_LOGIN"@, push.pusher.login@)], seq![("PUSH_PUSHER_FULL_NAME"@, push.pusher.full_name@)], "PUSH_PUSHER_LOGIN"@);
    lemma_last_value_single("PUSH_PUSHER_FULL_NAME"@, push.pusher.full_name@, "PUSH_PUSHER_LOGIN"@);
    assert("PUSH_PUSHER_FULL_NAME"@.len() != "PUSH_PUSHER_LOGIN"@.len());
    lemma_last_value_concat(seq![("PUSH_REF_PATH"@, push.ref_path@)] + seq![("PUSH_BEFORE"@, push.before@)] + seq![("PUSH_AFTER"@, push.after@)] + seq![("PUSH_PUSHER_ID"@, decimal(push.pusher.id as nat))], seq![("PUSH_PUSHER_LOGIN"@, push.pusher.login@)], "PUSH_PUSHER_LOGIN"@);
    lemma_last_value_single("PUSH_PUSHER_LOGIN"@, push.pusher.login@, "PUSH_PUSHER_LOGIN"@);
}

/// The command that answers a push leaves the push's pusher full name in PUSH_PUSHER_FULL_NAME.
pub proof fn lemma_push_event_pusher_full_name(push: PushEvent)
    ensures
        last_value(push_event_command(push).envs, "PUSH_PUSHER_FULL_NAME"@) == Some(push.pusher.full_name@),
{
    reveal_strlit("PUSH_REF_PATH");
    reveal_strlit("PUSH_BEFORE");
    reveal_strlit("PUSH_AFTER");
    reveal_strlit("PUSH_PUSHER_ID");
    reveal_strlit("PUSH_PUSHER_LOGIN");
    reveal_strlit("PUSH_PUSHER_FULL_NAME");
    reveal_strlit("PUSH_PUSHER_EMAIL");
    reveal_strlit("PUSH_PUSHER_AVATAR_URL");
    reveal_strlit("PUSH_PUSHER_USERNAME");
    reveal_strlit("PUSH_SENDER_ID");
    reveal_strlit("PUSH_SENDER_LOGIN");
    reveal_strlit("PUSH_SENDER_FULL_NAME");
    reveal_strlit("PUSH_SENDER_EMAIL");
    reveal_strlit("PUSH_SENDER_AVATAR_URL");
    reveal_strlit("PUSH_SENDER_USERNAME");
    reveal_strlit("PUSH_REPOSITORY_ID");
    reveal_strlit("PUSH_REPOSITORY_OWNER_ID");
    reveal_strlit("PUSH_REPOSITORY_OWNER_LOGIN");
    reveal_strlit("PUSH_REPOSITORY_OWNER_FULL_NAME");
    reveal_strlit("PUSH_REPOSITORY_OWNER_EMAIL");
    reveal_strlit("PUSH_REPOSITORY_OWNER_AVATAR_URL");
    reveal_strlit("PUSH_REPOSITORY_OWNER_USERNAME");
    reveal_strlit("PUSH_REPOSITORY_NAME");
    reveal_strlit("PUSH_REPOSITORY_FULL_NAME");
    reveal_strlit("PUSH_REPOSITORY_DESCRIPTION");
    reveal_strlit("PUSH_REPOSITORY_PRIVATE");
    reveal_strlit("PUSH_REPOSITORY_FORK");
    reveal_strlit("PUSH_REPOSITORY_HTML_URL");
    reveal_strlit("PUSH_REPOSITORY_SSH_URL");
    reveal_strlit("PUSH_REPOSITORY_CLONE_URL");
    reveal_strlit("PUSH_REPOSITORY_WEBSITE");
    reveal_strlit("PUSH_REPOSITORY_STARS_COUNT");
    reveal_strlit("PUSH_REPOSITORY_FORKS_COUNT");
    reveal_strlit("PUSH_REPOSITORY_WATCHERS_COUNT");
    reveal_strlit("PUSH_REPOSITORY_OPEN_ISSUES_COUNT");
    reveal_strlit("PUSH_REPOSITORY_DEFAULT_BRANCH");
    reveal_strlit("PUSH_REPOSITORY_CREATED_AT");
    reveal_strlit("PUSH_REPOSITORY_UPDATED_AT");
    lemma_last_value_concat(push_event_env_part1(push) + push_event_env_part2(push) + push_event_env_part3(push), push_event_env_part4(push), "PUSH_PUSHER_FULL_NAME"@);
    lemma_last_value_concat(seq![("PUSH_REPOSITORY_CREATED_AT"@, push.repository.created_at@)], seq![("PUSH_REPOSITORY_UPDATED_AT"@, push.repository.updated_at@)], "PUSH_PUSHER_FULL_NAME"@);
    lemma_last_value_single("PUSH_REPOSITORY_CREATED_AT"@, push.repository.created_at@, "PUSH_PUSHER_FULL_NAME"@);
    assert("PUSH_REPOSITORY_CREATED_AT"@.len() != "PUSH_PUSHER_FULL_NAME"@.len());
    lemma_last_value_single("PUSH_REPOSITORY_UPDATED_AT"@, push.repository.updated_at@, "PUSH_PUSHER_FULL_NAME"@);
    assert("PUSH_REPOSITORY_UPDATED_AT"@.len() != "PUSH_PUSHER_FULL_NAME"@.len());
    lemma_last_value_concat(push_event_env_part1(push) + push_event_env_part2(push), push_event_env_part3(push), "PUSH_PUSHER_FULL_NAME"@);
    lemma_last_value_concat(seq![("PUSH_REPOSITORY_DESCRIPTION"@, push.repository.description@)] + seq![("PUSH_REPOSITORY_PRIVATE"@, bool_text(push.repository.private))] + seq![("PUSH_REPOSITORY_FORK"@, bool_text(push.repository.fork))] + seq![("PUSH_REPOSITORY_HTML_URL"@, push.repository.html_url@)] + seq![("PUSH_REPOSITORY_SSH_URL"@, push.repository.ssh_url@)] + seq![("PUSH_REPOSITORY_CLONE_URL"@, push.repository.clone_url@)] + seq![("PUSH_REPOSITORY_WEBSITE"@, push.repository.website@)] + seq![("PUSH_REPOSITORY_STARS_COUNT"@, decimal(push.repository.stars_count as nat))] + seq![("PUSH_REPOSITORY_FORKS_COUNT"@, decimal(push.repository.forks_count as nat))] + seq![("PUSH_REPOSITORY_WATCHERS_COUNT"@, decimal(push.repository.watchers_count as nat))] + seq![("PUSH_REPOSITORY_OPEN_ISSUES_COUNT"@, decimal(push.repository.open_issues_count as nat))], seq![("PUSH_REPOSITORY_DEFAULT_BRANCH"@, push.repository.default_branch@)], "PUSH_PUSHER_FULL_NAME"@);
    lemma_last_value_concat(seq![("PUSH_REPOSITORY_DESCRIPTION"@, push.repository.description@)] + seq![("PUSH_REPOSITORY_PRIVATE"@, bool_text(push.repository.private))] + seq![("PUSH_REPOSITORY_FORK"@, bool_text(push.repository.fork))] + seq![("PUSH_REPOSITORY_HTML_URL"@, push.repository.html_url@)] + seq![("PUSH_REPOSITORY_SSH_URL"@, push.repository.ssh_url@)] + seq![("PUSH_REPOSITORY_CLONE_URL"@, push.repository.clone_url@)] + seq![("PUSH_REPOSITORY_WEBSITE"@, push.repository.website@)] + seq![("PUSH_REPOSITORY_STARS_COUNT"@, decimal(push.repository.stars_count as nat))] + seq![("PUSH_REPOSITORY_FORKS_COUNT"@, decimal(push.repository.forks_count as nat))] + seq![("PUSH_REPOSITORY_WATCHERS_COUNT"@, decimal(push.repository.watchers_count as nat))], seq![("PUSH_REPOSITORY_OPEN_ISSUES_COUNT"@, decimal(push.repository.open_issues_count as nat))], "PUSH_PUSHER_FULL_NAME"@);
    lemma_last_value_concat(seq![("PUSH_REPOSITORY_DESCRIPTION"@, push.repository.description@)] + seq![("PUSH_REPOSITORY_PRIVATE"@, bool_text(push.repository.private))] + seq![("PUSH_REPOSITORY_FORK"@, bool_text(push.repository.fork))] + seq![("PUSH_REPOSITORY_HTML_URL"@, push.repository.html_url@)] + seq![("PUSH_REPOSITORY_SSH_URL"@, push.repository.ssh_url@)] + seq![("PUSH_REPOSITORY_CLONE_URL"@, push.repository.clone_url@)] + seq![("PUSH_REPOSITORY_WEBSITE"@, push.repository.website@)] + seq![("PUSH_REPOSITORY_STARS_COUNT"@, decimal(push.repository.stars_count as nat))] + seq![("PUSH_REPOSITORY_FORKS_COUNT"@, decimal(push.repository.forks_count as nat))], seq![("PUSH_REPOSITORY_WATCHERS_COUNT"@, decimal(push.repository.watchers_count as nat))], "PUSH_PUSHER_FULL_NAME"@);
    lemma_last_value_concat(seq![("PUSH_REPOSITORY_DESCRIPTION"@, push.repository.description@)] + seq![("PUSH_REPOSITORY_PRIVATE"@, bool_text(push.repository.private))] + seq![("PUSH_REPOSITORY_FORK"@, bool_text(push.repository.fork))] + seq![("PUSH_REPOSITORY_HTML_URL"@, push.repository.html_url@)] + seq![("PUSH_REPOSITORY_SSH_URL"@, push.repository.ssh_url@)] + seq![("PUSH_REPOSITORY_CLONE_URL"@, push.repository.clone_url@)] + seq![("PUSH_REPOSITORY_WEBSITE"@, push.repository.website@)] + seq![("PUSH_REPOSITORY_STARS_COUNT"@, decimal(push.repository.stars_count as nat))], seq![("PUSH_REPOSITORY_FORKS_COUNT"@, decimal(push.repository.forks_count as nat))], "PUSH_PUSHER_FULL_NAME"@);
    lemma_last_value_concat(seq![("PUSH_REPOSITORY_DESCRIPTION"@, push.repository.description@)] + seq![("PUSH_REPOSITORY_PRIVATE"@, bool_text(push.repository.private))] + seq![("PUSH_REPOSITORY_FORK"@, bool_text(push.repository.fork))] + seq![("PUSH_REPOSITORY_HTML_URL"@, push.repository.html_url@)] + seq![("PUSH_REPOSITORY_SSH_URL"@, push.repository.ssh_url@)] + seq![("PUSH_REPOSITORY_CLONE_URL"@, push.repository.clone_url@)] + seq![("PUSH_REPOSITORY_WEBSITE"@, push.repository.website@)], seq![("PUSH_REPOSITORY_STARS_COUNT"@, decimal(push.repository.stars_count as nat))], "PUSH_PUSHER_FULL_NAME"@);
    lemma_last_value_concat(seq![("PUSH_REPOSITORY_DESCRIPTION"@, push.repository.description@)] + seq![("PUSH_REPOSITORY_PRIVATE"@, bool_text(push.repository.private))] + seq![("PUSH_REPOSITORY_FORK"@, bool_text(push.repository.fork))] + seq![("PUSH_REPOSITORY_HTML_URL"@, push.repository.html_url@)] + seq![("PUSH_REPOSITORY_SSH_URL"@, push.repository.ssh_url@)] + seq![("PUSH_REPOSITORY_CLONE_URL"@, push.repository.clone_url@)], seq![("PUSH_REPOSITORY_WEBSITE"@, push.repository.website@)], "PUSH_PUSHER_FULL_NAME"@);
    lemma_last_value_concat(seq![("PUSH_REPOSITORY_DESCRIPTION"@, push.repository.description@)] + seq![("PUSH_REPOSITORY_PRIVATE"@, bool_text(push.repository.private))] + seq![("PUSH_REPOSITORY_FORK"@, bool_text(push.repository.fork))] + seq![("PUSH_REPOSITORY_HTML_URL"@, push.repository.html_url@)] + seq![("PUSH_REPOSITORY_SSH_URL"@, push.repository.ssh_url@)], seq![("PUSH_REPOSITORY_CLONE_URL"@, push.repository.clone_url@)], "PUSH_PUSHER_FULL_NAME"@);
    lemma_last_value_concat(seq![("PUSH_REPOSITORY_DESCRIPTION"@, push.repository.description@)] + seq![("PUSH_REPOSITORY_PRIVATE"@, bool_text(push.repository.private))] + seq![("PUSH_REPOSITORY_FORK"@, bool_text(push.repository.fork))] + seq![("PUSH_REPOSITORY_HTML_URL"@, push.repository.html_url@)], seq![("PUSH_REPOSITORY_SSH_URL"@, push.repository.ssh_url@)], "PUSH_PUSHER_FULL_NAME"@);
    lemma_last_value_concat(seq![("PUSH_REPOSITORY_DESCRIPTION"@, push.repository.description@)] + seq![("PUSH_REPOSITORY_PRIVATE"@, bool_text(push.repository.private))] + seq![("PUSH_REPOSITORY_FORK"@, bool_text(push.repository.fork))], seq![("PUSH_REPOSITORY_HTML_URL"@, push.repository.html_url@)], "PUSH_PUSHER_FULL_NAME"@);
    lemma_last_value_concat(seq![("PUSH_REPOSITORY_DESCRIPTION"@, push.repository.description@)] + seq![("PUSH_REPOSITORY_PRIVATE"@, bool_text(push.repository.private))], seq![("PUSH_REPOSITORY_FORK"@, bool_text(push.repository.fork))], "PUSH_PUSHER_FULL_NAME"@);
    lemma_last_value_concat(seq![("PUSH_REPOSITORY_DESCRIPTION"@, push.repository.description@)], seq![("PUSH_REPOSITORY_PRIVATE"@, bool_text(push.repository.private))], "PUSH_PUSHER_FULL_NAME"@);
    lemma_last_value_single("PUSH_REPOSITORY_DESCRIPTION"@, push.repository.description@, "PUSH_PUSHER_FULL_NAME"@);
    assert("PUSH_REPOSITORY_DESCRIPTION"@.len() != "PUSH_PUSHER_FULL_NAME"@.len());
    lemma_last_value_single("PUSH_REPOSITORY_PRIVATE"@, bool_text(push.repository.private), "PUSH_PUSHER_FULL_NAME"@);
    assert("PUSH_REPOSITORY_PRIVATE"@.len() != "PUSH_PUSHER_FULL_NAME"@.len());
    lemma_last_value_single("PUSH_REPOSITORY_FORK"@, bool_text(push.repository.fork), "PUSH_PUSHER_FULL_NAME"@);
    assert("PUSH_REPOSITORY_FORK"@.len() != "PUSH_PUSHER_FULL_NAME"@.len());
    lemma_last_value_single("PUSH_REPOSITORY_HTML_URL"@, push.repository.html_url@, "PUSH_PUSHER_FULL_NAME"@);
    assert("PUSH_REPOSITORY_HTML_URL"@.len() != "PUSH_PUSHER_FULL_NAME"@.len());
    lemma_last_value_single("PUSH_REPOSITORY_SSH_URL"@, push.repository.ssh_url@, "PUSH_PUSHER_FULL_NAME"@);
    assert("PUSH_REPOSITORY_SSH_URL"@.len() != "PUSH_PUSHER_FULL_NAME"@.len());
    lemma_last_value_single("PUSH_REPOSITORY_CLONE_URL"@, push.repository.clone_url@, "PUSH_PUSHER_FULL_NAME"@);
    assert("PUSH_REPOSITORY_CLONE_URL"@.len() != "PUSH_PUSHER_FULL_NAME"@.len());
    lemma_last_value_single("PUSH_REPOSITORY_WEBSITE"@, push.repository.website@, "PUSH_PUSHER_FULL_NAME"@);
    assert("PUSH_REPOSITORY_WEBSITE"@.len() != "PUSH_PUSHER_FULL_NAME"@.len());
    lemma_last_value_single("PUSH_REPOSITORY_STARS_COUNT"@, decimal(push.repository.stars_count as nat), "PUSH_PUSHER_FULL_NAME"@);
    assert("PUSH_REPOSITORY_STARS_COUNT"@.len() != "PUSH_PUSHER_FULL_NAME"@.len());
    lemma_last_value_single("PUSH_REPOSITORY_FORKS_COUNT"@, decimal(push.repository.forks_count as nat), "PUSH_PUSHER_FULL_NAME"@);
    assert("PUSH_REPOSITORY_FORKS_COUNT"@.len() != "PUSH_PUSHER_FULL_NAME"@.len());
    lemma_last_value_single("PUSH_REPOSITORY_WATCHERS_COUNT"@, decimal(push.repository.watchers_count as nat), "PUSH_PUSHER_FULL_NAME"@);
    assert("PUSH_REPOSITORY_WATCHERS_COUNT"@.len() != "PUSH_PUSHER_FULL_NAME"@.len());
    lemma_last_value_single("PUSH_REPOSITORY_OPEN_ISSUES_COUNT"@, decimal(push.repository.open_issues_count as nat), "PUSH_PUSHER_FULL_NAME"@);
    assert("PUSH_REPOSITORY_OPEN_ISSUES_COUNT"@.len() != "PUSH_PUSHER_FULL_NAME"@.len());
    lemma_last_value_single("PUSH_REPOSITORY_DEFAULT_BRANCH"@, push.repository.default_branch@, "PUSH_PUSHER_FULL_NAME"@);
    assert("PUSH_REPOSITORY_DEFAULT_BRANCH"@.len() != "PUSH_PUSHER_FULL_NAME"@.len());
    lemma_last_value_concat(push_event_env_part1(push), push_event_env_part2(push), "PUSH_PUSHER_FULL_NAME"@);
    lemma_last_value_concat(seq![("PUSH_SENDER_EMAIL"@, push.sender.email@)] + seq![("PUSH_SENDER_AVATAR_URL"@, push.sender.avatar_url@)] + seq![("PUSH_SENDER_USERNAME"@, push.sender.username@)] + seq![("PUSH_REPOSITORY_ID"@, decimal(push.repository.id as nat))] + seq![("PUSH_REPOSITORY_OWNER_ID"@, decimal(push.repository.owner.id as nat))] + seq![("PUSH_REPOSITORY_OWNER_LOGIN"@, push.repository.owner.login@)] + seq![("PUSH_REPOSITORY_OWNER_FULL_NAME"@, push.repository.owner.full_name@)] + seq![("PUSH_REPOSITORY_OWNER_EMAIL"@, push.repository.owner.email@)] + seq![("PUSH_REPOSITORY_OWNER_AVATAR_URL"@, push.repository.owner.avatar_url@)] + seq![("PUSH_REPOSITORY_OWNER_USERNAME"@, push.repository.owner.username@)] + seq![("PUSH_REPOSITORY_NAME"@, push.repository.name@)], seq![("PUSH_REPOSITORY_FULL_NAME"@, push.repository.full_name@)], "PUSH_PUSHER_FULL_NAME"@);
    lemma_last_value_concat(seq![("PUSH_SENDER_EMAIL"@, push.sender.email@)] + seq![("PUSH_SENDER_AVATAR_URL"@, push.sender.avatar_url@)] + seq![("PUSH_SENDER_USERNAME"@, push.sender.username@)] + seq![("PUSH_REPOSITORY_ID"@, decimal(push.repository.id as nat))] + seq![("PUSH_REPOSITORY_OWNER_ID"@, decimal(push.repository.owner.id as nat))] + seq![("PUSH_REPOSITORY_OWNER_LOGIN"@, push.repository.owner.login@)] + seq![("PUSH_REPOSITORY_OWNER_FULL_NAME"@, push.repository.owner.full_name@)] + seq![("PUSH_REPOSITORY_OWNER_EMAIL"@, push.repository.owner.email@)] + seq![("PUSH_REPOSITORY_OWNER_AVATAR_URL"@, push.repository.owner.avatar_url@)] + seq![("PUSH_REPOSITORY_OWNER_USERNAME"@, push.repository.owner.username@)], seq![("PUSH_REPOSITORY_NAME"@, push.repository.name@)], "PUSH_PUSHER_FULL_NAME"@);
    lemma_last_value_concat(seq![("PUSH_SENDER_EMAIL"@, push.sender.email@)] + seq![("PUSH_SENDER_AVATAR_URL"@, push.sender.avatar_url@)] + seq![("PUSH_SENDER_USERNAME"@, push.sender.username@)] + seq![("PUSH_REPOSITORY_ID"@, decimal(push.repository.id as nat))] + seq![("PUSH_REPOSITORY_OWNER_ID"@, decimal(push.repository.owner.id as nat))] + seq![("PUSH_REPOSITORY_OWNER_LOGIN"@, push.repository.owner.login@)] + seq![("PUSH_REPOSITORY_OWNER_FULL_NAME"@, push.repository.owner.full_name@)] + seq![("PUSH_REPOSITORY_OWNER_EMAIL"@, push.repository.owner.email@)] + seq![("PUSH_REPOSITORY_OWNER_AVATAR_URL"@, push.repository.owner.avatar_url@)], seq![("PUSH_REPOSITORY_OWNER_USERNAME"@, push.repository.owner.username@)], "PUSH_PUSHER_FULL_NAME"@);
    lemma_last_value_concat(seq![("PUSH_SENDER_EMAIL"@, push.sender.email@)] + seq![("PUSH_SENDER_AVATAR_URL"@, push.sender.avatar_url@)] + seq![("PUSH_SENDER_USERNAME"@, push.sender.username@)] + seq![("PUSH_REPOSITORY_ID"@, decimal(push.repository.id as nat))] + seq![("PUSH_REPOSITORY_OWNER_ID"@, decimal(push.repository.owner.id as nat))] + seq![("PUSH_REPOSITORY_OWNER_LOGIN"@, push.repository.owner.login@)] + seq![("PUSH_REPOSITORY_OWNER_FULL_NAME"@, push.repository.owner.full_name@)] + seq![("PUSH_REPOSITORY_OWNER_EMAIL"@, push.repository.owner.email@)], seq![("PUSH_REPOSITORY_OWNER_AVATAR_URL"@, push.repository.owner.avatar_url@)], "PUSH_PUSHER_FULL_NAME"@);
    lemma_last_value_concat(seq![("PUSH_SENDER_EMAIL"@, push.sender.email@)] + seq![("PUSH_SENDER_AVATAR_URL"@, push.sender.avatar_url@)] + seq![("PUSH_SENDER_USERNAME"@, push.sender.username@)] + seq![("PUSH_REPOSITORY_ID"@, decimal(push.repository.id as nat))] + seq![("PUSH_REPOSITORY_OWNER_ID"@, decimal(push.repository.owner.id as nat))] + seq![("PUSH_REPOSITORY_OWNER_LOGIN"@, push.repository.owner.login@)] + seq![("PUSH_REPOSITORY_OWNER_FULL_NAME"@, push.repository.owner.full_name@)], seq![("PUSH_REPOSITORY_OWNER_EMAIL"@, push.repository.owner.email@)], "PUSH_PUSHER_FULL_NAME"@);
    lemma_last_value_concat(seq![("PUSH_SENDER_EMAIL"@, push.sender.email@)] + seq![("PUSH_SENDER_AVATAR_URL"@, push.sender.avatar_url@)] + seq![("PUSH_SENDER_USERNAME"@, push.sender.username@)] + seq![("PUSH_REPOSITORY_ID"@, decimal(push.repository.id as nat))] + seq![("PUSH_REPOSITORY_OWNER_ID"@, decimal(push.repository.owner.id as nat))] + seq![("PUSH_REPOSITORY_OWNER_LOGIN"@, push.repository.owner.login@)], seq![("PUSH_REPOSITORY_OWNER_FULL_NAME"@, push.repository.owner.full_name@)], "PUSH_PUSHER_FULL_NAME"@);
    lemma_last_value_concat(seq![("PUSH_SENDER_EMAIL"@, push.sender.email@)] + seq![("PUSH_SENDER_AVATAR_URL"@, push.sender.avatar_url@)] + seq![("PUSH_SENDER_USERNAME"@, push.sender.username@)] + seq![("PUSH_REPOSITORY_ID"@, decimal(push.repository.id as nat))] + seq![("PUSH_REPOSITORY_OWNER_ID"@, decimal(push.repository.owner.id as nat))], seq![("PUSH_REPOSITORY_OWNER_LOGIN"@, push.repository.owner.login@)], "PUSH_PUSHER_FULL_NAME"@);
    lemma_last_value_concat(seq![("PUSH_SENDER_EMAIL"@, push.sender.email@)] + seq![("PUSH_SENDER_AVATAR_URL"@, push.sender.avatar_url@)] + seq![("PUSH_SENDER_USERNAME"@, push.sender.username@)] + seq![("PUSH_REPOSITORY_ID"@, decimal(push.repository.id as nat))], seq![("PUSH_REPOSITORY_OWNER_ID"@, decimal(push.repository.owner.id as nat))], "PUSH_PUSHER_FULL_NAME"@);
    lemma_last_value_concat(seq![("PUSH_SENDER_EMAIL"@, push.sender.email@)] + seq![("PUSH_SENDER_AVATAR_URL"@, push.sender.avatar_url@)] + seq![("PUSH_SENDER_USERNAME"@, push.sender.username@)], seq![("PUSH_REPOSITORY_ID"@, decimal(push.repository.id as nat))], "PUSH_PUSHER_FULL_NAME"@);
    lemma_last_value_concat(seq![("PUSH_SENDER_EMAIL"@, push.sender.email@)] + seq![("PUSH_SENDER_AVATAR_URL"@, push.sender.avatar_url@)], seq![("PUSH_SENDER_USERNAME"@, push.sender.username@)], "PUSH_PUSHER_FULL_NAME"@);
    lemma_last_value_concat(seq![("PUSH_SENDER_EMAIL"@, push.sender.email@)], seq![("PUSH_SENDER_AVATAR_URL"@, push.sender.avatar_url@)], "PUSH_PUSHER_FULL_NAME"@);
    lemma_last_value_single("PUSH_SENDER_EMAIL"@, push.sender.email@, "PUSH_PUSHER_FULL_NAME"@);
    assert("PUSH_SENDER_EMAIL"@.len() != "PUSH_PUSHER_FULL_NAME"@.len());
    lemma_last_value_single("PUSH_SENDER_AVATAR_URL"@, push.sender.avatar_url@, "PUSH_PUSHER_FULL_NAME"@);
    assert("PUSH_SENDER_AVATAR_URL"@.len() != "PUSH_PUSHER_FULL_NAME"@.len());
    lemma_last_value_single("PUSH_SENDER_USERNAME"@, push.sender.username@, "PUSH_PUSHER_FULL_NAME"@);
    assert("PUSH_SENDER_USERNAME"@.len() != "PUSH_PUSHER_FULL_NAME"@.len());
    lemma_last_value_single("PUSH_REPOSITORY_ID"@, decimal(push.repository.id as nat), "PUSH_PUSHER_FULL_NAME"@);
    assert("PUSH_REPOSITORY_ID"@.len() != "PUSH_PUSHER_FULL_NAME"@.len());
    lemma_last_value_single("PUSH_REPOSITORY_OWNER_ID"@, decimal(push.repository.owner.id as nat), "PUSH_PUSHER_FULL_NAME"@);
    assert("PUSH_REPOSITORY_OWNER_ID"@.len() != "PUSH_PUSHER_FULL_NAME"@.len());
    lemma_last_value_single("PUSH_REPOSITORY_OWNER_LOGIN"@, push.repository.owner.login@, "PUSH_PUSHER_FULL_NAME"@);
    assert("PUSH_REPOSITORY_OWNER_LOGIN"@.len() != "PUSH_PUSHER_FULL_NAME"@.len());
    lemma_last_value_single("PUSH_REPOSITORY_OWNER_FULL_NAME"@, push.repository.owner.full_name@, "PUSH_PUSHER_FULL_NAME"@);
    assert("PUSH_REPOSITORY_OWNER_FULL_NAME"@.len() != "PUSH_PUSHER_FULL_NAME"@.len());
    lemma_last_value_single("PUSH_REPOSITORY_OWNER_EMAIL"@, push.repository.owner.email@, "PUSH_PUSHER_FULL_NAME"@);
    assert("PUSH_REPOSITORY_OWNER_EMAIL"@.len() != "PUSH_PUSHER_FULL_NAME"@.len());
    lemma_last_value_single("PUSH_REPOSITORY_OWNER_AVATAR_URL"@, push.repository.owner.avatar_url@, "PUSH_PUSHER_FULL_NAME"@);
    assert("PUSH_REPOSITORY_OWNER_AVATAR_URL"@.len() != "PUSH_PUSHER_FULL_NAME"@.len());
    lemma_last_value_single("PUSH_REPOSITORY_OWNER_USERNAME"@, push.repository.owner.username@, "PUSH_PUSHER_FULL_NAME"@);
    assert("PUSH_REPOSITORY_OWNER_USERNAME"@.len() != "PUSH_PUSHER_FULL_NAME"@.len());
    lemma_last_value_single("PUSH_REPOSITORY_NAME"@, push.repository.name@, "PUSH_PUSHER_FULL_NAME"@);
    assert("PUSH_REPOSITORY_NAME"@.len() != "PUSH_PUSHER_FULL_NAME"@.len());
    lemma_last_value_single("PUSH_REPOSITORY_FULL_NAME"@, push.repository.full_name@, "PUSH_PUSHER_FULL_NAME"@);
    assert("PUSH_REPOSITORY_FULL_NAME"@.len() != "PUSH_PUSHER_FULL_NAME"@.len());
    lemma_last_value_concat(seq![("PUSH_REF_PATH"@, push.ref_path@)] + seq![("PUSH_BEFORE"@, push.before@)] + seq![("PUSH_AFTER"@, push.after@)] + seq![("PUSH_PUSHER_ID"@, decimal(push.pusher.id as nat))] + seq![("PUSH_PUSHER_LOGIN"@, push.pusher.login@)] + seq![("PUSH_PUSHER_FULL_NAME"@, push.pusher.full_name@)] + seq![("PUSH_PUSHER_EMAIL"@, push.pusher.email@)] + seq![("PUSH_PUSHER_AVATAR_URL"@, push.pusher.avatar_url@)] + seq![("PUSH_PUSHER_USERNAME"@, push.pusher.username@)] + seq![("PUSH_SENDER_ID"@, decimal(push.sender.id as nat))] + seq![("PUSH_SENDER_LOGIN"@, push.sender.login@)], seq![("PUSH_SENDER_FULL_NAME"@, push.sender.full_name@)], "PUSH_PUSHER_FULL_NAME"@);
    lemma_last_value_single("PUSH_SENDER_FULL_NAME"@, push.sender.full_name@, "PUSH_PUSHER_FULL_NAME"@);
    assert("PUSH_SENDER_FULL_NAME"@[5] != "PUSH_PUSHER_FULL_NAME"@[5]);
    lemma_last_value_concat(seq![("PUSH_REF_PATH"@, push.ref_path@)] + seq![("PUSH_BEFORE"@, push.before@)] + seq![("PUSH_AFTER"@, push.after@)] + seq![("PUSH_PUSHER_ID"@, decimal(push.pusher.id as nat))] + seq![("PUSH_PUSHER_LOGIN"@, push.pusher.login@)] + seq![("PUSH_PUSHER_FULL_NAME"@, push.pusher.full_name@)] + seq![("PUSH_PUSHER_EMAIL"@, push.pusher.email@)] + seq![("PUSH_PUSHER_AVATAR_URL"@, push.pusher.avatar_url@)] + seq![("PUSH_PUSHER_USERNAME"@, push.pusher.username@)] + seq![("PUSH_SENDER_ID"@, decimal(push.sender.id as nat))], seq![("PUSH_SENDER_LOGIN"@, push.sender.login@)], "PUSH_PUSHER_FULL_NAME"@);
    lemma_last_value_single("PUSH_SENDER_LOGIN"@, push.sender.login@, "PUSH_PUSHER_FULL_NAME"@);
    assert("PUSH_SENDER_LOGIN"@.len() != "PUSH_PUSHER_FULL_NAME"@.len());
    lemma_last_value_concat(seq![("PUSH_REF_PATH"@, push.ref_path@)] + seq![("PUSH_BEFORE"@, push.before@)] + seq![("PUSH_AFTER"@, push.after@)] + seq![("PUSH_PUSHER_ID"@, decimal(push.pusher.id as nat))] + seq![("PUSH_PUSHER_LOGIN"@, push.pusher.login@)] + seq![("PUSH_PUSHER_FULL_NAME"@, push.pusher.full_name@)] + seq![("PUSH_PUSHER_EMAIL"@, push.pusher.email@)] + seq![("PUSH_PUSHER_AVATAR_URL"@, push.pusher.avatar_url@)] + seq![("PUSH_PUSHER_USERNAME"@, push.pusher.username@)], seq![("PUSH_SENDER_ID"@, decimal(push.sender.id as nat))], "PUSH_PUSHER_FULL_NAME"@);
    lemma_last_value_single("PUSH_SENDER_ID"@, decimal(push.sender.id as nat), "PUSH_PUSHER_FULL_NAME"@);
    assert("PUSH_SENDER_ID"@.len() != "PUSH_PUSHER_FULL_NAME"@.len());
    lemma_last_value_concat(seq![("PUSH_REF_PATH"@, push.ref_path@)] + seq![("PUSH_BEFORE"@, push.before@)] + seq![("PUSH_AFTER"@, push.after@)] + seq![("PUSH_PUSHER_ID"@, decimal(push.pusher.id as nat))] + seq![("PUSH_PUSHER_LOGIN"@, push.pusher.login@)] + seq![("PUSH_PUSHER_FULL_NAME"@, push.pusher.full_name@)] + seq![("PUSH_PUSHER_EMAIL"@, push.pusher.email@)] + seq![("PUSH_PUSHER_AVATAR_URL"@, push.pusher.avatar_url@)], seq![("PUSH_PUSHER_USERNAME"@, push.pusher.username@)], "PUSH_PUSHER_FULL_NAME"@);
    lemma_last_value_single("PUSH_PUSHER_USERNAME"@, push.pusher.username@, "PUSH_PUSHER_FULL_NAME"@);
    assert("PUSH_PUSHER_USERNAME"@.len() != "PUSH_PUSHER_FULL_NAME"@.len());
    lemma_last_value_concat(seq![("PUSH_REF_PATH"@, push.ref_path@)] + seq![("PUSH_BEFORE"@, push.before@)] + seq![("PUSH_AFTER"@, push.after@)] + seq![("PUSH_PUSHER_ID"@, decimal(push.pusher.id as nat))] + seq![("PUSH_PUSHER_LOGIN"@, push.pusher.login@)] + seq![("PUSH_PUSHER_FULL_NAME"@, push.pusher.full_name@)] + seq![("PUSH_PUSHER_EMAIL"@, push.pusher.email@)], seq![("PUSH_PUSHER_AVATAR_URL"@, push.pusher.avatar_url@)], "PUSH_PUSHER_FULL_NAME"@);
    lemma_last_value_single("PUSH_PUSHER_AVATAR_URL"@, push.pusher.avatar_url@, "PUSH_PUSHER_FULL_NAME"@);
    assert("PUSH_PUSHER_AVATAR_URL"@.len() != "PUSH_PUSHER_FULL_NAME"@.len());
    lemma_last_value_concat(seq![("PUSH_REF_PATH"@, push.ref_path@)] + seq![("PUSH_BEFORE"@, push.before@)] + seq![("PUSH_AFTER"@, push.after@)] + seq![("PUSH_PUSHER_ID"@, decimal(push.pusher.id as nat))] + seq![("PUSH_PUSHER_LOGIN"@, push.pusher.login@)] + seq![("PUSH_PUSHER_FULL_NAME"@, push.pusher.full_name@)], seq![("PUSH_PUSHER_EMAIL"@, push.pusher.email@)], "PUSH_PUSHER_FULL_NAME"@);
    lemma_last_value_single("PUSH_PUSHER_EMAIL"@, push.pusher.email@, "PUSH_PUSHER_FULL_NAME"@);
    assert("PUSH_PUSHER_EMAIL"@.len() != "PUSH_PUSHER_FULL_NAME"@.len());
    lemma_last_value_concat(seq![("PUSH_REF_PATH"@, push.ref_path@)] + seq![("PUSH_BEFORE"@, push.before@)] + seq![("PUSH_AFTER"@, push.after@)] + seq![("PUSH_PUSHER_ID"@, decimal(push.pusher.id as nat))] + seq![("PUSH_PUSHER_LOGIN"@, push.pusher.login@)], seq![("PUSH_PUSHER_FULL_NAME"@, push.pusher.full_name@)], "PUSH_PUSHER_FULL_NAME"@);
    lemma_last_value_single("PUSH_PUSHER_FULL_NAME"@, push.pusher.full_name@, "PUSH_PUSHER_FULL_NAME"@);
}

/// The command that answers a push leaves the push's pusher email in PUSH_PUSHER_EMAIL.
pub proof fn lemma_push_event_pusher_email(push: PushEvent)
    ensures
        last_value(push_event_command(push).envs, "PUSH_PUSHER_EMAIL"@) == Some(push.pusher.email@),
{
    reveal_strlit("PUSH_REF_PATH");
    reveal_strlit("PUSH_BEFORE");
    reveal_strlit("PUSH_AFTER");
    reveal_strlit("PUSH_PUSHER_ID");
    reveal_strlit("PUSH_PUSHER_LOGIN");
    reveal_strlit("PUSH_PUSHER_FULL_NAME");
    reveal_strlit("PUSH_PUSHER_EMAIL");
    reveal_strlit("PUSH_PUSHER_AVATAR_URL");
    reveal_strlit("PUSH_PUSHER_USERNAME");
    reveal_strlit("PUSH_SENDER_ID");
    reveal_strlit("PUSH_SENDER_LOGIN");
    reveal_strlit("PUSH_SENDER_FULL_NAME");
    reveal_strlit("PUSH_SENDER_EMAIL");
    reveal_strlit("PUSH_SENDER_AVATAR_URL");
    reveal_strlit("PUSH_SENDER_USERNAME");
    reveal_strlit("PUSH_REPOSITORY_ID");
    reveal_strlit("PUSH_REPOSITORY_OWNER_ID");
    reveal_strlit("PUSH_REPOSITORY_OWNER_LOGIN");
    reveal_strlit("PUSH_REPOSITORY_OWNER_FULL_NAME");
    reveal_strlit("PUSH_REPOSITORY_OWNER_EMAIL");
    reveal_strlit("PUSH_REPOSITORY_OWNER_AVATAR_URL");
    reveal_strlit("PUSH_REPOSITORY_OWNER_USERNAME");
    reveal_strlit("PUSH_REPOSITORY_NAME");
    reveal_strlit("PUSH_REPOSITORY_FULL_NAME");
    reveal_strlit("PUSH_REPOSITORY_DESCRIPTION");
    reveal_strlit("PUSH_REPOSITORY_PRIVATE");
    reveal_strlit("PUSH_REPOSITORY_FORK");
    reveal_strlit("PUSH_REPOSITORY_HTML_URL");
    reveal_strlit("PUSH_REPOSITORY_SSH_URL");
    reveal_strlit("PUSH_REPOSITORY_CLONE_URL");
    reveal_strlit("PUSH_REPOSITORY_WEBSITE");
    reveal_strlit("PUSH_REPOSITORY_STARS_COUNT");
    reveal_strlit("PUSH_REPOSITORY_FORKS_COUNT");
    reveal_strlit("PUSH_REPOSITORY_WATCHERS_COUNT");
    reveal_strlit("PUSH_REPOSITORY_OPEN_ISSUES_COUNT");
    reveal_strlit("PUSH_REPOSITORY_DEFAULT_BRANCH");
    reveal_strlit("PUSH_REPOSITORY_CREATED_AT");
    reveal_strlit("PUSH_REPOSITORY_UPDATED_AT");
    lemma_last_value_concat(push_event_env_part1(push) + push_event_env_part2(push) + push_event_env_part3(push), push_event_env_part4(push), "PUSH_PUSHER_EMAIL"@);
    lemma_last_value_concat(seq![("PUSH_REPOSITORY_CREATED_AT"@, push.repository.created_at@)], seq![("PUSH_REPOSITORY_UPDATED_AT"@, push.repository.updated_at@)], "PUSH_PUSHER_EMAIL"@);
    lemma_last_value_single("PUSH_REPOSITORY_CREATED_AT"@, push.repository.created_at@, "PUSH_PUSHER_EMAIL"@);
    assert("PUSH_REPOSITORY_CREATED_AT"@.len() != "PUSH_PUSHER_EMAIL"@.len());
    lemma_last_value_single("PUSH_REPOSITORY_UPDATED_AT"@, push.repository.updated_at@, "PUSH_PUSHER_EMAIL"@);
    assert("PUSH_REPOSITORY_UPDATED_AT"@.len() != "PUSH_PUSHER_EMAIL"@.len());
    lemma_last_value_concat(push_event_env_part1(push) + push_event_env_part2(push), push_event_env_part3(push), "PUSH_PUSHER_EMAIL"@);
    lemma_last_value_concat(seq![("PUSH_REPOSITORY_DESCRIPTION"@, push.repository.description@)] + seq![("PUSH_REPOSITORY_PRIVATE"@, bool_text(push.repository.private))] + seq![("PUSH_REPOSITORY_FORK"@, bool_text(push.repository.fork))] + seq![("PUSH_REPOSITORY_HTML_URL"@, push.repository.html_url@)] + seq![("PUSH_REPOSITORY_SSH_URL"@, push.repository.ssh_url@)] + seq![("PUSH_REPOSITORY_CLONE_URL"@, push.repository.clone_url@)] + seq![("PUSH_REPOSITORY_WEBSITE"@, push.repository.website@)] + seq![("PUSH_REPOSITORY_STARS_COUNT"@, decimal(push.repository.stars_count as nat))] + seq![("PUSH_REPOSITORY_FORKS_COUNT"@, decimal(push.repository.forks_count as nat))] + seq![("PUSH_REPOSITORY_WATCHERS_COUNT"@, decimal(push.repository.watchers_count as nat))] + seq![("PUSH_REPOSITORY_OPEN_ISSUES_COUNT"@, decimal(push.repository.open_issues_count as nat))], seq![("PUSH_REPOSITORY_DEFAULT_BRANCH"@, push.repository.default_branch@)], "PUSH_PUSHER_EMAIL"@);
    lemma_last_value_concat(seq![("PUSH_REPOSITORY_DESCRIPTION"@, push.repository.description@)] + seq![("PUSH_REPOSITORY_PRIVATE"@, bool_text(push.repository.private))] + seq![("PUSH_REPOSITORY_FORK"@, bool_text(push.repository.fork))] + seq![("PUSH_REPOSITORY_HTML_URL"@, push.repository.html_url@)] + seq![("PUSH_REPOSITORY_SSH_URL"@, push.repository.ssh_url@)] + seq![("PUSH_REPOSITORY_CLONE_URL"@, push.repository.clone_url@)] + seq![("PUSH_REPOSITORY_WEBSITE"@, push.repository.website@)] + seq![("PUSH_REPOSITORY_STARS_COUNT"@, decimal(push.repository.stars_count as nat))] + seq![("PUSH_REPOSITORY_FORKS_COUNT"@, decimal(push.repository.forks_count as nat))] + seq![("PUSH_REPOSITORY_WATCHERS_COUNT"@, decimal(push.repository.watchers_count as nat))], seq![("PUSH_REPOSITORY_OPEN_ISSUES_COUNT"@, decimal(push.repository.open_issues_count as nat))], "PUSH_PUSHER_EMAIL"@);
    lemma_last_value_concat(seq![("PUSH_REPOSITORY_DESCRIPTION"@, push.repository.description@)] + seq![("PUSH_REPOSITORY_PRIVATE"@, bool_text(push.repository.private))] + seq![("PUSH_REPOSITORY_FORK"@, bool_text(push.repository.fork))] + seq![("PUSH_REPOSITORY_HTML_URL"@, push.repository.html_url@)] + seq![("PUSH_REPOSITORY_SSH_URL"@, push.repository.ssh_url@)] + seq![("PUSH_REPOSITORY_CLONE_URL"@, push.repository.clone_url@)] + seq![("PUSH_REPOSITORY_WEBSITE"@, push.repository.website@)] + seq![("PUSH_REPOSITORY_STARS_COUNT"@, decimal(push.repository.stars_count as nat))] + seq![("PUSH_REPOSITORY_FORKS_COUNT"@, decimal(push.repository.forks_count as nat))], seq![("PUSH_REPOSITORY_WATCHERS_COUNT"@, decimal(push.repository.watchers_count as nat))], "PUSH_PUSHER_EMAIL"@);
    lemma_last_value_concat(seq![("PUSH_REPOSITORY_DESCRIPTION"@, push.repository.description@)] + seq![("PUSH_REPOSITORY_PRIVATE"@, bool_text(push.repository.private))] + seq![("PUSH_REPOSITORY_FORK"@, bool_text(push.repository.fork))] + seq![("PUSH_REPOSITORY_HTML_URL"@, push.repository.html_url@)] + seq![("PUSH_REPOSITORY_SSH_URL"@, push.repository.ssh_url@)] + seq![("PUSH_REPOSITORY_CLONE_URL"@, push.repository.clone_url@)] + seq![("PUSH_REPOSITORY_WEBSITE"@, push.repository.website@)] + seq![("PUSH_REPOSITORY_STARS_COUNT"@, decimal(push.repository.stars_count as nat))], seq![("PUSH_REPOSITORY_FORKS_COUNT"@, decimal(push.repository.forks_count as nat))], "PUSH_PUSHER_EMAIL"@);
    lemma_last_value_concat(seq![("PUSH_REPOSITORY_DESCRIPTION"@, push.repository.description@)] + seq![("PUSH_REPOSITORY_PRIVATE"@, bool_text(push.repository.private))] + seq![("PUSH_REPOSITORY_FORK"@, bool_text(push.repository.fork))] + seq![("PUSH_REPOSITORY_HTML_URL"@, push.repository.html_url@)] + seq![("PUSH_REPOSITORY_SSH_URL"@, push.repository.ssh_url@)] + seq![("PUSH_REPOSITORY_CLONE_URL"@, push.repository.clone_url@)] + seq![("PUSH_REPOSITORY_WEBSITE"@, push.repository.website@)], seq![("PUSH_REPOSITORY_STARS_COUNT"@, decimal(push.repository.stars_count as nat))], "PUSH_PUSHER_EMAIL"@);
    lemma_last_value_concat(seq![("PUSH_REPOSITORY_DESCRIPTION"@, push.repository.description@)] + seq![("PUSH_REPOSITORY_PRIVATE"@, bool_text(push.repository.private))] + seq![("PUSH_REPOSITORY_FORK"@, bool_text(push.repository.fork))] + seq![("PUSH_REPOSITORY_HTML_URL"@, push.repository.html_url@)] + seq![("PUSH_REPOSITORY_SSH_URL"@, push.repository.ssh_url@)] + seq![("PUSH_REPOSITORY_CLONE_URL"@, push.repository.clone_url@)], seq![("PUSH_REPOSITORY_WEBSITE"@, push.repository.website@)], "PUSH_PUSHER_EMAIL"@);
    lemma_last_value_concat(seq![("PUSH_REPOSITORY_DESCRIPTION"@, push.repository.description@)] + seq![("PUSH_REPOSITORY_PRIVATE"@, bool_text(push.repository.private))] + seq![("PUSH_REPOSITORY_FORK"@, bool_text(push.repository.fork))] + seq![("PUSH_REPOSITORY_HTML_URL"@, push.repository.html_url@)] + seq![("PUSH_REPOSITORY_SSH_URL"@, push.repository.ssh_url@)], seq![("PUSH_REPOSITORY_CLONE_URL"@, push.repository.clone_url@)], "PUSH_PUSHER_EMAIL"@);
    lemma_last_value_concat(seq![("PUSH_REPOSITORY_DESCRIPTION"@, push.repository.description@)] + seq![("PUSH_REPOSITORY_PRIVATE"@, bool_text(push.repository.private))] + seq![("PUSH_REPOSITORY_FORK"@, bool_text(push.repository.fork))] + seq![("PUSH_REPOSITORY_HTML_URL"@, push.repository.html_url@)], seq![("PUSH_REPOSITORY_SSH_URL"@, push.repository.ssh_url@)], "PUSH_PUSHER_EMAIL"@);
    lemma_last_value_concat(seq![("PUSH_REPOSITORY_DESCRIPTION"@, push.repository.description@)] + seq![("PUSH_REPOSITORY_PRIVATE"@, bool_text(push.repository.private))] + seq![("PUSH_REPOSITORY_FORK"@, bool_text(push.repository.fork))], seq![("PUSH_REPOSITORY_HTML_URL"@, push.repository.html_url@)], "PUSH_PUSHER_EMAIL"@);
    lemma_last_value_concat(seq![("PUSH_REPOSITORY_DESCRIPTION"@, push.repository.description@)] + seq![("PUSH_REPOSITORY_PRIVATE"@, bool_text(push.repository.private))], seq![("PUSH_REPOSITORY_FORK"@, bool_text(push.repository.fork))], "PUSH_PUSHER_EMAIL"@);
    lemma_last_value_concat(seq![("PUSH_REPOSITORY_DESCRIPTION"@, push.repository.description@)], seq![("PUSH_REPOSITORY_PRIVATE"@, bool_text(push.repository.private))], "PUSH_PUSHER_EMAIL"@);
    lemma_last_value_single("PUSH_REPOSITORY_DESCRIPTION"@, push.repository.description@, "PUSH_PUSHER_EMAIL"@);
    assert("PUSH_REPOSITORY_DESCRIPTION"@.len() != "PUSH_PUSHER_EMAIL"@.len());
    lemma_last_value_single("PUSH_REPOSITORY_PRIVATE"@, bool_text(push.repository.private), "PUSH_PUSHER_EMAIL"@);
    assert("PUSH_REPOSITORY_PRIVATE"@.len() != "PUSH_PUSHER_EMAIL"@.len());
    lemma_last_value_single("PUSH_REPOSITORY_FORK"@, bool_text(push.repository.fork), "PUSH_PUSHER_EMAIL"@);
    assert("PUSH_REPOSITORY_FORK"@.len() != "PUSH_PUSHER_EMAIL"@.len());
    lemma_last_value_single("PUSH_REPOSITORY_HTML_URL"@, push.repository.html_url@, "PUSH_PUSHER_EMAIL"@);
    assert("PUSH_REPOSITORY_HTML_URL"@.len() != "PUSH_PUSHER_EMAIL"@.len());
    lemma_last_value_single("PUSH_REPOSITORY_SSH_URL"@, push.repository.ssh_url@, "PUSH_PUSHER_EMAIL"@);
    assert("PUSH_REPOSITORY_SSH_URL"@.len() != "PUSH_PUSHER_EMAIL"@.len());
    lemma_last_value_single("PUSH_REPOSITORY_CLONE_URL"@, push.repository.clone_url@, "PUSH_PUSHER_EMAIL"@);
    assert("PUSH_REPOSITORY_CLONE_URL"@.len() != "PUSH_PUSHER_EMAIL"@.len());
    lemma_last_value_single("PUSH_REPOSITORY_WEBSITE"@, push.repository.website@, "PUSH_PUSHER_EMAIL"@);
    assert("PUSH_REPOSITORY_WEBSITE"@.len() != "PUSH_PUSHER_EMAIL"@.len());
    lemma_last_value_single("PUSH_REPOSITORY_STARS_COUNT"@, decimal(push.repository.stars_count as nat), "PUSH_PUSHER_EMAIL"@);
    assert("PUSH_REPOSITORY_STARS_COUNT"@.len() != "PUSH_PUSHER_EMAIL"@.len());
    lemma_last_value_single("PUSH_REPOSITORY_FORKS_COUNT"@, decimal(push.repository.forks_count as nat), "PUSH_PUSHER_EMAIL"@);
    assert("PUSH_REPOSITORY_FORKS_COUNT"@.len() != "PUSH_PUSHER_EMAIL"@.len());
    lemma_last_value_single("PUSH_REPOSITORY_WATCHERS_COUNT"@, decimal(push.repository.watchers_count as nat), "PUSH_PUSHER_EMAIL"@);
    assert("PUSH_REPOSITORY_WATCHERS_COUNT"@.len() != "PUSH_PUSHER_EMAIL"@.len());
    lemma_last_value_single("PUSH_REPOSITORY_OPEN_ISSUES_COUNT"@, decimal(push.repository.open_issues_count as nat), "PUSH_PUSHER_EMAIL"@);
    assert("PUSH_REPOSITORY_OPEN_ISSUES_COUNT"@.len() != "PUSH_PUSHER_EMAIL"@.len());
    lemma_last_value_single("PUSH_REPOSITORY_DEFAULT_BRANCH"@, push.repository.default_branch@, "PUSH_PUSHER_EMAIL"@);
    assert("PUSH_REPOSITORY_DEFAULT_BRANCH"@.len() != "PUSH_PUSHER_EMAIL"@.len());
    lemma_last_value_concat(push_event_env_part1(push), push_event_env_part2(push), "PUSH_PUSHER_EMAIL"@);
    lemma_last_value_concat(seq![("PUSH_SENDER_EMAIL"@, push.sender.email@)] + seq![("PUSH_SENDER_AVATAR_URL"@, push.sender.avatar_url@)] + seq![("PUSH_SENDER_USERNAME"@, push.sender.username@)] + seq![("PUSH_REPOSITORY_ID"@, decimal(push.repository.id as nat))] + seq![("PUSH_REPOSITORY_OWNER_ID"@, decimal(push.repository.owner.id as nat))] + seq![("PUSH_REPOSITORY_OWNER_LOGIN"@, push.repository.owner.login@)] + seq![("PUSH_REPOSITORY_OWNER_FULL_NAME"@, push.repository.owner.full_name@)] + seq![("PUSH_REPOSITORY_OWNER_EMAIL"@, push.repository.owner.email@)] + seq![("PUSH_REPOSITORY_OWNER_AVATAR_URL"@, push.repository.owner.avatar_url@)] + seq![("PUSH_REPOSITORY_OWNER_USERNAME"@, push.repository.owner.username@)] + seq![("PUSH_REPOSITORY_NAME"@, push.repository.name@)], seq![("PUSH_REPOSITORY_FULL_NAME"@, push.repository.full_name@)], "PUSH_PUSHER_EMAIL"@);
    lemma_last_value_concat(seq![("PUSH_SENDER_EMAIL"@, push.sender.email@)] + seq![("PUSH_SENDER_AVATAR_URL"@, push.sender.avatar_url@)] + seq![("PUSH_SENDER_USERNAME"@, push.sender.username@)] + seq![("PUSH_REPOSITORY_ID"@, decimal(push.repository.id as nat))] + seq![("PUSH_REPOSITORY_OWNER_ID"@, decimal(push.repository.owner.id as nat))] + seq![("PUSH_REPOSITORY_OWNER_LOGIN"@, push.repository.owner.login@)] + seq![("PUSH_REPOSITORY_OWNER_FULL_NAME"@, push.repository.owner.full_name@)] + seq![("PUSH_REPOSITORY_OWNER_EMAIL"@, push.repository.owner.email@)] + seq![("PUSH_REPOSITORY_OWNER_AVATAR_URL"@, push.repository.owner.avatar_url@)] + seq![("PUSH_REPOSITORY_OWNER_USERNAME"@, push.repository.owner.username@)], seq![("PUSH_REPOSITORY_NAME"@, push.repository.name@)], "PUSH_PUSHER_EMAIL"@);
    lemma_last_value_concat(seq![("PUSH_SENDER_EMAIL"@, push.sender.email@)] + seq![("PUSH_SENDER_AVATAR_URL"@, push.sender.avatar_url@)] + seq![("PUSH_SENDER_USERNAME"@, push.sender.username@)] + seq![("PUSH_REPOSITORY_ID"@, decimal(push.repository.id as nat))] + seq![("PUSH_REPOSITORY_OWNER_ID"@, decimal(push.repository.owner.id as nat))] + seq![("PUSH_REPOSITORY_OWNER_LOGIN"@, push.repository.owner.login@)] + seq![("PUSH_REPOSITORY_OWNER_FULL_NAME"@, push.repository.owner.full_name@)] + seq![("PUSH_REPOSITORY_OWNER_EMAIL"@, push.repository.owner.email@)] + seq![("PUSH_REPOSITORY_OWNER_AVATAR_URL"@, push.repository.owner.avatar_url@)], seq![("PUSH_REPOSITORY_OWNER_USERNAME"@, push.repository.owner.username@)], "PUSH_PUSHER_EMAIL"@);
    lemma_last_value_concat(seq![("PUSH_SENDER_EMAIL"@, push.sender.email@)] + seq![("PUSH_SENDER_AVATAR_URL"@, push.sender.avatar_url@)] + seq![("PUSH_SENDER_USERNAME"@, push.sender.username@)] + seq![("PUSH_REPOSITORY_ID"@, decimal(push.repository.id as nat))] + seq![("PUSH_REPOSITORY_OWNER_ID"@, decimal(push.repository.owner.id as nat))] + seq![("PUSH_REPOSITORY_OWNER_LOGIN"@, push.repository.owner.login@)] + seq![("PUSH_REPOSITORY_OWNER_FULL_NAME"@, push.repository.owner.full_name@)] + seq![("PUSH_REPOSITORY_OWNER_EMAIL"@, push.repository.owner.email@)], seq![("PUSH_REPOSITORY_OWNER_AVATAR_URL"@, push.repository.owner.avatar_url@)], "PUSH_PUSHER_EMAIL"@);
    lemma_last_value_concat(seq![("PUSH_SENDER_EMAIL"@, push.sender.email@)] + seq![("PUSH_SENDER_AVATAR_URL"@, push.sender.avatar_url@)] + seq![("PUSH_SENDER_USERNAME"@, push.sender.username@)] + seq![("PUSH_REPOSITORY_ID"@, decimal(push.repository.id as nat))] + seq![("PUSH_REPOSITORY_OWNER_ID"@, decimal(push.repository.owner.id as nat))] + seq![("PUSH_REPOSITORY_OWNER_LOGIN"@, push.repository.owner.login@)] + seq![("PUSH_REPOSITORY_OWNER_FULL_NAME"@, push.repository.owner.full_name@)], seq![("PUSH_REPOSITORY_OWNER_EMAIL"@, push.repository.owner.email@)], "PUSH_PUSHER_EMAIL"@);
    lemma_last_value_concat(seq![("PUSH_SENDER_EMAIL"@, push.sender.email@)] + seq![("PUSH_SENDER_AVATAR_URL"@, push.sender.avatar_url@)] + seq![("PUSH_SENDER_USERNAME"@, push.sender.username@)] + seq![("PUSH_REPOSITORY_ID"@, decimal(push.repository.id as nat))] + seq![("PUSH_REPOSITORY_OWNER_ID"@, decimal(push.repository.owner.id as nat))] + seq![("PUSH_REPOSITORY_OWNER_LOGIN"@, push.repository.owner.login@)], seq![("PUSH_REPOSITORY_OWNER_FULL_NAME"@, push.repository.owner.full_name@)], "PUSH_PUSHER_EMAIL"@);
    lemma_last_value_concat(seq![("PUSH_SENDER_EMAIL"@, push.sender.email@)] + seq![("PUSH_SENDER_AVATAR_URL"@, push.sender.avatar_url@)] + seq![("PUSH_SENDER_USERNAME"@, push.sender.username@)] + seq![("PUSH_REPOSITORY_ID"@, decimal(push.repository.id as nat))] + seq![("PUSH_REPOSITORY_OWNER_ID"@, decimal(push.repository.owner.id as nat))], seq![("PUSH_REPOSITORY_OWNER_LOGIN"@, push.repository.owner.login@)], "PUSH_PUSHER_EMAIL"@);
    lemma_last_value_concat(seq![("PUSH_SENDER_EMAIL"@, push.sender.email@)] + seq![("PUSH_SENDER_AVATAR_URL"@, push.sender.avatar_url@)] + seq![("PUSH_SENDER_USERNAME"@, push.sender.username@)] + seq![("PUSH_REPOSITORY_ID"@, decimal(push.repository.id as nat))], seq![("PUSH_REPOSITORY_OWNER_ID"@, decimal(push.repository.owner.id as nat))], "PUSH_PUSHER_EMAIL"@);
    lemma_last_value_concat(seq![("PUSH_SENDER_EMAIL"@, push.sender.email@)] + seq![("PUSH_SENDER_AVATAR_URL"@, push.sender.avatar_url@)] + seq![("PUSH_SENDER_USERNAME"@, push.sender.username@)], seq![("PUSH_REPOSITORY_ID"@, decimal(push.repository.id as nat))], "PUSH_PUSHER_EMAIL"@);
    lemma_last_value_concat(seq![("PUSH_SENDER_EMAIL"@, push.sender.email@)] + seq![("PUSH_SENDER_AVATAR_URL"@, push.sender.avatar_url@)], seq![("PUSH_SENDER_USERNAME"@, push.sender.username@)], "PUSH_PUSHER_EMAIL"@);
    lemma_last_value_concat(seq![("PUSH_SENDER_EMAIL"@, push.sender.email@)], seq![("PUSH_SENDER_AVATAR_URL"@, push.sender.avatar_url@)], "PUSH_PUSHER_EMAIL"@);
    lemma_last_value_single("PUSH_SENDER_EMAIL"@, push.sender.email@, "PUSH_PUSHER_EMAIL"@);
    assert("PUSH_SENDER_EMAIL"@[5] != "PUSH_PUSHER_EMAIL"@[5]);
    lemma_last_value_single("PUSH_SENDER_AVATAR_URL"@, push.sender.avatar_url@, "PUSH_PUSHER_EMAIL"@);
    assert("PUSH_SENDER_AVATAR_URL"@.len() != "PUSH_PUSHER_EMAIL"@.len());
    lemma_last_value_single("PUSH_SENDER_USERNAME"@, push.sender.username@, "PUSH_PUSHER_EMAIL"@);
    assert("PUSH_SENDER_USERNAME"@.len() != "PUSH_PUSHER_EMAIL"@.len());
    lemma_last_value_single("PUSH_REPOSITORY_ID"@, decimal(push.repository.id as nat), "PUSH_PUSHER_EMAIL"@);
    assert("PUSH_REPOSITORY_ID"@.len() != "PUSH_PUSHER_EMAIL"@.len());
    lemma_last_value_single("PUSH_REPOSITORY_OWNER_ID"@, decimal(push.repository.owner.id as nat), "PUSH_PUSHER_EMAIL"@);
    assert("PUSH_REPOSITORY_OWNER_ID"@.len() != "PUSH_PUSHER_EMAIL"@.len());
    lemma_last_value_single("PUSH_REPOSITORY_OWNER_LOGIN"@, push.repository.owner.login@, "PUSH_PUSHER_EMAIL"@);
    assert("PUSH_REPOSITORY_OWNER_LOGIN"@.len() != "PUSH_PUSHER_EMAIL"@.len());
    lemma_last_value_single("PUSH_REPOSITORY_OWNER_FULL_NAME"@, push.repository.owner.full_name@, "PUSH_PUSHER_EMAIL"@);
    assert("PUSH_REPOSITORY_OWNER_FULL_NAME"@.len() != "PUSH_PUSHER_EMAIL"@.len());
    lemma_last_value_single("PUSH_REPOSITORY_OWNER_EMAIL"@, push.repository.owner.email@, "PUSH_PUSHER_EMAIL"@);
    assert("PUSH_REPOSITORY_OWNER_EMAIL"@.len() != "PUSH_PUSHER_EMAIL"@.len());
    lemma_last_value_single("PUSH_REPOSITORY_OWNER_AVATAR_URL"@, push.repository.owner.avatar_url@, "PUSH_PUSHER_EMAIL"@);
    assert("PUSH_REPOSITORY_OWNER_AVATAR_URL"@.len() != "PUSH_PUSHER_EMAIL"@.len());
    lemma_last_value_single("PUSH_REPOSITORY_OWNER_USERNAME"@, push.repository.owner.username@, "PUSH_PUSHER_EMAIL"@);
    assert("PUSH_REPOSITORY_OWNER_USERNAME"@.len() != "PUSH_PUSHER_EMAIL"@.len());
    lemma_last_value_single("PUSH_REPOSITORY_NAME"@, push.repository.name@, "PUSH_PUSHER_EMAIL"@);
    assert("PUSH_REPOSITORY_NAME"@.len() != "PUSH_PUSHER_EMAIL"@.len());
    lemma_last_value_single("PUSH_REPOSITORY_FULL_NAME"@, push.repository.full_name@, "PUSH_PUSHER_EMAIL"@);
    assert("PUSH_REPOSITORY_FULL_NAME"@.len() != "PUSH_PUSHER_EMAIL"@.len());
    lemma_last_value_concat(seq![("PUSH_REF_PATH"@, push.ref_path@)] + seq![("PUSH_BEFORE"@, push.before@)] + seq![("PUSH_AFTER"@, push.after@)] + seq![("PUSH_PUSHER_ID"@, decimal(push.pusher.id as nat))] + seq![("PUSH_PUSHER_LOGIN"@, push.pusher.login@)] + seq![("PUSH_PUSHER_FULL_NAME"@, push.pusher.full_name@)] + seq![("PUSH_PUSHER_EMAIL"@, push.pusher.email@)] + seq![("PUSH_PUSHER_AVATAR_URL"@, push.pusher.avatar_url@)] + seq![("PUSH_PUSHER_USERNAME"@, push.pusher.username@)] + seq![("PUSH_SENDER_ID"@, decimal(push.sender.id as nat))] + seq![("PUSH_SENDER_LOGIN"@, push.sender.login@)], seq![("PUSH_SENDER_FULL_NAME"@, push.sender.full_name@)], "PUSH_PUSHER_EMAIL"@);
    lemma_last_value_single("PUSH_SENDER_FULL_NAME"@, push.sender.full_name@, "PUSH_PUSHER_EMAIL"@);
    assert("PUSH_SENDER_FULL_NAME"@.len() != "PUSH_PUSHER_EMAIL"@.len());
    lemma_last_value_concat(seq![("PUSH_REF_PATH"@, push.ref_path@)] + seq![("PUSH_BEFORE"@, push.before@)] + seq![("PUSH_AFTER"@, push.after@)] + seq![("PUSH_PUSHER_ID"@, decimal(push.pusher.id as nat))] + seq![("PUSH_PUSHER_LOGIN"@, push.pusher.login@)] + seq![("PUSH_PUSHER_FULL_NAME"@, push.pusher.full_name@)] + seq![("PUSH_PUSHER_EMAIL"@, push.pusher.email@)] + seq![("PUSH_PUSHER_AVATAR_URL"@, push.pusher.avatar_url@)] + seq![("PUSH_PUSHER_USERNAME"@, push.pusher.username@)] + seq![("PUSH_SENDER_ID"@, decimal(push.sender.id as nat))], seq![("PUSH_SENDER_LOGIN"@, push.sender.login@)], "PUSH_PUSHER_EMAIL"@);
    lemma_last_value_single("PUSH_SENDER_LOGIN"@, push.sender.login@, "PUSH_PUSHER_EMAIL"@);
    assert("PUSH_SENDER_LOGIN"@[5] != "PUSH_PUSHER_EMAIL"@[5]);
    lemma_last_value_concat(seq![("PUSH_REF_PATH"@, push.ref_path@)] + seq![("PUSH_BEFORE"@, push.before@)] + seq![("PUSH_AFTER"@, push.after@)] + seq![("PUSH_PUSHER_ID"@, decimal(push.pusher.id as nat))] + seq![("PUSH_PUSHER_LOGIN"@, push.pusher.login@)] + seq![("PUSH_PUSHER_FULL_NAME"@, push.pusher.full_name@)] + seq![("PUSH_PUSHER_EMAIL"@, push.pusher.email@)] + seq![("PUSH_PUSHER_AVATAR_URL"@, push.pusher.avatar_url@)] + seq![("PUSH_PUSHER_USERNAME"@, push.pusher.username@)], seq![("PUSH_SENDER_ID"@, decimal(push.sender.id as nat))], "PUSH_PUSHER_EMAIL"@);
    lemma_last_value_single("PUSH_SENDER_ID"@, decimal(push.sender.id as nat), "PUSH_PUSHER_EMAIL"@);
    assert("PUSH_SENDER_ID"@.len() != "PUSH_PUSHER_EMAIL"@.len());
    lemma_last_value_concat(seq![("PUSH_REF_PATH"@, push.ref_path@)] + seq![("PUSH_BEFORE"@, push.before@)] + seq![("PUSH_AFTER"@, push.after@)] + seq![("PUSH_PUSHER_ID"@, decimal(push.pusher.id as nat))] + seq![("PUSH_PUSHER_LOGIN"@, push.pusher.login@)] + seq![("PUSH_PUSHER_FULL_NAME"@, push.pusher.full_name@)] + seq![("PUSH_PUSHER_EMAIL"@, push.pusher.email@)] + seq![("PUSH_PUSHER_AVATAR_URL"@, push.pusher.avatar_url@)], seq![("PUSH_PUSHER_USERNAME"@, push.pusher.username@)], "PUSH_PUSHER_EMAIL"@);
    lemma_last_value_single("PUSH_PUSHER_USERNAME"@, push.pusher.username@, "PUSH_PUSHER_EMAIL"@);
    assert("PUSH_PUSHER_USERNAME"@.len() != "PUSH_PUSHER_EMAIL"@.len());
    lemma_last_value_concat(seq![("PUSH_REF_PATH"@, push.ref_path@)] + seq![("PUSH_BEFORE"@, push.before@)] + seq![("PUSH_AFTER"@, push.after@)] + seq![("PUSH_PUSHER_ID"@, decimal(push.pusher.id as nat))] + seq![("PUSH_PUSHER_LOGIN"@, push.pusher.login@)] + seq![("PUSH_PUSHER_FULL_NAME"@, push.pusher.full_name@)] + seq![("PUSH_PUSHER_EMAIL"@, push.pusher.email@)], seq![("PUSH_PUSHER_AVATAR_URL"@, push.pusher.avatar_url@)], "PUSH_PUSHER_EMAIL"@);
    lemma_last_value_single("PUSH_PUSHER_AVATAR_URL"@, push.pusher.avatar_url@, "PUSH_PUSHER_EMAIL"@);
    assert("PUSH_PUSHER_AVATAR_URL"@.len() != "PUSH_PUSHER_EMAIL"@.len());
    lemma_last_value_concat(seq![("PUSH_REF_PATH"@, push.ref_path@)] + seq![("PUSH_BEFORE"@, push.before@)] + seq![("PUSH_AFTER"@, push.after@)] + seq![("PUSH_PUSHER_ID"@, decimal(push.pusher.id as nat))] + seq![("PUSH_PUSHER_LOGIN"@, push.pusher.login@)] + seq![("PUSH_PUSHER_FULL_NAME"@, push.pusher.full_name@)], seq![("PUSH_PUSHER_EMAIL"@, push.pusher.email@)], "PUSH_PUSHER_EMAIL"@);
    lemma_last_value_single("PUSH_PUSHER_EMAIL"@, push.pusher.email@, "PUSH_PUSHER_EMAIL"@);
}

/// The command that answers a push leaves the push's pusher avatar url in PUSH_PUSHER_AVATAR_URL.
pub proof fn lemma_push_event_pusher_avatar_url(push: PushEvent)
    ensures
        last_value(push_event_command(push).envs, "PUSH_PUSHER_AVATAR_URL"@) == Some(push.pusher.avatar_url@),
{
    reveal_strlit("PUSH_REF_PATH");
    reveal_strlit("PUSH_BEFORE");
    reveal_strlit("PUSH_AFTER");
    reveal_strlit("PUSH_PUSHER_ID");
    reveal_strlit("PUSH_PUSHER_LOGIN");
    reveal_strlit("PUSH_PUSHER_FULL_NAME");
    reveal_strlit("PUSH_PUSHER_EMAIL");
    reveal_strlit("PUSH_PUSHER_AVATAR_URL");
    reveal_strlit("PUSH_PUSHER_USERNAME");
    reveal_strlit("PUSH_SENDER_ID");
    reveal_strlit("PUSH_SENDER_LOGIN");
    reveal_strlit("PUSH_SENDER_FULL_NAME");
    reveal_strlit("PUSH_SENDER_EMAIL");
    reveal_strlit("PUSH_SENDER_AVATAR_URL");
    reveal_strlit("PUSH_SENDER_USERNAME");
    reveal_strlit("PUSH_REPOSITORY_ID");
    reveal_strlit("PUSH_REPOSITORY_OWNER_ID");
    reveal_strlit("PUSH_REPOSITORY_OWNER_LOGIN");
    reveal_strlit("PUSH_REPOSITORY_OWNER_FULL_NAME");
    reveal_strlit("PUSH_REPOSITORY_OWNER_EMAIL");
    reveal_strlit("PUSH_REPOSITORY_OWNER_AVATAR_URL");
    reveal_strlit("PUSH_REPOSITORY_OWNER_USERNAME");
    reveal_strlit("PUSH_REPOSITORY_NAME");
    reveal_strlit("PUSH_REPOSITORY_FULL_NAME");
    reveal_strlit("PUSH_REPOSITORY_DESCRIPTION");
    reveal_strlit("PUSH_REPOSITORY_PRIVATE");
    reveal_strlit("PUSH_REPOSITORY_FORK");
    reveal_strlit("PUSH_REPOSITORY_HTML_URL");
    reveal_strlit("PUSH_REPOSITORY_SSH_URL");
    reveal_strlit("PUSH_REPOSITORY_CLONE_URL");
    reveal_strlit("PUSH_REPOSITORY_WEBSITE");
    reveal_strlit("PUSH_REPOSITORY_STARS_COUNT");
    reveal_strlit("PUSH_REPOSITORY_FORKS_COUNT");
    reveal_strlit("PUSH_REPOSITORY_WATCHERS_COUNT");
    reveal_strlit("PUSH_REPOSITORY_OPEN_ISSUES_COUNT");
    reveal_strlit("PUSH_REPOSITORY_DEFAULT_BRANCH");
    reveal_strlit("PUSH_REPOSITORY_CREATED_AT");
    reveal_strlit("PUSH_REPOSITORY_UPDATED_AT");
    lemma_last_value_concat(push_event_env_part1(push) + push_event_env_part2(push) + push_event_env_part3(push), push_event_env_part4(push), "PUSH_PUSHER_AVATAR_URL"@);
    lemma_last_value_concat(seq![("PUSH_REPOSITORY_CREATED_AT"@, push.repository.created_at@)], seq![("PUSH_REPOSITORY_UPDATED_AT"@, push.repository.updated_at@)], "PUSH_PUSHER_AVATAR_URL"@);
    lemma_last_value_single("PUSH_REPOSITORY_CREATED_AT"@, push.repository.created_at@, "PUSH_PUSHER_AVATAR_URL"@);
    assert("PUSH_REPOSITORY_CREATED_AT"@.len() != "PUSH_PUSHER_AVATAR_URL"@.len());
    lemma_last_value_single("PUSH_REPOSITORY_UPDATED_AT"@, push.repository.updated_at@, "PUSH_PUSHER_AVATAR_URL"@);
    assert("PUSH_REPOSITORY_UPDATED_AT"@.len() != "PUSH_PUSHER_AVATAR_URL"@.len());
    lemma_last_value_concat(push_event_env_part1(push) + push_event_env_part2(push), push_event_env_part3(push), "PUSH_PUSHER_AVATAR_URL"@);
    lemma_last_value_concat(seq![("PUSH_REPOSITORY_DESCRIPTION"@, push.repository.description@)] + seq![("PUSH_REPOSITORY_PRIVATE"@, bool_text(push.repository.private))] + seq![("PUSH_REPOSITORY_FORK"@, bool_text(push.repository.fork))] + seq![("PUSH_REPOSITORY_HTML_URL"@, push.repository.html_url@)] + seq![("PUSH_REPOSITORY_SSH_URL"@, push.repository.ssh_url@)] + seq![("PUSH_REPOSITORY_CLONE_URL"@, push.repository.clone_url@)] + seq![("PUSH_REPOSITORY_WEBSITE"@, push.repository.website@)] + seq![("PUSH_REPOSITORY_STARS_COUNT"@, decimal(push.repository.stars_count as nat))] + seq![("PUSH_REPOSITORY_FORKS_COUNT"@, decimal(push.repository.forks_count as nat))] + seq![("PUSH_REPOSITORY_WATCHERS_COUNT"@, decimal(push.repository.watchers_count as nat))] + seq![("PUSH_REPOSITORY_OPEN_ISSUES_COUNT"@, decimal(push.repository.open_issues_count as nat))], seq![("PUSH_REPOSITORY_DEFAULT_BRANCH"@, push.repository.default_branch@)], "PUSH_PUSHER_AVATAR_URL"@);
    lemma_last_value_concat(seq![("PUSH_REPOSITORY_DESCRIPTION"@, push.repository.description@)] + seq![("PUSH_REPOSITORY_PRIVATE"@, bool_text(push.repository.private))] + seq![("PUSH_REPOSITORY_FORK"@, bool_text(push.repository.fork))] + seq![("PUSH_REPOSITORY_HTML_URL"@, push.repository.html_url@)] + seq![("PUSH_REPOSITORY_SSH_URL"@, push.repository.ssh_url@)] + seq![("PUSH_REPOSITORY_CLONE_URL"@, push.repository.clone_url@)] + seq![("PUSH_REPOSITORY_WEBSITE"@, push.repository.website@)] + seq![("PUSH_REPOSITORY_STARS_COUNT"@, decimal(push.repository.stars_count as nat))] + seq![("PUSH_REPOSITORY_FORKS_COUNT"@, decimal(push.repository.forks_count as nat))] + seq![("PUSH_REPOSITORY_WATCHERS_COUNT"@, decimal(push.repository.watchers_count as nat))], seq![("PUSH_REPOSITORY_OPEN_ISSUES_COUNT"@, decimal(push.repository.open_issues_count as nat))], "PUSH_PUSHER_AVATAR_URL"@);
    lemma_last_value_concat(seq![("PUSH_REPOSITORY_DESCRIPTION"@, push.repository.description@)] + seq![("PUSH_REPOSITORY_PRIVATE"@, bool_text(push.repository.private))] + seq![("PUSH_REPOSITORY_FORK"@, bool_text(push.repository.fork))] + seq![("PUSH_REPOSITORY_HTML_URL"@, push.repository.html_url@)] + seq![("PUSH_REPOSITORY_SSH_URL"@, push.repository.ssh_url@)] + seq![("PUSH_REPOSITORY_CLONE_URL"@, push.repository.clone_url@)] + seq![("PUSH_REPOSITORY_WEBSITE"@, push.repository.website@)] + seq![("PUSH_REPOSITORY_STARS_COUNT"@, decimal(push.repository.stars_count as nat))] + seq![("PUSH_REPOSITORY_FORKS_COUNT"@, decimal(push.repository.forks_count as nat))], seq![("PUSH_REPOSITORY_WATCHERS_COUNT"@, decimal(push.repository.watchers_count as nat))], "PUSH_PUSHER_AVATAR_URL"@);
    lemma_last_value_concat(seq![("PUSH_REPOSITORY_DESCRIPTION"@, push.repository.description@)] + seq![("PUSH_REPOSITORY_PRIVATE"@, bool_text(push.repository.private))] + seq![("PUSH_REPOSITORY_FORK"@, bool_text(push.repository.fork))] + seq![("PUSH_REPOSITORY_HTML_URL"@, push.repository.html_url@)] + seq![("PUSH_REPOSITORY_SSH_URL"@, push.repository.ssh_url@)] + seq![("PUSH_REPOSITORY_CLONE_URL"@, push.repository.clone_url@)] + seq![("PUSH_REPOSITORY_WEBSITE"@, push.repository.website@)] + seq![("PUSH_REPOSITORY_STARS_COUNT"@, decimal(push.repository.stars_count as nat))], seq![("PUSH_REPOSITORY_FORKS_COUNT"@, decimal(push.repository.forks_count as nat))], "PUSH_PUSHER_AVATAR_URL"@);
    lemma_last_value_concat(seq![("PUSH_REPOSITORY_DESCRIPTION"@, push.repository.description@)] + seq![("PUSH_REPOSITORY_PRIVATE"@, bool_text(push.repository.private))] + seq![("PUSH_REPOSITORY_FORK"@, bool_text(push.repository.fork))] + seq![("PUSH_REPOSITORY_HTML_URL"@, push.repository.html_url@)] + seq![("PUSH_REPOSITORY_SSH_URL"@, push.repository.ssh_url@)] + seq![("PUSH_REPOSITORY_CLONE_URL"@, push.repository.clone_url@)] + seq![("PUSH_REPOSITORY_WEBSITE"@, push.repository.website@)], seq![("PUSH_REPOSITORY_STARS_COUNT"@, decimal(push.repository.stars_count as nat))], "PUSH_PUSHER_AVATAR_URL"@);
    lemma_last_value_concat(seq![("PUSH_REPOSITORY_DESCRIPTION"@, push.repository.description@)] + seq![("PUSH_REPOSITORY_PRIVATE"@, bool_text(push.repository.private))] + seq![("PUSH_REPOSITORY_FORK"@, bool_text(push.repository.fork))] + seq![("PUSH_REPOSITORY_HTML_URL"@, push.repository.html_url@)] + seq![("PUSH_REPOSITORY_SSH_URL"@, push.repository.ssh_url@)] + seq![("PUSH_REPOSITORY_CLONE_URL"@, push.repository.clone_url@)], seq![("PUSH_REPOSITORY_WEBSITE"@, push.repository.website@)], "PUSH_PUSHER_AVATAR_URL"@);
    lemma_last_value_concat(seq![("PUSH_REPOSITORY_DESCRIPTION"@, push.repository.description@)] + seq![("PUSH_REPOSITORY_PRIVATE"@, bool_text(push.repository.private))] + seq![("PUSH_REPOSITORY_FORK"@, bool_text(push.repository.fork))] + seq![("PUSH_REPOSITORY_HTML_URL"@, push.repository.html_url@)] + seq![("PUSH_REPOSITORY_SSH_URL"@, push.repository.ssh_url@)], seq![("PUSH_REPOSITORY_CLONE_URL"@, push.repository.clone_url@)], "PUSH_PUSHER_AVATAR_URL"@);
    lemma_last_value_concat(seq![("PUSH_REPOSITORY_DESCRIPTION"@, push.repository.description@)] + seq![("PUSH_REPOSITORY_PRIVATE"@, bool_text(push.repository.private))] + seq![("PUSH_REPOSITORY_FORK"@, bool_text(push.repository.fork))] + seq![("PUSH_REPOSITORY_HTML_URL"@, push.repository.html_url@)], seq![("PUSH_REPOSITORY_SSH_URL"@, push.repository.ssh_url@)], "PUSH_PUSHER_AVATAR_URL"@);
    lemma_last_value_concat(seq![("PUSH_REPOSITORY_DESCRIPTION"@, push.repository.description@)] + seq![("PUSH_REPOSITORY_PRIVATE"@, bool_text(push.repository.private))] + seq![("PUSH_REPOSITORY_FORK"@, bool_text(push.repository.fork))], seq![("PUSH_REPOSITORY_HTML_URL"@, push.repository.html_url@)], "PUSH_PUSHER_AVATAR_URL"@);
    lemma_last_value_concat(seq![("PUSH_REPOSITORY_DESCRIPTION"@, push.repository.description@)] + seq![("PUSH_REPOSITORY_PRIVATE"@, bool_text(push.repository.private))], seq![("PUSH_REPOSITORY_FORK"@, bool_text(push.repository.fork))], "PUSH_PUSHER_AVATAR_URL"@);
    lemma_last_value_concat(seq![("PUSH_REPOSITORY_DESCRIPTION"@, push.repository.description@)], seq![("PUSH_REPOSITORY_PRIVATE"@, bool_text(push.repository.private))], "PUSH_PUSHER_AVATAR_URL"@);
    lemma_last_value_single("PUSH_REPOSITORY_DESCRIPTION"@, push.repository.description@, "PUSH_PUSHER_AVATAR_URL"@);
    assert("PUSH_REPOSITORY_DESCRIPTION"@.len() != "PUSH_PUSHER_AVATAR_URL"@.len());
    lemma_last_value_single("PUSH_REPOSITORY_PRIVATE"@, bool_text(push.repository.private), "PUSH_PUSHER_AVATAR_URL"@);
    assert("PUSH_REPOSITORY_PRIVATE"@.len() != "PUSH_PUSHER_AVATAR_URL"@.len());
    lemma_last_value_single("PUSH_REPOSITORY_FORK"@, bool_text(push.repository.fork), "PUSH_PUSHER_AVATAR_URL"@);
    assert("PUSH_REPOSITORY_FORK"@.len() != "PUSH_PUSHER_AVATAR_URL"@.len());
    lemma_last_value_single("PUSH_REPOSITORY_HTML_URL"@, push.repository.html_url@, "PUSH_PUSHER_AVATAR_URL"@);
    assert("PUSH_REPOSITORY_HTML_URL"@.len() != "PUSH_PUSHER_AVATAR_URL"@.len());
    lemma_last_value_single("PUSH_REPOSITORY_SSH_URL"@, push.repository.ssh_url@, "PUSH_PUSHER_AVATAR_URL"@);
    assert("PUSH_REPOSITORY_SSH_URL"@.len() != "PUSH_PUSHER_AVATAR_URL"@.len());
    lemma_last_value_single("PUSH_REPOSITORY_CLONE_URL"@, push.repository.clone_url@, "PUSH_PUSHER_AVATAR_URL"@);
    assert("PUSH_REPOSITORY_CLONE_URL"@.len() != "PUSH_PUSHER_AVATAR_URL"@.len());
    lemma_last_value_single("PUSH_REPOSITORY_WEBSITE"@, push.repository.website@, "PUSH_PUSHER_AVATAR_URL"@);
    assert("PUSH_REPOSITORY_WEBSITE"@.len() != "PUSH_PUSHER_AVATAR_URL"@.len());
    lemma_last_value_single("PUSH_REPOSITORY_STARS_COUNT"@, decimal(push.repository.stars_count as nat), "PUSH_PUSHER_AVATAR_URL"@);
    assert("PUSH_REPOSITORY_STARS_COUNT"@.len() != "PUSH_PUSHER_AVATAR_URL"@.len());
    lemma_last_value_single("PUSH_REPOSITORY_FORKS_COUNT"@, decimal(push.repository.forks_count as nat), "PUSH_PUSHER_AVATAR_URL"@);
    assert("PUSH_REPOSITORY_FORKS_COUNT"@.len() != "PUSH_PUSHER_AVATAR_URL"@.len());
    lemma_last_value_single("PUSH_REPOSITORY_WATCHERS_COUNT"@, decimal(push.repository.watchers_count as nat), "PUSH_PUSHER_AVATAR_URL"@);
    assert("PUSH_REPOSITORY_WATCHERS_COUNT"@.len() != "PUSH_PUSHER_AVATAR_URL"@.len());
    lemma_last_value_single("PUSH_REPOSITORY_OPEN_ISSUES_COUNT"@, decimal(push.repository.open_issues_count as nat), "PUSH_PUSHER_AVATAR_URL"@);
    assert("PUSH_REPOSITORY_OPEN_ISSUES_COUNT"@.len() != "PUSH_PUSHER_AVATAR_URL"@.len());
    lemma_last_value_single("PUSH_REPOSITORY_DEFAULT_BRANCH"@, push.repository.default_branch@, "PUSH_PUSHER_AVATAR_URL"@);
    assert("PUSH_REPOSITORY_DEFAULT_BRANCH"@.len() != "PUSH_PUSHER_AVATAR_URL"@.len());
    lemma_last_value_concat(push_event_env_part1(push), push_event_env_part2(push), "PUSH_PUSHER_AVATAR_URL"@);
    lemma_last_value_concat(seq![("PUSH_SENDER_EMAIL"@, push.sender.email@)] + seq![("PUSH_SENDER_AVATAR_URL"@, push.sender.avatar_url@)] + seq![("PUSH_SENDER_USERNAME"@, push.sender.username@)] + seq![("PUSH_REPOSITORY_ID"@, decimal(push.repository.id as nat))] + seq![("PUSH_REPOSITORY_OWNER_ID"@, decimal(push.repository.owner.id as nat))] + seq![("PUSH_REPOSITORY_OWNER_LOGIN"@, push.repository.owner.login@)] + seq![("PUSH_REPOSITORY_OWNER_FULL_NAME"@, push.repository.owner.full_name@)] + seq![("PUSH_REPOSITORY_OWNER_EMAIL"@, push.repository.owner.email@)] + seq![("PUSH_REPOSITORY_OWNER_AVATAR_URL"@, push.repository.owner.avatar_url@)] + seq![("PUSH_REPOSITORY_OWNER_USERNAME"@, push.repository.owner.username@)] + seq![("PUSH_REPOSITORY_NAME"@, push.repository.name@)], seq![("PUSH_REPOSITORY_FULL_NAME"@, push.repository.full_name@)], "PUSH_PUSHER_AVATAR_URL"@);
    lemma_last_value_concat(seq![("PUSH_SENDER_EMAIL"@, push.sender.email@)] + seq![("PUSH_SENDER_AVATAR_URL"@, push.sender.avatar_url@)] + seq![("PUSH_SENDER_USERNAME"@, push.sender.username@)] + seq![("PUSH_REPOSITORY_ID"@, decimal(push.repository.id as nat))] + seq![("PUSH_REPOSITORY_OWNER_ID"@, decimal(push.repository.owner.id as nat))] + seq![("PUSH_REPOSITORY_OWNER_LOGIN"@, push.repository.owner.login@)] + seq![("PUSH_REPOSITORY_OWNER_FULL_NAME"@, push.repository.owner.full_name@)] + seq![("PUSH_REPOSITORY_OWNER_EMAIL"@, push.repository.owner.email@)] + seq![("PUSH_REPOSITORY_OWNER_AVATAR_URL"@, push.repository.owner.avatar_url@)] + seq![("PUSH_REPOSITORY_OWNER_USERNAME"@, push.repository.owner.username@)], seq![("PUSH_REPOSITORY_NAME"@, push.repository.name@)], "PUSH_PUSHER_AVATAR_URL"@);
    lemma_last_value_concat(seq![("PUSH_SENDER_EMAIL"@, push.sender.email@)] + seq![("PUSH_SENDER_AVATAR_URL"@, push.sender.avatar_url@)] + seq![("PUSH_SENDER_USERNAME"@, push.sender.username@)] + seq![("PUSH_REPOSITORY_ID"@, decimal(push.repository.id as nat))] + seq![("PUSH_REPOSITORY_OWNER_ID"@, decimal(push.repository.owner.id as nat))] + seq![("PUSH_REPOSITORY_OWNER_LOGIN"@, push.repository.owner.login@)] + seq![("PUSH_REPOSITORY_OWNER_FULL_NAME"@, push.repository.owner.full_name@)] + seq![("PUSH_REPOSITORY_OWNER_EMAIL"@, push.repository.owner.email@)] + seq![("PUSH_REPOSITORY_OWNER_AVATAR_URL"@, push.repository.owner.avatar_url@)], seq![("PUSH_REPOSITORY_OWNER_USERNAME"@, push.repository.owner.username@)], "PUSH_PUSHER_AVATAR_URL"@);
    lemma_last_value_concat(seq![("PUSH_SENDER_EMAIL"@, push.sender.email@)] + seq![("PUSH_SENDER_AVATAR_URL"@, push.sender.avatar_url@)] + seq![("PUSH_SENDER_USERNAME"@, push.sender.username@)] + seq![("PUSH_REPOSITORY_ID"@, decimal(push.repository.id as nat))] + seq![("PUSH_REPOSITORY_OWNER_ID"@, decimal(push.repository.owner.id as nat))] + seq![("PUSH_REPOSITORY_OWNER_LOGIN"@, push.repository.owner.login@)] + seq![("PUSH_REPOSITORY_OWNER_FULL_NAME"@, push.repository.owner.full_name@)] + seq![("PUSH_REPOSITORY_OWNER_EMAIL"@, push.repository.owner.email@)], seq![("PUSH_REPOSITORY_OWNER_AVATAR_URL"@, push.repository.owner.avatar_url@)], "PUSH_PUSHER_AVATAR_URL"@);
    lemma_last_value_concat(seq![("PUSH_SENDER_EMAIL"@, push.sender.email@)] + seq![("PUSH_SENDER_AVATAR_URL"@, push.sender.avatar_url@)] + seq![("PUSH_SENDER_USERNAME"@, push.sender.username@)] + seq![("PUSH_REPOSITORY_ID"@, decimal(push.repository.id as nat))] + seq![("PUSH_REPOSITORY_OWNER_ID"@, decimal(push.repository.owner.id as nat))] + seq![("PUSH_REPOSITORY_OWNER_LOGIN"@, push.repository.owner.login@)] + seq![("PUSH_REPOSITORY_OWNER_FULL_NAME"@, push.repository.owner.full_name@)], seq![("PUSH_REPOSITORY_OWNER_EMAIL"@, push.repository.owner.email@)], "PUSH_PUSHER_AVATAR_URL"@);
    lemma_last_value_concat(seq![("PUSH_SENDER_EMAIL"@, push.sender.email@)] + seq![("PUSH_SENDER_AVATAR_URL"@, push.sender.avatar_url@)] + seq![("PUSH_SENDER_USERNAME"@, push.sender.username@)] + seq![("PUSH_REPOSITORY_ID"@, decimal(push.repository.id as nat))] + seq![("PUSH_REPOSITORY_OWNER_ID"@, decimal(push.repository.owner.id as nat))] + seq![("PUSH_REPOSITORY_OWNER_LOGIN"@, push.repository.owner.login@)], seq![("PUSH_REPOSITORY_OWNER_FULL_NAME"@, push.repository.owner.full_name@)], "PUSH_PUSHER_AVATAR_URL"@);
    lemma_last_value_concat(seq![("PUSH_SENDER_EMAIL"@, push.sender.email@)] + seq![("PUSH_SENDER_AVATAR_URL"@, push.sender.avatar_url@)] + seq![("PUSH_SENDER_USERNAME"@, push.sender.username@)] + seq![("PUSH_REPOSITORY_ID"@, decimal(push.repository.id as nat))] + seq![("PUSH_REPOSITORY_OWNER_ID"@, decimal(push.repository.owner.id as nat))], seq![("PUSH_REPOSITORY_OWNER_LOGIN"@, push.repository.owner.login@)], "PUSH_PUSHER_AVATAR_URL"@);
    lemma_last_value_concat(seq![("PUSH_SENDER_EMAIL"@, push.sender.email@)] + seq![("PUSH_SENDER_AVATAR_URL"@, push.sender.avatar_url@)] + seq![("PUSH_SENDER_USERNAME"@, push.sender.username@)] + seq![("PUSH_REPOSITORY_ID"@, decimal(push.repository.id as nat))], seq![("PUSH_REPOSITORY_OWNER_ID"@, decimal(push.repository.owner.id as nat))], "PUSH_PUSHER_AVATAR_URL"@);
    lemma_last_value_concat(seq![("PUSH_SENDER_EMAIL"@, push.sender.email@)] + seq![("PUSH_SENDER_AVATAR_URL"@, push.sender.avatar_url@)] + seq![("PUSH_SENDER_USERNAME"@, push.sender.username@)], seq![("PUSH_REPOSITORY_ID"@, decimal(push.repository.id as nat))], "PUSH_PUSHER_AVATAR_URL"@);
    lemma_last_value_concat(seq![("PUSH_SENDER_EMAIL"@, push.sender.email@)] + seq![("PUSH_SENDER_AVATAR_URL"@, push.sender.avatar_url@)], seq![("PUSH_SENDER_USERNAME"@, push.sender.username@)], "PUSH_PUSHER_AVATAR_URL"@);
    lemma_last_value_concat(seq![("PUSH_SENDER_EMAIL"@, push.sender.email@)], seq![("PUSH_SENDER_AVATAR_URL"@, push.sender.avatar_url@)], "PUSH_PUSHER_AVATAR_URL"@);
    lemma_last_value_single("PUSH_SENDER_EMAIL"@, push.sender.email@, "PUSH_PUSHER_AVATAR_URL"@);
    assert("PUSH_SENDER_EMAIL"@.len() != "PUSH_PUSHER_AVATAR_URL"@.len());
    lemma_last_value_single("PUSH_SENDER_AVATAR_URL"@, push.sender.avatar_url@, "PUSH_PUSHER_AVATAR_URL"@);
    assert("PUSH_SENDER_AVATAR_URL"@[5] != "PUSH_PUSHER_AVATAR_URL"@[5]);
    lemma_last_value_single("PUSH_SENDER_USERNAME"@, push.sender.username@, "PUSH_PUSHER_AVATAR_URL"@);
    assert("PUSH_SENDER_USERNAME"@.len() != "PUSH_PUSHER_AVATAR_URL"@.len());
    lemma_last_value_single("PUSH_REPOSITORY_ID"@, decimal(push.repository.id as nat), "PUSH_PUSHER_AVATAR_URL"@);
    assert("PUSH_REPOSITORY_ID"@.len() != "PUSH_PUSHER_AVATAR_URL"@.len());
    lemma_last_value_single("PUSH_REPOSITORY_OWNER_ID"@, decimal(push.repository.owner.id as nat), "PUSH_PUSHER_AVATAR_URL"@);
    assert("PUSH_REPOSITORY_OWNER_ID"@.len() != "PUSH_PUSHER_AVATAR_URL"@.len());
    lemma_last_value_single("PUSH_REPOSITORY_OWNER_LOGIN"@, push.repository.owner.login@, "PUSH_PUSHER_AVATAR_URL"@);
    assert("PUSH_REPOSITORY_OWNER_LOGIN"@.len() != "PUSH_PUSHER_AVATAR_URL"@.len());
    lemma_last_value_single("PUSH_REPOSITORY_OWNER_FULL_NAME"@, push.repository.owner.full_name@, "PUSH_PUSHER_AVATAR_URL"@);
    assert("PUSH_REPOSITORY_OWNER_FULL_NAME"@.len() != "PUSH_PUSHER_AVATAR_URL"@.len());
    lemma_last_value_single("PUSH_REPOSITORY_OWNER_EMAIL"@, push.repository.owner.email@, "PUSH_PUSHER_AVATAR_URL"@);
    assert("PUSH_REPOSITORY_OWNER_EMAIL"@.len() != "PUSH_PUSHER_AVATAR_URL"@.len());
    lemma_last_value_single("PUSH_REPOSITORY_OWNER_AVATAR_URL"@, push.repository.owner.avatar_url@, "PUSH_PUSHER_AVATAR_URL"@);
    assert("PUSH_REPOSITORY_OWNER_AVATAR_URL"@.len() != "PUSH_PUSHER_AVATAR_URL"@.len());
    lemma_last_value_single("PUSH_REPOSITORY_OWNER_USERNAME"@, push.repository.owner.username@, "PUSH_PUSHER_AVATAR_URL"@);
    assert("PUSH_REPOSITORY_OWNER_USERNAME"@.len() != "PUSH_PUSHER_AVATAR_URL"@.len());
    lemma_last_value_single("PUSH_REPOSITORY_NAME"@, push.repository.name@, "PUSH_PUSHER_AVATAR_URL"@);
    assert("PUSH_REPOSITORY_NAME"@.len() != "PUSH_PUSHER_AVATAR_URL"@.len());
    lemma_last_value_single("PUSH_REPOSITORY_FULL_NAME"@, push.repository.full_name@, "PUSH_PUSHER_AVATAR_URL"@);
    assert("PUSH_REPOSITORY_FULL_NAME"@.len() != "PUSH_PUSHER_AVATAR_URL"@.len());
    lemma_last_value_concat(seq![("PUSH_REF_PATH"@, push.ref_path@)] + seq![("PUSH_BEFORE"@, push.before@)] + seq![("PUSH_AFTER"@, push.after@)] + seq![("PUSH_PUSHER_ID"@, decimal(push.pusher.id as nat))] + seq![("PUSH_PUSHER_LOGIN"@, push.pusher.login@)] + seq![("PUSH_PUSHER_FULL_NAME"@, push.pusher.full_name@)] + seq![("PUSH_PUSHER_EMAIL"@, push.pusher.email@)] + seq![("PUSH_PUSHER_AVATAR_URL"@, push.pusher.avatar_url@)] + seq![("PUSH_PUSHER_USERNAME"@, push.pusher.username@)] + seq![("PUSH_SENDER_ID"@, decimal(push.sender.id as nat))] + seq![("PUSH_SENDER_LOGIN"@, push.sender.login@)], seq![("PUSH_SENDER_FULL_NAME"@, push.sender.full_name@)], "PUSH_PUSHER_AVATAR_URL"@);
    lemma_last_value_single("PUSH_SENDER_FULL_NAME"@, push.sender.full_name@, "PUSH_PUSHER_AVATAR_URL"@);
    assert("PUSH_SENDER_FULL_NAME"@.len() != "PUSH_PUSHER_AVATAR_URL"@.len());
    lemma_last_value_concat(seq![("PUSH_REF_PATH"@, push.ref_path@)] + seq![("PUSH_BEFORE"@, push.before@)] + seq![("PUSH_AFTER"@, push.after@)] + seq![("PUSH_PUSHER_ID"@, decimal(push.pusher.id as nat))] + seq![("PUSH_PUSHER_LOGIN"@, push.pusher.login@)] + seq![("PUSH_PUSHER_FULL_NAME"@, push.pusher.full_name@)] + seq![("PUSH_PUSHER_EMAIL"@, push.pusher.email@)] + seq![("PUSH_PUSHER_AVATAR_URL"@, push.pusher.avatar_url@)] + seq![("PUSH_PUSHER_USERNAME"@, push.pusher.username@)] + seq![("PUSH_SENDER_ID"@, decimal(push.sender.id as nat))], seq![("PUSH_SENDER_LOGIN"@, push.sender.login@)], "PUSH_PUSHER_AVATAR_URL"@);
    lemma_last_value_single("PUSH_SENDER_LOGIN"@, push.sender.login@, "PUSH_PUSHER_AVATAR_URL"@);
    assert("PUSH_SENDER_LOGIN"@.len() != "PUSH_PUSHER_AVATAR_URL"@.len());
    lemma_last_value_concat(seq![("PUSH_REF_PATH"@, push.ref_path@)] + seq![("PUSH_BEFORE"@, push.before@)] + seq![("PUSH_AFTER"@, push.after@)] + seq![("PUSH_PUSHER_ID"@, decimal(push.pusher.id as nat))] + seq![("PUSH_PUSHER_LOGIN"@, push.pusher.login@)] + seq![("PUSH_PUSHER_FULL_NAME"@, push.pusher.full_name@)] + seq![("PUSH_PUSHER_EMAIL"@, push.pusher.email@)] + seq![("PUSH_PUSHER_AVATAR_URL"@, push.pusher.avatar_url@)] + seq![("PUSH_PUSHER_USERNAME"@, push.pusher.username@)], seq![("PUSH_SENDER_ID"@, decimal(push.sender.id as nat))], "PUSH_PUSHER_AVATAR_URL"@);
    lemma_last_value_single("PUSH_SENDER_ID"@, decimal(push.sender.id as nat), "PUSH_PUSHER_AVATAR_URL"@);
    assert("PUSH_SENDER_ID"@.len() != "PUSH_PUSHER_AVATAR_URL"@.len());
    lemma_last_value_concat(seq![("PUSH_REF_PATH"@, push.ref_path@)] + seq![("PUSH_BEFORE"@, push.before@)] + seq![("PUSH_AFTER"@, push.after@)] + seq![("PUSH_PUSHER_ID"@, decimal(push.pusher.id as nat))] + seq![("PUSH_PUSHER_LOGIN"@, push.pusher.login@)] + seq![("PUSH_PUSHER_FULL_NAME"@, push.pusher.full_name@)] + seq![("PUSH_PUSHER_EMAIL"@, push.pusher.email@)] + seq![("PUSH_PUSHER_AVATAR_URL"@, push.pusher.avatar_url@)], seq![("PUSH_PUSHER_USERNAME"@, push.pusher.username@)], "PUSH_PUSHER_AVATAR_URL"@);
    lemma_last_value_single("PUSH_PUSHER_USERNAME"@, push.pusher.username@, "PUSH_PUSHER_AVATAR_URL"@);
    assert("PUSH_PUSHER_USERNAME"@.len() != "PUSH_PUSHER_AVATAR_URL"@.len());
    lemma_last_value_concat(seq![("PUSH_REF_PATH"@, push.ref_path@)] + seq![("PUSH_BEFORE"@, push.before@)] + seq![("PUSH_AFTER"@, push.after@)] + seq![("PUSH_PUSHER_ID"@, decimal(push.pusher.id as nat))] + seq![("PUSH_PUSHER_LOGIN"@, push.pusher.login@)] + seq![("PUSH_PUSHER_FULL_NAME"@, push.pusher.full_name@)] + seq![("PUSH_PUSHER_EMAIL"@, push.pusher.email@)], seq![("PUSH_PUSHER_AVATAR_URL"@, push.pusher.avatar_url@)], "PUSH_PUSHER_AVATAR_URL"@);
    lemma_last_value_single("PUSH_PUSHER_AVATAR_URL"@, push.pusher.avatar_url@, "PUSH_PUSHER_AVATAR_URL"@);
}

/// The command that answers a push leaves the push's pusher username in PUSH_PUSHER_USERNAME.
pub proof fn lemma_push_event_pusher_username(push: PushEvent)
    ensures
        last_value(push_event_command(push).envs, "PUSH_PUSHER_USERNAME"@) == Some(push.pusher.username@),
{
    reveal_strlit("PUSH_REF_PATH");
    reveal_strlit("PUSH_BEFORE");
    reveal_strlit("PUSH_AFTER");
    reveal_strlit("PUSH_PUSHER_ID");
    reveal_strlit("PUSH_PUSHER_LOGIN");
    reveal_strlit("PUSH_PUSHER_FULL_NAME");
    reveal_strlit("PUSH_PUSHER_EMAIL");
    reveal_strlit("PUSH_PUSHER_AVATAR_URL");
    reveal_strlit("PUSH_PUSHER_USERNAME");
    reveal_strlit("PUSH_SENDER_ID");
    reveal_strlit("PUSH_SENDER_LOGIN");
    reveal_strlit("PUSH_SENDER_FULL_NAME");
    reveal_strlit("PUSH_SENDER_EMAIL");
    reveal_strlit("PUSH_SENDER_AVATAR_URL");
    reveal_strlit("PUSH_SENDER_USERNAME");
    reveal_strlit("PUSH_REPOSITORY_ID");
    reveal_strlit("PUSH_REPOSITORY_OWNER_ID");
    reveal_strlit("PUSH_REPOSITORY_OWNER_LOGIN");
    reveal_strlit("PUSH_REPOSITORY_OWNER_FULL_NAME");
    reveal_strlit("PUSH_REPOSITORY_OWNER_EMAIL");
    reveal_strlit("PUSH_REPOSITORY_OWNER_AVATAR_URL");
    reveal_strlit("PUSH_REPOSITORY_OWNER_USERNAME");
    reveal_strlit("PUSH_REPOSITORY_NAME");
    reveal_strlit("PUSH_REPOSITORY_FULL_NAME");
    reveal_strlit("PUSH_REPOSITORY_DESCRIPTION");
    reveal_strlit("PUSH_REPOSITORY_PRIVATE");
    reveal_strlit("PUSH_REPOSITORY_FORK");
    reveal_strlit("PUSH_REPOSITORY_HTML_URL");
    reveal_strlit("PUSH_REPOSITORY_SSH_URL");
    reveal_strlit("PUSH_REPOSITORY_CLONE_URL");
    reveal_strlit("PUSH_REPOSITORY_WEBSITE");
    reveal_strlit("PUSH_REPOSITORY_STARS_COUNT");
    reveal_strlit("PUSH_REPOSITORY_FORKS_COUNT");
    reveal_strlit("PUSH_REPOSITORY_WATCHERS_COUNT");
    reveal_strlit("PUSH_REPOSITORY_OPEN_ISSUES_COUNT");
    reveal_strlit("PUSH_REPOSITORY_DEFAULT_BRANCH");
    reveal_strlit("PUSH_REPOSITORY_CREATED_AT");
    reveal_strlit("PUSH_REPOSITORY_UPDATED_AT");
    lemma_last_value_concat(push_event_env_part1(push) + push_event_env_part2(push) + push_event_env_part3(push), push_event_env_part4(push), "PUSH_PUSHER_USERNAME"@);
    lemma_last_value_concat(seq![("PUSH_REPOSITORY_CREATED_AT"@, push.repository.created_at@)], seq![("PUSH_REPOSITORY_UPDATED_AT"@, push.repository.updated_at@)], "PUSH_PUSHER_USERNAME"@);
    lemma_last_value_single("PUSH_REPOSITORY_CREATED_AT"@, push.repository.created_at@, "PUSH_PUSHER_USERNAME"@);
    assert("PUSH_REPOSITORY_CREATED_AT"@.len() != "PUSH_PUSHER_USERNAME"@.len());
    lemma_last_value_single("PUSH_REPOSITORY_UPDATED_AT"@, push.repository.updated_at@, "PUSH_PUSHER_USERNAME"@);
    assert("PUSH_REPOSITORY_UPDATED_AT"@.len() != "PUSH_PUSHER_USERNAME"@.len());
    lemma_last_value_concat(push_event_env_part1(push) + push_event_env_part2(push), push_event_env_part3(push), "PUSH_PUSHER_USERNAME"@);
    lemma_last_value_concat(seq![("PUSH_REPOSITORY_DESCRIPTION"@, push.repository.description@)] + seq![("PUSH_REPOSITORY_PRIVATE"@, bool_text(push.repository.private))] + seq![("PUSH_REPOSITORY_FORK"@, bool_text(push.repository.fork))] + seq![("PUSH_REPOSITORY_HTML_URL"@, push.repository.html_url@)] + seq![("PUSH_REPOSITORY_SSH_URL"@, push.repository.ssh_url@)] + seq![("PUSH_REPOSITORY_CLONE_URL"@, push.repository.clone_url@)] + seq![("PUSH_REPOSITORY_WEBSITE"@, push.repository.website@)] + seq![("PUSH_REPOSITORY_STARS_COUNT"@, decimal(push.repository.stars_count as nat))] + seq![("PUSH_REPOSITORY_FORKS_COUNT"@, decimal(push.repository.forks_count as nat))] + seq![("PUSH_REPOSITORY_WATCHERS_COUNT"@, decimal(push.repository.watchers_count as nat))] + seq![("PUSH_REPOSITORY_OPEN_ISSUES_COUNT"@, decimal(push.repository.open_issues_count as nat))], seq![("PUSH_REPOSITORY_DEFAULT_BRANCH"@, push.repository.default_branch@)], "PUSH_PUSHER_USERNAME"@);
    lemma_last_value_concat(seq![("PUSH_REPOSITORY_DESCRIPTION"@, push.repository.description@)] + seq![("PUSH_REPOSITORY_PRIVATE"@, bool_text(push.repository.private))] + seq![("PUSH_REPOSITORY_FORK"@, bool_text(push.repository.fork))] + seq![("PUSH_REPOSITORY_HTML_URL"@, push.repository.html_url@)] + seq![("PUSH_REPOSITORY_SSH_URL"@, push.repository.ssh_url@)] + seq![("PUSH_REPOSITORY_CLONE_URL"@, push.repository.clone_url@)] + seq![("PUSH_REPOSITORY_WEBSITE"@, push.repository.website@)] + seq![("PUSH_REPOSITORY_STARS_COUNT"@, decimal(push.repository.stars_count as nat))] + seq![("PUSH_REPOSITORY_FORKS_COUNT"@, decimal(push.repository.forks_count as nat))] + seq![("PUSH_REPOSITORY_WATCHERS_COUNT"@, decimal(push.repository.watchers_count as nat))], seq![("PUSH_REPOSITORY_OPEN_ISSUES_COUNT"@, decimal(push.repository.open_issues_count as nat))], "PUSH_PUSHER_USERNAME"@);
    lemma_last_value_concat(seq![("PUSH_REPOSITORY_DESCRIPTION"@, push.repository.description@)] + seq![("PUSH_REPOSITORY_PRIVATE"@, bool_text(push.repository.private))] + seq![("PUSH_REPOSITORY_FORK"@, bool_text(push.repository.fork))] + seq![("PUSH_REPOSITORY_HTML_URL"@, push.repository.html_url@)] + seq![("PUSH_REPOSITORY_SSH_URL"@, push.repository.ssh_url@)] + seq![("PUSH_REPOSITORY_CLONE_URL"@, push.repository.clone_url@)] + seq![("PUSH_REPOSITORY_WEBSITE"@, push.repository.website@)] + seq![("PUSH_REPOSITORY_STARS_COUNT"@, decimal(push.repository.stars_count as nat))] + seq![("PUSH_REPOSITORY_FORKS_COUNT"@, decimal(push.repository.forks_count as nat))], seq![("PUSH_REPOSITORY_WATCHERS_COUNT"@, decimal(push.repository.watchers_count as nat))], "PUSH_PUSHER_USERNAME"@);
    lemma_last_value_concat(seq![("PUSH_REPOSITORY_DESCRIPTION"@, push.repository.description@)] + seq![("PUSH_REPOSITORY_PRIVATE"@, bool_text(push.repository.private))] + seq![("PUSH_REPOSITORY_FORK"@, bool_text(push.repository.fork))] + seq![("PUSH_REPOSITORY_HTML_URL"@, push.repository.html_url@)] + seq![("PUSH_REPOSITORY_SSH_URL"@, push.repository.ssh_url@)] + seq![("PUSH_REPOSITORY_CLONE_URL"@, push.repository.clone_url@)] + seq![("PUSH_REPOSITORY_WEBSITE"@, push.repository.website@)] + seq![("PUSH_REPOSITORY_STARS_COUNT"@, decimal(push.repository.stars_count as nat))], seq![("PUSH_REPOSITORY_FORKS_COUNT"@, decimal(push.repository.forks_count as nat))], "PUSH_PUSHER_USERNAME"@);
    lemma_last_value_concat(seq![("PUSH_REPOSITORY_DESCRIPTION"@, push.repository.description@)] + seq![("PUSH_REPOSITORY_PRIVATE"@, bool_text(push.repository.private))] + seq![("PUSH_REPOSITORY_FORK"@, bool_text(push.repository.fork))] + seq![("PUSH_REPOSITORY_HTML_URL"@, push.repository.html_url@)] + seq![("PUSH_REPOSITORY_SSH_URL"@, push.repository.ssh_url@)] + seq![("PUSH_REPOSITORY_CLONE_URL"@, push.repository.clone_url@)] + seq![("PUSH_REPOSITORY_WEBSITE"@, push.repository.website@)], seq![("PUSH_REPOSITORY_STARS_COUNT"@, decimal(push.repository.stars_count as nat))], "PUSH_PUSHER_USERNAME"@);
    lemma_last_value_concat(seq![("PUSH_REPOSITORY_DESCRIPTION"@, push.repository.description@)] + seq![("PUSH_REPOSITORY_PRIVATE"@, bool_text(push.repository.private))] + seq![("PUSH_REPOSITORY_FORK"@, bool_text(push.repository.fork))] + seq![("PUSH_REPOSITORY_HTML_URL"@, push.repository.html_url@)] + seq![("PUSH_REPOSITORY_SSH_URL"@, push.repository.ssh_url@)] + seq![("PUSH_REPOSITORY_CLONE_URL"@, push.repository.clone_url@)], seq![("PUSH_REPOSITORY_WEBSITE"@, push.repository.website@)], "PUSH_PUSHER_USERNAME"@);
    lemma_last_value_concat(seq![("PUSH_REPOSITORY_DESCRIPTION"@, push.repository.description@)] + seq![("PUSH_REPOSITORY_PRIVATE"@, bool_text(push.repository.private))] + seq![("PUSH_REPOSITORY_FORK"@, bool_text(push.repository.fork))] + seq![("PUSH_REPOSITORY_HTML_URL"@, push.repository.html_url@)] + seq![("PUSH_REPOSITORY_SSH_URL"@, push.repository.ssh_url@)], seq![("PUSH_REPOSITORY_CLONE_URL"@, push.repository.clone_url@)], "PUSH_PUSHER_USERNAME"@);
    lemma_last_value_concat(seq![("PUSH_REPOSITORY_DESCRIPTION"@, push.repository.description@)] + seq![("PUSH_REPOSITORY_PRIVATE"@, bool_text(push.repository.private))] + seq![("PUSH_REPOSITORY_FORK"@, bool_text(push.repository.fork))] + seq![("PUSH_REPOSITORY_HTML_URL"@, push.repository.html_url@)], seq![("PUSH_REPOSITORY_SSH_URL"@, push.repository.ssh_url@)], "PUSH_PUSHER_USERNAME"@);
    lemma_last_value_concat(seq![("PUSH_REPOSITORY_DESCRIPTION"@, push.repository.description@)] + seq![("PUSH_REPOSITORY_PRIVATE"@, bool_text(push.repository.private))] + seq![("PUSH_REPOSITORY_FORK"@, bool_text(push.repository.fork))], seq![("PUSH_REPOSITORY_HTML_URL"@, push.repository.html_url@)], "PUSH_PUSHER_USERNAME"@);
    lemma_last_value_concat(seq![("PUSH_REPOSITORY_DESCRIPTION"@, push.repository.description@)] + seq![("PUSH_REPOSITORY_PRIVATE"@, bool_text(push.repository.private))], seq![("PUSH_REPOSITORY_FORK"@, bool_text(push.repository.fork))], "PUSH_PUSHER_USERNAME"@);
    lemma_last_value_concat(seq![("PUSH_REPOSITORY_DESCRIPTION"@, push.repository.description@)], seq![("PUSH_REPOSITORY_PRIVATE"@, bool_text(push.repository.private))], "PUSH_PUSHER_USERNAME"@);
    lemma_last_value_single("PUSH_REPOSITORY_DESCRIPTION"@, push.repository.description@, "PUSH_PUSHER_USERNAME"@);
    assert("PUSH_REPOSITORY_DESCRIPTION"@.len() != "PUSH_PUSHER_USERNAME"@.len());
    lemma_last_value_single("PUSH_REPOSITORY_PRIVATE"@, bool_text(push.repository.private), "PUSH_PUSHER_USERNAME"@);
    assert("PUSH_REPOSITORY_PRIVATE"@.len() != "PUSH_PUSHER_USERNAME"@.len());
    lemma_last_value_single("PUSH_REPOSITORY_FORK"@, bool_text(push.repository.fork), "PUSH_PUSHER_USERNAME"@);
    assert("PUSH_REPOSITORY_FORK"@[5] != "PUSH_PUSHER_USERNAME"@[5]);
    lemma_last_value_single("PUSH_REPOSITORY_HTML_URL"@, push.repository.html_url@, "PUSH_PUSHER_USERNAME"@);
    assert("PUSH_REPOSITORY_HTML_URL"@.len() != "PUSH_PUSHER_USERNAME"@.len());
    lemma_last_value_single("PUSH_REPOSITORY_SSH_URL"@, push.repository.ssh_url@, "PUSH_PUSHER_USERNAME"@);
    assert("PUSH_REPOSITORY_SSH_URL"@.len() != "PUSH_PUSHER_USERNAME"@.len());
    lemma_last_value_single("PUSH_REPOSITORY_CLONE_URL"@, push.repository.clone_url@, "PUSH_PUSHER_USERNAME"@);
    assert("PUSH_REPOSITORY_CLONE_URL"@.len() != "PUSH_PUSHER_USERNAME"@.len());
    lemma_last_value_single("PUSH_REPOSITORY_WEBSITE"@, push.repository.website@, "PUSH_PUSHER_USERNAME"@);
    assert("PUSH_REPOSITORY_WEBSITE"@.len() != "PUSH_PUSHER_USERNAME"@.len());
    lemma_last_value_single("PUSH_REPOSITORY_STARS_COUNT"@, decimal(push.repository.stars_count as nat), "PUSH_PUSHER_USERNAME"@);
    assert("PUSH_REPOSITORY_STARS_COUNT"@.len() != "PUSH_PUSHER_USERNAME"@.len());
    lemma_last_value_single("PUSH_REPOSITORY_FORKS_COUNT"@, decimal(push.repository.forks_count as nat), "PUSH_PUSHER_USERNAME"@);
    assert("PUSH_REPOSITORY_FORKS_COUNT"@.len() != "PUSH_PUSHER_USERNAME"@.len());
    lemma_last_value_single("PUSH_REPOSITORY_WATCHERS_COUNT"@, decimal(push.repository.watchers_count as nat), "PUSH_PUSHER_USERNAME"@);
    assert("PUSH_REPOSITORY_WATCHERS_COUNT"@.len() != "PUSH_PUSHER_USERNAME"@.len());
    lemma_last_value_single("PUSH_REPOSITORY_OPEN_ISSUES_COUNT"@, decimal(push.repository.open_issues_count as nat), "PUSH_PUSHER_USERNAME"@);
    assert("PUSH_REPOSITORY_OPEN_ISSUES_COUNT"@.len() != "PUSH_PUSHER_USERNAME"@.len());
    lemma_last_value_single("PUSH_REPOSITORY_DEFAULT_BRANCH"@, push.repository.default_branch@, "PUSH_PUSHER_USERNAME"@);
    assert("PUSH_REPOSITORY_DEFAULT_BRANCH"@.len() != "PUSH_PUSHER_USERNAME"@.len());
    lemma_last_value_concat(push_event_env_part1(push), push_event_env_part2(push), "PUSH_PUSHER_USERNAME"@);
    lemma_last_value_concat(seq![("PUSH_SENDER_EMAIL"@, push.sender.email@)] + seq![("PUSH_SENDER_AVATAR_URL"@, push.sender.avatar_url@)] + seq![("PUSH_SENDER_USERNAME"@, push.sender.username@)] + seq![("PUSH_REPOSITORY_ID"@, decimal(push.repository.id as nat))] + seq![("PUSH_REPOSITORY_OWNER_ID"@, decimal(push.repository.owner.id as nat))] + seq![("PUSH_REPOSITORY_OWNER_LOGIN"@, push.repository.owner.login@)] + seq![("PUSH_REPOSITORY_OWNER_FULL_NAME"@, push.repository.owner.full_name@)] + seq![("PUSH_REPOSITORY_OWNER_EMAIL"@, push.repository.owner.email@)] + seq![("PUSH_REPOSITORY_OWNER_AVATAR_URL"@, push.repository.owner.avatar_url@)] + seq![("PUSH_REPOSITORY_OWNER_USERNAME"@, push.repository.owner.username@)] + seq![("PUSH_REPOSITORY_NAME"@, push.repository.name@)], seq![("PUSH_REPOSITORY_FULL_NAME"@, push.repository.full_name@)], "PUSH_PUSHER_USERNAME"@);
    lemma_last_value_concat(seq![("PUSH_SENDER_EMAIL"@, push.sender.email@)] + seq![("PUSH_SENDER_AVATAR_URL"@, push.sender.avatar_url@)] + seq![("PUSH_SENDER_USERNAME"@, push.sender.username@)] + seq![("PUSH_REPOSITORY_ID"@, decimal(push.repository.id as nat))] + seq![("PUSH_REPOSITORY_OWNER_ID"@, decimal(push.repository.owner.id as nat))] + seq![("PUSH_REPOSITORY_OWNER_LOGIN"@, push.repository.owner.login@)] + seq![("PUSH_REPOSITORY_OWNER_FULL_NAME"@, push.repository.owner.full_name@)] + seq![("PUSH_REPOSITORY_OWNER_EMAIL"@, push.repository.owner.email@)] + seq![("PUSH_REPOSITORY_OWNER_AVATAR_URL"@, push.repository.owner.avatar_url@)] + seq![("PUSH_REPOSITORY_OWNER_USERNAME"@, push.repository.owner.username@)], seq![("PUSH_REPOSITORY_NAME"@, push.repository.name@)], "PUSH_PUSHER_USERNAME"@);
    lemma_last_value_concat(seq![("PUSH_SENDER_EMAIL"@, push.sender.email@)] + seq![("PUSH_SENDER_AVATAR_URL"@, push.sender.avatar_url@)] + seq![("PUSH_SENDER_USERNAME"@, push.sender.username@)] + seq![("PUSH_REPOSITORY_ID"@, decimal(push.repository.id as nat))] + seq![("PUSH_REPOSITORY_OWNER_ID"@, decimal(push.repository.owner.id as nat))] + seq![("PUSH_REPOSITORY_OWNER_LOGIN"@, push.repository.owner.login@)] + seq![("PUSH_REPOSITORY_OWNER_FULL_NAME"@, push.repository.owner.full_name@)] + seq![("PUSH_REPOSITORY_OWNER_EMAIL"@, push.repository.owner.email@)] + seq![("PUSH_REPOSITORY_OWNER_AVATAR_URL"@, push.repository.owner.avatar_url@)], seq![("PUSH_REPOSITORY_OWNER_USERNAME"@, push.repository.owner.username@)], "PUSH_PUSHER_USERNAME"@);
    lemma_last_value_concat(seq![("PUSH_SENDER_EMAIL"@, push.sender.email@)] + seq![("PUSH_SENDER_AVATAR_URL"@, push.sender.avatar_url@)] + seq![("PUSH_SENDER_USERNAME"@, push.sender.username@)] + seq![("PUSH_REPOSITORY_ID"@, decimal(push.repository.id as nat))] + seq![("PUSH_REPOSITORY_OWNER_ID"@, decimal(push.repository.owner.id as nat))] + seq![("PUSH_REPOSITORY_OWNER_LOGIN"@, push.repository.owner.login@)] + seq![("PUSH_REPOSITORY_OWNER_FULL_NAME"@, push.repository.owner.full_name@)] + seq![("PUSH_REPOSITORY_OWNER_EMAIL"@, push.repository.owner.email@)], seq![("PUSH_REPOSITORY_OWNER_AVATAR_URL"@, push.repository.owner.avatar_url@)], "PUSH_PUSHER_USERNAME"@);
    lemma_last_value_concat(seq![("PUSH_SENDER_EMAIL"@, push.sender.email@)] + seq![("PUSH_SENDER_AVATAR_URL"@, push.sender.avatar_url@)] + seq![("PUSH_SENDER_USERNAME"@, push.sender.username@)] + seq![("PUSH_REPOSITORY_ID"@, decimal(push.repository.id as nat))] + seq![("PUSH_REPOSITORY_OWNER_ID"@, decimal(push.repository.owner.id as nat))] + seq![("PUSH_REPOSITORY_OWNER_LOGIN"@, push.repository.owner.login@)] + seq![("PUSH_REPOSITORY_OWNER_FULL_NAME"@, push.repository.owner.full_name@)], seq![("PUSH_REPOSITORY_OWNER_EMAIL"@, push.repository.owner.email@)], "PUSH_PUSHER_USERNAME"@);
    lemma_last_value_concat(seq![("PUSH_SENDER_EMAIL"@, push.sender.email@)] + seq![("PUSH_SENDER_AVATAR_URL"@, push.sender.avatar_url@)] + seq![("PUSH_SENDER_USERNAME"@, push.sender.username@)] + seq![("PUSH_REPOSITORY_ID"@, decimal(push.repository.id as nat))] + seq![("PUSH_REPOSITORY_OWNER_ID"@, decimal(push.repository.owner.id as nat))] + seq![("PUSH_REPOSITORY_OWNER_LOGIN"@, push.repository.owner.login@)], seq![("PUSH_REPOSITORY_OWNER_FULL_NAME"@, push.repository.owner.full_name@)], "PUSH_PUSHER_USERNAME"@);
    lemma_last_value_concat(seq![("PUSH_SENDER_EMAIL"@, push.sender.email@)] + seq![("PUSH_SENDER_AVATAR_URL"@, push.sender.avatar_url@)] + seq![("PUSH_SENDER_USERNAME"@, push.sender.username@)] + seq![("PUSH_REPOSITORY_ID"@, decimal(push.repository.id as nat))] + seq![("PUSH_REPOSITORY_OWNER_ID"@, decimal(push.repository.owner.id as nat))], seq![("PUSH_REPOSITORY_OWNER_LOGIN"@, push.repository.owner.login@)], "PUSH_PUSHER_USERNAME"@);
    lemma_last_value_concat(seq![("PUSH_SENDER_EMAIL"@, push.sender.email@)] + seq![("PUSH_SENDER_AVATAR_URL"@, push.sender.avatar_url@)] + seq![("PUSH_SENDER_USERNAME"@, push.sender.username@)] + seq![("PUSH_REPOSITORY_ID"@, decimal(push.repository.id as nat))], seq![("PUSH_REPOSITORY_OWNER_ID"@, decimal(push.repository.owner.id as nat))], "PUSH_PUSHER_USERNAME"@);
    lemma_last_value_concat(seq![("PUSH_SENDER_EMAIL"@, push.sender.email@)] + seq![("PUSH_SENDER_AVATAR_URL"@, push.sender.avatar_url@)] + seq![("PUSH_SENDER_USERNAME"@, push.sender.username@)], seq![("PUSH_REPOSITORY_ID"@, decimal(push.repository.id as nat))], "PUSH_PUSHER_USERNAME"@);
    lemma_last_value_concat(seq![("PUSH_SENDER_EMAIL"@, push.sender.email@)] + seq![("PUSH_SENDER_AVATAR_URL"@, push.sender.avatar_url@)], seq![("PUSH_SENDER_USERNAME"@, push.sender.username@)], "PUSH_PUSHER_USERNAME"@);
    lemma_last_value_concat(seq![("PUSH_SENDER_EMAIL"@, push.sender.email@)], seq![("PUSH_SENDER_AVATAR_URL"@, push.sender.avatar_url@)], "PUSH_PUSHER_USERNAME"@);
    lemma_last_value_single("PUSH_SENDER_EMAIL"@, push.sender.email@, "PUSH_PUSHER_USERNAME"@);
    assert("PUSH_SENDER_EMAIL"@.len() != "PUSH_PUSHER_USERNAME"@.len());
    lemma_last_value_single("PUSH_SENDER_AVATAR_URL"@, push.sender.avatar_url@, "PUSH_PUSHER_USERNAME"@);
    assert("PUSH_SENDER_AVATAR_URL"@.len() != "PUSH_PUSHER_USERNAME"@.len());
    lemma_last_value_single("PUSH_SENDER_USERNAME"@, push.sender.username@, "PUSH_PUSHER_USERNAME"@);
    assert("PUSH_SENDER_USERNAME"@[5] != "PUSH_PUSHER_USERNAME"@[5]);
    lemma_last_value_single("PUSH_REPOSITORY_ID"@, decimal(push.repository.id as nat), "PUSH_PUSHER_USERNAME"@);
    assert("PUSH_REPOSITORY_ID"@.len() != "PUSH_PUSHER_USERNAME"@.len());
    lemma_last_value_single("PUSH_REPOSITORY_OWNER_ID"@, decimal(push.repository.owner.id as nat), "PUSH_PUSHER_USERNAME"@);
    assert("PUSH_REPOSITORY_OWNER_ID"@.len() != "PUSH_PUSHER_USERNAME"@.len());
    lemma_last_value_single("PUSH_REPOSITORY_OWNER_LOGIN"@, push.repository.owner.login@, "PUSH_PUSHER_USERNAME"@);
    assert("PUSH_REPOSITORY_OWNER_LOGIN"@.len() != "PUSH_PUSHER_USERNAME"@.len());
    lemma_last_value_single("PUSH_REPOSITORY_OWNER_FULL_NAME"@, push.repository.owner.full_name@, "PUSH_PUSHER_USERNAME"@);
    assert("PUSH_REPOSITORY_OWNER_FULL_NAME"@.len() != "PUSH_PUSHER_USERNAME"@.len());
    lemma_last_value_single("PUSH_REPOSITORY_OWNER_EMAIL"@, push.repository.owner.email@, "PUSH_PUSHER_USERNAME"@);
    assert("PUSH_REPOSITORY_OWNER_EMAIL"@.len() != "PUSH_PUSHER_USERNAME"@.len());
    lemma_last_value_single("PUSH_REPOSITORY_OWNER_AVATAR_URL"@, push.repository.owner.avatar_url@, "PUSH_PUSHER_USERNAME"@);
    assert("PUSH_REPOSITORY_OWNER_AVATAR_URL"@.len() != "PUSH_PUSHER_USERNAME"@.len());
    lemma_last_value_single("PUSH_REPOSITORY_OWNER_USERNAME"@, push.repository.owner.username@, "PUSH_PUSHER_USERNAME"@);
    assert("PUSH_REPOSITORY_OWNER_USERNAME"@.len() != "PUSH_PUSHER_USERNAME"@.len());
    lemma_last_value_single("PUSH_REPOSITORY_NAME"@, push.repository.name@, "PUSH_PUSHER_USERNAME"@);
    assert("PUSH_REPOSITORY_NAME"@[5] != "PUSH_PUSHER_USERNAME"@[5]);
    lemma_last_value_single("PUSH_REPOSITORY_FULL_NAME"@, push.repository.full_name@, "PUSH_PUSHER_USERNAME"@);
    assert("PUSH_REPOSITORY_FULL_NAME"@.len() != "PUSH_PUSHER_USERNAME"@.len());
    lemma_last_value_concat(seq![("PUSH_REF_PATH"@, push.ref_path@)] + seq![("PUSH_BEFORE"@, push.before@)] + seq![("PUSH_AFTER"@, push.after@)] + seq![("PUSH_PUSHER_ID"@, decimal(push.pusher.id as nat))] + seq![("PUSH_PUSHER_LOGIN"@, push.pusher.login@)] + seq![("PUSH_PUSHER_FULL_NAME"@, push.pusher.full_name@)] + seq![("PUSH_PUSHER_EMAIL"@, push.pusher.email@)] + seq![("PUSH_PUSHER_AVATAR_URL"@, push.pusher.avatar_url@)] + seq![("PUSH_PUSHER_USERNAME"@, push.pusher.username@)] + seq![("PUSH_SENDER_ID"@, decimal(push.sender.id as nat))] + seq![("PUSH_SENDER_LOGIN"@, push.sender.login@)], seq![("PUSH_SENDER_FULL_NAME"@, push.sender.full_name@)], "PUSH_PUSHER_USERNAME"@);
    lemma_last_value_single("PUSH_SENDER_FULL_NAME"@, push.sender.full_name@, "PUSH_PUSHER_USERNAME"@);
    assert("PUSH_SENDER_FULL_NAME"@.len() != "PUSH_PUSHER_USERNAME"@.len());
    lemma_last_value_concat(seq![("PUSH_REF_PATH"@, push.ref_path@)] + seq![("PUSH_BEFORE"@, push.before@)] + seq![("PUSH_AFTER"@, push.after@)] + seq![("PUSH_PUSHER_ID"@, decimal(push.pusher.id as nat))] + seq![("PUSH_PUSHER_LOGIN"@, push.pusher.login@)] + seq![("PUSH_PUSHER_FULL_NAME"@, push.pusher.full_name@)] + seq![("PUSH_PUSHER_EMAIL"@, push.pusher.email@)] + seq![("PUSH_PUSHER_AVATAR_URL"@, push.pusher.avatar_url@)] + seq![("PUSH_PUSHER_USERNAME"@, push.pusher.username@)] + seq![("PUSH_SENDER_ID"@, decimal(push.sender.id as nat))], seq![("PUSH_SENDER_LOGIN"@, push.sender.login@)], "PUSH_PUSHER_USERNAME"@);
    lemma_last_value_single("PUSH_SENDER_LOGIN"@, push.sender.login@, "PUSH_PUSHER_USERNAME"@);
    assert("PUSH_SENDER_LOGIN"@.len() != "PUSH_PUSHER_USERNAME"@.len());
    lemma_last_value_concat(seq![("PUSH_REF_PATH"@, push.ref_path@)] + seq![("PUSH_BEFORE"@, push.before@)] + seq![("PUSH_AFTER"@, push.after@)] + seq![("PUSH_PUSHER_ID"@, decimal(push.pusher.id as nat))] + seq![("PUSH_PUSHER_LOGIN"@, push.pusher.login@)] + seq![("PUSH_PUSHER_FULL_NAME"@, push.pusher.full_name@)] + seq![("PUSH_PUSHER_EMAIL"@, push.pusher.email@)] + seq![("PUSH_PUSHER_AVATAR_URL"@, push.pusher.avatar_url@)] + seq![("PUSH_PUSHER_USERNAME"@, push.pusher.username@)], seq![("PUSH_SENDER_ID"@, decimal(push.sender.id as nat))], "PUSH_PUSHER_USERNAME"@);
    lemma_last_value_single("PUSH_SENDER_ID"@, decimal(push.sender.id as nat), "PUSH_PUSHER_USERNAME"@);
    assert("PUSH_SENDER_ID"@.len() != "PUSH_PUSHER_USERNAME"@.len());
    lemma_last_value_concat(seq![("PUSH_REF_PATH"@, push.ref_path@)] + seq![("PUSH_BEFORE"@, push.before@)] + seq![("PUSH_AFTER"@, push.after@)] + seq![("PUSH_PUSHER_ID"@, decimal(push.pusher.id as nat))] + seq![("PUSH_PUSHER_LOGIN"@, push.pusher.login@)] + seq![("PUSH_PUSHER_FULL_NAME"@, push.pusher.full_name@)] + seq![("PUSH_PUSHER_EMAIL"@, push.pusher.email@)] + seq![("PUSH_PUSHER_AVATAR_URL"@, push.pusher.avatar_url@)], seq![("PUSH_PUSHER_USERNAME"@, push.pusher.username@)], "PUSH_PUSHER_USERNAME"@);
    lemma_last_value_single("PUSH_PUSHER_USERNAME"@, push.pusher.username@, "PUSH_PUSHER_USERNAME"@);
}

/// The command that answers a push leaves the push's sender id in PUSH_SENDER_ID.
pub proof fn lemma_push_event_sender_id(push: PushEvent)
    ensures
        last_value(push_event_command(push).envs, "PUSH_SENDER_ID"@) == Some(decimal(push.sender.id as nat)),
{
    reveal_strlit("PUSH_REF_PATH");
    reveal_strlit("PUSH_BEFORE");
    reveal_strlit("PUSH_AFTER");
    reveal_strlit("PUSH_PUSHER_ID");
    reveal_strlit("PUSH_PUSHER_LOGIN");
    reveal_strlit("PUSH_PUSHER_FULL_NAME");
    reveal_strlit("PUSH_PUSHER_EMAIL");
    reveal_strlit("PUSH_PUSHER_AVATAR_URL");
    reveal_strlit("PUSH_PUSHER_USERNAME");
    reveal_strlit("PUSH_SENDER_ID");
    reveal_strlit("PUSH_SENDER_LOGIN");
    reveal_strlit("PUSH_SENDER_FULL_NAME");
    reveal_strlit("PUSH_SENDER_EMAIL");
    reveal_strlit("PUSH_SENDER_AVATAR_URL");
    reveal_strlit("PUSH_SENDER_USERNAME");
    reveal_strlit("PUSH_REPOSITORY_ID");
    reveal_strlit("PUSH_REPOSITORY_OWNER_ID");
    reveal_strlit("PUSH_REPOSITORY_OWNER_LOGIN");
    reveal_strlit("PUSH_REPOSITORY_OWNER_FULL_NAME");
    reveal_strlit("PUSH_REPOSITORY_OWNER_EMAIL");
    reveal_strlit("PUSH_REPOSITORY_OWNER_AVATAR_URL");
    reveal_strlit("PUSH_REPOSITORY_OWNER_USERNAME");
    reveal_strlit("PUSH_REPOSITORY_NAME");
    reveal_strlit("PUSH_REPOSITORY_FULL_NAME");
    reveal_strlit("PUSH_REPOSITORY_DESCRIPTION");
    reveal_strlit("PUSH_REPOSITORY_PRIVATE");
    reveal_strlit("PUSH_REPOSITORY_FORK");
    reveal_strlit("PUSH_REPOSITORY_HTML_URL");
    reveal_strlit("PUSH_REPOSITORY_SSH_URL");
    reveal_strlit("PUSH_REPOSITORY_CLONE_URL");
    reveal_strlit("PUSH_REPOSITORY_WEBSITE");
    reveal_strlit("PUSH_REPOSITORY_STARS_COUNT");
    reveal_strlit("PUSH_REPOSITORY_FORKS_COUNT");
    reveal_strlit("PUSH_REPOSITORY_WATCHERS_COUNT");
    reveal_strlit("PUSH_REPOSITORY_OPEN_ISSUES_COUNT");
    reveal_strlit("PUSH_REPOSITORY_DEFAULT_BRANCH");
    reveal_strlit("PUSH_REPOSITORY_CREATED_AT");
    reveal_strlit("PUSH_REPOSITORY_UPDATED_AT");
    lemma_last_value_concat(push_event_env_part1(push) + push_event_env_part2(push) + push_event_env_part3(push), push_event_env_part4(push), "PUSH_SENDER_ID"@);
    lemma_last_value_concat(seq![("PUSH_REPOSITORY_CREATED_AT"@, push.repository.created_at@)], seq![("PUSH_REPOSITORY_UPDATED_AT"@, push.repository.updated_at@)], "PUSH_SENDER_ID"@);
    lemma_last_value_single("PUSH_REPOSITORY_CREATED_AT"@, push.repository.created_at@, "PUSH_SENDER_ID"@);
    assert("PUSH_REPOSITORY_CREATED_AT"@.len() != "PUSH_SENDER_ID"@.len());
    lemma_last_value_single("PUSH_REPOSITORY_UPDATED_AT"@, push.repository.updated_at@, "PUSH_SENDER_ID"@);
    assert("PUSH_REPOSITORY_UPDATED_AT"@.len() != "PUSH_SENDER_ID"@.len());
    lemma_last_value_concat(push_event_env_part1(push) + push_event_env_part2(push), push_event_env_part3(push), "PUSH_SENDER_ID"@);
    lemma_last_value_concat(seq![("PUSH_REPOSITORY_DESCRIPTION"@, push.repository.description@)] + seq![("PUSH_REPOSITORY_PRIVATE"@, bool_text(push.repository.private))] + seq![("PUSH_REPOSITORY_FORK"@, bool_text(push.repository.fork))] + seq![("PUSH_REPOSITORY_HTML_URL"@, push.repository.html_url@)] + seq![("PUSH_REPOSITORY_SSH_URL"@, push.repository.ssh_url@)] + seq![("PUSH_REPOSITORY_CLONE_URL"@, push.repository.clone_url@)] + seq![("PUSH_REPOSITORY_WEBSITE"@, push.repository.website@)] + seq![("PUSH_REPOSITORY_STARS_COUNT"@, decimal(push.repository.stars_count as nat))] + seq![("PUSH_REPOSITORY_FORKS_COUNT"@, decimal(push.repository.forks_count as nat))] + seq![("PUSH_REPOSITORY_WATCHERS_COUNT"@, decimal(push.repository.watchers_count as nat))] + seq![("PUSH_REPOSITORY_OPEN_ISSUES_COUNT"@, decimal(push.repository.open_issues_count as nat))], seq![("PUSH_REPOSITORY_DEFAULT_BRANCH"@, push.repository.default_branch@)], "PUSH_SENDER_ID"@);
    lemma_last_value_concat(seq![("PUSH_REPOSITORY_DESCRIPTION"@, push.repository.description@)] + seq![("PUSH_REPOSITORY_PRIVATE"@, bool_text(push.repository.private))] + seq![("PUSH_REPOSITORY_FORK"@, bool_text(push.repository.fork))] + seq![("PUSH_REPOSITORY_HTML_URL"@, push.repository.html_url@)] + seq![("PUSH_REPOSITORY_SSH_URL"@, push.repository.ssh_url@)] + seq![("PUSH_REPOSITORY_CLONE_URL"@, push.repository.clone_url@)] + seq![("PUSH_REPOSITORY_WEBSITE"@, push.repository.website@)] + seq![("PUSH_REPOSITORY_STARS_COUNT"@, decimal(push.repository.stars_count as nat))] + seq![("PUSH_REPOSITORY_FORKS_COUNT"@, decimal(push.repository.forks_count as nat))] + seq![("PUSH_REPOSITORY_WATCHERS_COUNT"@, decimal(push.repository.watchers_count as nat))], seq![("PUSH_REPOSITORY_OPEN_ISSUES_COUNT"@, decimal(push.repository.open_issues_count as nat))], "PUSH_SENDER_ID"@);
    lemma_last_value_concat(seq![("PUSH_REPOSITORY_DESCRIPTION"@, push.repository.description@)] + seq![("PUSH_REPOSITORY_PRIVATE"@, bool_text(push.repository.private))] + seq![("PUSH_REPOSITORY_FORK"@, bool_text(push.repository.fork))] + seq![("PUSH_REPOSITORY_HTML_URL"@, push.repository.html_url@)] + seq![("PUSH_REPOSITORY_SSH_URL"@, push.repository.ssh_url@)] + seq![("PUSH_REPOSITORY_CLONE_URL"@, push.repository.clone_url@)] + seq![("PUSH_REPOSITORY_WEBSITE"@, push.repository.website@)] + seq![("PUSH_REPOSITORY_STARS_COUNT"@, decimal(push.repository.stars_count as nat))] + seq![("PUSH_REPOSITORY_FORKS_COUNT"@, decimal(push.repository.forks_count as nat))], seq![("PUSH_REPOSITORY_WATCHERS_COUNT"@, decimal(push.repository.watchers_count as nat))], "PUSH_SENDER_ID"@);
    lemma_last_value_concat(seq![("PUSH_REPOSITORY_DESCRIPTION"@, push.repository.description@)] + seq![("PUSH_REPOSITORY_PRIVATE"@, bool_text(push.repository.private))] + seq![("PUSH_REPOSITORY_FORK"@, bool_text(push.repository.fork))] + seq![("PUSH_REPOSITORY_HTML_URL"@, push.repository.html_url@)] + seq![("PUSH_REPOSITORY_SSH_URL"@, push.repository.ssh_url@)] + seq![("PUSH_REPOSITORY_CLONE_URL"@, push.repository.clone_url@)] + seq![("PUSH_REPOSITORY_WEBSITE"@, push.repository.website@)] + seq![("PUSH_REPOSITORY_STARS_COUNT"@, decimal(push.repository.stars_count as nat))], seq![("PUSH_REPOSITORY_FORKS_COUNT"@, decimal(push.repository.forks_count as nat))], "PUSH_SENDER_ID"@);
    lemma_last_value_concat(seq![("PUSH_REPOSITORY_DESCRIPTION"@, push.repository.description@)] + seq![("PUSH_REPOSITORY_PRIVATE"@, bool_text(push.repository.private))] + seq![("PUSH_REPOSITORY_FORK"@, bool_text(push.repository.fork))] + seq![("PUSH_REPOSITORY_HTML_URL"@, push.repository.html_url@)] + seq![("PUSH_REPOSITORY_SSH_URL"@, push.repository.ssh_url@)] + seq![("PUSH_REPOSITORY_CLONE_URL"@, push.repository.clone_url@)] + seq![("PUSH_REPOSITORY_WEBSITE"@, push.repository.website@)], seq![("PUSH_REPOSITORY_STARS_COUNT"@, decimal(push.repository.stars_count as nat))], "PUSH_SENDER_ID"@);
    lemma_last_value_concat(seq![("PUSH_REPOSITORY_DESCRIPTION"@, push.repository.description@)] + seq![("PUSH_REPOSITORY_PRIVATE"@, bool_text(push.repository.private))] + seq![("PUSH_REPOSITORY_FORK"@, bool_text(push.repository.fork))] + seq![("PUSH_REPOSITORY_HTML_URL"@, push.repository.html_url@)] + seq![("PUSH_REPOSITORY_SSH_URL"@, push.repository.ssh_url@)] + seq![("PUSH_REPOSITORY_CLONE_URL"@, push.repository.clone_url@)], seq![("PUSH_REPOSITORY_WEBSITE"@, push.repository.website@)], "PUSH_SENDER_ID"@);
    lemma_last_value_concat(seq![("PUSH_REPOSITORY_DESCRIPTION"@, push.repository.description@)] + seq![("PUSH_REPOSITORY_PRIVATE"@, bool_text(push.repository.private))] + seq![("PUSH_REPOSITORY_FORK"@, bool_text(push.repository.fork))] + seq![("PUSH_REPOSITORY_HTML_URL"@, push.repository.html_url@)] + seq![("PUSH_REPOSITORY_SSH_URL"@, push.repository.ssh_url@)], seq![("PUSH_REPOSITORY_CLONE_URL"@, push.repository.clone_url@)], "PUSH_SENDER_ID"@);
    lemma_last_value_concat(seq![("PUSH_REPOSITORY_DESCRIPTION"@, push.repository.description@)] + seq![("PUSH_REPOSITORY_PRIVATE"@, bool_text(push.repository.private))] + seq![("PUSH_REPOSITORY_FORK"@, bool_text(push.repository.fork))] + seq![("PUSH_REPOSITORY_HTML_URL"@, push.repository.html_url@)], seq![("PUSH_REPOSITORY_SSH_URL"@, push.repository.ssh_url@)], "PUSH_SENDER_ID"@);
    lemma_last_value_concat(seq![("PUSH_REPOSITORY_DESCRIPTION"@, push.repository.description@)] + seq![("PUSH_REPOSITORY_PRIVATE"@, bool_text(push.repository.private))] + seq![("PUSH_REPOSITORY_FORK"@, bool_text(push.repository.fork))], seq![("PUSH_REPOSITORY_HTML_URL"@, push.repository.html_url@)], "PUSH_SENDER_ID"@);
    lemma_last_value_concat(seq![("PUSH_REPOSITORY_DESCRIPTION"@, push.repository.description@)] + seq![("PUSH_REPOSITORY_PRIVATE"@, bool_text(push.repository.private))], seq![("PUSH_REPOSITORY_FORK"@, bool_text(push.repository.fork))], "PUSH_SENDER_ID"@);
    lemma_last_value_concat(seq![("PUSH_REPOSITORY_DESCRIPTION"@, push.repository.description@)], seq![("PUSH_REPOSITORY_PRIVATE"@, bool_text(push.repository.private))], "PUSH_SENDER_ID"@);
    lemma_last_value_single("PUSH_REPOSITORY_DESCRIPTION"@, push.repository.description@, "PUSH_SENDER_ID"@);
    assert("PUSH_REPOSITORY_DESCRIPTION"@.len() != "PUSH_SENDER_ID"@.len());
    lemma_last_value_single("PUSH_REPOSITORY_PRIVATE"@, bool_text(push.repository.private), "PUSH_SENDER_ID"@);
    assert("PUSH_REPOSITORY_PRIVATE"@.len() != "PUSH_SENDER_ID"@.len());
    lemma_last_value_single("PUSH_REPOSITORY_FORK"@, bool_text(push.repository.fork), "PUSH_SENDER_ID"@);
    assert("PUSH_REPOSITORY_FORK"@.len() != "PUSH_SENDER_ID"@.len());
    lemma_last_value_single("PUSH_REPOSITORY_HTML_URL"@, push.repository.html_url@, "PUSH_SENDER_ID"@);
    assert("PUSH_REPOSITORY_HTML_URL"@.len() != "PUSH_SENDER_ID"@.len());
    lemma_last_value_single("PUSH_REPOSITORY_SSH_URL"@, push.repository.ssh_url@, "PUSH_SENDER_ID"@);
    assert("PUSH_REPOSITORY_SSH_URL"@.len() != "PUSH_SENDER_ID"@.len());
    lemma_last_value_single("PUSH_REPOSITORY_CLONE_URL"@, push.repository.clone_url@, "PUSH_SENDER_ID"@);
    assert("PUSH_REPOSITORY_CLONE_URL"@.len() != "PUSH_SENDER_ID"@.len());
    lemma_last_value_single("PUSH_REPOSITORY_WEBSITE"@, push.repository.website@, "PUSH_SENDER_ID"@);
    assert("PUSH_REPOSITORY_WEBSITE"@.len() != "PUSH_SENDER_ID"@.len());
    lemma_last_value_single("PUSH_REPOSITORY_STARS_COUNT"@, decimal(push.repository.stars_count as nat), "PUSH_SENDER_ID"@);
    assert("PUSH_REPOSITORY_STARS_COUNT"@.len() != "PUSH_SENDER_ID"@.len());
    lemma_last_value_single("PUSH_REPOSITORY_FORKS_COUNT"@, decimal(push.repository.forks_count as nat), "PUSH_SENDER_ID"@);
    assert("PUSH_REPOSITORY_FORKS_COUNT"@.len() != "PUSH_SENDER_ID"@.len());
    lemma_last_value_single("PUSH_REPOSITORY_WATCHERS_COUNT"@, decimal(push.repository.watchers_count as nat), "PUSH_SENDER_ID"@);
    assert("PUSH_REPOSITORY_WATCHERS_COUNT"@.len() != "PUSH_SENDER_ID"@.len());
    lemma_last_value_single("PUSH_REPOSITORY_OPEN_ISSUES_COUNT"@, decimal(push.repository.open_issues_count as nat), "PUSH_SENDER_ID"@);
    assert("PUSH_REPOSITORY_OPEN_ISSUES_COUNT"@.len() != "PUSH_SENDER_ID"@.len());
    lemma_last_value_single("PUSH_REPOSITORY_DEFAULT_BRANCH"@, push.repository.default_branch@, "PUSH_SENDER_ID"@);
    assert("PUSH_REPOSITORY_DEFAULT_BRANCH"@.len() != "PUSH_SENDER_ID"@.len());
    lemma_last_value_concat(push_event_env_part1(push), push_event_env_part2(push), "PUSH_SENDER_ID"@);
    lemma_last_value_concat(seq![("PUSH_SENDER_EMAIL"@, push.sender.email@)] + seq![("PUSH_SENDER_AVATAR_URL"@, push.sender.avatar_url@)] + seq![("PUSH_SENDER_USERNAME"@, push.sender.username@)] + seq![("PUSH_REPOSITORY_ID"@, decimal(push.repository.id as nat))] + seq![("PUSH_REPOSITORY_OWNER_ID"@, decimal(push.repository.owner.id as nat))] + seq![("PUSH_REPOSITORY_OWNER_LOGIN"@, push.repository.owner.login@)] + seq![("PUSH_REPOSITORY_OWNER_FULL_NAME"@, push.repository.owner.full_name@)] + seq![("PUSH_REPOSITORY_OWNER_EMAIL"@, push.repository.owner.email@)] + seq![("PUSH_REPOSITORY_OWNER_AVATAR_URL"@, push.repository.owner.avatar_url@)] + seq![("PUSH_REPOSITORY_OWNER_USERNAME"@, push.repository.owner.username@)] + seq![("PUSH_REPOSITORY_NAME"@, push.repository.name@)], seq![("PUSH_REPOSITORY_FULL_NAME"@, push.repository.full_name@)], "PUSH_SENDER_ID"@);
    lemma_last_value_concat(seq![("PUSH_SENDER_EMAIL"@, push.sender.email@)] + seq![("PUSH_SENDER_AVATAR_URL"@, push.sender.avatar_url@)] + seq![("PUSH_SENDER_USERNAME"@, push.sender.username@)] + seq![("PUSH_REPOSITORY_ID"@, decimal(push.repository.id as nat))] + seq![("PUSH_REPOSITORY_OWNER_ID"@, decimal(push.repository.owner.id as nat))] + seq![("PUSH_REPOSITORY_OWNER_LOGIN"@, push.repository.owner.login@)] + seq![("PUSH_REPOSITORY_OWNER_FULL_NAME"@, push.repository.owner.full_name@)] + seq![("PUSH_REPOSITORY_OWNER_EMAIL"@, push.repository.owner.email@)] + seq![("PUSH_REPOSITORY_OWNER_AVATAR_URL"@, push.repository.owner.avatar_url@)] + seq![("PUSH_REPOSITORY_OWNER_USERNAME"@, push.repository.owner.username@)], seq![("PUSH_REPOSITORY_NAME"@, push.repository.name@)], "PUSH_SENDER_ID"@);
    lemma_last_value_concat(seq![("PUSH_SENDER_EMAIL"@, push.sender.email@)] + seq![("PUSH_SENDER_AVATAR_URL"@, push.sender.avatar_url@)] + seq![("PUSH_SENDER_USERNAME"@, push.sender.username@)] + seq![("PUSH_REPOSITORY_ID"@, decimal(push.repository.id as nat))] + seq![("PUSH_REPOSITORY_OWNER_ID"@, decimal(push.repository.owner.id as nat))] + seq![("PUSH_REPOSITORY_OWNER_LOGIN"@, push.repository.owner.login@)] + seq![("PUSH_REPOSITORY_OWNER_FULL_NAME"@, push.repository.owner.full_name@)] + seq![("PUSH_REPOSITORY_OWNER_EMAIL"@, push.repository.owner.email@)] + seq![("PUSH_REPOSITORY_OWNER_AVATAR_URL"@, push.repository.owner.avatar_url@)], seq![("PUSH_REPOSITORY_OWNER_USERNAME"@, push.repository.owner.username@)], "PUSH_SENDER_ID"@);
    lemma_last_value_concat(seq![("PUSH_SENDER_EMAIL"@, push.sender.email@)] + seq![("PUSH_SENDER_AVATAR_URL"@, push.sender.avatar_url@)] + seq![("PUSH_SENDER_USERNAME"@, push.sender.username@)] + seq![("PUSH_REPOSITORY_ID"@, decimal(push.repository.id as nat))] + seq![("PUSH_REPOSITORY_OWNER_ID"@, decimal(push.repository.owner.id as nat))] + seq![("PUSH_REPOSITORY_OWNER_LOGIN"@, push.repository.owner.login@)] + seq![("PUSH_REPOSITORY_OWNER_FULL_NAME"@, push.repository.owner.full_name@)] + seq![("PUSH_REPOSITORY_OWNER_EMAIL"@, push.repository.owner.email@)], seq![("PUSH_REPOSITORY_OWNER_AVATAR_URL"@, push.repository.owner.avatar_url@)], "PUSH_SENDER_ID"@);
    lemma_last_value_concat(seq![("PUSH_SENDER_EMAIL"@, push.sender.email@)] + seq![("PUSH_SENDER_AVATAR_URL"@, push.sender.avatar_url@)] + seq![("PUSH_SENDER_USERNAME"@, push.sender.username@)] + seq![("PUSH_REPOSITORY_ID"@, decimal(push.repository.id as nat))] + seq![("PUSH_REPOSITORY_OWNER_ID"@, decimal(push.repository.owner.id as nat))] + seq![("PUSH_REPOSITORY_OWNER_LOGIN"@, push.repository.owner.login@)] + seq![("PUSH_REPOSITORY_OWNER_FULL_NAME"@, push.repository.owner.full_name@)], seq![("PUSH_REPOSITORY_OWNER_EMAIL"@, push.repository.owner.email@)], "PUSH_SENDER_ID"@);
    lemma_last_value_concat(seq![("PUSH_SENDER_EMAIL"@, push.sender.email@)] + seq![("PUSH_SENDER_AVATAR_URL"@, push.sender.avatar_url@)] + seq![("PUSH_SENDER_USERNAME"@, push.sender.username@)] + seq![("PUSH_REPOSITORY_ID"@, decimal(push.repository.id as nat))] + seq![("PUSH_REPOSITORY_OWNER_ID"@, decimal(push.repository.owner.id as nat))] + seq![("PUSH_REPOSITORY_OWNER_LOGIN"@, push.repository.owner.login@)], seq![("PUSH_REPOSITORY_OWNER_FULL_NAME"@, push.repository.owner.full_name@)], "PUSH_SENDER_ID"@);
    lemma_last_value_concat(seq![("PUSH_SENDER_EMAIL"@, push.sender.email@)] + seq![("PUSH_SENDER_AVATAR_URL"@, push.sender.avatar_url@)] + seq![("PUSH_SENDER_USERNAME"@, push.sender.username@)] + seq![("PUSH_REPOSITORY_ID"@, decimal(push.repository.id as nat))] + seq![("PUSH_REPOSITORY_OWNER_ID"@, decimal(push.repository.owner.id as nat))], seq![("PUSH_REPOSITORY_OWNER_LOGIN"@, push.repository.owner.login@)], "PUSH_SENDER_ID"@);
    lemma_last_value_concat(seq![("PUSH_SENDER_EMAIL"@, push.sender.email@)] + seq![("PUSH_SENDER_AVATAR_URL"@, push.sender.avatar_url@)] + seq![("PUSH_SENDER_USERNAME"@, push.sender.username@)] + seq![("PUSH_REPOSITORY_ID"@, decimal(push.repository.id as nat))], seq![("PUSH_REPOSITORY_OWNER_ID"@, decimal(push.repository.owner.id as nat))], "PUSH_SENDER_ID"@);
    lemma_last_value_concat(seq![("PUSH_SENDER_EMAIL"@, push.sender.email@)] + seq![("PUSH_SENDER_AVATAR_URL"@, push.sender.avatar_url@)] + seq![("PUSH_SENDER_USERNAME"@, push.sender.username@)], seq![("PUSH_REPOSITORY_ID"@, decimal(push.repository.id as nat))], "PUSH_SENDER_ID"@);
    lemma_last_value_concat(seq![("PUSH_SENDER_EMAIL"@, push.sender.email@)] + seq![("PUSH_SENDER_AVATAR_URL"@, push.sender.avatar_url@)], seq![("PUSH_SENDER_USERNAME"@, push.sender.username@)], "PUSH_SENDER_ID"@);
    lemma_last_value_concat(seq![("PUSH_SENDER_EMAIL"@, push.sender.email@)], seq![("PUSH_SENDER_AVATAR_URL"@, push.sender.avatar_url@)], "PUSH_SENDER_ID"@);
    lemma_last_value_single("PUSH_SENDER_EMAIL"@, push.sender.email@, "PUSH_SENDER_ID"@);
    assert("PUSH_SENDER_EMAIL"@.len() != "PUSH_SENDER_ID"@.len());
    lemma_last_value_single("PUSH_SENDER_AVATAR_URL"@, push.sender.avatar_url@, "PUSH_SENDER_ID"@);
    assert("PUSH_SENDER_AVATAR_URL"@.len() != "PUSH_SENDER_ID"@.len());
    lemma_last_value_single("PUSH_SENDER_USERNAME"@, push.sender.username@, "PUSH_SENDER_ID"@);
    assert("PUSH_SENDER_USERNAME"@.len() != "PUSH_SENDER_ID"@.len());
    lemma_last_value_single("PUSH_REPOSITORY_ID"@, decimal(push.repository.id as nat), "PUSH_SENDER_ID"@);
    assert("PUSH_REPOSITORY_ID"@.len() != "PUSH_SENDER_ID"@.len());
    lemma_last_value_single("PUSH_REPOSITORY_OWNER_ID"@, decimal(push.repository.owner.id as nat), "PUSH_SENDER_ID"@);
    assert("PUSH_REPOSITORY_OWNER_ID"@.len() != "PUSH_SENDER_ID"@.len());
    lemma_last_value_single("PUSH_REPOSITORY_OWNER_LOGIN"@, push.repository.owner.login@, "PUSH_SENDER_ID"@);
    assert("PUSH_REPOSITORY_OWNER_LOGIN"@.len() != "PUSH_SENDER_ID"@.len());
    lemma_last_value_single("PUSH_REPOSITORY_OWNER_FULL_NAME"@, push.repository.owner.full_name@, "PUSH_SENDER_ID"@);
    assert("PUSH_REPOSITORY_OWNER_FULL_NAME"@.len() != "PUSH_SENDER_ID"@.len());
    lemma_last_value_single("PUSH_REPOSITORY_OWNER_EMAIL"@, push.repository.owner.email@, "PUSH_SENDER_ID"@);
    assert("PUSH_REPOSITORY_OWNER_EMAIL"@.len() != "PUSH_SENDER_ID"@.len());
    lemma_last_value_single("PUSH_REPOSITORY_OWNER_AVATAR_URL"@, push.repository.owner.avatar_url@, "PUSH_SENDER_ID"@);
    assert("PUSH_REPOSITORY_OWNER_AVATAR_URL"@.len() != "PUSH_SENDER_ID"@.len());
    lemma_last_value_single("PUSH_REPOSITORY_OWNER_USERNAME"@, push.repository.owner.username@, "PUSH_SENDER_ID"@);
    assert("PUSH_REPOSITORY_OWNER_USERNAME"@.len() != "PUSH_SENDER_ID"@.len());
    lemma_last_value_single("PUSH_REPOSITORY_NAME"@, push.repository.name@, "PUSH_SENDER_ID"@);
    assert("PUSH_REPOSITORY_NAME"@.len() != "PUSH_SENDER_ID"@.len());
    lemma_last_value_single("PUSH_REPOSITORY_FULL_NAME"@, push.repository.full_name@, "PUSH_SENDER_ID"@);
    assert("PUSH_REPOSITORY_FULL_NAME"@.len() != "PUSH_SENDER_ID"@.len());
    lemma_last_value_concat(seq![("PUSH_REF_PATH"@, push.ref_path@)] + seq![("PUSH_BEFORE"@, push.before@)] + seq![("PUSH_AFTER"@, push.after@)] + seq![("PUSH_PUSHER_ID"@, decimal(push.pusher.id as nat))] + seq![("PUSH_PUSHER_LOGIN"@, push.pusher.login@)] + seq![("PUSH_PUSHER_FULL_NAME"@, push.pusher.full_name@)] + seq![("PUSH_PUSHER_EMAIL"@, push.pusher.email@)] + seq![("PUSH_PUSHER_AVATAR_URL"@, push.pusher.avatar_url@)] + seq![("PUSH_PUSHER_USERNAME"@, push.pusher.username@)] + seq![("PUSH_SENDER_ID"@, decimal(push.sender.id as nat))] + seq![("PUSH_SENDER_LOGIN"@, push.sender.login@)], seq![("PUSH_SENDER_FULL_NAME"@, push.sender.full_name@)], "PUSH_SENDER_ID"@);
    lemma_last_value_single("PUSH_SENDER_FULL_NAME"@, push.sender.full_name@, "PUSH_SENDER_ID"@);
    assert("PUSH_SENDER_FULL_NAME"@.len() != "PUSH_SENDER_ID"@.len());
    lemma_last_value_concat(seq![("PUSH_REF_PATH"@, push.ref_path@)] + seq![("PUSH_BEFORE"@, push.before@)] + seq![("PUSH_AFTER"@, push.after@)] + seq![("PUSH_PUSHER_ID"@, decimal(push.pusher.id as nat))] + seq![("PUSH_PUSHER_LOGIN"@, push.pusher.login@)] + seq![("PUSH_PUSHER_FULL_NAME"@, push.pusher.full_name@)] + seq![("PUSH_PUSHER_EMAIL"@, push.pusher.email@)] + seq![("PUSH_PUSHER_AVATAR_URL"@, push.pusher.avatar_url@)] + seq![("PUSH_PUSHER_USERNAME"@, push.pusher.username@)] + seq![("PUSH_SENDER_ID"@, decimal(push.sender.id as nat))], seq![("PUSH_SENDER_LOGIN"@, push.sender.login@)], "PUSH_SENDER_ID"@);
    lemma_last_value_single("PUSH_SENDER_LOGIN"@, push.sender.login@, "PUSH_SENDER_ID"@);
    assert("PUSH_SENDER_LOGIN"@.len() != "PUSH_SENDER_ID"@.len());
    lemma_last_value_concat(seq![("PUSH_REF_PATH"@, push.ref_path@)] + seq![("PUSH_BEFORE"@, push.before@)] + seq![("PUSH_AFTER"@, push.after@)] + seq![("PUSH_PUSHER_ID"@, decimal(push.pusher.id as nat))] + seq![("PUSH_PUSHER_LOGIN"@, push.pusher.login@)] + seq![("PUSH_PUSHER_FULL_NAME"@, push.pusher.full_name@)] + seq![("PUSH_PUSHER_EMAIL"@, push.pusher.email@)] + seq![("PUSH_PUSHER_AVATAR_URL"@, push.pusher.avatar_url@)] + seq![("PUSH_PUSHER_USERNAME"@, push.pusher.username@)], seq![("PUSH_SENDER_ID"@, decimal(push.sender.id as nat))], "PUSH_SENDER_ID"@);
    lemma_last_value_single("PUSH_SENDER_ID"@, decimal(push.sender.id as nat), "PUSH_SENDER_ID"@);
}

/// The command that answers a push leaves the push's sender login in PUSH_SENDER_LOGIN.
pub proof fn lemma_push_event_sender_login(push: PushEvent)
    ensures
        last_value(push_event_command(push).envs, "PUSH_SENDER_LOGIN"@) == Some(push.sender.login@),
{
    reveal_strlit("PUSH_REF_PATH");
    reveal_strlit("PUSH_BEFORE");
    reveal_strlit("PUSH_AFTER");
    reveal_strlit("PUSH_PUSHER_ID");
    reveal_strlit("PUSH_PUSHER_LOGIN");
    reveal_strlit("PUSH_PUSHER_FULL_NAME");
    reveal_strlit("PUSH_PUSHER_EMAIL");
    reveal_strlit("PUSH_PUSHER_AVATAR_URL");
    reveal_strlit("PUSH_PUSHER_USERNAME");
    reveal_strlit("PUSH_SENDER_ID");
    reveal_strlit("PUSH_SENDER_LOGIN");
    reveal_strlit("PUSH_SENDER_FULL_NAME");
    reveal_strlit("PUSH_SENDER_EMAIL");
    reveal_strlit("PUSH_SENDER_AVATAR_URL");
    reveal_strlit("PUSH_SENDER_USERNAME");
    reveal_strlit("PUSH_REPOSITORY_ID");
    reveal_strlit("PUSH_REPOSITORY_OWNER_ID");
    reveal_strlit("PUSH_REPOSITORY_OWNER_LOGIN");
    reveal_strlit("PUSH_REPOSITORY_OWNER_FULL_NAME");
    reveal_strlit("PUSH_REPOSITORY_OWNER_EMAIL");
    reveal_strlit("PUSH_REPOSITORY_OWNER_AVATAR_URL");
    reveal_strlit("PUSH_REPOSITORY_OWNER_USERNAME");
    reveal_strlit("PUSH_REPOSITORY_NAME");
    reveal_strlit("PUSH_REPOSITORY_FULL_NAME");
    reveal_strlit("PUSH_REPOSITORY_DESCRIPTION");
    reveal_strlit("PUSH_REPOSITORY_PRIVATE");
    reveal_strlit("PUSH_REPOSITORY_FORK");
    reveal_strlit("PUSH_REPOSITORY_HTML_URL");
    reveal_strlit("PUSH_REPOSITORY_SSH_URL");
    reveal_strlit("PUSH_REPOSITORY_CLONE_URL");
    reveal_strlit("PUSH_REPOSITORY_WEBSITE");
    reveal_strlit("PUSH_REPOSITORY_STARS_COUNT");
    reveal_strlit("PUSH_REPOSITORY_FORKS_COUNT");
    reveal_strlit("PUSH_REPOSITORY_WATCHERS_COUNT");
    reveal_strlit("PUSH_REPOSITORY_OPEN_ISSUES_COUNT");
    reveal_strlit("PUSH_REPOSITORY_DEFAULT_BRANCH");
    reveal_strlit("PUSH_REPOSITORY_CREATED_AT");
    reveal_strlit("PUSH_REPOSITORY_UPDATED_AT");
    lemma_last_value_concat(push_event_env_part1(push) + push_event_env_part2(push) + push_event_env_part3(push), push_event_env_part4(push), "PUSH_SENDER_LOGIN"@);
    lemma_last_value_concat(seq![("PUSH_REPOSITORY_CREATED_AT"@, push.repository.created_at@)], seq![("PUSH_REPOSITORY_UPDATED_AT"@, push.repository.updated_at@)], "PUSH_SENDER_LOGIN"@);
    lemma_last_value_single("PUSH_REPOSITORY_CREATED_AT"@, push.repository.created_at@, "PUSH_SENDER_LOGIN"@);
    assert("PUSH_REPOSITORY_CREATED_AT"@.len() != "PUSH_SENDER_LOGIN"@.len());
    lemma_last_value_single("PUSH_REPOSITORY_UPDATED_AT"@, push.repository.updated_at@, "PUSH_SENDER_LOGIN"@);
    assert("PUSH_REPOSITORY_UPDATED_AT"@.len() != "PUSH_SENDER_LOGIN"@.len());
    lemma_last_value_concat(push_event_env_part1(push) + push_event_env_part2(push), push_event_env_part3(push), "PUSH_SENDER_LOGIN"@);
    lemma_last_value_concat(seq![("PUSH_REPOSITORY_DESCRIPTION"@, push.repository.description@)] + seq![("PUSH_REPOSITORY_PRIVATE"@, bool_text(push.repository.private))] + seq![("PUSH_REPOSITORY_FORK"@, bool_text(push.repository.fork))] + seq![("PUSH_REPOSITORY_HTML_URL"@, push.repository.html_url@)] + seq![("PUSH_REPOSITORY_SSH_URL"@, push.repository.ssh_url@)] + seq![("PUSH_REPOSITORY_CLONE_URL"@, push.repository.clone_url@)] + seq![("PUSH_REPOSITORY_WEBSITE"@, push.repository.website@)] + seq![("PUSH_REPOSITORY_STARS_COUNT"@, decimal(push.repository.stars_count as nat))] + seq![("PUSH_REPOSITORY_FORKS_COUNT"@, decimal(push.repository.forks_count as nat))] + seq![("PUSH_REPOSITORY_WATCHERS_COUNT"@, decimal(push.repository.watchers_count as nat))] + seq![("PUSH_REPOSITORY_OPEN_ISSUES_COUNT"@, decimal(push.repository.open_issues_count as nat))], seq![("PUSH_REPOSITORY_DEFAULT_BRANCH"@, push.repository.default_branch@)], "PUSH_SENDER_LOGIN"@);
    lemma_last_value_concat(seq![("PUSH_REPOSITORY_DESCRIPTION"@, push.repository.description@)] + seq![("PUSH_REPOSITORY_PRIVATE"@, bool_text(push.repository.private))] + seq![("PUSH_REPOSITORY_FORK"@, bool_text(push.repository.fork))] + seq![("PUSH_REPOSITORY_HTML_URL"@, push.repository.html_url@)] + seq![("PUSH_REPOSITORY_SSH_URL"@, push.repository.ssh_url@)] + seq![("PUSH_REPOSITORY_CLONE_URL"@, push.repository.clone_url@)] + seq![("PUSH_REPOSITORY_WEBSITE"@, push.repository.website@)] + seq![("PUSH_REPOSITORY_STARS_COUNT"@, decimal(push.repository.stars_count as nat))] + seq![("PUSH_REPOSITORY_FORKS_COUNT"@, decimal(push.repository.forks_count as nat))] + seq![("PUSH_REPOSITORY_WATCHERS_COUNT"@, decimal(push.repository.watchers_count as nat))], seq![("PUSH_REPOSITORY_OPEN_ISSUES_COUNT"@, decimal(push.repository.open_issues_count as nat))], "PUSH_SENDER_LOGIN"@);
    lemma_last_value_concat(seq![("PUSH_REPOSITORY_DESCRIPTION"@, push.repository.description@)] + seq![("PUSH_REPOSITORY_PRIVATE"@, bool_text(push.repository.private))] + seq![("PUSH_REPOSITORY_FORK"@, bool_text(push.repository.fork))] + seq![("PUSH_REPOSITORY_HTML_URL"@, push.repository.html_url@)] + seq![("PUSH_REPOSITORY_SSH_URL"@, push.repository.ssh_url@)] + seq![("PUSH_REPOSITORY_CLONE_URL"@, push.repository.clone_url@)] + seq![("PUSH_REPOSITORY_WEBSITE"@, push.repository.website@)] + seq![("PUSH_REPOSITORY_STARS_COUNT"@, decimal(push.repository.stars_count as nat))] + seq![("PUSH_REPOSITORY_FORKS_COUNT"@, decimal(push.repository.forks_count as nat))], seq![("PUSH_REPOSITORY_WATCHERS_COUNT"@, decimal(push.repository.watchers_count as nat))], "PUSH_SENDER_LOGIN"@);
    lemma_last_value_concat(seq![("PUSH_REPOSITORY_DESCRIPTION"@, push.repository.description@)] + seq![("PUSH_REPOSITORY_PRIVATE"@, bool_text(push.repository.private))] + seq![("PUSH_REPOSITORY_FORK"@, bool_text(push.repository.fork))] + seq![("PUSH_REPOSITORY_HTML_URL"@, push.repository.html_url@)] + seq![("PUSH_REPOSITORY_SSH_URL"@, push.repository.ssh_url@)] + seq![("PUSH_REPOSITORY_CLONE_URL"@, push.repository.clone_url@)] + seq![("PUSH_REPOSITORY_WEBSITE"@, push.repository.website@)] + seq![("PUSH_REPOSITORY_STARS_COUNT"@, decimal(push.repository.stars_count as nat))], seq![("PUSH_REPOSITORY_FORKS_COUNT"@, decimal(push.repository.forks_count as nat))], "PUSH_SENDER_LOGIN"@);
    lemma_last_value_concat(seq![("PUSH_REPOSITORY_DESCRIPTION"@, push.repository.description@)] + seq![("PUSH_REPOSITORY_PRIVATE"@, bool_text(push.repository.private))] + seq![("PUSH_REPOSITORY_FORK"@, bool_text(push.repository.fork))] + seq![("PUSH_REPOSITORY_HTML_URL"@, push.repository.html_url@)] + seq![("PUSH_REPOSITORY_SSH_URL"@, push.repository.ssh_url@)] + seq![("PUSH_REPOSITORY_CLONE_URL"@, push.repository.clone_url@)] + seq![("PUSH_REPOSITORY_WEBSITE"@, push.repository.website@)], seq![("PUSH_REPOSITORY_STARS_COUNT"@, decimal(push.repository.stars_count as nat))], "PUSH_SENDER_LOGIN"@);
    lemma_last_value_concat(seq![("PUSH_REPOSITORY_DESCRIPTION"@, push.repository.description@)] + seq![("PUSH_REPOSITORY_PRIVATE"@, bool_text(push.repository.private))] + seq![("PUSH_REPOSITORY_FORK"@, bool_text(push.repository.fork))] + seq![("PUSH_REPOSITORY_HTML_URL"@, push.repository.html_url@)] + seq![("PUSH_REPOSITORY_SSH_URL"@, push.repository.ssh_url@)] + seq![("PUSH_REPOSITORY_CLONE_URL"@, push.repository.clone_url@)], seq![("PUSH_REPOSITORY_WEBSITE"@, push.repository.website@)], "PUSH_SENDER_LOGIN"@);
    lemma_last_value_concat(seq![("PUSH_REPOSITORY_DESCRIPTION"@, push.repository.description@)] + seq![("PUSH_REPOSITORY_PRIVATE"@, bool_text(push.repository.private))] + seq![("PUSH_REPOSITORY_FORK"@, bool_text(push.repository.fork))] + seq![("PUSH_REPOSITORY_HTML_URL"@, push.repository.html_url@)] + seq![("PUSH_REPOSITORY_SSH_URL"@, push.repository.ssh_url@)], seq![("PUSH_REPOSITORY_CLONE_URL"@, push.repository.clone_url@)], "PUSH_SENDER_LOGIN"@);
    lemma_last_value_concat(seq![("PUSH_REPOSITORY_DESCRIPTION"@, push.repository.description@)] + seq![("PUSH_REPOSITORY_PRIVATE"@, bool_text(push.repository.private))] + seq![("PUSH_REPOSITORY_FORK"@, bool_text(push.repository.fork))] + seq![("PUSH_REPOSITORY_HTML_URL"@, push.repository.html_url@)], seq![("PUSH_REPOSITORY_SSH_URL"@, push.repository.ssh_url@)], "PUSH_SENDER_LOGIN"@);
    lemma_last_value_concat(seq![("PUSH_REPOSITORY_DESCRIPTION"@, push.repository.description@)] + seq![("PUSH_REPOSITORY_PRIVATE"@, bool_text(push.repository.private))] + seq![("PUSH_REPOSITORY_FORK"@, bool_text(push.repository.fork))], seq![("PUSH_REPOSITORY_HTML_URL"@, push.repository.html_url@)], "PUSH_SENDER_LOGIN"@);
    lemma_last_value_concat(seq![("PUSH_REPOSITORY_DESCRIPTION"@, push.repository.description@)] + seq![("PUSH_REPOSITORY_PRIVATE"@, bool_text(push.repository.private))], seq![("PUSH_REPOSITORY_FORK"@, bool_text(push.repository.fork))], "PUSH_SENDER_LOGIN"@);
    lemma_last_value_concat(seq![("PUSH_REPOSITORY_DESCRIPTION"@, push.repository.description@)], seq![("PUSH_REPOSITORY_PRIVATE"@, bool_text(push.repository.private))], "PUSH_SENDER_LOGIN"@);
    lemma_last_value_single("PUSH_REPOSITORY_DESCRIPTION"@, push.repository.description@, "PUSH_SENDER_LOGIN"@);
    assert("PUSH_REPOSITORY_DESCRIPTION"@.len() != "PUSH_SENDER_LOGIN"@.len());
    lemma_last_value_single("PUSH_REPOSITORY_PRIVATE"@, bool_text(push.repository.private), "PUSH_SENDER_LOGIN"@);
    assert("PUSH_REPOSITORY_PRIVATE"@.len() != "PUSH_SENDER_LOGIN"@.len());
    lemma_last_value_single("PUSH_REPOSITORY_FORK"@, bool_text(push.repository.fork), "PUSH_SENDER_LOGIN"@);
    assert("PUSH_REPOSITORY_FORK"@.len() != "PUSH_SENDER_LOGIN"@.len());
    lemma_last_value_single("PUSH_REPOSITORY_HTML_URL"@, push.repository.html_url@, "PUSH_SENDER_LOGIN"@);
    assert("PUSH_REPOSITORY_HTML_URL"@.len() != "PUSH_SENDER_LOGIN"@.len());
    lemma_last_value_single("PUSH_REPOSITORY_SSH_URL"@, push.repository.ssh_url@, "PUSH_SENDER_LOGIN"@);
    assert("PUSH_REPOSITORY_SSH_URL"@.len() != "PUSH_SENDER_LOGIN"@.len());
    lemma_last_value_single("PUSH_REPOSITORY_CLONE_URL"@, push.repository.clone_url@, "PUSH_SENDER_LOGIN"@);
    assert("PUSH_REPOSITORY_CLONE_URL"@.len() != "PUSH_SENDER_LOGIN"@.len());
    lemma_last_value_single("PUSH_REPOSITORY_WEBSITE"@, push.repository.website@, "PUSH_SENDER_LOGIN"@);
    assert("PUSH_REPOSITORY_WEBSITE"@.len() != "PUSH_SENDER_LOGIN"@.len());
    lemma_last_value_single("PUSH_REPOSITORY_STARS_COUNT"@, decimal(push.repository.stars_count as nat), "PUSH_SENDER_LOGIN"@);
    assert("PUSH_REPOSITORY_STARS_COUNT"@.len() != "PUSH_SENDER_LOGIN"@.len());
    lemma_last_value_single("PUSH_REPOSITORY_FORKS_COUNT"@, decimal(push.repository.forks_count as nat), "PUSH_SENDER_LOGIN"@);
    assert("PUSH_REPOSITORY_FORKS_COUNT"@.len() != "PUSH_SENDER_LOGIN"@.len());
    lemma_last_value_single("PUSH_REPOSITORY_WATCHERS_COUNT"@, decimal(push.repository.watchers_count as nat), "PUSH_SENDER_LOGIN"@);
    assert("PUSH_REPOSITORY_WATCHERS_COUNT"@.len() != "PUSH_SENDER_LOGIN"@.len());
    lemma_last_value_single("PUSH_REPOSITORY_OPEN_ISSUES_COUNT"@, decimal(push.repository.open_issues_count as nat), "PUSH_SENDER_LOGIN"@);
    assert("PUSH_REPOSITORY_OPEN_ISSUES_COUNT"@.len() != "PUSH_SENDER_LOGIN"@.len());
    lemma_last_value_single("PUSH_REPOSITORY_DEFAULT_BRANCH"@, push.repository.default_branch@, "PUSH_SENDER_LOGIN"@);
    assert("PUSH_REPOSITORY_DEFAULT_BRANCH"@.len() != "PUSH_SENDER_LOGIN"@.len());
    lemma_last_value_concat(push_event_env_part1(push), push_event_env_part2(push), "PUSH_SENDER_LOGIN"@);
    lemma_last_value_concat(seq![("PUSH_SENDER_EMAIL"@, push.sender.email@)] + seq![("PUSH_SENDER_AVATAR_URL"@, push.sender.avatar_url@)] + seq![("PUSH_SENDER_USERNAME"@, push.sender.username@)] + seq![("PUSH_REPOSITORY_ID"@, decimal(push.repository.id as nat))] + seq![("PUSH_REPOSITORY_OWNER_ID"@, decimal(push.repository.owner.id as nat))] + seq![("PUSH_REPOSITORY_OWNER_LOGIN"@, push.repository.owner.login@)] + seq![("PUSH_REPOSITORY_OWNER_FULL_NAME"@, push.repository.owner.full_name@)] + seq![("PUSH_REPOSITORY_OWNER_EMAIL"@, push.repository.owner.email@)] + seq![("PUSH_REPOSITORY_OWNER_AVATAR_URL"@, push.repository.owner.avatar_url@)] + seq![("PUSH_REPOSITORY_OWNER_USERNAME"@, push.repository.owner.username@)] + seq![("PUSH_REPOSITORY_NAME"@, push.repository.name@)], seq![("PUSH_REPOSITORY_FULL_NAME"@, push.repository.full_name@)], "PUSH_SENDER_LOGIN"@);
    lemma_last_value_concat(seq![("PUSH_SENDER_EMAIL"@, push.sender.email@)] + seq![("PUSH_SENDER_AVATAR_URL"@, push.sender.avatar_url@)] + seq![("PUSH_SENDER_USERNAME"@, push.sender.username@)] + seq![("PUSH_REPOSITORY_ID"@, decimal(push.repository.id as nat))] + seq![("PUSH_REPOSITORY_OWNER_ID"@, decimal(push.repository.owner.id as nat))] + seq![("PUSH_REPOSITORY_OWNER_LOGIN"@, push.repository.owner.login@)] + seq![("PUSH_REPOSITORY_OWNER_FULL_NAME"@, push.repository.owner.full_name@)] + seq![("PUSH_REPOSITORY_OWNER_EMAIL"@, push.repository.owner.email@)] + seq![("PUSH_REPOSITORY_OWNER_AVATAR_URL"@, push.repository.owner.avatar_url@)] + seq![("PUSH_REPOSITORY_OWNER_USERNAME"@, push.repository.owner.username@)], seq![("PUSH_REPOSITORY_NAME"@, push.repository.name@)], "PUSH_SENDER_LOGIN"@);
    lemma_last_value_concat(seq![("PUSH_SENDER_EMAIL"@, push.sender.email@)] + seq![("PUSH_SENDER_AVATAR_URL"@, push.sender.avatar_url@)] + seq![("PUSH_SENDER_USERNAME"@, push.sender.username@)] + seq![("PUSH_REPOSITORY_ID"@, decimal(push.repository.id as nat))] + seq![("PUSH_REPOSITORY_OWNER_ID"@, decimal(push.repository.owner.id as nat))] + seq![("PUSH_REPOSITORY_OWNER_LOGIN"@, push.repository.owner.login@)] + seq![("PUSH_REPOSITORY_OWNER_FULL_NAME"@, push.repository.owner.full_name@)] + seq![("PUSH_REPOSITORY_OWNER_EMAIL"@, push.repository.owner.email@)] + seq![("PUSH_REPOSITORY_OWNER_AVATAR_URL"@, push.repository.owner.avatar_url@)], seq![("PUSH_REPOSITORY_OWNER_USERNAME"@, push.repository.owner.username@)], "PUSH_SENDER_LOGIN"@);
    lemma_last_value_concat(seq![("PUSH_SENDER_EMAIL"@, push.sender.email@)] + seq![("PUSH_SENDER_AVATAR_URL"@, push.sender.avatar_url@)] + seq![("PUSH_SENDER_USERNAME"@, push.sender.username@)] + seq![("PUSH_REPOSITORY_ID"@, decimal(push.repository.id as nat))] + seq![("PUSH_REPOSITORY_OWNER_ID"@, decimal(push.repository.owner.id as nat))] + seq![("PUSH_REPOSITORY_OWNER_LOGIN"@, push.repository.owner.login@)] + seq![("PUSH_REPOSITORY_OWNER_FULL_NAME"@, push.repository.owner.full_name@)] + seq![("PUSH_REPOSITORY_OWNER_EMAIL"@, push.repository.owner.email@)], seq![("PUSH_REPOSITORY_OWNER_AVATAR_URL"@, push.repository.owner.avatar_url@)], "PUSH_SENDER_LOGIN"@);
    lemma_last_value_concat(seq![("PUSH_SENDER_EMAIL"@, push.sender.email@)] + seq![("PUSH_SENDER_AVATAR_URL"@, push.sender.avatar_url@)] + seq![("PUSH_SENDER_USERNAME"@, push.sender.username@)] + seq![("PUSH_REPOSITORY_ID"@, decimal(push.repository.id as nat))] + seq![("PUSH_REPOSITORY_OWNER_ID"@, decimal(push.repository.owner.id as nat))] + seq![("PUSH_REPOSITORY_OWNER_LOGIN"@, push.repository.owner.login@)] + seq![("PUSH_REPOSITORY_OWNER_FULL_NAME"@, push.repository.owner.full_name@)], seq![("PUSH_REPOSITORY_OWNER_EMAIL"@, push.repository.owner.email@)], "PUSH_SENDER_LOGIN"@);
    lemma_last_value_concat(seq![("PUSH_SENDER_EMAIL"@, push.sender.email@)] + seq![("PUSH_SENDER_AVATAR_URL"@, push.sender.avatar_url@)] + seq![("PUSH_SENDER_USERNAME"@, push.sender.username@)] + seq![("PUSH_REPOSITORY_ID"@, decimal(push.repository.id as nat))] + seq![("PUSH_REPOSITORY_OWNER_ID"@, decimal(push.repository.owner.id as nat))] + seq![("PUSH_REPOSITORY_OWNER_LOGIN"@, push.repository.owner.login@)], seq![("PUSH_REPOSITORY_OWNER_FULL_NAME"@, push.repository.owner.full_name@)], "PUSH_SENDER_LOGIN"@);
    lemma_last_value_concat(seq![("PUSH_SENDER_EMAIL"@, push.sender.email@)] + seq![("PUSH_SENDER_AVATAR_URL"@, push.sender.avatar_url@)] + seq![("PUSH_SENDER_USERNAME"@, push.sender.username@)] + seq![("PUSH_REPOSITORY_ID"@, decimal(push.repository.id as nat))] + seq![("PUSH_REPOSITORY_OWNER_ID"@, decimal(push.repository.owner.id as nat))], seq![("PUSH_REPOSITORY_OWNER_LOGIN"@, push.repository.owner.login@)], "PUSH_SENDER_LOGIN"@);
    lemma_last_value_concat(seq![("PUSH_SENDER_EMAIL"@, push.sender.email@)] + seq![("PUSH_SENDER_AVATAR_URL"@, push.sender.avatar_url@)] + seq![("PUSH_SENDER_USERNAME"@, push.sender.username@)] + seq![("PUSH_REPOSITORY_ID"@, decimal(push.repository.id as nat))], seq![("PUSH_REPOSITORY_OWNER_ID"@, decimal(push.repository.owner.id as nat))], "PUSH_SENDER_LOGIN"@);
    lemma_last_value_concat(seq![("PUSH_SENDER_EMAIL"@, push.sender.email@)] + seq![("PUSH_SENDER_AVATAR_URL"@, push.sender.avatar_url@)] + seq![("PUSH_SENDER_USERNAME"@, push.sender.username@)], seq![("PUSH_REPOSITORY_ID"@, decimal(push.repository.id as nat))], "PUSH_SENDER_LOGIN"@);
    lemma_last_value_concat(seq![("PUSH_SENDER_EMAIL"@, push.sender.email@)] + seq![("PUSH_SENDER_AVATAR_URL"@, push.sender.avatar_url@)], seq![("PUSH_SENDER_USERNAME"@, push.sender.username@)], "PUSH_SENDER_LOGIN"@);
    lemma_last_value_concat(seq![("PUSH_SENDER_EMAIL"@, push.sender.email@)], seq![("PUSH_SENDER_AVATAR_URL"@, push.sender.avatar_url@)], "PUSH_SENDER_LOGIN"@);
    lemma_last_value_single("PUSH_SENDER_EMAIL"@, push.sender.email@, "PUSH_SENDER_LOGIN"@);
    assert("PUSH_SENDER_EMAIL"@[12] != "PUSH_SENDER_LOGIN"@[12]);
    lemma_last_value_single("PUSH_SENDER_AVATAR_URL"@, push.sender.avatar_url@, "PUSH_SENDER_LOGIN"@);
    assert("PUSH_SENDER_AVATAR_URL"@.len() != "PUSH_SENDER_LOGIN"@.len());
    lemma_last_value_single("PUSH_SENDER_USERNAME"@, push.sender.username@, "PUSH_SENDER_LOGIN"@);
    assert("PUSH_SENDER_USERNAME"@.len() != "PUSH_SENDER_LOGIN"@.len());
    lemma_last_value_single("PUSH_REPOSITORY_ID"@, decimal(push.repository.id as nat), "PUSH_SENDER_LOGIN"@);
    assert("PUSH_REPOSITORY_ID"@.len() != "PUSH_SENDER_LOGIN"@.len());
    lemma_last_value_single("PUSH_REPOSITORY_OWNER_ID"@, decimal(push.repository.owner.id as nat), "PUSH_SENDER_LOGIN"@);
    assert("PUSH_REPOSITORY_OWNER_ID"@.len() != "PUSH_SENDER_LOGIN"@.len());
    lemma_last_value_single("PUSH_REPOSITORY_OWNER_LOGIN"@, push.repository.owner.login@, "PUSH_SENDER_LOGIN"@);
    assert("PUSH_REPOSITORY_OWNER_LOGIN"@.len() != "PUSH_SENDER_LOGIN"@.len());
    lemma_last_value_single("PUSH_REPOSITORY_OWNER_FULL_NAME"@, push.repository.owner.full_name@, "PUSH_SENDER_LOGIN"@);
    assert("PUSH_REPOSITORY_OWNER_FULL_NAME"@.len() != "PUSH_SENDER_LOGIN"@.len());
    lemma_last_value_single("PUSH_REPOSITORY_OWNER_EMAIL"@, push.repository.owner.email@, "PUSH_SENDER_LOGIN"@);
    assert("PUSH_REPOSITORY_OWNER_EMAIL"@.len() != "PUSH_SENDER_LOGIN"@.len());
    lemma_last_value_single("PUSH_REPOSITORY_OWNER_AVATAR_URL"@, push.repository.owner.avatar_url@, "PUSH_SENDER_LOGIN"@);
    assert("PUSH_REPOSITORY_OWNER_AVATAR_URL"@.len() != "PUSH_SENDER_LOGIN"@.len());
    lemma_last_value_single("PUSH_REPOSITORY_OWNER_USERNAME"@, push.repository.owner.username@, "PUSH_SENDER_LOGIN"@);
    assert("PUSH_REPOSITORY_OWNER_USERNAME"@.len() != "PUSH_SENDER_LOGIN"@.len());
    lemma_last_value_single("PUSH_REPOSITORY_NAME"@, push.repository.name@, "PUSH_SENDER_LOGIN"@);
    assert("PUSH_REPOSITORY_NAME"@.len() != "PUSH_SENDER_LOGIN"@.len());
    lemma_last_value_single("PUSH_REPOSITORY_FULL_NAME"@, push.repository.full_name@, "PUSH_SENDER_LOGIN"@);
    assert("PUSH_REPOSITORY_FULL_NAME"@.len() != "PUSH_SENDER_LOGIN"@.len());
    lemma_last_value_concat(seq![("PUSH_REF_PATH"@, push.ref_path@)] + seq![("PUSH_BEFORE"@, push.before@)] + seq![("PUSH_AFTER"@, push.after@)] + seq![("PUSH_PUSHER_ID"@, decimal(push.pusher.id as nat))] + seq![("PUSH_PUSHER_LOGIN"@, push.pusher.login@)] + seq![("PUSH_PUSHER_FULL_NAME"@, push.pusher.full_name@)] + seq![("PUSH_PUSHER_EMAIL"@, push.pusher.email@)] + seq![("PUSH_PUSHER_AVATAR_URL"@, push.pusher.avatar_url@)] + seq![("PUSH_PUSHER_USERNAME"@, push.pusher.username@)] + seq![("PUSH_SENDER_ID"@, decimal(push.sender.id as nat))] + seq![("PUSH_SENDER_LOGIN"@, push.sender.login@)], seq![("PUSH_SENDER_FULL_NAME"@, push.sender.full_name@)], "PUSH_SENDER_LOGIN"@);
    lemma_last_value_single("PUSH_SENDER_FULL_NAME"@, push.sender.full_name@, "PUSH_SENDER_LOGIN"@);
    assert("PUSH_SENDER_FULL_NAME"@.len() != "PUSH_SENDER_LOGIN"@.len());
    lemma_last_value_concat(seq![("PUSH_REF_PATH"@, push.ref_path@)] + seq![("PUSH_BEFORE"@, push.before@)] + seq![("PUSH_AFTER"@, push.after@)] + seq![("PUSH_PUSHER_ID"@, decimal(push.pusher.id as nat))] + seq![("PUSH_PUSHER_LOGIN"@, push.pusher.login@)] + seq![("PUSH_PUSHER_FULL_NAME"@, push.pusher.full_name@)] + seq![("PUSH_PUSHER_EMAIL"@, push.pusher.email@)] + seq![("PUSH_PUSHER_AVATAR_URL"@, push.pusher.avatar_url@)] + seq![("PUSH_PUSHER_USERNAME"@, push.pusher.username@)] + seq![("PUSH_SENDER_ID"@, decimal(push.sender.id as nat))], seq![("PUSH_SENDER_LOGIN"@, push.sender.login@)], "PUSH_SENDER_LOGIN"@);
    lemma_last_value_single("PUSH_SENDER_LOGIN"@, push.sender.login@, "PUSH_SENDER_LOGIN"@);
}

/// The command that answers a push leaves the push's sender full name in PUSH_SENDER_FULL_NAME.
pub proof fn lemma_push_event_sender_full_name(push: PushEvent)
    ensures
        last_value(push_event_command(push).envs, "PUSH_SENDER_FULL_NAME"@) == Some(push.sender.full_name@),
{
    reveal_strlit("PUSH_REF_PATH");
    reveal_strlit("PUSH_BEFORE");
    reveal_strlit("PUSH_AFTER");
    reveal_strlit("PUSH_PUSHER_ID");
    reveal_strlit("PUSH_PUSHER_LOGIN");
    reveal_strlit("PUSH_PUSHER_FULL_NAME");
    reveal_strlit("PUSH_PUSHER_EMAIL");
    reveal_strlit("PUSH_PUSHER_AVATAR_URL");
    reveal_strlit("PUSH_PUSHER_USERNAME");
    reveal_strlit("PUSH_SENDER_ID");
    reveal_strlit("PUSH_SENDER_LOGIN");
    reveal_strlit("PUSH_SENDER_FULL_NAME");
    reveal_strlit("PUSH_SENDER_EMAIL");
    reveal_strlit("PUSH_SENDER_AVATAR_URL");
    reveal_strlit("PUSH_SENDER_USERNAME");
    reveal_strlit("PUSH_REPOSITORY_ID");
    reveal_strlit("PUSH_REPOSITORY_OWNER_ID");
    reveal_strlit("PUSH_REPOSITORY_OWNER_LOGIN");
    reveal_strlit("PUSH_REPOSITORY_OWNER_FULL_NAME");
    reveal_strlit("PUSH_REPOSITORY_OWNER_EMAIL");
    reveal_strlit("PUSH_REPOSITORY_OWNER_AVATAR_URL");
    reveal_strlit("PUSH_REPOSITORY_OWNER_USERNAME");
    reveal_strlit("PUSH_REPOSITORY_NAME");
    reveal_strlit("PUSH_REPOSITORY_FULL_NAME");
    reveal_strlit("PUSH_REPOSITORY_DESCRIPTION");
    reveal_strlit("PUSH_REPOSITORY_PRIVATE");
    reveal_strlit("PUSH_REPOSITORY_FORK");
    reveal_strlit("PUSH_REPOSITORY_HTML_URL");
    reveal_strlit("PUSH_REPOSITORY_SSH_URL");
    reveal_strlit("PUSH_REPOSITORY_CLONE_URL");
    reveal_strlit("PUSH_REPOSITORY_WEBSITE");
    reveal_strlit("PUSH_REPOSITORY_STARS_COUNT");
    reveal_strlit("PUSH_REPOSITORY_FORKS_COUNT");
    reveal_strlit("PUSH_REPOSITORY_WATCHERS_COUNT");
    reveal_strlit("PUSH_REPOSITORY_OPEN_ISSUES_COUNT");
    reveal_strlit("PUSH_REPOSITORY_DEFAULT_BRANCH");
    reveal_strlit("PUSH_REPOSITORY_CREATED_AT");
    reveal_strlit("PUSH_REPOSITORY_UPDATED_AT");
    lemma_last_value_concat(push_event_env_part1(push) + push_event_env_part2(push) + push_event_env_part3(push), push_event_env_part4(push), "PUSH_SENDER_FULL_NAME"@);
    lemma_last_value_concat(seq![("PUSH_REPOSITORY_CREATED_AT"@, push.repository.created_at@)], seq![("PUSH_REPOSITORY_UPDATED_AT"@, push.repository.updated_at@)], "PUSH_SENDER_FULL_NAME"@);
    lemma_last_value_single("PUSH_REPOSITORY_CREATED_AT"@, push.repository.created_at@, "PUSH_SENDER_FULL_NAME"@);
    assert("PUSH_REPOSITORY_CREATED_AT"@.len() != "PUSH_SENDER_FULL_NAME"@.len());
    lemma_last_value_single("PUSH_REPOSITORY_UPDATED_AT"@, push.repository.updated_at@, "PUSH_SENDER_FULL_NAME"@);
    assert("PUSH_REPOSITORY_UPDATED_AT"@.len() != "PUSH_SENDER_FULL_NAME"@.len());
    lemma_last_value_concat(push_event_env_part1(push) + push_event_env_part2(push), push_event_env_part3(push), "PUSH_SENDER_FULL_NAME"@);
    lemma_last_value_concat(seq![("PUSH_REPOSITORY_DESCRIPTION"@, push.repository.description@)] + seq![("PUSH_REPOSITORY_PRIVATE"@, bool_text(push.repository.private))] + seq![("PUSH_REPOSITORY_FORK"@, bool_text(push.repository.fork))] + seq![("PUSH_REPOSITORY_HTML_URL"@, push.repository.html_url@)] + seq![("PUSH_REPOSITORY_SSH_URL"@, push.repository.ssh_url@)] + seq![("PUSH_REPOSITORY_CLONE_URL"@, push.repository.clone_url@)] + seq![("PUSH_REPOSITORY_WEBSITE"@, push.repository.website@)] + seq![("PUSH_REPOSITORY_STARS_COUNT"@, decimal(push.repository.stars_count as nat))] + seq![("PUSH_REPOSITORY_FORKS_COUNT"@, decimal(push.repository.forks_count as nat))] + seq![("PUSH_REPOSITORY_WATCHERS_COUNT"@, decimal(push.repository.watchers_count as nat))] + seq![("PUSH_REPOSITORY_OPEN_ISSUES_COUNT"@, decimal(push.repository.open_issues_count as nat))], seq![("PUSH_REPOSITORY_DEFAULT_BRANCH"@, push.repository.default_branch@)], "PUSH_SENDER_FULL_NAME"@);
    lemma_last_value_concat(seq![("PUSH_REPOSITORY_DESCRIPTION"@, push.repository.description@)] + seq![("PUSH_REPOSITORY_PRIVATE"@, bool_text(push.repository.private))] + seq![("PUSH_REPOSITORY_FORK"@, bool_text(push.repository.fork))] + seq![("PUSH_REPOSITORY_HTML_URL"@, push.repository.html_url@)] + seq![("PUSH_REPOSITORY_SSH_URL"@, push.repository.ssh_url@)] + seq![("PUSH_REPOSITORY_CLONE_URL"@, push.repository.clone_url@)] + seq![("PUSH_REPOSITORY_WEBSITE"@, push.repository.website@)] + seq![("PUSH_REPOSITORY_STARS_COUNT"@, decimal(push.repository.stars_count as nat))] + seq![("PUSH_REPOSITORY_FORKS_COUNT"@, decimal(push.repository.forks_count as nat))] + seq![("PUSH_REPOSITORY_WATCHERS_COUNT"@, decimal(push.repository.watchers_count as nat))], seq![("PUSH_REPOSITORY_OPEN_ISSUES_COUNT"@, decimal(push.repository.open_issues_count as nat))], "PUSH_SENDER_FULL_NAME"@);
    lemma_last_value_concat(seq![("PUSH_REPOSITORY_DESCRIPTION"@, push.repository.description@)] + seq![("PUSH_REPOSITORY_PRIVATE"@, bool_text(push.repository.private))] + seq![("PUSH_REPOSITORY_FORK"@, bool_text(push.repository.fork))] + seq![("PUSH_REPOSITORY_HTML_URL"@, push.repository.html_url@)] + seq![("PUSH_REPOSITORY_SSH_URL"@, push.repository.ssh_url@)] + seq![("PUSH_REPOSITORY_CLONE_URL"@, push.repository.clone_url@)] + seq![("PUSH_REPOSITORY_WEBSITE"@, push.repository.website@)] + seq![("PUSH_REPOSITORY_STARS_COUNT"@, decimal(push.repository.stars_count as nat))] + seq![("PUSH_REPOSITORY_FORKS_COUNT"@, decimal(push.repository.forks_count as nat))], seq![("PUSH_REPOSITORY_WATCHERS_COUNT"@, decimal(push.repository.watchers_count as nat))], "PUSH_SENDER_FULL_NAME"@);
    lemma_last_value_concat(seq![("PUSH_REPOSITORY_DESCRIPTION"@, push.repository.description@)] + seq![("PUSH_REPOSITORY_PRIVATE"@, bool_text(push.repository.private))] + seq![("PUSH_REPOSITORY_FORK"@, bool_text(push.repository.fork))] + seq![("PUSH_REPOSITORY_HTML_URL"@, push.repository.html_url@)] + seq![("PUSH_REPOSITORY_SSH_URL"@, push.repository.ssh_url@)] + seq![("PUSH_REPOSITORY_CLONE_URL"@, push.repository.clone_url@)] + seq![("PUSH_REPOSITORY_WEBSITE"@, push.repository.website@)] + seq![("PUSH_REPOSITORY_STARS_COUNT"@, decimal(push.repository.stars_count as nat))], seq![("PUSH_REPOSITORY_FORKS_COUNT"@, decimal(push.repository.forks_count as nat))], "PUSH_SENDER_FULL_NAME"@);
    lemma_last_value_concat(seq![("PUSH_REPOSITORY_DESCRIPTION"@, push.repository.description@)] + seq![("PUSH_REPOSITORY_PRIVATE"@, bool_text(push.repository.private))] + seq![("PUSH_REPOSITORY_FORK"@, bool_text(push.repository.fork))] + seq![("PUSH_REPOSITORY_HTML_URL"@, push.repository.html_url@)] + seq![("PUSH_REPOSITORY_SSH_URL"@, push.repository.ssh_url@)] + seq![("PUSH_REPOSITORY_CLONE_URL"@, push.repository.clone_url@)] + seq![("PUSH_REPOSITORY_WEBSITE"@, push.repository.website@)], seq![("PUSH_REPOSITORY_STARS_COUNT"@, decimal(push.repository.stars_count as nat))], "PUSH_SENDER_FULL_NAME"@);
    lemma_last_value_concat(seq![("PUSH_REPOSITORY_DESCRIPTION"@, push.repository.description@)] + seq![("PUSH_REPOSITORY_PRIVATE"@, bool_text(push.repository.private))] + seq![("PUSH_REPOSITORY_FORK"@, bool_text(push.repository.fork))] + seq![("PUSH_REPOSITORY_HTML_URL"@, push.repository.html_url@)] + seq![("PUSH_REPOSITORY_SSH_URL"@, push.repository.ssh_url@)] + seq![("PUSH_REPOSITORY_CLONE_URL"@, push.repository.clone_url@)], seq![("PUSH_REPOSITORY_WEBSITE"@, push.repository.website@)], "PUSH_SENDER_FULL_NAME"@);
    lemma_last_value_concat(seq![("PUSH_REPOSITORY_DESCRIPTION"@, push.repository.description@)] + seq![("PUSH_REPOSITORY_PRIVATE"@, bool_text(push.repository.private))] + seq![("PUSH_REPOSITORY_FORK"@, bool_text(push.repository.fork))] + seq![("PUSH_REPOSITORY_HTML_URL"@, push.repository.html_url@)] + seq![("PUSH_REPOSITORY_SSH_URL"@, push.repository.ssh_url@)], seq![("PUSH_REPOSITORY_CLONE_URL"@, push.repository.clone_url@)], "PUSH_SENDER_FULL_NAME"@);
    lemma_last_value_concat(seq![("PUSH_REPOSITORY_DESCRIPTION"@, push.repository.description@)] + seq![("PUSH_REPOSITORY_PRIVATE"@, bool_text(push.repository.private))] + seq![("PUSH_REPOSITORY_FORK"@, bool_text(push.repository.fork))] + seq![("PUSH_REPOSITORY_HTML_URL"@, push.repository.html_url@)], seq![("PUSH_REPOSITORY_SSH_URL"@, push.repository.ssh_url@)], "PUSH_SENDER_FULL_NAME"@);
    lemma_last_value_concat(seq![("PUSH_REPOSITORY_DESCRIPTION"@, push.repository.description@)] + seq![("PUSH_REPOSITORY_PRIVATE"@, bool_text(push.repository.private))] + seq![("PUSH_REPOSITORY_FORK"@, bool_text(push.repository.fork))], seq![("PUSH_REPOSITORY_HTML_URL"@, push.repository.html_url@)], "PUSH_SENDER_FULL_NAME"@);
    lemma_last_value_concat(seq![("PUSH_REPOSITORY_DESCRIPTION"@, push.repository.description@)] + seq![("PUSH_REPOSITORY_PRIVATE"@, bool_text(push.repository.private))], seq![("PUSH_REPOSITORY_FORK"@, bool_text(push.repository.fork))], "PUSH_SENDER_FULL_NAME"@);
    lemma_last_value_concat(seq![("PUSH_REPOSITORY_DESCRIPTION"@, push.repository.description@)], seq![("PUSH_REPOSITORY_PRIVATE"@, bool_text(push.repository.private))], "PUSH_SENDER_FULL_NAME"@);
    lemma_last_value_single("PUSH_REPOSITORY_DESCRIPTION"@, push.repository.description@, "PUSH_SENDER_FULL_NAME"@);
    assert("PUSH_REPOSITORY_DESCRIPTION"@.len() != "PUSH_SENDER_FULL_NAME"@.len());
    lemma_last_value_single("PUSH_REPOSITORY_PRIVATE"@, bool_text(push.repository.private), "PUSH_SENDER_FULL_NAME"@);
    assert("PUSH_REPOSITORY_PRIVATE"@.len() != "PUSH_SENDER_FULL_NAME"@.len());
    lemma_last_value_single("PUSH_REPOSITORY_FORK"@, bool_text(push.repository.fork), "PUSH_SENDER_FULL_NAME"@);
    assert("PUSH_REPOSITORY_FORK"@.len() != "PUSH_SENDER_FULL_NAME"@.len());
    lemma_last_value_single("PUSH_REPOSITORY_HTML_URL"@, push.repository.html_url@, "PUSH_SENDER_FULL_NAME"@);
    assert("PUSH_REPOSITORY_HTML_URL"@.len() != "PUSH_SENDER_FULL_NAME"@.len());
    lemma_last_value_single("PUSH_REPOSITORY_SSH_URL"@, push.repository.ssh_url@, "PUSH_SENDER_FULL_NAME"@);
    assert("PUSH_REPOSITORY_SSH_URL"@.len() != "PUSH_SENDER_FULL_NAME"@.len());
    lemma_last_value_single("PUSH_REPOSITORY_CLONE_URL"@, push.repository.clone_url@, "PUSH_SENDER_FULL_NAME"@);
    assert("PUSH_REPOSITORY_CLONE_URL"@.len() != "PUSH_SENDER_FULL_NAME"@.len());
    lemma_last_value_single("PUSH_REPOSITORY_WEBSITE"@, push.repository.website@, "PUSH_SENDER_FULL_NAME"@);
    assert("PUSH_REPOSITORY_WEBSITE"@.len() != "PUSH_SENDER_FULL_NAME"@.len());
    lemma_last_value_single("PUSH_REPOSITORY_STARS_COUNT"@, decimal(push.repository.stars_count as nat), "PUSH_SENDER_FULL_NAME"@);
    assert("PUSH_REPOSITORY_STARS_COUNT"@.len() != "PUSH_SENDER_FULL_NAME"@.len());
    lemma_last_value_single("PUSH_REPOSITORY_FORKS_COUNT"@, decimal(push.repository.forks_count as nat), "PUSH_SENDER_FULL_NAME"@);
    assert("PUSH_REPOSITORY_FORKS_COUNT"@.len() != "PUSH_SENDER_FULL_NAME"@.len());
    lemma_last_value_single("PUSH_REPOSITORY_WATCHERS_COUNT"@, decimal(push.repository.watchers_count as nat), "PUSH_SENDER_FULL_NAME"@);
    assert("PUSH_REPOSITORY_WATCHERS_COUNT"@.len() != "PUSH_SENDER_FULL_NAME"@.len());
    lemma_last_value_single("PUSH_REPOSITORY_OPEN_ISSUES_COUNT"@, decimal(push.repository.open_issues_count as nat), "PUSH_SENDER_FULL_NAME"@);
    assert("PUSH_REPOSITORY_OPEN_ISSUES_COUNT"@.len() != "PUSH_SENDER_FULL_NAME"@.len());
    lemma_last_value_single("PUSH_REPOSITORY_DEFAULT_BRANCH"@, push.repository.default_branch@, "PUSH_SENDER_FULL_NAME"@);
    assert("PUSH_REPOSITORY_DEFAULT_BRANCH"@.len() != "PUSH_SENDER_FULL_NAME"@.len());
    lemma_last_value_concat(push_event_env_part1(push), push_event_env_part2(push), "PUSH_SENDER_FULL_NAME"@);
    lemma_last_value_concat(seq![("PUSH_SENDER_EMAIL"@, push.sender.email@)] + seq![("PUSH_SENDER_AVATAR_URL"@, push.sender.avatar_url@)] + seq![("PUSH_SENDER_USERNAME"@, push.sender.username@)] + seq![("PUSH_REPOSITORY_ID"@, decimal(push.repository.id as nat))] + seq![("PUSH_REPOSITORY_OWNER_ID"@, decimal(push.repository.owner.id as nat))] + seq![("PUSH_REPOSITORY_OWNER_LOGIN"@, push.repository.owner.login@)] + seq![("PUSH_REPOSITORY_OWNER_FULL_NAME"@, push.repository.owner.full_name@)] + seq![("PUSH_REPOSITORY_OWNER_EMAIL"@, push.repository.owner.email@)] + seq![("PUSH_REPOSITORY_OWNER_AVATAR_URL"@, push.repository.owner.avatar_url@)] + seq![("PUSH_REPOSITORY_OWNER_USERNAME"@, push.repository.owner.username@)] + seq![("PUSH_REPOSITORY_NAME"@, push.repository.name@)], seq![("PUSH_REPOSITORY_FULL_NAME"@, push.repository.full_name@)], "PUSH_SENDER_FULL_NAME"@);
    lemma_last_value_concat(seq![("PUSH_SENDER_EMAIL"@, push.sender.email@)] + seq![("PUSH_SENDER_AVATAR_URL"@, push.sender.avatar_url@)] + seq![("PUSH_SENDER_USERNAME"@, push.sender.username@)] + seq![("PUSH_REPOSITORY_ID"@, decimal(push.repository.id as nat))] + seq![("PUSH_REPOSITORY_OWNER_ID"@, decimal(push.repository.owner.id as nat))] + seq![("PUSH_REPOSITORY_OWNER_LOGIN"@, push.repository.owner.login@)] + seq![("PUSH_REPOSITORY_OWNER_FULL_NAME"@, push.repository.owner.full_name@)] + seq![("PUSH_REPOSITORY_OWNER_EMAIL"@, push.repository.owner.email@)] + seq![("PUSH_REPOSITORY_OWNER_AVATAR_URL"@, push.repository.owner.avatar_url@)] + seq![("PUSH_REPOSITORY_OWNER_USERNAME"@, push.repository.owner.username@)], seq![("PUSH_REPOSITORY_NAME"@, push.repository.name@)], "PUSH_SENDER_FULL_NAME"@);
    lemma_last_value_concat(seq![("PUSH_SENDER_EMAIL"@, push.sender.email@)] + seq![("PUSH_SENDER_AVATAR_URL"@, push.sender.avatar_url@)] + seq![("PUSH_SENDER_USERNAME"@, push.sender.username@)] + seq![("PUSH_REPOSITORY_ID"@, decimal(push.repository.id as nat))] + seq![("PUSH_REPOSITORY_OWNER_ID"@, decimal(push.repository.owner.id as nat))] + seq![("PUSH_REPOSITORY_OWNER_LOGIN"@, push.repository.owner.login@)] + seq![("PUSH_REPOSITORY_OWNER_FULL_NAME"@, push.repository.owner.full_name@)] + seq![("PUSH_REPOSITORY_OWNER_EMAIL"@, push.repository.owner.email@)] + seq![("PUSH_REPOSITORY_OWNER_AVATAR_URL"@, push.repository.owner.avatar_url@)], seq![("PUSH_REPOSITORY_OWNER_USERNAME"@, push.repository.owner.username@)], "PUSH_SENDER_FULL_NAME"@);
    lemma_last_value_concat(seq![("PUSH_SENDER_EMAIL"@, push.sender.email@)] + seq![("PUSH_SENDER_AVATAR_URL"@, push.sender.avatar_url@)] + seq![("PUSH_SENDER_USERNAME"@, push.sender.username@)] + seq![("PUSH_REPOSITORY_ID"@, decimal(push.repository.id as nat))] + seq![("PUSH_REPOSITORY_OWNER_ID"@, decimal(push.repository.owner.id as nat))] + seq![("PUSH_REPOSITORY_OWNER_LOGIN"@, push.repository.owner.login@)] + seq![("PUSH_REPOSITORY_OWNER_FULL_NAME"@, push.repository.owner.full_name@)] + seq![("PUSH_REPOSITORY_OWNER_EMAIL"@, push.repository.owner.email@)], seq![("PUSH_REPOSITORY_OWNER_AVATAR_URL"@, push.repository.owner.avatar_url@)], "PUSH_SENDER_FULL_NAME"@);
    lemma_last_value_concat(seq![("PUSH_SENDER_EMAIL"@, push.sender.email@)] + seq![("PUSH_SENDER_AVATAR_URL"@, push.sender.avatar_url@)] + seq![("PUSH_SENDER_USERNAME"@, push.sender.username@)] + seq![("PUSH_REPOSITORY_ID"@, decimal(push.repository.id as nat))] + seq![("PUSH_REPOSITORY_OWNER_ID"@, decimal(push.repository.owner.id as nat))] + seq![("PUSH_REPOSITORY_OWNER_LOGIN"@, push.repository.owner.login@)] + seq![("PUSH_REPOSITORY_OWNER_FULL_NAME"@, push.repository.owner.full_name@)], seq![("PUSH_REPOSITORY_OWNER_EMAIL"@, push.repository.owner.email@)], "PUSH_SENDER_FULL_NAME"@);
    lemma_last_value_concat(seq![("PUSH_SENDER_EMAIL"@, push.sender.email@)] + seq![("PUSH_SENDER_AVATAR_URL"@, push.sender.avatar_url@)] + seq![("PUSH_SENDER_USERNAME"@, push.sender.username@)] + seq![("PUSH_REPOSITORY_ID"@, decimal(push.repository.id as nat))] + seq![("PUSH_REPOSITORY_OWNER_ID"@, decimal(push.repository.owner.id as nat))] + seq![("PUSH_REPOSITORY_OWNER_LOGIN"@, push.repository.owner.login@)], seq![("PUSH_REPOSITORY_OWNER_FULL_NAME"@, push.repository.owner.full_name@)], "PUSH_SENDER_FULL_NAME"@);
    lemma_last_value_concat(seq![("PUSH_SENDER_EMAIL"@, push.sender.email@)] + seq![("PUSH_SENDER_AVATAR_URL"@, push.sender.avatar_url@)] + seq![("PUSH_SENDER_USERNAME"@, push.sender.username@)] + seq![("PUSH_REPOSITORY_ID"@, decimal(push.repository.id as nat))] + seq![("PUSH_REPOSITORY_OWNER_ID"@, decimal(push.repository.owner.id as nat))], seq![("PUSH_REPOSITORY_OWNER_LOGIN"@, push.repository.owner.login@)], "PUSH_SENDER_FULL_NAME"@);
    lemma_last_value_concat(seq![("PUSH_SENDER_EMAIL"@, push.sender.email@)] + seq![("PUSH_SENDER_AVATAR_URL"@, push.sender.avatar_url@)] + seq![("PUSH_SENDER_USERNAME"@, push.sender.username@)] + seq![("PUSH_REPOSITORY_ID"@, decimal(push.repository.id as nat))], seq![("PUSH_REPOSITORY_OWNER_ID"@, decimal(push.repository.owner.id as nat))], "PUSH_SENDER_FULL_NAME"@);
    lemma_last_value_concat(seq![("PUSH_SENDER_EMAIL"@, push.sender.email@)] + seq![("PUSH_SENDER_AVATAR_URL"@, push.sender.avatar_url@)] + seq![("PUSH_SENDER_USERNAME"@, push.sender.username@)], seq![("PUSH_REPOSITORY_ID"@, decimal(push.repository.id as nat))], "PUSH_SENDER_FULL_NAME"@);
    lemma_last_value_concat(seq![("PUSH_SENDER_EMAIL"@, push.sender.email@)] + seq![("PUSH_SENDER_AVATAR_URL"@, push.sender.avatar_url@)], seq![("PUSH_SENDER_USERNAME"@, push.sender.username@)], "PUSH_SENDER_FULL_NAME"@);
    lemma_last_value_concat(seq![("PUSH_SENDER_EMAIL"@, push.sender.email@)], seq![("PUSH_SENDER_AVATAR_URL"@, push.sender.avatar_url@)], "PUSH_SENDER_FULL_NAME"@);
    lemma_last_value_single("PUSH_SENDER_EMAIL"@, push.sender.email@, "PUSH_SENDER_FULL_NAME"@);
    assert("PUSH_SENDER_EMAIL"@.len() != "PUSH_SENDER_FULL_NAME"@.len());
    lemma_last_value_single("PUSH_SENDER_AVATAR_URL"@, push.sender.avatar_url@, "PUSH_SENDER_FULL_NAME"@);
    assert("PUSH_SENDER_AVATAR_URL"@.len() != "PUSH_SENDER_FULL_NAME"@.len());
    lemma_last_value_single("PUSH_SENDER_USERNAME"@, push.sender.username@, "PUSH_SENDER_FULL_NAME"@);
    assert("PUSH_SENDER_USERNAME"@.len() != "PUSH_SENDER_FULL_NAME"@.len());
    lemma_last_value_single("PUSH_REPOSITORY_ID"@, decimal(push.repository.id as nat), "PUSH_SENDER_FULL_NAME"@);
    assert("PUSH_REPOSITORY_ID"@.len() != "PUSH_SENDER_FULL_NAME"@.len());
    lemma_last_value_single("PUSH_REPOSITORY_OWNER_ID"@, decimal(push.repository.owner.id as nat), "PUSH_SENDER_FULL_NAME"@);
    assert("PUSH_REPOSITORY_OWNER_ID"@.len() != "PUSH_SENDER_FULL_NAME"@.len());
    lemma_last_value_single("PUSH_REPOSITORY_OWNER_LOGIN"@, push.repository.owner.login@, "PUSH_SENDER_FULL_NAME"@);
    assert("PUSH_REPOSITORY_OWNER_LOGIN"@.len() != "PUSH_SENDER_FULL_NAME"@.len());
    lemma_last_value_single("PUSH_REPOSITORY_OWNER_FULL_NAME"@, push.repository.owner.full_name@, "PUSH_SENDER_FULL_NAME"@);
    assert("PUSH_REPOSITORY_OWNER_FULL_NAME"@.len() != "PUSH_SENDER_FULL_NAME"@.len());
    lemma_last_value_single("PUSH_REPOSITORY_OWNER_EMAIL"@, push.repository.owner.email@, "PUSH_SENDER_FULL_NAME"@);
    assert("PUSH_REPOSITORY_OWNER_EMAIL"@.len() != "PUSH_SENDER_FULL_NAME"@.len());
    lemma_last_value_single("PUSH_REPOSITORY_OWNER_AVATAR_URL"@, push.repository.owner.avatar_url@, "PUSH_SENDER_FULL_NAME"@);
    assert("PUSH_REPOSITORY_OWNER_AVATAR_URL"@.len() != "PUSH_SENDER_FULL_NAME"@.len());
    lemma_last_value_single("PUSH_REPOSITORY_OWNER_USERNAME"@, push.repository.owner.username@, "PUSH_SENDER_FULL_NAME"@);
    assert("PUSH_REPOSITORY_OWNER_USERNAME"@.len() != "PUSH_SENDER_FULL_NAME"@.len());
    lemma_last_value_single("PUSH_REPOSITORY_NAME"@, push.repository.name@, "PUSH_SENDER_FULL_NAME"@);
    assert("PUSH_REPOSITORY_NAME"@.len() != "PUSH_SENDER_FULL_NAME"@.len());
    lemma_last_value_single("PUSH_REPOSITORY_FULL_NAME"@, push.repository.full_name@, "PUSH_SENDER_FULL_NAME"@);
    assert("PUSH_REPOSITORY_FULL_NAME"@.len() != "PUSH_SENDER_FULL_NAME"@.len());
    lemma_last_value_concat(seq![("PUSH_REF_PATH"@, push.ref_path@)] + seq![("PUSH_BEFORE"@, push.before@)] + seq![("PUSH_AFTER"@, push.after@)] + seq![("PUSH_PUSHER_ID"@, decimal(push.pusher.id as nat))] + seq![("PUSH_PUSHER_LOGIN"@, push.pusher.login@)] + seq![("PUSH_PUSHER_FULL_NAME"@, push.pusher.full_name@)] + seq![("PUSH_PUSHER_EMAIL"@, push.pusher.email@)] + seq![("PUSH_PUSHER_AVATAR_URL"@, push.pusher.avatar_url@)] + seq![("PUSH_PUSHER_USERNAME"@, push.pusher.username@)] + seq![("PUSH_SENDER_ID"@, decimal(push.sender.id as nat))] + seq![("PUSH_SENDER_LOGIN"@, push.sender.login@)], seq![("PUSH_SENDER_FULL_NAME"@, push.sender.full_name@)], "PUSH_SENDER_FULL_NAME"@);
    lemma_last_value_single("PUSH_SENDER_FULL_NAME"@, push.sender.full_name@, "PUSH_SENDER_FULL_NAME"@);
}

/// The command that answers a push leaves the push's sender email in PUSH_SENDER_EMAIL.
pub proof fn lemma_push_event_sender_email(push: PushEvent)
    ensures
        last_value(push_event_command(push).envs, "PUSH_SENDER_EMAIL"@) == Some(push.sender.email@),
{
    reveal_strlit("PUSH_REF_PATH");
    reveal_strlit("PUSH_BEFORE");
    reveal_strlit("PUSH_AFTER");
    reveal_strlit("PUSH_PUSHER_ID");
    reveal_strlit("PUSH_PUSHER_LOGIN");
    reveal_strlit("PUSH_PUSHER_FULL_NAME");
    reveal_strlit("PUSH_PUSHER_EMAIL");
    reveal_strlit("PUSH_PUSHER_AVATAR_URL");
    reveal_strlit("PUSH_PUSHER_USERNAME");
    reveal_strlit("PUSH_SENDER_ID");
    reveal_strlit("PUSH_SENDER_LOGIN");
    reveal_strlit("PUSH_SENDER_FULL_NAME");
    reveal_strlit("PUSH_SENDER_EMAIL");
    reveal_strlit("PUSH_SENDER_AVATAR_URL");
    reveal_strlit("PUSH_SENDER_USERNAME");
    reveal_strlit("PUSH_REPOSITORY_ID");
    reveal_strlit("PUSH_REPOSITORY_OWNER_ID");
    reveal_strlit("PUSH_REPOSITORY_OWNER_LOGIN");
    reveal_strlit("PUSH_REPOSITORY_OWNER_FULL_NAME");
    reveal_strlit("PUSH_REPOSITORY_OWNER_EMAIL");
    reveal_strlit("PUSH_REPOSITORY_OWNER_AVATAR_URL");
    reveal_strlit("PUSH_REPOSITORY_OWNER_USERNAME");
    reveal_strlit("PUSH_REPOSITORY_NAME");
    reveal_strlit("PUSH_REPOSITORY_FULL_NAME");
    reveal_strlit("PUSH_REPOSITORY_DESCRIPTION");
    reveal_strlit("PUSH_REPOSITORY_PRIVATE");
    reveal_strlit("PUSH_REPOSITORY_FORK");
    reveal_strlit("PUSH_REPOSITORY_HTML_URL");
    reveal_strlit("PUSH_REPOSITORY_SSH_URL");
    reveal_strlit("PUSH_REPOSITORY_CLONE_URL");
    reveal_strlit("PUSH_REPOSITORY_WEBSITE");
    reveal_strlit("PUSH_REPOSITORY_STARS_COUNT");
    reveal_strlit("PUSH_REPOSITORY_FORKS_COUNT");
    reveal_strlit("PUSH_REPOSITORY_WATCHERS_COUNT");
    reveal_strlit("PUSH_REPOSITORY_OPEN_ISSUES_COUNT");
    reveal_strlit("PUSH_REPOSITORY_DEFAULT_BRANCH");
    reveal_strlit("PUSH_REPOSITORY_CREATED_AT");
    reveal_strlit("PUSH_REPOSITORY_UPDATED_AT");
    lemma_last_value_concat(push_event_env_part1(push) + push_event_env_part2(push) + push_event_env_part3(push), push_event_env_part4(push), "PUSH_SENDER_EMAIL"@);
    lemma_last_value_concat(seq![("PUSH_REPOSITORY_CREATED_AT"@, push.repository.created_at@)], seq![("PUSH_REPOSITORY_UPDATED_AT"@, push.repository.updated_at@)], "PUSH_SENDER_EMAIL"@);
    lemma_last_value_single("PUSH_REPOSITORY_CREATED_AT"@, push.repository.created_at@, "PUSH_SENDER_EMAIL"@);
    assert("PUSH_REPOSITORY_CREATED_AT"@.len() != "PUSH_SENDER_EMAIL"@.len());
    lemma_last_value_single("PUSH_REPOSITORY_UPDATED_AT"@, push.repository.updated_at@, "PUSH_SENDER_EMAIL"@);
    assert("PUSH_REPOSITORY_UPDATED_AT"@.len() != "PUSH_SENDER_EMAIL"@.len());
    lemma_last_value_concat(push_event_env_part1(push) + push_event_env_part2(push), push_event_env_part3(push), "PUSH_SENDER_EMAIL"@);
    lemma_last_value_concat(seq![("PUSH_REPOSITORY_DESCRIPTION"@, push.repository.description@)] + seq![("PUSH_REPOSITORY_PRIVATE"@, bool_text(push.repository.private))] + seq![("PUSH_REPOSITORY_FORK"@, bool_text(push.repository.fork))] + seq![("PUSH_REPOSITORY_HTML_URL"@, push.repository.html_url@)] + seq![("PUSH_REPOSITORY_SSH_URL"@, push.repository.ssh_url@)] + seq![("PUSH_REPOSITORY_CLONE_URL"@, push.repository.clone_url@)] + seq![("PUSH_REPOSITORY_WEBSITE"@, push.repository.website@)] + seq![("PUSH_REPOSITORY_STARS_COUNT"@, decimal(push.repository.stars_count as nat))] + seq![("PUSH_REPOSITORY_FORKS_COUNT"@, decimal(push.repository.forks_count as nat))] + seq![("PUSH_REPOSITORY_WATCHERS_COUNT"@, decimal(push.repository.watchers_count as nat))] + seq![("PUSH_REPOSITORY_OPEN_ISSUES_COUNT"@, decimal(push.repository.open_issues_count as nat))], seq![("PUSH_REPOSITORY_DEFAULT_BRANCH"@, push.repository.default_branch@)], "PUSH_SENDER_EMAIL"@);
    lemma_last_value_concat(seq![("PUSH_REPOSITORY_DESCRIPTION"@, push.repository.description@)] + seq![("PUSH_REPOSITORY_PRIVATE"@, bool_text(push.repository.private))] + seq![("PUSH_REPOSITORY_FORK"@, bool_text(push.repository.fork))] + seq![("PUSH_REPOSITORY_HTML_URL"@, push.repository.html_url@)] + seq![("PUSH_REPOSITORY_SSH_URL"@, push.repository.ssh_url@)] + seq![("PUSH_REPOSITORY_CLONE_URL"@, push.repository.clone_url@)] + seq![("PUSH_REPOSITORY_WEBSITE"@, push.repository.website@)] + seq![("PUSH_REPOSITORY_STARS_COUNT"@, decimal(push.repository.stars_count as nat))] + seq![("PUSH_REPOSITORY_FORKS_COUNT"@, decimal(push.repository.forks_count as nat))] + seq![("PUSH_REPOSITORY_WATCHERS_COUNT"@, decimal(push.repository.watchers_count as nat))], seq![("PUSH_REPOSITORY_OPEN_ISSUES_COUNT"@, decimal(push.repository.open_issues_count as nat))], "PUSH_SENDER_EMAIL"@);
    lemma_last_value_concat(seq![("PUSH_REPOSITORY_DESCRIPTION"@, push.repository.description@)] + seq![("PUSH_REPOSITORY_PRIVATE"@, bool_text(push.repository.private))] + seq![("PUSH_REPOSITORY_FORK"@, bool_text(push.repository.fork))] + seq![("PUSH_REPOSITORY_HTML_URL"@, push.repository.html_url@)] + seq![("PUSH_REPOSITORY_SSH_URL"@, push.repository.ssh_url@)] + seq![("PUSH_REPOSITORY_CLONE_URL"@, push.repository.clone_url@)] + seq![("PUSH_REPOSITORY_WEBSITE"@, push.repository.website@)] + seq![("PUSH_REPOSITORY_STARS_COUNT"@, decimal(push.repository.stars_count as nat))] + seq![("PUSH_REPOSITORY_FORKS_COUNT"@, decimal(push.repository.forks_count as nat))], seq![("PUSH_REPOSITORY_WATCHERS_COUNT"@, decimal(push.repository.watchers_count as nat))], "PUSH_SENDER_EMAIL"@);
    lemma_last_value_concat(seq![("PUSH_REPOSITORY_DESCRIPTION"@, push.repository.description@)] + seq![("PUSH_REPOSITORY_PRIVATE"@, bool_text(push.repository.private))] + seq![("PUSH_REPOSITORY_FORK"@, bool_text(push.repository.fork))] + seq![("PUSH_REPOSITORY_HTML_URL"@, push.repository.html_url@)] + seq![("PUSH_REPOSITORY_SSH_URL"@, push.repository.ssh_url@)] + seq![("PUSH_REPOSITORY_CLONE_URL"@, push.repository.clone_url@)] + seq![("PUSH_REPOSITORY_WEBSITE"@, push.repository.website@)] + seq![("PUSH_REPOSITORY_STARS_COUNT"@, decimal(push.repository.stars_count as nat))], seq![("PUSH_REPOSITORY_FORKS_COUNT"@, decimal(push.repository.forks_count as nat))], "PUSH_SENDER_EMAIL"@);
    lemma_last_value_concat(seq![("PUSH_REPOSITORY_DESCRIPTION"@, push.repository.description@)] + seq![("PUSH_REPOSITORY_PRIVATE"@, bool_text(push.repository.private))] + seq![("PUSH_REPOSITORY_FORK"@, bool_text(push.repository.fork))] + seq![("PUSH_REPOSITORY_HTML_URL"@, push.repository.html_url@)] + seq![("PUSH_REPOSITORY_SSH_URL"@, push.repository.ssh_url@)] + seq![("PUSH_REPOSITORY_CLONE_URL"@, push.repository.clone_url@)] + seq![("PUSH_REPOSITORY_WEBSITE"@, push.repository.website@)], seq![("PUSH_REPOSITORY_STARS_COUNT"@, decimal(push.repository.stars_count as nat))], "PUSH_SENDER_EMAIL"@);
    lemma_last_value_concat(seq![("PUSH_REPOSITORY_DESCRIPTION"@, push.repository.description@)] + seq![("PUSH_REPOSITORY_PRIVATE"@, bool_text(push.repository.private))] + seq![("PUSH_REPOSITORY_FORK"@, bool_text(push.repository.fork))] + seq![("PUSH_REPOSITORY_HTML_URL"@, push.repository.html_url@)] + seq![("PUSH_REPOSITORY_SSH_URL"@, push.repository.ssh_url@)] + seq![("PUSH_REPOSITORY_CLONE_URL"@, push.repository.clone_url@)], seq![("PUSH_REPOSITORY_WEBSITE"@, push.repository.website@)], "PUSH_SENDER_EMAIL"@);
    lemma_last_value_concat(seq![("PUSH_REPOSITORY_DESCRIPTION"@, push.repository.description@)] + seq![("PUSH_REPOSITORY_PRIVATE"@, bool_text(push.repository.private))] + seq![("PUSH_REPOSITORY_FORK"@, bool_text(push.repository.fork))] + seq![("PUSH_REPOSITORY_HTML_URL"@, push.repository.html_url@)] + seq![("PUSH_REPOSITORY_SSH_URL"@, push.repository.ssh_url@)], seq![("PUSH_REPOSITORY_CLONE_URL"@, push.repository.clone_url@)], "PUSH_SENDER_EMAIL"@);
    lemma_last_value_concat(seq![("PUSH_REPOSITORY_DESCRIPTION"@, push.repository.description@)] + seq![("PUSH_REPOSITORY_PRIVATE"@, bool_text(push.repository.private))] + seq![("PUSH_REPOSITORY_FORK"@, bool_text(push.repository.fork))] + seq![("PUSH_REPOSITORY_HTML_URL"@, push.repository.html_url@)], seq![("PUSH_REPOSITORY_SSH_URL"@, push.repository.ssh_url@)], "PUSH_SENDER_EMAIL"@);
    lemma_last_value_concat(seq![("PUSH_REPOSITORY_DESCRIPTION"@, push.repository.description@)] + seq![("PUSH_REPOSITORY_PRIVATE"@, bool_text(push.repository.private))] + seq![("PUSH_REPOSITORY_FORK"@, bool_text(push.repository.fork))], seq![("PUSH_REPOSITORY_HTML_URL"@, push.repository.html_url@)], "PUSH_SENDER_EMAIL"@);
    lemma_last_value_concat(seq![("PUSH_REPOSITORY_DESCRIPTION"@, push.repository.description@)] + seq![("PUSH_REPOSITORY_PRIVATE"@, bool_text(push.repository.private))], seq![("PUSH_REPOSITORY_FORK"@, bool_text(push.repository.fork))], "PUSH_SENDER_EMAIL"@);
    lemma_last_value_concat(seq![("PUSH_REPOSITORY_DESCRIPTION"@, push.repository.description@)], seq![("PUSH_REPOSITORY_PRIVATE"@, bool_text(push.repository.private))], "PUSH_SENDER_EMAIL"@);
    lemma_last_value_single("PUSH_REPOSITORY_DESCRIPTION"@, push.repository.description@, "PUSH_SENDER_EMAIL"@);
    assert("PUSH_REPOSITORY_DESCRIPTION"@.len() != "PUSH_SENDER_EMAIL"@.len());
    lemma_last_value_single("PUSH_REPOSITORY_PRIVATE"@, bool_text(push.repository.private), "PUSH_SENDER_EMAIL"@);
    assert("PUSH_REPOSITORY_PRIVATE"@.len() != "PUSH_SENDER_EMAIL"@.len());
    lemma_last_value_single("PUSH_REPOSITORY_FORK"@, bool_text(push.repository.fork), "PUSH_SENDER_EMAIL"@);
    assert("PUSH_REPOSITORY_FORK"@.len() != "PUSH_SENDER_EMAIL"@.len());
    lemma_last_value_single("PUSH_REPOSITORY_HTML_URL"@, push.repository.html_url@, "PUSH_SENDER_EMAIL"@);
    assert("PUSH_REPOSITORY_HTML_URL"@.len() != "PUSH_SENDER_EMAIL"@.len());
    lemma_last_value_single("PUSH_REPOSITORY_SSH_URL"@, push.repository.ssh_url@, "PUSH_SENDER_EMAIL"@);
    assert("PUSH_REPOSITORY_SSH_URL"@.len() != "PUSH_SENDER_EMAIL"@.len());
    lemma_last_value_single("PUSH_REPOSITORY_CLONE_URL"@, push.repository.clone_url@, "PUSH_SENDER_EMAIL"@);
    assert("PUSH_REPOSITORY_CLONE_URL"@.len() != "PUSH_SENDER_EMAIL"@.len());
    lemma_last_value_single("PUSH_REPOSITORY_WEBSITE"@, push.repository.website@, "PUSH_SENDER_EMAIL"@);
    assert("PUSH_REPOSITORY_WEBSITE"@.len() != "PUSH_SENDER_EMAIL"@.len());
    lemma_last_value_single("PUSH_REPOSITORY_STARS_COUNT"@, decimal(push.repository.stars_count as nat), "PUSH_SENDER_EMAIL"@);
    assert("PUSH_REPOSITORY_STARS_COUNT"@.len() != "PUSH_SENDER_EMAIL"@.len());
    lemma_last_value_single("PUSH_REPOSITORY_FORKS_COUNT"@, decimal(push.repository.forks_count as nat), "PUSH_SENDER_EMAIL"@);
    assert("PUSH_REPOSITORY_FORKS_COUNT"@.len() != "PUSH_SENDER_EMAIL"@.len());
    lemma_last_value_single("PUSH_REPOSITORY_WATCHERS_COUNT"@, decimal(push.repository.watchers_count as nat), "PUSH_SENDER_EMAIL"@);
    assert("PUSH_REPOSITORY_WATCHERS_COUNT"@.len() != "PUSH_SENDER_EMAIL"@.len());
    lemma_last_value_single("PUSH_REPOSITORY_OPEN_ISSUES_COUNT"@, decimal(push.repository.open_issues_count as nat), "PUSH_SENDER_EMAIL"@);
    assert("PUSH_REPOSITORY_OPEN_ISSUES_COUNT"@.len() != "PUSH_SENDER_EMAIL"@.len());
    lemma_last_value_single("PUSH_REPOSITORY_DEFAULT_BRANCH"@, push.repository.default_branch@, "PUSH_SENDER_EMAIL"@);
    assert("PUSH_REPOSITORY_DEFAULT_BRANCH"@.len() != "PUSH_SENDER_EMAIL"@.len());
    lemma_last_value_concat(push_event_env_part1(push), push_event_env_part2(push), "PUSH_SENDER_EMAIL"@);
    lemma_last_value_concat(seq![("PUSH_SENDER_EMAIL"@, push.sender.email@)] + seq![("PUSH_SENDER_AVATAR_URL"@, push.sender.avatar_url@)] + seq![("PUSH_SENDER_USERNAME"@, push.sender.username@)] + seq![("PUSH_REPOSITORY_ID"@, decimal(push.repository.id as nat))] + seq![("PUSH_REPOSITORY_OWNER_ID"@, decimal(push.repository.owner.id as nat))] + seq![("PUSH_REPOSITORY_OWNER_LOGIN"@, push.repository.owner.login@)] + seq![("PUSH_REPOSITORY_OWNER_FULL_NAME"@, push.repository.owner.full_name@)] + seq![("PUSH_REPOSITORY_OWNER_EMAIL"@, push.repository.owner.email@)] + seq![("PUSH_REPOSITORY_OWNER_AVATAR_URL"@, push.repository.owner.avatar_url@)] + seq![("PUSH_REPOSITORY_OWNER_USERNAME"@, push.repository.owner.username@)] + seq![("PUSH_REPOSITORY_NAME"@, push.repository.name@)], seq![("PUSH_REPOSITORY_FULL_NAME"@, push.repository.full_name@)], "PUSH_SENDER_EMAIL"@);
    lemma_last_value_single("PUSH_REPOSITORY_FULL_NAME"@, push.repository.full_name@, "PUSH_SENDER_EMAIL"@);
    assert("PUSH_REPOSITORY_FULL_NAME"@.len() != "PUSH_SENDER_EMAIL"@.len());
    lemma_last_value_concat(seq![("PUSH_SENDER_EMAIL"@, push.sender.email@)] + seq![("PUSH_SENDER_AVATAR_URL"@, push.sender.avatar_url@)] + seq![("PUSH_SENDER_USERNAME"@, push.sender.username@)] + seq![("PUSH_REPOSITORY_ID"@, decimal(push.repository.id as nat))] + seq![("PUSH_REPOSITORY_OWNER_ID"@, decimal(push.repository.owner.id as nat))] + seq![("PUSH_REPOSITORY_OWNER_LOGIN"@, push.repository.owner.login@)] + seq![("PUSH_REPOSITORY_OWNER_FULL_NAME"@, push.repository.owner.full_name@)] + seq![("PUSH_REPOSITORY_OWNER_EMAIL"@, push.repository.owner.email@)] + seq![("PUSH_REPOSITORY_OWNER_AVATAR_URL"@, push.repository.owner.avatar_url@)] + seq![("PUSH_REPOSITORY_OWNER_USERNAME"@, push.repository.owner.username@)], seq![("PUSH_REPOSITORY_NAME"@, push.repository.name@)], "PUSH_SENDER_EMAIL"@);
    lemma_last_value_single("PUSH_REPOSITORY_NAME"@, push.repository.name@, "PUSH_SENDER_EMAIL"@);
    assert("PUSH_REPOSITORY_NAME"@.len() != "PUSH_SENDER_EMAIL"@.len());
    lemma_last_value_concat(seq![("PUSH_SENDER_EMAIL"@, push.sender.email@)] + seq![("PUSH_SENDER_AVATAR_URL"@, push.sender.avatar_url@)] + seq![("PUSH_SENDER_USERNAME"@, push.sender.username@)] + seq![("PUSH_REPOSITORY_ID"@, decimal(push.repository.id as nat))] + seq![("PUSH_REPOSITORY_OWNER_ID"@, decimal(push.repository.owner.id as nat))] + seq![("PUSH_REPOSITORY_OWNER_LOGIN"@, push.repository.owner.login@)] + seq![("PUSH_REPOSITORY_OWNER_FULL_NAME"@, push.repository.owner.full_name@)] + seq![("PUSH_REPOSITORY_OWNER_EMAIL"@, push.repository.owner.email@)] + seq![("PUSH_REPOSITORY_OWNER_AVATAR_URL"@, push.repository.owner.avatar_url@)], seq![("PUSH_REPOSITORY_OWNER_USERNAME"@, push.repository.owner.username@)], "PUSH_SENDER_EMAIL"@);
    lemma_last_value_single("PUSH_REPOSITORY_OWNER_USERNAME"@, push.repository.owner.username@, "PUSH_SENDER_EMAIL"@);
    assert("PUSH_REPOSITORY_OWNER_USERNAME"@.len() != "PUSH_SENDER_EMAIL"@.len());
    lemma_last_value_concat(seq![("PUSH_SENDER_EMAIL"@, push.sender.email@)] + seq![("PUSH_SENDER_AVATAR_URL"@, push.sender.avatar_url@)] + seq![("PUSH_SENDER_USERNAME"@, push.sender.username@)] + seq![("PUSH_REPOSITORY_ID"@, decimal(push.repository.id as nat))] + seq![("PUSH_REPOSITORY_OWNER_ID"@, decimal(push.repository.owner.id as nat))] + seq![("PUSH_REPOSITORY_OWNER_LOGIN"@, push.repository.owner.login@)] + seq![("PUSH_REPOSITORY_OWNER_FULL_NAME"@, push.repository.owner.full_name@)] + seq![("PUSH_REPOSITORY_OWNER_EMAIL"@, push.repository.owner.email@)], seq![("PUSH_REPOSITORY_OWNER_AVATAR_URL"@, push.repository.owner.avatar_url@)], "PUSH_SENDER_EMAIL"@);
    lemma_last_value_single("PUSH_REPOSITORY_OWNER_AVATAR_URL"@, push.repository.owner.avatar_url@, "PUSH_SENDER_EMAIL"@);
    assert("PUSH_REPOSITORY_OWNER_AVATAR_URL"@.len() != "PUSH_SENDER_EMAIL"@.len());
    lemma_last_value_concat(seq![("PUSH_SENDER_EMAIL"@, push.sender.email@)] + seq![("PUSH_SENDER_AVATAR_URL"@, push.sender.avatar_url@)] + seq![("PUSH_SENDER_USERNAME"@, push.sender.username@)] + seq![("PUSH_REPOSITORY_ID"@, decimal(push.repository.id as nat))] + seq![("PUSH_REPOSITORY_OWNER_ID"@, decimal(push.repository.owner.id as nat))] + seq![("PUSH_REPOSITORY_OWNER_LOGIN"@, push.repository.owner.login@)] + seq![("PUSH_REPOSITORY_OWNER_FULL_NAME"@, push.repository.owner.full_name@)], seq![("PUSH_REPOSITORY_OWNER_EMAIL"@, push.repository.owner.email@)], "PUSH_SENDER_EMAIL"@);
    lemma_last_value_single("PUSH_REPOSITORY_OWNER_EMAIL"@, push.repository.owner.email@, "PUSH_SENDER_EMAIL"@);
    assert("PUSH_REPOSITORY_OWNER_EMAIL"@.len() != "PUSH_SENDER_EMAIL"@.len());
    lemma_last_value_concat(seq![("PUSH_SENDER_EMAIL"@, push.sender.email@)] + seq![("PUSH_SENDER_AVATAR_URL"@, push.sender.avatar_url@)] + seq![("PUSH_SENDER_USERNAME"@, push.sender.username@)] + seq![("PUSH_REPOSITORY_ID"@, decimal(push.repository.id as nat))] + seq![("PUSH_REPOSITORY_OWNER_ID"@, decimal(push.repository.owner.id as nat))] + seq![("PUSH_REPOSITORY_OWNER_LOGIN"@, push.repository.owner.login@)], seq![("PUSH_REPOSITORY_OWNER_FULL_NAME"@, push.repository.owner.full_name@)], "PUSH_SENDER_EMAIL"@);
    lemma_last_value_single("PUSH_REPOSITORY_OWNER_FULL_NAME"@, push.repository.owner.full_name@, "PUSH_SENDER_EMAIL"@);
    assert("PUSH_REPOSITORY_OWNER_FULL_NAME"@.len() != "PUSH_SENDER_EMAIL"@.len());
    lemma_last_value_concat(seq![("PUSH_SENDER_EMAIL"@, push.sender.email@)] + seq![("PUSH_SENDER_AVATAR_URL"@, push.sender.avatar_url@)] + seq![("PUSH_SENDER_USERNAME"@, push.sender.username@)] + seq![("PUSH_REPOSITORY_ID"@, decimal(push.repository.id as nat))] + seq![("PUSH_REPOSITORY_OWNER_ID"@, decimal(push.repository.owner.id as nat))], seq![("PUSH_REPOSITORY_OWNER_LOGIN"@, push.repository.owner.login@)], "PUSH_SENDER_EMAIL"@);
    lemma_last_value_single("PUSH_REPOSITORY_OWNER_LOGIN"@, push.repository.owner.login@, "PUSH_SENDER_EMAIL"@);
    assert("PUSH_REPOSITORY_OWNER_LOGIN"@.len() != "PUSH_SENDER_EMAIL"@.len());
    lemma_last_value_concat(seq![("PUSH_SENDER_EMAIL"@, push.sender.email@)] + seq![("PUSH_SENDER_AVATAR_URL"@, push.sender.avatar_url@)] + seq![("PUSH_SENDER_USERNAME"@, push.sender.username@)] + seq![("PUSH_REPOSITORY_ID"@, decimal(push.repository.id as nat))], seq![("PUSH_REPOSITORY_OWNER_ID"@, decimal(push.repository.owner.id as nat))], "PUSH_SENDER_EMAIL"@);
    lemma_last_value_single("PUSH_REPOSITORY_OWNER_ID"@, decimal(push.repository.owner.id as nat), "PUSH_SENDER_EMAIL"@);
    assert("PUSH_REPOSITORY_OWNER_ID"@.len() != "PUSH_SENDER_EMAIL"@.len());
    lemma_last_value_concat(seq![("PUSH_SENDER_EMAIL"@, push.sender.email@)] + seq![("PUSH_SENDER_AVATAR_URL"@, push.sender.avatar_url@)] + seq![("PUSH_SENDER_USERNAME"@, push.sender.username@)], seq![("PUSH_REPOSITORY_ID"@, decimal(push.repository.id as nat))], "PUSH_SENDER_EMAIL"@);
    lemma_last_value_single("PUSH_REPOSITORY_ID"@, decimal(push.repository.id as nat), "PUSH_SENDER_EMAIL"@);
    assert("PUSH_REPOSITORY_ID"@.len() != "PUSH_SENDER_EMAIL"@.len());
    lemma_last_value_concat(seq![("PUSH_SENDER_EMAIL"@, push.sender.email@)] + seq![("PUSH_SENDER_AVATAR_URL"@, push.sender.avatar_url@)], seq![("PUSH_SENDER_USERNAME"@, push.sender.username@)], "PUSH_SENDER_EMAIL"@);
    lemma_last_value_single("PUSH_SENDER_USERNAME"@, push.sender.username@, "PUSH_SENDER_EMAIL"@);
    assert("PUSH_SENDER_USERNAME"@.len() != "PUSH_SENDER_EMAIL"@.len());
    lemma_last_value_concat(seq![("PUSH_SENDER_EMAIL"@, push.sender.email@)], seq![("PUSH_SENDER_AVATAR_URL"@, push.sender.avatar_url@)], "PUSH_SENDER_EMAIL"@);
    lemma_last_value_single("PUSH_SENDER_AVATAR_URL"@, push.sender.avatar_url@, "PUSH_SENDER_EMAIL"@);
    assert("PUSH_SENDER_AVATAR_URL"@.len() != "PUSH_SENDER_EMAIL"@.len());
    lemma_last_value_single("PUSH_SENDER_EMAIL"@, push.sender.email@, "PUSH_SENDER_EMAIL"@);
}

/// The command that answers a push leaves the push's sender avatar url in PUSH_SENDER_AVATAR_URL.
pub proof fn lemma_push_event_sender_avatar_url(push: PushEvent)
    ensures
        last_value(push_event_command(push).envs, "PUSH_SENDER_AVATAR_URL"@) == Some(push.sender.avatar_url@),
{
    reveal_strlit("PUSH_REF_PATH");
    reveal_strlit("PUSH_BEFORE");
    reveal_strlit("PUSH_AFTER");
    reveal_strlit("PUSH_PUSHER_ID");
    reveal_strlit("PUSH_PUSHER_LOGIN");
    reveal_strlit("PUSH_PUSHER_FULL_NAME");
    reveal_strlit("PUSH_PUSHER_EMAIL");
    reveal_strlit("PUSH_PUSHER_AVATAR_URL");
    reveal_strlit("PUSH_PUSHER_USERNAME");
    reveal_strlit("PUSH_SENDER_ID");
    reveal_strlit("PUSH_SENDER_LOGIN");
    reveal_strlit("PUSH_SENDER_FULL_NAME");
    reveal_strlit("PUSH_SENDER_EMAIL");
    reveal_strlit("PUSH_SENDER_AVATAR_URL");
    reveal_strlit("PUSH_SENDER_USERNAME");
    reveal_strlit("PUSH_REPOSITORY_ID");
    reveal_strlit("PUSH_REPOSITORY_OWNER_ID");
    reveal_strlit("PUSH_REPOSITORY_OWNER_LOGIN");
    reveal_strlit("PUSH_REPOSITORY_OWNER_FULL_NAME");
    reveal_strlit("PUSH_REPOSITORY_OWNER_EMAIL");
    reveal_strlit("PUSH_REPOSITORY_OWNER_AVATAR_URL");
    reveal_strlit("PUSH_REPOSITORY_OWNER_USERNAME");
    reveal_strlit("PUSH_REPOSITORY_NAME");
    reveal_strlit("PUSH_REPOSITORY_FULL_NAME");
    reveal_strlit("PUSH_REPOSITORY_DESCRIPTION");
    reveal_strlit("PUSH_REPOSITORY_PRIVATE");
    reveal_strlit("PUSH_REPOSITORY_FORK");
    reveal_strlit("PUSH_REPOSITORY_HTML_URL");
    reveal_strlit("PUSH_REPOSITORY_SSH_URL");
    reveal_strlit("PUSH_REPOSITORY_CLONE_URL");
    reveal_strlit("PUSH_REPOSITORY_WEBSITE");
    reveal_strlit("PUSH_REPOSITORY_STARS_COUNT");
    reveal_strlit("PUSH_REPOSITORY_FORKS_COUNT");
    reveal_strlit("PUSH_REPOSITORY_WATCHERS_COUNT");
    reveal_strlit("PUSH_REPOSITORY_OPEN_ISSUES_COUNT");
    reveal_strlit("PUSH_REPOSITORY_DEFAULT_BRANCH");
    reveal_strlit("PUSH_REPOSITORY_CREATED_AT");
    reveal_strlit("PUSH_REPOSITORY_UPDATED_AT");
    lemma_last_value_concat(push_event_env_part1(push) + push_event_env_part2(push) + push_event_env_part3(push), push_event_env_part4(push), "PUSH_SENDER_AVATAR_URL"@);
    lemma_last_value_concat(seq![("PUSH_REPOSITORY_CREATED_AT"@, push.repository.created_at@)], seq![("PUSH_REPOSITORY_UPDATED_AT"@, push.repository.updated_at@)], "PUSH_SENDER_AVATAR_URL"@);
    lemma_last_value_single("PUSH_REPOSITORY_CREATED_AT"@, push.repository.created_at@, "PUSH_SENDER_AVATAR_URL"@);
    assert("PUSH_REPOSITORY_CREATED_AT"@.len() != "PUSH_SENDER_AVATAR_URL"@.len());
    lemma_last_value_single("PUSH_REPOSITORY_UPDATED_AT"@, push.repository.updated_at@, "PUSH_SENDER_AVATAR_URL"@);
    assert("PUSH_REPOSITORY_UPDATED_AT"@.len() != "PUSH_SENDER_AVATAR_URL"@.len());
    lemma_last_value_concat(push_event_env_part1(push) + push_event_env_part2(push), push_event_env_part3(push), "PUSH_SENDER_AVATAR_URL"@);
    lemma_last_value_concat(seq![("PUSH_REPOSITORY_DESCRIPTION"@, push.repository.description@)] + seq![("PUSH_REPOSITORY_PRIVATE"@, bool_text(push.repository.private))] + seq![("PUSH_REPOSITORY_FORK"@, bool_text(push.repository.fork))] + seq![("PUSH_REPOSITORY_HTML_URL"@, push.repository.html_url@)] + seq![("PUSH_REPOSITORY_SSH_URL"@, push.repository.ssh_url@)] + seq![("PUSH_REPOSITORY_CLONE_URL"@, push.repository.clone_url@)] + seq![("PUSH_REPOSITORY_WEBSITE"@, push.repository.website@)] + seq![("PUSH_REPOSITORY_STARS_COUNT"@, decimal(push.repository.stars_count as nat))] + seq![("PUSH_REPOSITORY_FORKS_COUNT"@, decimal(push.repository.forks_count as nat))] + seq![("PUSH_REPOSITORY_WATCHERS_COUNT"@, decimal(push.repository.watchers_count as nat))] + seq![("PUSH_REPOSITORY_OPEN_ISSUES_COUNT"@, decimal(push.repository.open_issues_count as nat))], seq![("PUSH_REPOSITORY_DEFAULT_BRANCH"@, push.repository.default_branch@)], "PUSH_SENDER_AVATAR_URL"@);
    lemma_last_value_concat(seq![("PUSH_REPOSITORY_DESCRIPTION"@, push.repository.description@)] + seq![("PUSH_REPOSITORY_PRIVATE"@, bool_text(push.repository.private))] + seq![("PUSH_REPOSITORY_FORK"@, bool_text(push.repository.fork))] + seq![("PUSH_REPOSITORY_HTML_URL"@, push.repository.html_url@)] + seq![("PUSH_REPOSITORY_SSH_URL"@, push.repository.ssh_url@)] + seq![("PUSH_REPOSITORY_CLONE_URL"@, push.repository.clone_url@)] + seq![("PUSH_REPOSITORY_WEBSITE"@, push.repository.website@)] + seq![("PUSH_REPOSITORY_STARS_COUNT"@, decimal(push.repository.stars_count as nat))] + seq![("PUSH_REPOSITORY_FORKS_COUNT"@, decimal(push.repository.forks_count as nat))] + seq![("PUSH_REPOSITORY_WATCHERS_COUNT"@, decimal(push.repository.watchers_count as nat))], seq![("PUSH_REPOSITORY_OPEN_ISSUES_COUNT"@, decimal(push.repository.open_issues_count as nat))], "PUSH_SENDER_AVATAR_URL"@);
    lemma_last_value_concat(seq![("PUSH_REPOSITORY_DESCRIPTION"@, push.repository.description@)] + seq![("PUSH_REPOSITORY_PRIVATE"@, bool_text(push.repository.private))] + seq![("PUSH_REPOSITORY_FORK"@, bool_text(push.repository.fork))] + seq![("PUSH_REPOSITORY_HTML_URL"@, push.repository.html_url@)] + seq![("PUSH_REPOSITORY_SSH_URL"@, push.repository.ssh_url@)] + seq![("PUSH_REPOSITORY_CLONE_URL"@, push.repository.clone_url@)] + seq![("PUSH_REPOSITORY_WEBSITE"@, push.repository.website@)] + seq![("PUSH_REPOSITORY_STARS_COUNT"@, decimal(push.repository.stars_count as nat))] + seq![("PUSH_REPOSITORY_FORKS_COUNT"@, decimal(push.repository.forks_count as nat))], seq![("PUSH_REPOSITORY_WATCHERS_COUNT"@, decimal(push.repository.watchers_count as nat))], "PUSH_SENDER_AVATAR_URL"@);
    lemma_last_value_concat(seq![("PUSH_REPOSITORY_DESCRIPTION"@, push.repository.description@)] + seq![("PUSH_REPOSITORY_PRIVATE"@, bool_text(push.repository.private))] + seq![("PUSH_REPOSITORY_FORK"@, bool_text(push.repository.fork))] + seq![("PUSH_REPOSITORY_HTML_URL"@, push.repository.html_url@)] + seq![("PUSH_REPOSITORY_SSH_URL"@, push.repository.ssh_url@)] + seq![("PUSH_REPOSITORY_CLONE_URL"@, push.repository.clone_url@)] + seq![("PUSH_REPOSITORY_WEBSITE"@, push.repository.website@)] + seq![("PUSH_REPOSITORY_STARS_COUNT"@, decimal(push.repository.stars_count as nat))], seq![("PUSH_REPOSITORY_FORKS_COUNT"@, decimal(push.repository.forks_count as nat))], "PUSH_SENDER_AVATAR_URL"@);
    lemma_last_value_concat(seq![("PUSH_REPOSITORY_DESCRIPTION"@, push.repository.description@)] + seq![("PUSH_REPOSITORY_PRIVATE"@, bool_text(push.repository.private))] + seq![("PUSH_REPOSITORY_FORK"@, bool_text(push.repository.fork))] + seq![("PUSH_REPOSITORY_HTML_URL"@, push.repository.html_url@)] + seq![("PUSH_REPOSITORY_SSH_URL"@, push.repository.ssh_url@)] + seq![("PUSH_REPOSITORY_CLONE_URL"@, push.repository.clone_url@)] + seq![("PUSH_REPOSITORY_WEBSITE"@, push.repository.website@)], seq![("PUSH_REPOSITORY_STARS_COUNT"@, decimal(push.repository.stars_count as nat))], "PUSH_SENDER_AVATAR_URL"@);
    lemma_last_value_concat(seq![("PUSH_REPOSITORY_DESCRIPTION"@, push.repository.description@)] + seq![("PUSH_REPOSITORY_PRIVATE"@, bool_text(push.repository.private))] + seq![("PUSH_REPOSITORY_FORK"@, bool_text(push.repository.fork))] + seq![("PUSH_REPOSITORY_HTML_URL"@, push.repository.html_url@)] + seq![("PUSH_REPOSITORY_SSH_URL"@, push.repository.ssh_url@)] + seq![("PUSH_REPOSITORY_CLONE_URL"@, push.repository.clone_url@)], seq![("PUSH_REPOSITORY_WEBSITE"@, push.repository.website@)], "PUSH_SENDER_AVATAR_URL"@);
    lemma_last_value_concat(seq![("PUSH_REPOSITORY_DESCRIPTION"@, push.repository.description@)] + seq![("PUSH_REPOSITORY_PRIVATE"@, bool_text(push.repository.private))] + seq![("PUSH_REPOSITORY_FORK"@, bool_text(push.repository.fork))] + seq![("PUSH_REPOSITORY_HTML_URL"@, push.repository.html_url@)] + seq![("PUSH_REPOSITORY_SSH_URL"@, push.repository.ssh_url@)], seq![("PUSH_REPOSITORY_CLONE_URL"@, push.repository.clone_url@)], "PUSH_SENDER_AVATAR_URL"@);
    lemma_last_value_concat(seq![("PUSH_REPOSITORY_DESCRIPTION"@, push.repository.description@)] + seq![("PUSH_REPOSITORY_PRIVATE"@, bool_text(push.repository.private))] + seq![("PUSH_REPOSITORY_FORK"@, bool_text(push.repository.fork))] + seq![("PUSH_REPOSITORY_HTML_URL"@, push.repository.html_url@)], seq![("PUSH_REPOSITORY_SSH_URL"@, push.repository.ssh_url@)], "PUSH_SENDER_AVATAR_URL"@);
    lemma_last_value_concat(seq![("PUSH_REPOSITORY_DESCRIPTION"@, push.repository.description@)] + seq![("PUSH_REPOSITORY_PRIVATE"@, bool_text(push.repository.private))] + seq![("PUSH_REPOSITORY_FORK"@, bool_text(push.repository.fork))], seq![("PUSH_REPOSITORY_HTML_URL"@, push.repository.html_url@)], "PUSH_SENDER_AVATAR_URL"@);
    lemma_last_value_concat(seq![("PUSH_REPOSITORY_DESCRIPTION"@, push.repository.description@)] + seq![("PUSH_REPOSITORY_PRIVATE"@, bool_text(push.repository.private))], seq![("PUSH_REPOSITORY_FORK"@, bool_text(push.repository.fork))], "PUSH_SENDER_AVATAR_URL"@);
    lemma_last_value_concat(seq![("PUSH_REPOSITORY_DESCRIPTION"@, push.repository.description@)], seq![("PUSH_REPOSITORY_PRIVATE"@, bool_text(push.repository.private))], "PUSH_SENDER_AVATAR_URL"@);
    lemma_last_value_single("PUSH_REPOSITORY_DESCRIPTION"@, push.repository.description@, "PUSH_SENDER_AVATAR_URL"@);
    assert("PUSH_REPOSITORY_DESCRIPTION"@.len() != "PUSH_SENDER_AVATAR_URL"@.len());
    lemma_last_value_single("PUSH_REPOSITORY_PRIVATE"@, bool_text(push.repository.private), "PUSH_SENDER_AVATAR_URL"@);
    assert("PUSH_REPOSITORY_PRIVATE"@.len() != "PUSH_SENDER_AVATAR_URL"@.len());
    lemma_last_value_single("PUSH_REPOSITORY_FORK"@, bool_text(push.repository.fork), "PUSH_SENDER_AVATAR_URL"@);
    assert("PUSH_REPOSITORY_FORK"@.len() != "PUSH_SENDER_AVATAR_URL"@.len());
    lemma_last_value_single("PUSH_REPOSITORY_HTML_URL"@, push.repository.html_url@, "PUSH_SENDER_AVATAR_URL"@);
    assert("PUSH_REPOSITORY_HTML_URL"@.len() != "PUSH_SENDER_AVATAR_URL"@.len());
    lemma_last_value_single("PUSH_REPOSITORY_SSH_URL"@, push.repository.ssh_url@, "PUSH_SENDER_AVATAR_URL"@);
    assert("PUSH_REPOSITORY_SSH_URL"@.len() != "PUSH_SENDER_AVATAR_URL"@.len());
    lemma_last_value_single("PUSH_REPOSITORY_CLONE_URL"@, push.repository.clone_url@, "PUSH_SENDER_AVATAR_URL"@);
    assert("PUSH_REPOSITORY_CLONE_URL"@.len() != "PUSH_SENDER_AVATAR_URL"@.len());
    lemma_last_value_single("PUSH_REPOSITORY_WEBSITE"@, push.repository.website@, "PUSH_SENDER_AVATAR_URL"@);
    assert("PUSH_REPOSITORY_WEBSITE"@.len() != "PUSH_SENDER_AVATAR_URL"@.len());
    lemma_last_value_single("PUSH_REPOSITORY_STARS_COUNT"@, decimal(push.repository.stars_count as nat), "PUSH_SENDER_AVATAR_URL"@);
    assert("PUSH_REPOSITORY_STARS_COUNT"@.len() != "PUSH_SENDER_AVATAR_URL"@.len());
    lemma_last_value_single("PUSH_REPOSITORY_FORKS_COUNT"@, decimal(push.repository.forks_count as nat), "PUSH_SENDER_AVATAR_URL"@);
    assert("PUSH_REPOSITORY_FORKS_COUNT"@.len() != "PUSH_SENDER_AVATAR_URL"@.len());
    lemma_last_value_single("PUSH_REPOSITORY_WATCHERS_COUNT"@, decimal(push.repository.watchers_count as nat), "PUSH_SENDER_AVATAR_URL"@);
    assert("PUSH_REPOSITORY_WATCHERS_COUNT"@.len() != "PUSH_SENDER_AVATAR_URL"@.len());
    lemma_last_value_single("PUSH_REPOSITORY_OPEN_ISSUES_COUNT"@, decimal(push.repository.open_issues_count as nat), "PUSH_SENDER_AVATAR_URL"@);
    assert("PUSH_REPOSITORY_OPEN_ISSUES_COUNT"@.len() != "PUSH_SENDER_AVATAR_URL"@.len());
    lemma_last_value_single("PUSH_REPOSITORY_DEFAULT_BRANCH"@, push.repository.default_branch@, "PUSH_SENDER_AVATAR_URL"@);
    assert("PUSH_REPOSITORY_DEFAULT_BRANCH"@.len() != "PUSH_SENDER_AVATAR_URL"@.len());
    lemma_last_value_concat(push_event_env_part1(push), push_event_env_part2(push), "PUSH_SENDER_AVATAR_URL"@);
    lemma_last_value_concat(seq![("PUSH_SENDER_EMAIL"@, push.sender.email@)] + seq![("PUSH_SENDER_AVATAR_URL"@, push.sender.avatar_url@)] + seq![("PUSH_SENDER_USERNAME"@, push.sender.username@)] + seq![("PUSH_REPOSITORY_ID"@, decimal(push.repository.id as nat))] + seq![("PUSH_REPOSITORY_OWNER_ID"@, decimal(push.repository.owner.id as nat))] + seq![("PUSH_REPOSITORY_OWNER_LOGIN"@, push.repository.owner.login@)] + seq![("PUSH_REPOSITORY_OWNER_FULL_NAME"@, push.repository.owner.full_name@)] + seq![("PUSH_REPOSITORY_OWNER_EMAIL"@, push.repository.owner.email@)] + seq![("PUSH_REPOSITORY_OWNER_AVATAR_URL"@, push.repository.owner.avatar_url@)] + seq![("PUSH_REPOSITORY_OWNER_USERNAME"@, push.repository.owner.username@)] + seq![("PUSH_REPOSITORY_NAME"@, push.repository.name@)], seq![("PUSH_REPOSITORY_FULL_NAME"@, push.repository.full_name@)], "PUSH_SENDER_AVATAR_URL"@);
    lemma_last_value_single("PUSH_REPOSITORY_FULL_NAME"@, push.repository.full_name@, "PUSH_SENDER_AVATAR_URL"@);
    assert("PUSH_REPOSITORY_FULL_NAME"@.len() != "PUSH_SENDER_AVATAR_URL"@.len());
    lemma_last_value_concat(seq![("PUSH_SENDER_EMAIL"@, push.sender.email@)] + seq![("PUSH_SENDER_AVATAR_URL"@, push.sender.avatar_url@)] + seq![("PUSH_SENDER_USERNAME"@, push.sender.username@)] + seq![("PUSH_REPOSITORY_ID"@, decimal(push.repository.id as nat))] + seq![("PUSH_REPOSITORY_OWNER_ID"@, decimal(push.repository.owner.id as nat))] + seq![("PUSH_REPOSITORY_OWNER_LOGIN"@, push.repository.owner.login@)] + seq![("PUSH_REPOSITORY_OWNER_FULL_NAME"@, push.repository.owner.full_name@)] + seq![("PUSH_REPOSITORY_OWNER_EMAIL"@, push.repository.owner.email@)] + seq![("PUSH_REPOSITORY_OWNER_AVATAR_URL"@, push.repository.owner.avatar_url@)] + seq![("PUSH_REPOSITORY_OWNER_USERNAME"@, push.repository.owner.username@)], seq![("PUSH_REPOSITORY_NAME"@, push.repository.name@)], "PUSH_SENDER_AVATAR_URL"@);
    lemma_last_value_single("PUSH_REPOSITORY_NAME"@, push.repository.name@, "PUSH_SENDER_AVATAR_URL"@);
    assert("PUSH_REPOSITORY_NAME"@.len() != "PUSH_SENDER_AVATAR_URL"@.len());
    lemma_last_value_concat(seq![("PUSH_SENDER_EMAIL"@, push.sender.email@)] + seq![("PUSH_SENDER_AVATAR_URL"@, push.sender.avatar_url@)] + seq![("PUSH_SENDER_USERNAME"@, push.sender.username@)] + seq![("PUSH_REPOSITORY_ID"@, decimal(push.repository.id as nat))] + seq![("PUSH_REPOSITORY_OWNER_ID"@, decimal(push.repository.owner.id as nat))] + seq![("PUSH_REPOSITORY_OWNER_LOGIN"@, push.repository.owner.login@)] + seq![("PUSH_REPOSITORY_OWNER_FULL_NAME"@, push.repository.owner.full_name@)] + seq![("PUSH_REPOSITORY_OWNER_EMAIL"@, push.repository.owner.email@)] + seq![("PUSH_REPOSITORY_OWNER_AVATAR_URL"@, push.repository.owner.avatar_url@)], seq![("PUSH_REPOSITORY_OWNER_USERNAME"@, push.repository.owner.username@)], "PUSH_SENDER_AVATAR_URL"@);
    lemma_last_value_single("PUSH_REPOSITORY_OWNER_USERNAME"@, push.repository.owner.username@, "PUSH_SENDER_AVATAR_URL"@);
    assert("PUSH_REPOSITORY_OWNER_USERNAME"@.len() != "PUSH_SENDER_AVATAR_URL"@.len());
    lemma_last_value_concat(seq![("PUSH_SENDER_EMAIL"@, push.sender.email@)] + seq![("PUSH_SENDER_AVATAR_URL"@, push.sender.avatar_url@)] + seq![("PUSH_SENDER_USERNAME"@, push.sender.username@)] + seq![("PUSH_REPOSITORY_ID"@, decimal(push.repository.id as nat))] + seq![("PUSH_REPOSITORY_OWNER_ID"@, decimal(push.repository.owner.id as nat))] + seq![("PUSH_REPOSITORY_OWNER_LOGIN"@, push.repository.owner.login@)] + seq![("PUSH_REPOSITORY_OWNER_FULL_NAME"@, push.repository.owner.full_name@)] + seq![("PUSH_REPOSITORY_OWNER_EMAIL"@, push.repository.owner.email@)], seq![("PUSH_REPOSITORY_OWNER_AVATAR_URL"@, push.repository.owner.avatar_url@)], "PUSH_SENDER_AVATAR_URL"@);
    lemma_last_value_single("PUSH_REPOSITORY_OWNER_AVATAR_URL"@, push.repository.owner.avatar_url@, "PUSH_SENDER_AVATAR_URL"@);
    assert("PUSH_REPOSITORY_OWNER_AVATAR_URL"@.len() != "PUSH_SENDER_AVATAR_URL"@.len());
    lemma_last_value_concat(seq![("PUSH_SENDER_EMAIL"@, push.sender.email@)] + seq![("PUSH_SENDER_AVATAR_URL"@, push.sender.avatar_url@)] + seq![("PUSH_SENDER_USERNAME"@, push.sender.username@)] + seq![("PUSH_REPOSITORY_ID"@, decimal(push.repository.id as nat))] + seq![("PUSH_REPOSITORY_OWNER_ID"@, decimal(push.repository.owner.id as nat))] + seq![("PUSH_REPOSITORY_OWNER_LOGIN"@, push.repository.owner.login@)] + seq![("PUSH_REPOSITORY_OWNER_FULL_NAME"@, push.repository.owner.full_name@)], seq![("PUSH_REPOSITORY_OWNER_EMAIL"@, push.repository.owner.email@)], "PUSH_SENDER_AVATAR_URL"@);
    lemma_last_value_single("PUSH_REPOSITORY_OWNER_EMAIL"@, push.repository.owner.email@, "PUSH_SENDER_AVATAR_URL"@);
    assert("PUSH_REPOSITORY_OWNER_EMAIL"@.len() != "PUSH_SENDER_AVATAR_URL"@.len());
    lemma_last_value_concat(seq![("PUSH_SENDER_EMAIL"@, push.sender.email@)] + seq![("PUSH_SENDER_AVATAR_URL"@, push.sender.avatar_url@)] + seq![("PUSH_SENDER_USERNAME"@, push.sender.username@)] + seq![("PUSH_REPOSITORY_ID"@, decimal(push.repository.id as nat))] + seq![("PUSH_REPOSITORY_OWNER_ID"@, decimal(push.repository.owner.id as nat))] + seq![("PUSH_REPOSITORY_OWNER_LOGIN"@, push.repository.owner.login@)], seq![("PUSH_REPOSITORY_OWNER_FULL_NAME"@, push.repository.owner.full_name@)], "PUSH_SENDER_AVATAR_URL"@);
    lemma_last_value_single("PUSH_REPOSITORY_OWNER_FULL_NAME"@, push.repository.owner.full_name@, "PUSH_SENDER_AVATAR_URL"@);
    assert("PUSH_REPOSITORY_OWNER_FULL_NAME"@.len() != "PUSH_SENDER_AVATAR_URL"@.len());
    lemma_last_value_concat(seq![("PUSH_SENDER_EMAIL"@, push.sender.email@)] + seq![("PUSH_SENDER_AVATAR_URL"@, push.sender.avatar_url@)] + seq![("PUSH_SENDER_USERNAME"@, push.sender.username@)] + seq![("PUSH_REPOSITORY_ID"@, decimal(push.repository.id as nat))] + seq![("PUSH_REPOSITORY_OWNER_ID"@, decimal(push.repository.owner.id as nat))], seq![("PUSH_REPOSITORY_OWNER_LOGIN"@, push.repository.owner.login@)], "PUSH_SENDER_AVATAR_URL"@);
    lemma_last_value_single("PUSH_REPOSITORY_OWNER_LOGIN"@, push.repository.owner.login@, "PUSH_SENDER_AVATAR_URL"@);
    assert("PUSH_REPOSITORY_OWNER_LOGIN"@.len() != "PUSH_SENDER_AVATAR_URL"@.len());
    lemma_last_value_concat(seq![("PUSH_SENDER_EMAIL"@, push.sender.email@)] + seq![("PUSH_SENDER_AVATAR_URL"@, push.sender.avatar_url@)] + seq![("PUSH_SENDER_USERNAME"@, push.sender.username@)] + seq![("PUSH_REPOSITORY_ID"@, decimal(push.repository.id as nat))], seq![("PUSH_REPOSITORY_OWNER_ID"@, decimal(push.repository.owner.id as nat))], "PUSH_SENDER_AVATAR_URL"@);
    lemma_last_value_single("PUSH_REPOSITORY_OWNER_ID"@, decimal(push.repository.owner.id as nat), "PUSH_SENDER_AVATAR_URL"@);
    assert("PUSH_REPOSITORY_OWNER_ID"@.len() != "PUSH_SENDER_AVATAR_URL"@.len());
    lemma_last_value_concat(seq![("PUSH_SENDER_EMAIL"@, push.sender.email@)] + seq![("PUSH_SENDER_AVATAR_URL"@, push.sender.avatar_url@)] + seq![("PUSH_SENDER_USERNAME"@, push.sender.username@)], seq![("PUSH_REPOSITORY_ID"@, decimal(push.repository.id as nat))], "PUSH_SENDER_AVATAR_URL"@);
    lemma_last_value_single("PUSH_REPOSITORY_ID"@, decimal(push.repository.id as nat), "PUSH_SENDER_AVATAR_URL"@);
    assert("PUSH_REPOSITORY_ID"@.len() != "PUSH_SENDER_AVATAR_URL"@.len());
    lemma_last_value_concat(seq![("PUSH_SENDER_EMAIL"@, push.sender.email@)] + seq![("PUSH_SENDER_AVATAR_URL"@, push.sender.avatar_url@)], seq![("PUSH_SENDER_USERNAME"@, push.sender.username@)], "PUSH_SENDER_AVATAR_URL"@);
    lemma_last_value_single("PUSH_SENDER_USERNAME"@, push.sender.username@, "PUSH_SENDER_AVATAR_URL"@);
    assert("PUSH_SENDER_USERNAME"@.len() != "PUSH_SENDER_AVATAR_URL"@.len());
    lemma_last_value_concat(seq![("PUSH_SENDER_EMAIL"@, push.sender.email@)], seq![("PUSH_SENDER_AVATAR_URL"@, push.sender.avatar_url@)], "PUSH_SENDER_AVATAR_URL"@);
    lemma_last_value_single("PUSH_SENDER_AVATAR_URL"@, push.sender.avatar_url@, "PUSH_SENDER_AVATAR_URL"@);
}

/// The command that answers a push leaves the push's sender username in PUSH_SENDER_USERNAME.
pub proof fn lemma_push_event_sender_username(push: PushEvent)
    ensures
        last_value(push_event_command(push).envs, "PUSH_SENDER_USERNAME"@) == Some(push.sender.username@),
{
    reveal_strlit("PUSH_REF_PATH");
    reveal_strlit("PUSH_BEFORE");
    reveal_strlit("PUSH_AFTER");
    reveal_strlit("PUSH_PUSHER_ID");
    reveal_strlit("PUSH_PUSHER_LOGIN");
    reveal_strlit("PUSH_PUSHER_FULL_NAME");
    reveal_strlit("PUSH_PUSHER_EMAIL");
    reveal_strlit("PUSH_PUSHER_AVATAR_URL");
    reveal_strlit("PUSH_PUSHER_USERNAME");
    reveal_strlit("PUSH_SENDER_ID");
    reveal_strlit("PUSH_SENDER_LOGIN");
    reveal_strlit("PUSH_SENDER_FULL_NAME");
    reveal_strlit("PUSH_SENDER_EMAIL");
    reveal_strlit("PUSH_SENDER_AVATAR_URL");
    reveal_strlit("PUSH_SENDER_USERNAME");
    reveal_strlit("PUSH_REPOSITORY_ID");
    reveal_strlit("PUSH_REPOSITORY_OWNER_ID");
    reveal_strlit("PUSH_REPOSITORY_OWNER_LOGIN");
    reveal_strlit("PUSH_REPOSITORY_OWNER_FULL_NAME");
    reveal_strlit("PUSH_REPOSITORY_OWNER_EMAIL");
    reveal_strlit("PUSH_REPOSITORY_OWNER_AVATAR_URL");
    reveal_strlit("PUSH_REPOSITORY_OWNER_USERNAME");
    reveal_strlit("PUSH_REPOSITORY_NAME");
    reveal_strlit("PUSH_REPOSITORY_FULL_NAME");
    reveal_strlit("PUSH_REPOSITORY_DESCRIPTION");
    reveal_strlit("PUSH_REPOSITORY_PRIVATE");
    reveal_strlit("PUSH_REPOSITORY_FORK");
    reveal_strlit("PUSH_REPOSITORY_HTML_URL");
    reveal_strlit("PUSH_REPOSITORY_SSH_URL");
    reveal_strlit("PUSH_REPOSITORY_CLONE_URL");
    reveal_strlit("PUSH_REPOSITORY_WEBSITE");
    reveal_strlit("PUSH_REPOSITORY_STARS_COUNT");
    reveal_strlit("PUSH_REPOSITORY_FORKS_COUNT");
    reveal_strlit("PUSH_REPOSITORY_WATCHERS_COUNT");
    reveal_strlit("PUSH_REPOSITORY_OPEN_ISSUES_COUNT");
    reveal_strlit("PUSH_REPOSITORY_DEFAULT_BRANCH");
    reveal_strlit("PUSH_REPOSITORY_CREATED_AT");
    reveal_strlit("PUSH_REPOSITORY_UPDATED_AT");
    lemma_last_value_concat(push_event_env_part1(push) + push_event_env_part2(push) + push_event_env_part3(push), push_event_env_part4(push), "PUSH_SENDER_USERNAME"@);
    lemma_last_value_concat(seq![("PUSH_REPOSITORY_CREATED_AT"@, push.repository.created_at@)], seq![("PUSH_REPOSITORY_UPDATED_AT"@, push.repository.updated_at@)], "PUSH_SENDER_USERNAME"@);
    lemma_last_value_single("PUSH_REPOSITORY_CREATED_AT"@, push.repository.created_at@, "PUSH_SENDER_USERNAME"@);
    assert("PUSH_REPOSITORY_CREATED_AT"@.len() != "PUSH_SENDER_USERNAME"@.len());
    lemma_last_value_single("PUSH_REPOSITORY_UPDATED_AT"@, push.repository.updated_at@, "PUSH_SENDER_USERNAME"@);
    assert("PUSH_REPOSITORY_UPDATED_AT"@.len() != "PUSH_SENDER_USERNAME"@.len());
    lemma_last_value_concat(push_event_env_part1(push) + push_event_env_part2(push), push_event_env_part3(push), "PUSH_SENDER_USERNAME"@);
    lemma_last_value_concat(seq![("PUSH_REPOSITORY_DESCRIPTION"@, push.repository.description@)] + seq![("PUSH_REPOSITORY_PRIVATE"@, bool_text(push.repository.private))] + seq![("PUSH_REPOSITORY_FORK"@, bool_text(push.repository.fork))] + seq![("PUSH_REPOSITORY_HTML_URL"@, push.repository.html_url@)] + seq![("PUSH_REPOSITORY_SSH_URL"@, push.repository.ssh_url@)] + seq![("PUSH_REPOSITORY_CLONE_URL"@, push.repository.clone_url@)] + seq![("PUSH_REPOSITORY_WEBSITE"@, push.repository.website@)] + seq![("PUSH_REPOSITORY_STARS_COUNT"@, decimal(push.repository.stars_count as nat))] + seq![("PUSH_REPOSITORY_FORKS_COUNT"@, decimal(push.repository.forks_count as nat))] + seq![("PUSH_REPOSITORY_WATCHERS_COUNT"@, decimal(push.repository.watchers_count as nat))] + seq![("PUSH_REPOSITORY_OPEN_ISSUES_COUNT"@, decimal(push.repository.open_issues_count as nat))], seq![("PUSH_REPOSITORY_DEFAULT_BRANCH"@, push.repository.default_branch@)], "PUSH_SENDER_USERNAME"@);
    lemma_last_value_concat(seq![("PUSH_REPOSITORY_DESCRIPTION"@, push.repository.description@)] + seq![("PUSH_REPOSITORY_PRIVATE"@, bool_text(push.repository.private))] + seq![("PUSH_REPOSITORY_FORK"@, bool_text(push.repository.fork))] + seq![("PUSH_REPOSITORY_HTML_URL"@, push.repository.html_url@)] + seq![("PUSH_REPOSITORY_SSH_URL"@, push.repository.ssh_url@)] + seq![("PUSH_REPOSITORY_CLONE_URL"@, push.repository.clone_url@)] + seq![("PUSH_REPOSITORY_WEBSITE"@, push.repository.website@)] + seq![("PUSH_REPOSITORY_STARS_COUNT"@, decimal(push.repository.stars_count as nat))] + seq![("PUSH_REPOSITORY_FORKS_COUNT"@, decimal(push.repository.forks_count as nat))] + seq![("PUSH_REPOSITORY_WATCHERS_COUNT"@, decimal(push.repository.watchers_count as nat))], seq![("PUSH_REPOSITORY_OPEN_ISSUES_COUNT"@, decimal(push.repository.open_issues_count as nat))], "PUSH_SENDER_USERNAME"@);
    lemma_last_value_concat(seq![("PUSH_REPOSITORY_DESCRIPTION"@, push.repository.description@)] + seq![("PUSH_REPOSITORY_PRIVATE"@, bool_text(push.repository.private))] + seq![("PUSH_REPOSITORY_FORK"@, bool_text(push.repository.fork))] + seq![("PUSH_REPOSITORY_HTML_URL"@, push.repository.html_url@)] + seq![("PUSH_REPOSITORY_SSH_URL"@, push.repository.ssh_url@)] + seq![("PUSH_REPOSITORY_CLONE_URL"@, push.repository.clone_url@)] + seq![("PUSH_REPOSITORY_WEBSITE"@, push.repository.website@)] + seq![("PUSH_REPOSITORY_STARS_COUNT"@, decimal(push.repository.stars_count as nat))] + seq![("PUSH_REPOSITORY_FORKS_COUNT"@, decimal(push.repository.forks_count as nat))], seq![("PUSH_REPOSITORY_WATCHERS_COUNT"@, decimal(push.repository.watchers_count as nat))], "PUSH_SENDER_USERNAME"@);
    lemma_last_value_concat(seq![("PUSH_REPOSITORY_DESCRIPTION"@, push.repository.description@)] + seq![("PUSH_REPOSITORY_PRIVATE"@, bool_text(push.repository.private))] + seq![("PUSH_REPOSITORY_FORK"@, bool_text(push.repository.fork))] + seq![("PUSH_REPOSITORY_HTML_URL"@, push.repository.html_url@)] + seq![("PUSH_REPOSITORY_SSH_URL"@, push.repository.ssh_url@)] + seq![("PUSH_REPOSITORY_CLONE_URL"@, push.repository.clone_url@)] + seq![("PUSH_REPOSITORY_WEBSITE"@, push.repository.website@)] + seq![("PUSH_REPOSITORY_STARS_COUNT"@, decimal(push.repository.stars_count as nat))], seq![("PUSH_REPOSITORY_FORKS_COUNT"@, decimal(push.repository.forks_count as nat))], "PUSH_SENDER_USERNAME"@);
    lemma_last_value_concat(seq![("PUSH_REPOSITORY_DESCRIPTION"@, push.repository.description@)] + seq![("PUSH_REPOSITORY_PRIVATE"@, bool_text(push.repository.private))] + seq![("PUSH_REPOSITORY_FORK"@, bool_text(push.repository.fork))] + seq![("PUSH_REPOSITORY_HTML_URL"@, push.repository.html_url@)] + seq![("PUSH_REPOSITORY_SSH_URL"@, push.repository.ssh_url@)] + seq![("PUSH_REPOSITORY_CLONE_URL"@, push.repository.clone_url@)] + seq![("PUSH_REPOSITORY_WEBSITE"@, push.repository.website@)], seq![("PUSH_REPOSITORY_STARS_COUNT"@, decimal(push.repository.stars_count as nat))], "PUSH_SENDER_USERNAME"@);
    lemma_last_value_concat(seq![("PUSH_REPOSITORY_DESCRIPTION"@, push.repository.description@)] + seq![("PUSH_REPOSITORY_PRIVATE"@, bool_text(push.repository.private))] + seq![("PUSH_REPOSITORY_FORK"@, bool_text(push.repository.fork))] + seq![("PUSH_REPOSITORY_HTML_URL"@, push.repository.html_url@)] + seq![("PUSH_REPOSITORY_SSH_URL"@, push.repository.ssh_url@)] + seq![("PUSH_REPOSITORY_CLONE_URL"@, push.repository.clone_url@)], seq![("PUSH_REPOSITORY_WEBSITE"@, push.repository.website@)], "PUSH_SENDER_USERNAME"@);
    lemma_last_value_concat(seq![("PUSH_REPOSITORY_DESCRIPTION"@, push.repository.description@)] + seq![("PUSH_REPOSITORY_PRIVATE"@, bool_text(push.repository.private))] + seq![("PUSH_REPOSITORY_FORK"@, bool_text(push.repository.fork))] + seq![("PUSH_REPOSITORY_HTML_URL"@, push.repository.html_url@)] + seq![("PUSH_REPOSITORY_SSH_URL"@, push.repository.ssh_url@)], seq![("PUSH_REPOSITORY_CLONE_URL"@, push.repository.clone_url@)], "PUSH_SENDER_USERNAME"@);
    lemma_last_value_concat(seq![("PUSH_REPOSITORY_DESCRIPTION"@, push.repository.description@)] + seq![("PUSH_REPOSITORY_PRIVATE"@, bool_text(push.repository.private))] + seq![("PUSH_REPOSITORY_FORK"@, bool_text(push.repository.fork))] + seq![("PUSH_REPOSITORY_HTML_URL"@, push.repository.html_url@)], seq![("PUSH_REPOSITORY_SSH_URL"@, push.repository.ssh_url@)], "PUSH_SENDER_USERNAME"@);
    lemma_last_value_concat(seq![("PUSH_REPOSITORY_DESCRIPTION"@, push.repository.description@)] + seq![("PUSH_REPOSITORY_PRIVATE"@, bool_text(push.repository.private))] + seq![("PUSH_REPOSITORY_FORK"@, bool_text(push.repository.fork))], seq![("PUSH_REPOSITORY_HTML_URL"@, push.repository.html_url@)], "PUSH_SENDER_USERNAME"@);
    lemma_last_value_concat(seq![("PUSH_REPOSITORY_DESCRIPTION"@, push.repository.description@)] + seq![("PUSH_REPOSITORY_PRIVATE"@, bool_text(push.repository.private))], seq![("PUSH_REPOSITORY_FORK"@, bool_text(push.repository.fork))], "PUSH_SENDER_USERNAME"@);
    lemma_last_value_concat(seq![("PUSH_REPOSITORY_DESCRIPTION"@, push.repository.description@)], seq![("PUSH_REPOSITORY_PRIVATE"@, bool_text(push.repository.private))], "PUSH_SENDER_USERNAME"@);
    lemma_last_value_single("PUSH_REPOSITORY_DESCRIPTION"@, push.repository.description@, "PUSH_SENDER_USERNAME"@);
    assert("PUSH_REPOSITORY_DESCRIPTION"@.len() != "PUSH_SENDER_USERNAME"@.len());
    lemma_last_value_single("PUSH_REPOSITORY_PRIVATE"@, bool_text(push.repository.private), "PUSH_SENDER_USERNAME"@);
    assert("PUSH_REPOSITORY_PRIVATE"@.len() != "PUSH_SENDER_USERNAME"@.len());
    lemma_last_value_single("PUSH_REPOSITORY_FORK"@, bool_text(push.repository.fork), "PUSH_SENDER_USERNAME"@);
    assert("PUSH_REPOSITORY_FORK"@[5] != "PUSH_SENDER_USERNAME"@[5]);
    lemma_last_value_single("PUSH_REPOSITORY_HTML_URL"@, push.repository.html_url@, "PUSH_SENDER_USERNAME"@);
    assert("PUSH_REPOSITORY_HTML_URL"@.len() != "PUSH_SENDER_USERNAME"@.len());
    lemma_last_value_single("PUSH_REPOSITORY_SSH_URL"@, push.repository.ssh_url@, "PUSH_SENDER_USERNAME"@);
    assert("PUSH_REPOSITORY_SSH_URL"@.len() != "PUSH_SENDER_USERNAME"@.len());
    lemma_last_value_single("PUSH_REPOSITORY_CLONE_URL"@, push.repository.clone_url@, "PUSH_SENDER_USERNAME"@);
    assert("PUSH_REPOSITORY_CLONE_URL"@.len() != "PUSH_SENDER_USERNAME"@.len());
    lemma_last_value_single("PUSH_REPOSITORY_WEBSITE"@, push.repository.website@, "PUSH_SENDER_USERNAME"@);
    assert("PUSH_REPOSITORY_WEBSITE"@.len() != "PUSH_SENDER_USERNAME"@.len());
    lemma_last_value_single("PUSH_REPOSITORY_STARS_COUNT"@, decimal(push.repository.stars_count as nat), "PUSH_SENDER_USERNAME"@);
    assert("PUSH_REPOSITORY_STARS_COUNT"@.len() != "PUSH_SENDER_USERNAME"@.len());
    lemma_last_value_single("PUSH_REPOSITORY_FORKS_COUNT"@, decimal(push.repository.forks_count as nat), "PUSH_SENDER_USERNAME"@);
    assert("PUSH_REPOSITORY_FORKS_COUNT"@.len() != "PUSH_SENDER_USERNAME"@.len());
    lemma_last_value_single("PUSH_REPOSITORY_WATCHERS_COUNT"@, decimal(push.repository.watchers_count as nat), "PUSH_SENDER_USERNAME"@);
    assert("PUSH_REPOSITORY_WATCHERS_COUNT"@.len() != "PUSH_SENDER_USERNAME"@.len());
    lemma_last_value_single("PUSH_REPOSITORY_OPEN_ISSUES_COUNT"@, decimal(push.repository.open_issues_count as nat), "PUSH_SENDER_USERNAME"@);
    assert("PUSH_REPOSITORY_OPEN_ISSUES_COUNT"@.len() != "PUSH_SENDER_USERNAME"@.len());
    lemma_last_value_single("PUSH_REPOSITORY_DEFAULT_BRANCH"@, push.repository.default_branch@, "PUSH_SENDER_USERNAME"@);
    assert("PUSH_REPOSITORY_DEFAULT_BRANCH"@.len() != "PUSH_SENDER_USERNAME"@.len());
    lemma_last_value_concat(push_event_env_part1(push), push_event_env_part2(push), "PUSH_SENDER_USERNAME"@);
    lemma_last_value_concat(seq![("PUSH_SENDER_EMAIL"@, push.sender.email@)] + seq![("PUSH_SENDER_AVATAR_URL"@, push.sender.avatar_url@)] + seq![("PUSH_SENDER_USERNAME"@, push.sender.username@)] + seq![("PUSH_REPOSITORY_ID"@, decimal(push.repository.id as nat))] + seq![("PUSH_REPOSITORY_OWNER_ID"@, decimal(push.repository.owner.id as nat))] + seq![("PUSH_REPOSITORY_OWNER_LOGIN"@, push.repository.owner.login@)] + seq![("PUSH_REPOSITORY_OWNER_FULL_NAME"@, push.repository.owner.full_name@)] + seq![("PUSH_REPOSITORY_OWNER_EMAIL"@, push.repository.owner.email@)] + seq![("PUSH_REPOSITORY_OWNER_AVATAR_URL"@, push.repository.owner.avatar_url@)] + seq![("PUSH_REPOSITORY_OWNER_USERNAME"@, push.repository.owner.username@)] + seq![("PUSH_REPOSITORY_NAME"@, push.repository.name@)], seq![("PUSH_REPOSITORY_FULL_NAME"@, push.repository.full_name@)], "PUSH_SENDER_USERNAME"@);
    lemma_last_value_single("PUSH_REPOSITORY_FULL_NAME"@, push.repository.full_name@, "PUSH_SENDER_USERNAME"@);
    assert("PUSH_REPOSITORY_FULL_NAME"@.len() != "PUSH_SENDER_USERNAME"@.len());
    lemma_last_value_concat(seq![("PUSH_SENDER_EMAIL"@, push.sender.email@)] + seq![("PUSH_SENDER_AVATAR_URL"@, push.sender.avatar_url@)] + seq![("PUSH_SENDER_USERNAME"@, push.sender.username@)] + seq![("PUSH_REPOSITORY_ID"@, decimal(push.repository.id as nat))] + seq![("PUSH_REPOSITORY_OWNER_ID"@, decimal(push.repository.owner.id as nat))] + seq![("PUSH_REPOSITORY_OWNER_LOGIN"@, push.repository.owner.login@)] + seq![("PUSH_REPOSITORY_OWNER_FULL_NAME"@, push.repository.owner.full_name@)] + seq![("PUSH_REPOSITORY_OWNER_EMAIL"@, push.repository.owner.email@)] + seq![("PUSH_REPOSITORY_OWNER_AVATAR_URL"@, push.repository.owner.avatar_url@)] + seq![("PUSH_REPOSITORY_OWNER_USERNAME"@, push.repository.owner.username@)], seq![("PUSH_REPOSITORY_NAME"@, push.repository.name@)], "PUSH_SENDER_USERNAME"@);
    lemma_last_value_single("PUSH_REPOSITORY_NAME"@, push.repository.name@, "PUSH_SENDER_USERNAME"@);
    assert("PUSH_REPOSITORY_NAME"@[5] != "PUSH_SENDER_USERNAME"@[5]);
    lemma_last_value_concat(seq![("PUSH_SENDER_EMAIL"@, push.sender.email@)] + seq![("PUSH_SENDER_AVATAR_URL"@, push.sender.avatar_url@)] + seq![("PUSH_SENDER_USERNAME"@, push.sender.username@)] + seq![("PUSH_REPOSITORY_ID"@, decimal(push.repository.id as nat))] + seq![("PUSH_REPOSITORY_OWNER_ID"@, decimal(push.repository.owner.id as nat))] + seq![("PUSH_REPOSITORY_OWNER_LOGIN"@, push.repository.owner.login@)] + seq![("PUSH_REPOSITORY_OWNER_FULL_NAME"@, push.repository.owner.full_name@)] + seq![("PUSH_REPOSITORY_OWNER_EMAIL"@, push.repository.owner.email@)] + seq![("PUSH_REPOSITORY_OWNER_AVATAR_URL"@, push.repository.owner.avatar_url@)], seq![("PUSH_REPOSITORY_OWNER_USERNAME"@, push.repository.owner.username@)], "PUSH_SENDER_USERNAME"@);
    lemma_last_value_single("PUSH_REPOSITORY_OWNER_USERNAME"@, push.repository.owner.username@, "PUSH_SENDER_USERNAME"@);
    assert("PUSH_REPOSITORY_OWNER_USERNAME"@.len() != "PUSH_SENDER_USERNAME"@.len());
    lemma_last_value_concat(seq![("PUSH_SENDER_EMAIL"@, push.sender.email@)] + seq![("PUSH_SENDER_AVATAR_URL"@, push.sender.avatar_url@)] + seq![("PUSH_SENDER_USERNAME"@, push.sender.username@)] + seq![("PUSH_REPOSITORY_ID"@, decimal(push.repository.id as nat))] + seq![("PUSH_REPOSITORY_OWNER_ID"@, decimal(push.repository.owner.id as nat))] + seq![("PUSH_REPOSITORY_OWNER_LOGIN"@, push.repository.owner.login@)] + seq![("PUSH_REPOSITORY_OWNER_FULL_NAME"@, push.repository.owner.full_name@)] + seq![("PUSH_REPOSITORY_OWNER_EMAIL"@, push.repository.owner.email@)], seq![("PUSH_REPOSITORY_OWNER_AVATAR_URL"@, push.repository.owner.avatar_url@)], "PUSH_SENDER_USERNAME"@);
    lemma_last_value_single("PUSH_REPOSITORY_OWNER_AVATAR_URL"@, push.repository.owner.avatar_url@, "PUSH_SENDER_USERNAME"@);
    assert("PUSH_REPOSITORY_OWNER_AVATAR_URL"@.len() != "PUSH_SENDER_USERNAME"@.len());
    lemma_last_value_concat(seq![("PUSH_SENDER_EMAIL"@, push.sender.email@)] + seq![("PUSH_SENDER_AVATAR_URL"@, push.sender.avatar_url@)] + seq![("PUSH_SENDER_USERNAME"@, push.sender.username@)] + seq![("PUSH_REPOSITORY_ID"@, decimal(push.repository.id as nat))] + seq![("PUSH_REPOSITORY_OWNER_ID"@, decimal(push.repository.owner.id as nat))] + seq![("PUSH_REPOSITORY_OWNER_LOGIN"@, push.repository.owner.login@)] + seq![("PUSH_REPOSITORY_OWNER_FULL_NAME"@, push.repository.owner.full_name@)], seq![("PUSH_REPOSITORY_OWNER_EMAIL"@, push.repository.owner.email@)], "PUSH_SENDER_USERNAME"@);
    lemma_last_value_single("PUSH_REPOSITORY_OWNER_EMAIL"@, push.repository.owner.email@, "PUSH_SENDER_USERNAME"@);
    assert("PUSH_REPOSITORY_OWNER_EMAIL"@.len() != "PUSH_SENDER_USERNAME"@.len());
    lemma_last_value_concat(seq![("PUSH_SENDER_EMAIL"@, push.sender.email@)] + seq![("PUSH_SENDER_AVATAR_URL"@, push.sender.avatar_url@)] + seq![("PUSH_SENDER_USERNAME"@, push.sender.username@)] + seq![("PUSH_REPOSITORY_ID"@, decimal(push.repository.id as nat))] + seq![("PUSH_REPOSITORY_OWNER_ID"@, decimal(push.repository.owner.id as nat))] + seq![("PUSH_REPOSITORY_OWNER_LOGIN"@, push.repository.owner.login@)], seq![("PUSH_REPOSITORY_OWNER_FULL_NAME"@, push.repository.owner.full_name@)], "PUSH_SENDER_USERNAME"@);
    lemma_last_value_single("PUSH_REPOSITORY_OWNER_FULL_NAME"@, push.repository.owner.full_name@, "PUSH_SENDER_USERNAME"@);
    assert("PUSH_REPOSITORY_OWNER_FULL_NAME"@.len() != "PUSH_SENDER_USERNAME"@.len());
    lemma_last_value_concat(seq![("PUSH_SENDER_EMAIL"@, push.sender.email@)] + seq![("PUSH_SENDER_AVATAR_URL"@, push.sender.avatar_url@)] + seq![("PUSH_SENDER_USERNAME"@, push.sender.username@)] + seq![("PUSH_REPOSITORY_ID"@, decimal(push.repository.id as nat))] + seq![("PUSH_REPOSITORY_OWNER_ID"@, decimal(push.repository.owner.id as nat))], seq![("PUSH_REPOSITORY_OWNER_LOGIN"@, push.repository.owner.login@)], "PUSH_SENDER_USERNAME"@);
    lemma_last_value_single("PUSH_REPOSITORY_OWNER_LOGIN"@, push.repository.owner.login@, "PUSH_SENDER_USERNAME"@);
    assert("PUSH_REPOSITORY_OWNER_LOGIN"@.len() != "PUSH_SENDER_USERNAME"@.len());
    lemma_last_value_concat(seq![("PUSH_SENDER_EMAIL"@, push.sender.email@)] + seq![("PUSH_SENDER_AVATAR_URL"@, push.sender.avatar_url@)] + seq![("PUSH_SENDER_USERNAME"@, push.sender.username@)] + seq![("PUSH_REPOSITORY_ID"@, decimal(push.repository.id as nat))], seq![("PUSH_REPOSITORY_OWNER_ID"@, decimal(push.repository.owner.id as nat))], "PUSH_SENDER_USERNAME"@);
    lemma_last_value_single("PUSH_REPOSITORY_OWNER_ID"@, decimal(push.repository.owner.id as nat), "PUSH_SENDER_USERNAME"@);
    assert("PUSH_REPOSITORY_OWNER_ID"@.len() != "PUSH_SENDER_USERNAME"@.len());
    lemma_last_value_concat(seq![("PUSH_SENDER_EMAIL"@, push.sender.email@)] + seq![("PUSH_SENDER_AVATAR_URL"@, push.sender.avatar_url@)] + seq![("PUSH_SENDER_USERNAME"@, push.sender.username@)], seq![("PUSH_REPOSITORY_ID"@, decimal(push.repository.id as nat))], "PUSH_SENDER_USERNAME"@);
    lemma_last_value_single("PUSH_REPOSITORY_ID"@, decimal(push.repository.id as nat), "PUSH_SENDER_USERNAME"@);
    assert("PUSH_REPOSITORY_ID"@.len() != "PUSH_SENDER_USERNAME"@.len());
    lemma_last_value_concat(seq![("PUSH_SENDER_EMAIL"@, push.sender.email@)] + seq![("PUSH_SENDER_AVATAR_URL"@, push.sender.avatar_url@)], seq![("PUSH_SENDER_USERNAME"@, push.sender.username@)], "PUSH_SENDER_USERNAME"@);
    lemma_last_value_single("PUSH_SENDER_USERNAME"@, push.sender.username@, "PUSH_SENDER_USERNAME"@);
}

/// The command that answers a push leaves the push's repository id in PUSH_REPOSITORY_ID.
pub proof fn lemma_push_event_repository_id(push: PushEvent)
    ensures
        last_value(push_event_command(push).envs, "PUSH_REPOSITORY_ID"@) == Some(decimal(push.repository.id as nat)),
{
    reveal_strlit("PUSH_REF_PATH");
    reveal_strlit("PUSH_BEFORE");
    reveal_strlit("PUSH_AFTER");
    reveal_strlit("PUSH_PUSHER_ID");
    reveal_strlit("PUSH_PUSHER_LOGIN");
    reveal_strlit("PUSH_PUSHER_FULL_NAME");
    reveal_strlit("PUSH_PUSHER_EMAIL");
    reveal_strlit("PUSH_PUSHER_AVATAR_URL");
    reveal_strlit("PUSH_PUSHER_USERNAME");
    reveal_strlit("PUSH_SENDER_ID");
    reveal_strlit("PUSH_SENDER_LOGIN");
    reveal_strlit("PUSH_SENDER_FULL_NAME");
    reveal_strlit("PUSH_SENDER_EMAIL");
    reveal_strlit("PUSH_SENDER_AVATAR_URL");
    reveal_strlit("PUSH_SENDER_USERNAME");
    reveal_strlit("PUSH_REPOSITORY_ID");
    reveal_strlit("PUSH_REPOSITORY_OWNER_ID");
    reveal_strlit("PUSH_REPOSITORY_OWNER_LOGIN");
    reveal_strlit("PUSH_REPOSITORY_OWNER_FULL_NAME");
    reveal_strlit("PUSH_REPOSITORY_OWNER_EMAIL");
    reveal_strlit("PUSH_REPOSITORY_OWNER_AVATAR_URL");
    reveal_strlit("PUSH_REPOSITORY_OWNER_USERNAME");
    reveal_strlit("PUSH_REPOSITORY_NAME");
    reveal_strlit("PUSH_REPOSITORY_FULL_NAME");
    reveal_strlit("PUSH_REPOSITORY_DESCRIPTION");
    reveal_strlit("PUSH_REPOSITORY_PRIVATE");
    reveal_strlit("PUSH_REPOSITORY_FORK");
    reveal_strlit("PUSH_REPOSITORY_HTML_URL");
    reveal_strlit("PUSH_REPOSITORY_SSH_URL");
    reveal_strlit("PUSH_REPOSITORY_CLONE_URL");
    reveal_strlit("PUSH_REPOSITORY_WEBSITE");
    reveal_strlit("PUSH_REPOSITORY_STARS_COUNT");
    reveal_strlit("PUSH_REPOSITORY_FORKS_COUNT");
    reveal_strlit("PUSH_REPOSITORY_WATCHERS_COUNT");
    reveal_strlit("PUSH_REPOSITORY_OPEN_ISSUES_COUNT");
    reveal_strlit("PUSH_REPOSITORY_DEFAULT_BRANCH");
    reveal_strlit("PUSH_REPOSITORY_CREATED_AT");
    reveal_strlit("PUSH_REPOSITORY_UPDATED_AT");
    lemma_last_value_concat(push_event_env_part1(push) + push_event_env_part2(push) + push_event_env_part3(push), push_event_env_part4(push), "PUSH_REPOSITORY_ID"@);
    lemma_last_value_concat(seq![("PUSH_REPOSITORY_CREATED_AT"@, push.repository.created_at@)], seq![("PUSH_REPOSITORY_UPDATED_AT"@, push.repository.updated_at@)], "PUSH_REPOSITORY_ID"@);
    lemma_last_value_single("PUSH_REPOSITORY_CREATED_AT"@, push.repository.created_at@, "PUSH_REPOSITORY_ID"@);
    assert("PUSH_REPOSITORY_CREATED_AT"@.len() != "PUSH_REPOSITORY_ID"@.len());
    lemma_last_value_single("PUSH_REPOSITORY_UPDATED_AT"@, push.repository.updated_at@, "PUSH_REPOSITORY_ID"@);
    assert("PUSH_REPOSITORY_UPDATED_AT"@.len() != "PUSH_REPOSITORY_ID"@.len());
    lemma_last_value_concat(push_event_env_part1(push) + push_event_env_part2(push), push_event_env_part3(push), "PUSH_REPOSITORY_ID"@);
    lemma_last_value_concat(seq![("PUSH_REPOSITORY_DESCRIPTION"@, push.repository.description@)] + seq![("PUSH_REPOSITORY_PRIVATE"@, bool_text(push.repository.private))] + seq![("PUSH_REPOSITORY_FORK"@, bool_text(push.repository.fork))] + seq![("PUSH_REPOSITORY_HTML_URL"@, push.repository.html_url@)] + seq![("PUSH_REPOSITORY_SSH_URL"@, push.repository.ssh_url@)] + seq![("PUSH_REPOSITORY_CLONE_URL"@, push.repository.clone_url@)] + seq![("PUSH_REPOSITORY_WEBSITE"@, push.repository.website@)] + seq![("PUSH_REPOSITORY_STARS_COUNT"@, decimal(push.repository.stars_count as nat))] + seq![("PUSH_REPOSITORY_FORKS_COUNT"@, decimal(push.repository.forks_count as nat))] + seq![("PUSH_REPOSITORY_WATCHERS_COUNT"@, decimal(push.repository.watchers_count as nat))] + seq![("PUSH_REPOSITORY_OPEN_ISSUES_COUNT"@, decimal(push.repository.open_issues_count as nat))], seq![("PUSH_REPOSITORY_DEFAULT_BRANCH"@, push.repository.default_branch@)], "PUSH_REPOSITORY_ID"@);
    lemma_last_value_concat(seq![("PUSH_REPOSITORY_DESCRIPTION"@, push.repository.description@)] + seq![("PUSH_REPOSITORY_PRIVATE"@, bool_text(push.repository.private))] + seq![("PUSH_REPOSITORY_FORK"@, bool_text(push.repository.fork))] + seq![("PUSH_REPOSITORY_HTML_URL"@, push.repository.html_url@)] + seq![("PUSH_REPOSITORY_SSH_URL"@, push.repository.ssh_url@)] + seq![("PUSH_REPOSITORY_CLONE_URL"@, push.repository.clone_url@)] + seq![("PUSH_REPOSITORY_WEBSITE"@, push.repository.website@)] + seq![("PUSH_REPOSITORY_STARS_COUNT"@, decimal(push.repository.stars_count as nat))] + seq![("PUSH_REPOSITORY_FORKS_COUNT"@, decimal(push.repository.forks_count as nat))] + seq![("PUSH_REPOSITORY_WATCHERS_COUNT"@, decimal(push.repository.watchers_count as nat))], seq![("PUSH_REPOSITORY_OPEN_ISSUES_COUNT"@, decimal(push.repository.open_issues_count as nat))], "PUSH_REPOSITORY_ID"@);
    lemma_last_value_concat(seq![("PUSH_REPOSITORY_DESCRIPTION"@, push.repository.description@)] + seq![("PUSH_REPOSITORY_PRIVATE"@, bool_text(push.repository.private))] + seq![("PUSH_REPOSITORY_FORK"@, bool_text(push.repository.fork))] + seq![("PUSH_REPOSITORY_HTML_URL"@, push.repository.html_url@)] + seq![("PUSH_REPOSITORY_SSH_URL"@, push.repository.ssh_url@)] + seq![("PUSH_REPOSITORY_CLONE_URL"@, push.repository.clone_url@)] + seq![("PUSH_REPOSITORY_WEBSITE"@, push.repository.website@)] + seq![("PUSH_REPOSITORY_STARS_COUNT"@, decimal(push.repository.stars_count as nat))] + seq![("PUSH_REPOSITORY_FORKS_COUNT"@, decimal(push.repository.forks_count as nat))], seq![("PUSH_REPOSITORY_WATCHERS_COUNT"@, decimal(push.repository.watchers_count as nat))], "PUSH_REPOSITORY_ID"@);
    lemma_last_value_concat(seq![("PUSH_REPOSITORY_DESCRIPTION"@, push.repository.description@)] + seq![("PUSH_REPOSITORY_PRIVATE"@, bool_text(push.repository.private))] + seq![("PUSH_REPOSITORY_FORK"@, bool_text(push.repository.fork))] + seq![("PUSH_REPOSITORY_HTML_URL"@, push.repository.html_url@)] + seq![("PUSH_REPOSITORY_SSH_URL"@, push.repository.ssh_url@)] + seq![("PUSH_REPOSITORY_CLONE_URL"@, push.repository.clone_url@)] + seq![("PUSH_REPOSITORY_WEBSITE"@, push.repository.website@)] + seq![("PUSH_REPOSITORY_STARS_COUNT"@, decimal(push.repository.stars_count as nat))], seq![("PUSH_REPOSITORY_FORKS_COUNT"@, decimal(push.repository.forks_count as nat))], "PUSH_REPOSITORY_ID"@);
    lemma_last_value_concat(seq![("PUSH_REPOSITORY_DESCRIPTION"@, push.repository.description@)] + seq![("PUSH_REPOSITORY_PRIVATE"@, bool_text(push.repository.private))] + seq![("PUSH_REPOSITORY_FORK"@, bool_text(push.repository.fork))] + seq![("PUSH_REPOSITORY_HTML_URL"@, push.repository.html_url@)] + seq![("PUSH_REPOSITORY_SSH_URL"@, push.repository.ssh_url@)] + seq![("PUSH_REPOSITORY_CLONE_URL"@, push.repository.clone_url@)] + seq![("PUSH_REPOSITORY_WEBSITE"@, push.repository.website@)], seq![("PUSH_REPOSITORY_STARS_COUNT"@, decimal(push.repository.stars_count as nat))], "PUSH_REPOSITORY_ID"@);
    lemma_last_value_concat(seq![("PUSH_REPOSITORY_DESCRIPTION"@, push.repository.description@)] + seq![("PUSH_REPOSITORY_PRIVATE"@, bool_text(push.repository.private))] + seq![("PUSH_REPOSITORY_FORK"@, bool_text(push.repository.fork))] + seq![("PUSH_REPOSITORY_HTML_URL"@, push.repository.html_url@)] + seq![("PUSH_REPOSITORY_SSH_URL"@, push.repository.ssh_url@)] + seq![("PUSH_REPOSITORY_CLONE_URL"@, push.repository.clone_url@)], seq![("PUSH_REPOSITORY_WEBSITE"@, push.repository.website@)], "PUSH_REPOSITORY_ID"@);
    lemma_last_value_concat(seq![("PUSH_REPOSITORY_DESCRIPTION"@, push.repository.description@)] + seq![("PUSH_REPOSITORY_PRIVATE"@, bool_text(push.repository.private))] + seq![("PUSH_REPOSITORY_FORK"@, bool_text(push.repository.fork))] + seq![("PUSH_REPOSITORY_HTML_URL"@, push.repository.html_url@)] + seq![("PUSH_REPOSITORY_SSH_URL"@, push.repository.ssh_url@)], seq![("PUSH_REPOSITORY_CLONE_URL"@, push.repository.clone_url@)], "PUSH_REPOSITORY_ID"@);
    lemma_last_value_concat(seq![("PUSH_REPOSITORY_DESCRIPTION"@, push.repository.description@)] + seq![("PUSH_REPOSITORY_PRIVATE"@, bool_text(push.repository.private))] + seq![("PUSH_REPOSITORY_FORK"@, bool_text(push.repository.fork))] + seq![("PUSH_REPOSITORY_HTML_URL"@, push.repository.html_url@)], seq![("PUSH_REPOSITORY_SSH_URL"@, push.repository.ssh_url@)], "PUSH_REPOSITORY_ID"@);
    lemma_last_value_concat(seq![("PUSH_REPOSITORY_DESCRIPTION"@, push.repository.description@)] + seq![("PUSH_REPOSITORY_PRIVATE"@, bool_text(push.repository.private))] + seq![("PUSH_REPOSITORY_FORK"@, bool_text(push.repository.fork))], seq![("PUSH_REPOSITORY_HTML_URL"@, push.repository.html_url@)], "PUSH_REPOSITORY_ID"@);
    lemma_last_value_concat(seq![("PUSH_REPOSITORY_DESCRIPTION"@, push.repository.description@)] + seq![("PUSH_REPOSITORY_PRIVATE"@, bool_text(push.repository.private))], seq![("PUSH_REPOSITORY_FORK"@, bool_text(push.repository.fork))], "PUSH_REPOSITORY_ID"@);
    lemma_last_value_concat(seq![("PUSH_REPOSITORY_DESCRIPTION"@, push.repository.description@)], seq![("PUSH_REPOSITORY_PRIVATE"@, bool_text(push.repository.private))], "PUSH_REPOSITORY_ID"@);
    lemma_last_value_single("PUSH_REPOSITORY_DESCRIPTION"@, push.repository.description@, "PUSH_REPOSITORY_ID"@);
    assert("PUSH_REPOSITORY_DESCRIPTION"@.len() != "PUSH_REPOSITORY_ID"@.len());
    lemma_last_value_single("PUSH_REPOSITORY_PRIVATE"@, bool_text(push.repository.private), "PUSH_REPOSITORY_ID"@);
    assert("PUSH_REPOSITORY_PRIVATE"@.len() != "PUSH_REPOSITORY_ID"@.len());
    lemma_last_value_single("PUSH_REPOSITORY_FORK"@, bool_text(push.repository.fork), "PUSH_REPOSITORY_ID"@);
    assert("PUSH_REPOSITORY_FORK"@.len() != "PUSH_REPOSITORY_ID"@.len());
    lemma_last_value_single("PUSH_REPOSITORY_HTML_URL"@, push.repository.html_url@, "PUSH_REPOSITORY_ID"@);
    assert("PUSH_REPOSITORY_HTML_URL"@.len() != "PUSH_REPOSITORY_ID"@.len());
    lemma_last_value_single("PUSH_REPOSITORY_SSH_URL"@, push.repository.ssh_url@, "PUSH_REPOSITORY_ID"@);
    assert("PUSH_REPOSITORY_SSH_URL"@.len() != "PUSH_REPOSITORY_ID"@.len());
    lemma_last_value_single("PUSH_REPOSITORY_CLONE_URL"@, push.repository.clone_url@, "PUSH_REPOSITORY_ID"@);
    assert("PUSH_REPOSITORY_CLONE_URL"@.len() != "PUSH_REPOSITORY_ID"@.len());
    lemma_last_value_single("PUSH_REPOSITORY_WEBSITE"@, push.repository.website@, "PUSH_REPOSITORY_ID"@);
    assert("PUSH_REPOSITORY_WEBSITE"@.len() != "PUSH_REPOSITORY_ID"@.len());
    lemma_last_value_single("PUSH_REPOSITORY_STARS_COUNT"@, decimal(push.repository.stars_count as nat), "PUSH_REPOSITORY_ID"@);
    assert("PUSH_REPOSITORY_STARS_COUNT"@.len() != "PUSH_REPOSITORY_ID"@.len());
    lemma_last_value_single("PUSH_REPOSITORY_FORKS_COUNT"@, decimal(push.repository.forks_count as nat), "PUSH_REPOSITORY_ID"@);
    assert("PUSH_REPOSITORY_FORKS_COUNT"@.len() != "PUSH_REPOSITORY_ID"@.len());
    lemma_last_value_single("PUSH_REPOSITORY_WATCHERS_COUNT"@, decimal(push.repository.watchers_count as nat), "PUSH_REPOSITORY_ID"@);
    assert("PUSH_REPOSITORY_WATCHERS_COUNT"@.len() != "PUSH_REPOSITORY_ID"@.len());
    lemma_last_value_single("PUSH_REPOSITORY_OPEN_ISSUES_COUNT"@, decimal(push.repository.open_issues_count as nat), "PUSH_REPOSITORY_ID"@);
    assert("PUSH_REPOSITORY_OPEN_ISSUES_COUNT"@.len() != "PUSH_REPOSITORY_ID"@.len());
    lemma_last_value_single("PUSH_REPOSITORY_DEFAULT_BRANCH"@, push.repository.default_branch@, "PUSH_REPOSITORY_ID"@);
    assert("PUSH_REPOSITORY_DEFAULT_BRANCH"@.len() != "PUSH_REPOSITORY_ID"@.len());
    lemma_last_value_concat(push_event_env_part1(push), push_event_env_part2(push), "PUSH_REPOSITORY_ID"@);
    lemma_last_value_concat(seq![("PUSH_SENDER_EMAIL"@, push.sender.email@)] + seq![("PUSH_SENDER_AVATAR_URL"@, push.sender.avatar_url@)] + seq![("PUSH_SENDER_USERNAME"@, push.sender.username@)] + seq![("PUSH_REPOSITORY_ID"@, decimal(push.repository.id as nat))] + seq![("PUSH_REPOSITORY_OWNER_ID"@, decimal(push.repository.owner.id as nat))] + seq![("PUSH_REPOSITORY_OWNER_LOGIN"@, push.repository.owner.login@)] + seq![("PUSH_REPOSITORY_OWNER_FULL_NAME"@, push.repository.owner.full_name@)] + seq![("PUSH_REPOSITORY_OWNER_EMAIL"@, push.repository.owner.email@)] + seq![("PUSH_REPOSITORY_OWNER_AVATAR_URL"@, push.repository.owner.avatar_url@)] + seq![("PUSH_REPOSITORY_OWNER_USERNAME"@, push.repository.owner.username@)] + seq![("PUSH_REPOSITORY_NAME"@, push.repository.name@)], seq![("PUSH_REPOSITORY_FULL_NAME"@, push.repository.full_name@)], "PUSH_REPOSITORY_ID"@);
    lemma_last_value_single("PUSH_REPOSITORY_FULL_NAME"@, push.repository.full_name@, "PUSH_REPOSITORY_ID"@);
    assert("PUSH_REPOSITORY_FULL_NAME"@.len() != "PUSH_REPOSITORY_ID"@.len());
    lemma_last_value_concat(seq![("PUSH_SENDER_EMAIL"@, push.sender.email@)] + seq![("PUSH_SENDER_AVATAR_URL"@, push.sender.avatar_url@)] + seq![("PUSH_SENDER_USERNAME"@, push.sender.username@)] + seq![("PUSH_REPOSITORY_ID"@, decimal(push.repository.id as nat))] + seq![("PUSH_REPOSITORY_OWNER_ID"@, decimal(push.repository.owner.id as nat))] + seq![("PUSH_REPOSITORY_OWNER_LOGIN"@, push.repository.owner.login@)] + seq![("PUSH_REPOSITORY_OWNER_FULL_NAME"@, push.repository.owner.full_name@)] + seq![("PUSH_REPOSITORY_OWNER_EMAIL"@, push.repository.owner.email@)] + seq![("PUSH_REPOSITORY_OWNER_AVATAR_URL"@, push.repository.owner.avatar_url@)] + seq![("PUSH_REPOSITORY_OWNER_USERNAME"@, push.repository.owner.username@)], seq![("PUSH_REPOSITORY_NAME"@, push.repository.name@)], "PUSH_REPOSITORY_ID"@);
    lemma_last_value_single("PUSH_REPOSITORY_NAME"@, push.repository.name@, "PUSH_REPOSITORY_ID"@);
    assert("PUSH_REPOSITORY_NAME"@.len() != "PUSH_REPOSITORY_ID"@.len());
    lemma_last_value_concat(seq![("PUSH_SENDER_EMAIL"@, push.sender.email@)] + seq![("PUSH_SENDER_AVATAR_URL"@, push.sender.avatar_url@)] + seq![("PUSH_SENDER_USERNAME"@, push.sender.username@)] + seq![("PUSH_REPOSITORY_ID"@, decimal(push.repository.id as nat))] + seq![("PUSH_REPOSITORY_OWNER_ID"@, decimal(push.repository.owner.id as nat))] + seq![("PUSH_REPOSITORY_OWNER_LOGIN"@, push.repository.owner.login@)] + seq![("PUSH_REPOSITORY_OWNER_FULL_NAME"@, push.repository.owner.full_name@)] + seq![("PUSH_REPOSITORY_OWNER_EMAIL"@, push.repository.owner.email@)] + seq![("PUSH_REPOSITORY_OWNER_AVATAR_URL"@, push.repository.owner.avatar_url@)], seq![("PUSH_REPOSITORY_OWNER_USERNAME"@, push.repository.owner.username@)], "PUSH_REPOSITORY_ID"@);
    lemma_last_value_single("PUSH_REPOSITORY_OWNER_USERNAME"@, push.repository.owner.username@, "PUSH_REPOSITORY_ID"@);
    assert("PUSH_REPOSITORY_OWNER_USERNAME"@.len() != "PUSH_REPOSITORY_ID"@.len());
    lemma_last_value_concat(seq![("PUSH_SENDER_EMAIL"@, push.sender.email@)] + seq![("PUSH_SENDER_AVATAR_URL"@, push.sender.avatar_url@)] + seq![("PUSH_SENDER_USERNAME"@, push.sender.username@)] + seq![("PUSH_REPOSITORY_ID"@, decimal(push.repository.id as nat))] + seq![("PUSH_REPOSITORY_OWNER_ID"@, decimal(push.repository.owner.id as nat))] + seq![("PUSH_REPOSITORY_OWNER_LOGIN"@, push.repository.owner.login@)] + seq![("PUSH_REPOSITORY_OWNER_FULL_NAME"@, push.repository.owner.full_name@)] + seq![("PUSH_REPOSITORY_OWNER_EMAIL"@, push.repository.owner.email@)], seq![("PUSH_REPOSITORY_OWNER_AVATAR_URL"@, push.repository.owner.avatar_url@)], "PUSH_REPOSITORY_ID"@);
    lemma_last_value_single("PUSH_REPOSITORY_OWNER_AVATAR_URL"@, push.repository.owner.avatar_url@, "PUSH_REPOSITORY_ID"@);
    assert("PUSH_REPOSITORY_OWNER_AVATAR_URL"@.len() != "PUSH_REPOSITORY_ID"@.len());
    lemma_last_value_concat(seq![("PUSH_SENDER_EMAIL"@, push.sender.email@)] + seq![("PUSH_SENDER_AVATAR_URL"@, push.sender.avatar_url@)] + seq![("PUSH_SENDER_USERNAME"@, push.sender.username@)] + seq![("PUSH_REPOSITORY_ID"@, decimal(push.repository.id as nat))] + seq![("PUSH_REPOSITORY_OWNER_ID"@, decimal(push.repository.owner.id as nat))] + seq![("PUSH_REPOSITORY_OWNER_LOGIN"@, push.repository.owner.login@)] + seq![("PUSH_REPOSITORY_OWNER_FULL_NAME"@, push.repository.owner.full_name@)], seq![("PUSH_REPOSITORY_OWNER_EMAIL"@, push.repository.owner.email@)], "PUSH_REPOSITORY_ID"@);
    lemma_last_value_single("PUSH_REPOSITORY_OWNER_EMAIL"@, push.repository.owner.email@, "PUSH_REPOSITORY_ID"@);
    assert("PUSH_REPOSITORY_OWNER_EMAIL"@.len() != "PUSH_REPOSITORY_ID"@.len());
    lemma_last_value_concat(seq![("PUSH_SENDER_EMAIL"@, push.sender.email@)] + seq![("PUSH_SENDER_AVATAR_URL"@, push.sender.avatar_url@)] + seq![("PUSH_SENDER_USERNAME"@, push.sender.username@)] + seq![("PUSH_REPOSITORY_ID"@, decimal(push.repository.id as nat))] + seq![("PUSH_REPOSITORY_OWNER_ID"@, decimal(push.repository.owner.id as nat))] + seq![("PUSH_REPOSITORY_OWNER_LOGIN"@, push.repository.owner.login@)], seq![("PUSH_REPOSITORY_OWNER_FULL_NAME"@, push.repository.owner.full_name@)], "PUSH_REPOSITORY_ID"@);
    lemma_last_value_single("PUSH_REPOSITORY_OWNER_FULL_NAME"@, push.repository.owner.full_name@, "PUSH_REPOSITORY_ID"@);
    assert("PUSH_REPOSITORY_OWNER_FULL_NAME"@.len() != "PUSH_REPOSITORY_ID"@.len());
    lemma_last_value_concat(seq![("PUSH_SENDER_EMAIL"@, push.sender.email@)] + seq![("PUSH_SENDER_AVATAR_URL"@, push.sender.avatar_url@)] + seq![("PUSH_SENDER_USERNAME"@, push.sender.username@)] + seq![("PUSH_REPOSITORY_ID"@, decimal(push.repository.id as nat))] + seq![("PUSH_REPOSITORY_OWNER_ID"@, decimal(push.repository.owner.id as nat))], seq![("PUSH_REPOSITORY_OWNER_LOGIN"@, push.repository.owner.login@)], "PUSH_REPOSITORY_ID"@);
    lemma_last_value_single("PUSH_REPOSITORY_OWNER_LOGIN"@, push.repository.owner.login@, "PUSH_REPOSITORY_ID"@);
    assert("PUSH_REPOSITORY_OWNER_LOGIN"@.len() != "PUSH_REPOSITORY_ID"@.len());
    lemma_last_value_concat(seq![("PUSH_SENDER_EMAIL"@, push.sender.email@)] + seq![("PUSH_SENDER_AVATAR_URL"@, push.sender.avatar_url@)] + seq![("PUSH_SENDER_USERNAME"@, push.sender.username@)] + seq![("PUSH_REPOSITORY_ID"@, decimal(push.repository.id as nat))], seq![("PUSH_REPOSITORY_OWNER_ID"@, decimal(push.repository.owner.id as nat))], "PUSH_REPOSITORY_ID"@);
    lemma_last_value_single("PUSH_REPOSITORY_OWNER_ID"@, decimal(push.repository.owner.id as nat), "PUSH_REPOSITORY_ID"@);
    assert("PUSH_REPOSITORY_OWNER_ID"@.len() != "PUSH_REPOSITORY_ID"@.len());
    lemma_last_value_concat(seq![("PUSH_SENDER_EMAIL"@, push.sender.email@)] + seq![("PUSH_SENDER_AVATAR_URL"@, push.sender.avatar_url@)] + seq![("PUSH_SENDER_USERNAME"@, push.sender.username@)], seq![("PUSH_REPOSITORY_ID"@, decimal(push.repository.id as nat))], "PUSH_REPOSITORY_ID"@);
    lemma_last_value_single("PUSH_REPOSITORY_ID"@, decimal(push.repository.id as nat), "PUSH_REPOSITORY_ID"@);
}

/// The command that answers a push leaves the push's repository owner id in PUSH_REPOSITORY_OWNER_ID.
pub proof fn lemma_push_event_repository_owner_id(push: PushEvent)
    ensures
        last_value(push_event_command(push).envs, "PUSH_REPOSITORY_OWNER_ID"@) == Some(decimal(push.repository.owner.id as nat)),
{
    reveal_strlit("PUSH_REF_PATH");
    reveal_strlit("PUSH_BEFORE");
    reveal_strlit("PUSH_AFTER");
    reveal_strlit("PUSH_PUSHER_ID");
    reveal_strlit("PUSH_PUSHER_LOGIN");
    reveal_strlit("PUSH_PUSHER_FULL_NAME");
    reveal_strlit("PUSH_PUSHER_EMAIL");
    reveal_strlit("PUSH_PUSHER_AVATAR_URL");
    reveal_strlit("PUSH_PUSHER_USERNAME");
    reveal_strlit("PUSH_SENDER_ID");
    reveal_strlit("PUSH_SENDER_LOGIN");
    reveal_strlit("PUSH_SENDER_FULL_NAME");
    reveal_strlit("PUSH_SENDER_EMAIL");
    reveal_strlit("PUSH_SENDER_AVATAR_URL");
    reveal_strlit("PUSH_SENDER_USERNAME");
    reveal_strlit("PUSH_REPOSITORY_ID");
    reveal_strlit("PUSH_REPOSITORY_OWNER_ID");
    reveal_strlit("PUSH_REPOSITORY_OWNER_LOGIN");
    reveal_strlit("PUSH_REPOSITORY_OWNER_FULL_NAME");
    reveal_strlit("PUSH_REPOSITORY_OWNER_EMAIL");
    reveal_strlit("PUSH_REPOSITORY_OWNER_AVATAR_URL");
    reveal_strlit("PUSH_REPOSITORY_OWNER_USERNAME");
    reveal_strlit("PUSH_REPOSITORY_NAME");
    reveal_strlit("PUSH_REPOSITORY_FULL_NAME");
    reveal_strlit("PUSH_REPOSITORY_DESCRIPTION");
    reveal_strlit("PUSH_REPOSITORY_PRIVATE");
    reveal_strlit("PUSH_REPOSITORY_FORK");
    reveal_strlit("PUSH_REPOSITORY_HTML_URL");
    reveal_strlit("PUSH_REPOSITORY_SSH_URL");
    reveal_strlit("PUSH_REPOSITORY_CLONE_URL");
    reveal_strlit("PUSH_REPOSITORY_WEBSITE");
    reveal_strlit("PUSH_REPOSITORY_STARS_COUNT");
    reveal_strlit("PUSH_REPOSITORY_FORKS_COUNT");
    reveal_strlit("PUSH_REPOSITORY_WATCHERS_COUNT");
    reveal_strlit("PUSH_REPOSITORY_OPEN_ISSUES_COUNT");
    reveal_strlit("PUSH_REPOSITORY_DEFAULT_BRANCH");
    reveal_strlit("PUSH_REPOSITORY_CREATED_AT");
    reveal_strlit("PUSH_REPOSITORY_UPDATED_AT");
    lemma_last_value_concat(push_event_env_part1(push) + push_event_env_part2(push) + push_event_env_part3(push), push_event_env_part4(push), "PUSH_REPOSITORY_OWNER_ID"@);
    lemma_last_value_concat(seq![("PUSH_REPOSITORY_CREATED_AT"@, push.repository.created_at@)], seq![("PUSH_REPOSITORY_UPDATED_AT"@, push.repository.updated_at@)], "PUSH_REPOSITORY_OWNER_ID"@);
    lemma_last_value_single("PUSH_REPOSITORY_CREATED_AT"@, push.repository.created_at@, "PUSH_REPOSITORY_OWNER_ID"@);
    assert("PUSH_REPOSITORY_CREATED_AT"@.len() != "PUSH_REPOSITORY_OWNER_ID"@.len());
    lemma_last_value_single("PUSH_REPOSITORY_UPDATED_AT"@, push.repository.updated_at@, "PUSH_REPOSITORY_OWNER_ID"@);
    assert("PUSH_REPOSITORY_UPDATED_AT"@.len() != "PUSH_REPOSITORY_OWNER_ID"@.len());
    lemma_last_value_concat(push_event_env_part1(push) + push_event_env_part2(push), push_event_env_part3(push), "PUSH_REPOSITORY_OWNER_ID"@);
    lemma_last_value_concat(seq![("PUSH_REPOSITORY_DESCRIPTION"@, push.repository.description@)] + seq![("PUSH_REPOSITORY_PRIVATE"@, bool_text(push.repository.private))] + seq![("PUSH_REPOSITORY_FORK"@, bool_text(push.repository.fork))] + seq![("PUSH_REPOSITORY_HTML_URL"@, push.repository.html_url@)] + seq![("PUSH_REPOSITORY_SSH_URL"@, push.repository.ssh_url@)] + seq![("PUSH_REPOSITORY_CLONE_URL"@, push.repository.clone_url@)] + seq![("PUSH_REPOSITORY_WEBSITE"@, push.repository.website@)] + seq![("PUSH_REPOSITORY_STARS_COUNT"@, decimal(push.repository.stars_count as nat))] + seq![("PUSH_REPOSITORY_FORKS_COUNT"@, decimal(push.repository.forks_count as nat))] + seq![("PUSH_REPOSITORY_WATCHERS_COUNT"@, decimal(push.repository.watchers_count as nat))] + seq![("PUSH_REPOSITORY_OPEN_ISSUES_COUNT"@, decimal(push.repository.open_issues_count as nat))], seq![("PUSH_REPOSITORY_DEFAULT_BRANCH"@, push.repository.default_branch@)], "PUSH_REPOSITORY_OWNER_ID"@);
    lemma_last_value_concat(seq![("PUSH_REPOSITORY_DESCRIPTION"@, push.repository.description@)] + seq![("PUSH_REPOSITORY_PRIVATE"@, bool_text(push.repository.private))] + seq![("PUSH_REPOSITORY_FORK"@, bool_text(push.repository.fork))] + seq![("PUSH_REPOSITORY_HTML_URL"@, push.repository.html_url@)] + seq![("PUSH_REPOSITORY_SSH_URL"@, push.repository.ssh_url@)] + seq![("PUSH_REPOSITORY_CLONE_URL"@, push.repository.clone_url@)] + seq![("PUSH_REPOSITORY_WEBSITE"@, push.repository.website@)] + seq![("PUSH_REPOSITORY_STARS_COUNT"@, decimal(push.repository.stars_count as nat))] + seq![("PUSH_REPOSITORY_FORKS_COUNT"@, decimal(push.repository.forks_count as nat))] + seq![("PUSH_REPOSITORY_WATCHERS_COUNT"@, decimal(push.repository.watchers_count as nat))], seq![("PUSH_REPOSITORY_OPEN_ISSUES_COUNT"@, decimal(push.repository.open_issues_count as nat))], "PUSH_REPOSITORY_OWNER_ID"@);
    lemma_last_value_concat(seq![("PUSH_REPOSITORY_DESCRIPTION"@, push.repository.description@)] + seq![("PUSH_REPOSITORY_PRIVATE"@, bool_text(push.repository.private))] + seq![("PUSH_REPOSITORY_FORK"@, bool_text(push.repository.fork))] + seq![("PUSH_REPOSITORY_HTML_URL"@, push.repository.html_url@)] + seq![("PUSH_REPOSITORY_SSH_URL"@, push.repository.ssh_url@)] + seq![("PUSH_REPOSITORY_CLONE_URL"@, push.repository.clone_url@)] + seq![("PUSH_REPOSITORY_WEBSITE"@, push.repository.website@)] + seq![("PUSH_REPOSITORY_STARS_COUNT"@, decimal(push.repository.stars_count as nat))] + seq![("PUSH_REPOSITORY_FORKS_COUNT"@, decimal(push.repository.forks_count as nat))], seq![("PUSH_REPOSITORY_WATCHERS_COUNT"@, decimal(push.repository.watchers_count as nat))], "PUSH_REPOSITORY_OWNER_ID"@);
    lemma_last_value_concat(seq![("PUSH_REPOSITORY_DESCRIPTION"@, push.repository.description@)] + seq![("PUSH_REPOSITORY_PRIVATE"@, bool_text(push.repository.private))] + seq![("PUSH_REPOSITORY_FORK"@, bool_text(push.repository.fork))] + seq![("PUSH_REPOSITORY_HTML_URL"@, push.repository.html_url@)] + seq![("PUSH_REPOSITORY_SSH_URL"@, push.repository.ssh_url@)] + seq![("PUSH_REPOSITORY_CLONE_URL"@, push.repository.clone_url@)] + seq![("PUSH_REPOSITORY_WEBSITE"@, push.repository.website@)] + seq![("PUSH_REPOSITORY_STARS_COUNT"@, decimal(push.repository.stars_count as nat))], seq![("PUSH_REPOSITORY_FORKS_COUNT"@, decimal(push.repository.forks_count as nat))], "PUSH_REPOSITORY_OWNER_ID"@);
    lemma_last_value_concat(seq![("PUSH_REPOSITORY_DESCRIPTION"@, push.repository.description@)] + seq![("PUSH_REPOSITORY_PRIVATE"@, bool_text(push.repository.private))] + seq![("PUSH_REPOSITORY_FORK"@, bool_text(push.repository.fork))] + seq![("PUSH_REPOSITORY_HTML_URL"@, push.repository.html_url@)] + seq![("PUSH_REPOSITORY_SSH_URL"@, push.repository.ssh_url@)] + seq![("PUSH_REPOSITORY_CLONE_URL"@, push.repository.clone_url@)] + seq![("PUSH_REPOSITORY_WEBSITE"@, push.repository.website@)], seq![("PUSH_REPOSITORY_STARS_COUNT"@, decimal(push.repository.stars_count as nat))], "PUSH_REPOSITORY_OWNER_ID"@);
    lemma_last_value_concat(seq![("PUSH_REPOSITORY_DESCRIPTION"@, push.repository.description@)] + seq![("PUSH_REPOSITORY_PRIVATE"@, bool_text(push.repository.private))] + seq![("PUSH_REPOSITORY_FORK"@, bool_text(push.repository.fork))] + seq![("PUSH_REPOSITORY_HTML_URL"@, push.repository.html_url@)] + seq![("PUSH_REPOSITORY_SSH_URL"@, push.repository.ssh_url@)] + seq![("PUSH_REPOSITORY_CLONE_URL"@, push.repository.clone_url@)], seq![("PUSH_REPOSITORY_WEBSITE"@, push.repository.website@)], "PUSH_REPOSITORY_OWNER_ID"@);
    lemma_last_value_concat(seq![("PUSH_REPOSITORY_DESCRIPTION"@, push.repository.description@)] + seq![("PUSH_REPOSITORY_PRIVATE"@, bool_text(push.repository.private))] + seq![("PUSH_REPOSITORY_FORK"@, bool_text(push.repository.fork))] + seq![("PUSH_REPOSITORY_HTML_URL"@, push.repository.html_url@)] + seq![("PUSH_REPOSITORY_SSH_URL"@, push.repository.ssh_url@)], seq![("PUSH_REPOSITORY_CLONE_URL"@, push.repository.clone_url@)], "PUSH_REPOSITORY_OWNER_ID"@);
    lemma_last_value_concat(seq![("PUSH_REPOSITORY_DESCRIPTION"@, push.repository.description@)] + seq![("PUSH_REPOSITORY_PRIVATE"@, bool_text(push.repository.private))] + seq![("PUSH_REPOSITORY_FORK"@, bool_text(push.repository.fork))] + seq![("PUSH_REPOSITORY_HTML_URL"@, push.repository.html_url@)], seq![("PUSH_REPOSITORY_SSH_URL"@, push.repository.ssh_url@)], "PUSH_REPOSITORY_OWNER_ID"@);
    lemma_last_value_concat(seq![("PUSH_REPOSITORY_DESCRIPTION"@, push.repository.description@)] + seq![("PUSH_REPOSITORY_PRIVATE"@, bool_text(push.repository.private))] + seq![("PUSH_REPOSITORY_FORK"@, bool_text(push.repository.fork))], seq![("PUSH_REPOSITORY_HTML_URL"@, push.repository.html_url@)], "PUSH_REPOSITORY_OWNER_ID"@);
    lemma_last_value_concat(seq![("PUSH_REPOSITORY_DESCRIPTION"@, push.repository.description@)] + seq![("PUSH_REPOSITORY_PRIVATE"@, bool_text(push.repository.private))], seq![("PUSH_REPOSITORY_FORK"@, bool_text(push.repository.fork))], "PUSH_REPOSITORY_OWNER_ID"@);
    lemma_last_value_concat(seq![("PUSH_REPOSITORY_DESCRIPTION"@, push.repository.description@)], seq![("PUSH_REPOSITORY_PRIVATE"@, bool_text(push.repository.private))], "PUSH_REPOSITORY_OWNER_ID"@);
    lemma_last_value_single("PUSH_REPOSITORY_DESCRIPTION"@, push.repository.description@, "PUSH_REPOSITORY_OWNER_ID"@);
    assert("PUSH_REPOSITORY_DESCRIPTION"@.len() != "PUSH_REPOSITORY_OWNER_ID"@.len());
    lemma_last_value_single("PUSH_REPOSITORY_PRIVATE"@, bool_text(push.repository.private), "PUSH_REPOSITORY_OWNER_ID"@);
    assert("PUSH_REPOSITORY_PRIVATE"@.len() != "PUSH_REPOSITORY_OWNER_ID"@.len());
    lemma_last_value_single("PUSH_REPOSITORY_FORK"@, bool_text(push.repository.fork), "PUSH_REPOSITORY_OWNER_ID"@);
    assert("PUSH_REPOSITORY_FORK"@.len() != "PUSH_REPOSITORY_OWNER_ID"@.len());
    lemma_last_value_single("PUSH_REPOSITORY_HTML_URL"@, push.repository.html_url@, "PUSH_REPOSITORY_OWNER_ID"@);
    assert("PUSH_REPOSITORY_HTML_URL"@[16] != "PUSH_REPOSITORY_OWNER_ID"@[16]);
    lemma_last_value_single("PUSH_REPOSITORY_SSH_URL"@, push.repository.ssh_url@, "PUSH_REPOSITORY_OWNER_ID"@);
    assert("PUSH_REPOSITORY_SSH_URL"@.len() != "PUSH_REPOSITORY_OWNER_ID"@.len());
    lemma_last_value_single("PUSH_REPOSITORY_CLONE_URL"@, push.repository.clone_url@, "PUSH_REPOSITORY_OWNER_ID"@);
    assert("PUSH_REPOSITORY_CLONE_URL"@.len() != "PUSH_REPOSITORY_OWNER_ID"@.len());
    lemma_last_value_single("PUSH_REPOSITORY_WEBSITE"@, push.repository.website@, "PUSH_REPOSITORY_OWNER_ID"@);
    assert("PUSH_REPOSITORY_WEBSITE"@.len() != "PUSH_REPOSITORY_OWNER_ID"@.len());
    lemma_last_value_single("PUSH_REPOSITORY_STARS_COUNT"@, decimal(push.repository.stars_count as nat), "PUSH_REPOSITORY_OWNER_ID"@);
    assert("PUSH_REPOSITORY_STARS_COUNT"@.len() != "PUSH_REPOSITORY_OWNER_ID"@.len());
    lemma_last_value_single("PUSH_REPOSITORY_FORKS_COUNT"@, decimal(push.repository.forks_count as nat), "PUSH_REPOSITORY_OWNER_ID"@);
    assert("PUSH_REPOSITORY_FORKS_COUNT"@.len() != "PUSH_REPOSITORY_OWNER_ID"@.len());
    lemma_last_value_single("PUSH_REPOSITORY_WATCHERS_COUNT"@, decimal(push.repository.watchers_count as nat), "PUSH_REPOSITORY_OWNER_ID"@);
    assert("PUSH_REPOSITORY_WATCHERS_COUNT"@.len() != "PUSH_REPOSITORY_OWNER_ID"@.len());
    lemma_last_value_single("PUSH_REPOSITORY_OPEN_ISSUES_COUNT"@, decimal(push.repository.open_issues_count as nat), "PUSH_REPOSITORY_OWNER_ID"@);
    assert("PUSH_REPOSITORY_OPEN_ISSUES_COUNT"@.len() != "PUSH_REPOSITORY_OWNER_ID"@.len());
    lemma_last_value_single("PUSH_REPOSITORY_DEFAULT_BRANCH"@, push.repository.default_branch@, "PUSH_REPOSITORY_OWNER_ID"@);
    assert("PUSH_REPOSITORY_DEFAULT_BRANCH"@.len() != "PUSH_REPOSITORY_OWNER_ID"@.len());
    lemma_last_value_concat(push_event_env_part1(push), push_event_env_part2(push), "PUSH_REPOSITORY_OWNER_ID"@);
    lemma_last_value_concat(seq![("PUSH_SENDER_EMAIL"@, push.sender.email@)] + seq![("PUSH_SENDER_AVATAR_URL"@, push.sender.avatar_url@)] + seq![("PUSH_SENDER_USERNAME"@, push.sender.username@)] + seq![("PUSH_REPOSITORY_ID"@, decimal(push.repository.id as nat))] + seq![("PUSH_REPOSITORY_OWNER_ID"@, decimal(push.repository.owner.id as nat))] + seq![("PUSH_REPOSITORY_OWNER_LOGIN"@, push.repository.owner.login@)] + seq![("PUSH_REPOSITORY_OWNER_FULL_NAME"@, push.repository.owner.full_name@)] + seq![("PUSH_REPOSITORY_OWNER_EMAIL"@, push.repository.owner.email@)] + seq![("PUSH_REPOSITORY_OWNER_AVATAR_URL"@, push.repository.owner.avatar_url@)] + seq![("PUSH_REPOSITORY_OWNER_USERNAME"@, push.repository.owner.username@)] + seq![("PUSH_REPOSITORY_NAME"@, push.repository.name@)], seq![("PUSH_REPOSITORY_FULL_NAME"@, push.repository.full_name@)], "PUSH_REPOSITORY_OWNER_ID"@);
    lemma_last_value_single("PUSH_REPOSITORY_FULL_NAME"@, push.repository.full_name@, "PUSH_REPOSITORY_OWNER_ID"@);
    assert("PUSH_REPOSITORY_FULL_NAME"@.len() != "PUSH_REPOSITORY_OWNER_ID"@.len());
    lemma_last_value_concat(seq![("PUSH_SENDER_EMAIL"@, push.sender.email@)] + seq![("PUSH_SENDER_AVATAR_URL"@, push.sender.avatar_url@)] + seq![("PUSH_SENDER_USERNAME"@, push.sender.username@)] + seq![("PUSH_REPOSITORY_ID"@, decimal(push.repository.id as nat))] + seq![("PUSH_REPOSITORY_OWNER_ID"@, decimal(push.repository.owner.id as nat))] + seq![("PUSH_REPOSITORY_OWNER_LOGIN"@, push.repository.owner.login@)] + seq![("PUSH_REPOSITORY_OWNER_FULL_NAME"@, push.repository.owner.full_name@)] + seq![("PUSH_REPOSITORY_OWNER_EMAIL"@, push.repository.owner.email@)] + seq![("PUSH_REPOSITORY_OWNER_AVATAR_URL"@, push.repository.owner.avatar_url@)] + seq![("PUSH_REPOSITORY_OWNER_USERNAME"@, push.repository.owner.username@)], seq![("PUSH_REPOSITORY_NAME"@, push.repository.name@)], "PUSH_REPOSITORY_OWNER_ID"@);
    lemma_last_value_single("PUSH_REPOSITORY_NAME"@, push.repository.name@, "PUSH_REPOSITORY_OWNER_ID"@);
    assert("PUSH_REPOSITORY_NAME"@.len() != "PUSH_REPOSITORY_OWNER_ID"@.len());
    lemma_last_value_concat(seq![("PUSH_SENDER_EMAIL"@, push.sender.email@)] + seq![("PUSH_SENDER_AVATAR_URL"@, push.sender.avatar_url@)] + seq![("PUSH_SENDER_USERNAME"@, push.sender.username@)] + seq![("PUSH_REPOSITORY_ID"@, decimal(push.repository.id as nat))] + seq![("PUSH_REPOSITORY_OWNER_ID"@, decimal(push.repository.owner.id as nat))] + seq![("PUSH_REPOSITORY_OWNER_LOGIN"@, push.repository.owner.login@)] + seq![("PUSH_REPOSITORY_OWNER_FULL_NAME"@, push.repository.owner.full_name@)] + seq![("PUSH_REPOSITORY_OWNER_EMAIL"@, push.repository.owner.email@)] + seq![("PUSH_REPOSITORY_OWNER_AVATAR_URL"@, push.repository.owner.avatar_url@)], seq![("PUSH_REPOSITORY_OWNER_USERNAME"@, push.repository.owner.username@)], "PUSH_REPOSITORY_OWNER_ID"@);
    lemma_last_value_single("PUSH_REPOSITORY_OWNER_USERNAME"@, push.repository.owner.username@, "PUSH_REPOSITORY_OWNER_ID"@);
    assert("PUSH_REPOSITORY_OWNER_USERNAME"@.len() != "PUSH_REPOSITORY_OWNER_ID"@.len());
    lemma_last_value_concat(seq![("PUSH_SENDER_EMAIL"@, push.sender.email@)] + seq![("PUSH_SENDER_AVATAR_URL"@, push.sender.avatar_url@)] + seq![("PUSH_SENDER_USERNAME"@, push.sender.username@)] + seq![("PUSH_REPOSITORY_ID"@, decimal(push.repository.id as nat))] + seq![("PUSH_REPOSITORY_OWNER_ID"@, decimal(push.repository.owner.id as nat))] + seq![("PUSH_REPOSITORY_OWNER_LOGIN"@, push.repository.owner.login@)] + seq![("PUSH_REPOSITORY_OWNER_FULL_NAME"@, push.repository.owner.full_name@)] + seq![("PUSH_REPOSITORY_OWNER_EMAIL"@, push.repository.owner.email@)], seq![("PUSH_REPOSITORY_OWNER_AVATAR_URL"@, push.repository.owner.avatar_url@)], "PUSH_REPOSITORY_OWNER_ID"@);
    lemma_last_value_single("PUSH_REPOSITORY_OWNER_AVATAR_URL"@, push.repository.owner.avatar_url@, "PUSH_REPOSITORY_OWNER_ID"@);
    assert("PUSH_REPOSITORY_OWNER_AVATAR_URL"@.len() != "PUSH_REPOSITORY_OWNER_ID"@.len());
    lemma_last_value_concat(seq![("PUSH_SENDER_EMAIL"@, push.sender.email@)] + seq![("PUSH_SENDER_AVATAR_URL"@, push.sender.avatar_url@)] + seq![("PUSH_SENDER_USERNAME"@, push.sender.username@)] + seq![("PUSH_REPOSITORY_ID"@, decimal(push.repository.id as nat))] + seq![("PUSH_REPOSITORY_OWNER_ID"@, decimal(push.repository.owner.id as nat))] + seq![("PUSH_REPOSITORY_OWNER_LOGIN"@, push.repository.owner.login@)] + seq![("PUSH_REPOSITORY_OWNER_FULL_NAME"@, push.repository.owner.full_name@)], seq![("PUSH_REPOSITORY_OWNER_EMAIL"@, push.repository.owner.email@)], "PUSH_REPOSITORY_OWNER_ID"@);
    lemma_last_value_single("PUSH_REPOSITORY_OWNER_EMAIL"@, push.repository.owner.email@, "PUSH_REPOSITORY_OWNER_ID"@);
    assert("PUSH_REPOSITORY_OWNER_EMAIL"@.len() != "PUSH_REPOSITORY_OWNER_ID"@.len());
    lemma_last_value_concat(seq![("PUSH_SENDER_EMAIL"@, push.sender.email@)] + seq![("PUSH_SENDER_AVATAR_URL"@, push.sender.avatar_url@)] + seq![("PUSH_SENDER_USERNAME"@, push.sender.username@)] + seq![("PUSH_REPOSITORY_ID"@, decimal(push.repository.id as nat))] + seq![("PUSH_REPOSITORY_OWNER_ID"@, decimal(push.repository.owner.id as nat))] + seq![("PUSH_REPOSITORY_OWNER_LOGIN"@, push.repository.owner.login@)], seq![("PUSH_REPOSITORY_OWNER_FULL_NAME"@, push.repository.owner.full_name@)], "PUSH_REPOSITORY_OWNER_ID"@);
    lemma_last_value_single("PUSH_REPOSITORY_OWNER_FULL_NAME"@, push.repository.owner.full_name@, "PUSH_REPOSITORY_OWNER_ID"@);
    assert("PUSH_REPOSITORY_OWNER_FULL_NAME"@.len() != "PUSH_REPOSITORY_OWNER_ID"@.len());
    lemma_last_value_concat(seq![("PUSH_SENDER_EMAIL"@, push.sender.email@)] + seq![("PUSH_SENDER_AVATAR_URL"@, push.sender.avatar_url@)] + seq![("PUSH_SENDER_USERNAME"@, push.sender.username@)] + seq![("PUSH_REPOSITORY_ID"@, decimal(push.repository.id as nat))] + seq![("PUSH_REPOSITORY_OWNER_ID"@, decimal(push.repository.owner.id as nat))], seq![("PUSH_REPOSITORY_OWNER_LOGIN"@, push.repository.owner.login@)], "PUSH_REPOSITORY_OWNER_ID"@);
    lemma_last_value_single("PUSH_REPOSITORY_OWNER_LOGIN"@, push.repository.owner.login@, "PUSH_REPOSITORY_OWNER_ID"@);
    assert("PUSH_REPOSITORY_OWNER_LOGIN"@.len() != "PUSH_REPOSITORY_OWNER_ID"@.len());
    lemma_last_value_concat(seq![("PUSH_SENDER_EMAIL"@, push.sender.email@)] + seq![("PUSH_SENDER_AVATAR_URL"@, push.sender.avatar_url@)] + seq![("PUSH_SENDER_USERNAME"@, push.sender.username@)] + seq![("PUSH_REPOSITORY_ID"@, decimal(push.repository.id as nat))], seq![("PUSH_REPOSITORY_OWNER_ID"@, decimal(push.repository.owner.id as nat))], "PUSH_REPOSITORY_OWNER_ID"@);
    lemma_last_value_single("PUSH_REPOSITORY_OWNER_ID"@, decimal(push.repository.owner.id as nat), "PUSH_REPOSITORY_OWNER_ID"@);
}

/// The command that answers a push leaves the push's repository owner login in PUSH_REPOSITORY_OWNER_LOGIN.
pub proof fn lemma_push_event_repository_owner_login(push: PushEvent)
    ensures
        last_value(push_event_command(push).envs, "PUSH_REPOSITORY_OWNER_LOGIN"@) == Some(push.repository.owner.login@),
{
    reveal_strlit("PUSH_REF_PATH");
    reveal_strlit("PUSH_BEFORE");
    reveal_strlit("PUSH_AFTER");
    reveal_strlit("PUSH_PUSHER_ID");
    reveal_strlit("PUSH_PUSHER_LOGIN");
    reveal_strlit("PUSH_PUSHER_FULL_NAME");
    reveal_strlit("PUSH_PUSHER_EMAIL");
    reveal_strlit("PUSH_PUSHER_AVATAR_URL");
    reveal_strlit("PUSH_PUSHER_USERNAME");
    reveal_strlit("PUSH_SENDER_ID");
    reveal_strlit("PUSH_SENDER_LOGIN");
    reveal_strlit("PUSH_SENDER_FULL_NAME");
    reveal_strlit("PUSH_SENDER_EMAIL");
    reveal_strlit("PUSH_SENDER_AVATAR_URL");
    reveal_strlit("PUSH_SENDER_USERNAME");
    reveal_strlit("PUSH_REPOSITORY_ID");
    reveal_strlit("PUSH_REPOSITORY_OWNER_ID");
    reveal_strlit("PUSH_REPOSITORY_OWNER_LOGIN");
    reveal_strlit("PUSH_REPOSITORY_OWNER_FULL_NAME");
    reveal_strlit("PUSH_REPOSITORY_OWNER_EMAIL");
    reveal_strlit("PUSH_REPOSITORY_OWNER_AVATAR_URL");
    reveal_strlit("PUSH_REPOSITORY_OWNER_USERNAME");
    reveal_strlit("PUSH_REPOSITORY_NAME");
    reveal_strlit("PUSH_REPOSITORY_FULL_NAME");
    reveal_strlit("PUSH_REPOSITORY_DESCRIPTION");
    reveal_strlit("PUSH_REPOSITORY_PRIVATE");
    reveal_strlit("PUSH_REPOSITORY_FORK");
    reveal_strlit("PUSH_REPOSITORY_HTML_URL");
    reveal_strlit("PUSH_REPOSITORY_SSH_URL");
    reveal_strlit("PUSH_REPOSITORY_CLONE_URL");
    reveal_strlit("PUSH_REPOSITORY_WEBSITE");
    reveal_strlit("PUSH_REPOSITORY_STARS_COUNT");
    reveal_strlit("PUSH_REPOSITORY_FORKS_COUNT");
    reveal_strlit("PUSH_REPOSITORY_WATCHERS_COUNT");
    reveal_strlit("PUSH_REPOSITORY_OPEN_ISSUES_COUNT");
    reveal_strlit("PUSH_REPOSITORY_DEFAULT_BRANCH");
    reveal_strlit("PUSH_REPOSITORY_CREATED_AT");
    reveal_strlit("PUSH_REPOSITORY_UPDATED_AT");
    lemma_last_value_concat(push_event_env_part1(push) + push_event_env_part2(push) + push_event_env_part3(push), push_event_env_part4(push), "PUSH_REPOSITORY_OWNER_LOGIN"@);
    lemma_last_value_concat(seq![("PUSH_REPOSITORY_CREATED_AT"@, push.repository.created_at@)], seq![("PUSH_REPOSITORY_UPDATED_AT"@, push.repository.updated_at@)], "PUSH_REPOSITORY_OWNER_LOGIN"@);
    lemma_last_value_single("PUSH_REPOSITORY_CREATED_AT"@, push.repository.created_at@, "PUSH_REPOSITORY_OWNER_LOGIN"@);
    assert("PUSH_REPOSITORY_CREATED_AT"@.len() != "PUSH_REPOSITORY_OWNER_LOGIN"@.len());
    lemma_last_value_single("PUSH_REPOSITORY_UPDATED_AT"@, push.repository.updated_at@, "PUSH_REPOSITORY_OWNER_LOGIN"@);
    assert("PUSH_REPOSITORY_UPDATED_AT"@.len() != "PUSH_REPOSITORY_OWNER_LOGIN"@.len());
    lemma_last_value_concat(push_event_env_part1(push) + push_event_env_part2(push), push_event_env_part3(push), "PUSH_REPOSITORY_OWNER_LOGIN"@);
    lemma_last_value_concat(seq![("PUSH_REPOSITORY_DESCRIPTION"@, push.repository.description@)] + seq![("PUSH_REPOSITORY_PRIVATE"@, bool_text(push.repository.private))] + seq![("PUSH_REPOSITORY_FORK"@, bool_text(push.repository.fork))] + seq![("PUSH_REPOSITORY_HTML_URL"@, push.repository.html_url@)] + seq![("PUSH_REPOSITORY_SSH_URL"@, push.repository.ssh_url@)] + seq![("PUSH_REPOSITORY_CLONE_URL"@, push.repository.clone_url@)] + seq![("PUSH_REPOSITORY_WEBSITE"@, push.repository.website@)] + seq![("PUSH_REPOSITORY_STARS_COUNT"@, decimal(push.repository.stars_count as nat))] + seq![("PUSH_REPOSITORY_FORKS_COUNT"@, decimal(push.repository.forks_count as nat))] + seq![("PUSH_REPOSITORY_WATCHERS_COUNT"@, decimal(push.repository.watchers_count as nat))] + seq![("PUSH_REPOSITORY_OPEN_ISSUES_COUNT"@, decimal(push.repository.open_issues_count as nat))], seq![("PUSH_REPOSITORY_DEFAULT_BRANCH"@, push.repository.default_branch@)], "PUSH_REPOSITORY_OWNER_LOGIN"@);
    lemma_last_value_concat(seq![("PUSH_REPOSITORY_DESCRIPTION"@, push.repository.description@)] + seq![("PUSH_REPOSITORY_PRIVATE"@, bool_text(push.repository.private))] + seq![("PUSH_REPOSITORY_FORK"@, bool_text(push.repository.fork))] + seq![("PUSH_REPOSITORY_HTML_URL"@, push.repository.html_url@)] + seq![("PUSH_REPOSITORY_SSH_URL"@, push.repository.ssh_url@)] + seq![("PUSH_REPOSITORY_CLONE_URL"@, push.repository.clone_url@)] + seq![("PUSH_REPOSITORY_WEBSITE"@, push.repository.website@)] + seq![("PUSH_REPOSITORY_STARS_COUNT"@, decimal(push.repository.stars_count as nat))] + seq![("PUSH_REPOSITORY_FORKS_COUNT"@, decimal(push.repository.forks_count as nat))] + seq![("PUSH_REPOSITORY_WATCHERS_COUNT"@, decimal(push.repository.watchers_count as nat))], seq![("PUSH_REPOSITORY_OPEN_ISSUES_COUNT"@, decimal(push.repository.open_issues_count as nat))], "PUSH_REPOSITORY_OWNER_LOGIN"@);
    lemma_last_value_concat(seq![("PUSH_REPOSITORY_DESCRIPTION"@, push.repository.description@)] + seq![("PUSH_REPOSITORY_PRIVATE"@, bool_text(push.repository.private))] + seq![("PUSH_REPOSITORY_FORK"@, bool_text(push.repository.fork))] + seq![("PUSH_REPOSITORY_HTML_URL"@, push.repository.html_url@)] + seq![("PUSH_REPOSITORY_SSH_URL"@, push.repository.ssh_url@)] + seq![("PUSH_REPOSITORY_CLONE_URL"@, push.repository.clone_url@)] + seq![("PUSH_REPOSITORY_WEBSITE"@, push.repository.website@)] + seq![("PUSH_REPOSITORY_STARS_COUNT"@, decimal(push.repository.stars_count as nat))] + seq![("PUSH_REPOSITORY_FORKS_COUNT"@, decimal(push.repository.forks_count as nat))], seq![("PUSH_REPOSITORY_WATCHERS_COUNT"@, decimal(push.repository.watchers_count as nat))], "PUSH_REPOSITORY_OWNER_LOGIN"@);
    lemma_last_value_concat(seq![("PUSH_REPOSITORY_DESCRIPTION"@, push.repository.description@)] + seq![("PUSH_REPOSITORY_PRIVATE"@, bool_text(push.repository.private))] + seq![("PUSH_REPOSITORY_FORK"@, bool_text(push.repository.fork))] + seq![("PUSH_REPOSITORY_HTML_URL"@, push.repository.html_url@)] + seq![("PUSH_REPOSITORY_SSH_URL"@, push.repository.ssh_url@)] + seq![("PUSH_REPOSITORY_CLONE_URL"@, push.repository.clone_url@)] + seq![("PUSH_REPOSITORY_WEBSITE"@, push.repository.website@)] + seq![("PUSH_REPOSITORY_STARS_COUNT"@, decimal(push.repository.stars_count as nat))], seq![("PUSH_REPOSITORY_FORKS_COUNT"@, decimal(push.repository.forks_count as nat))], "PUSH_REPOSITORY_OWNER_LOGIN"@);
    lemma_last_value_concat(seq![("PUSH_REPOSITORY_DESCRIPTION"@, push.repository.description@)] + seq![("PUSH_REPOSITORY_PRIVATE"@, bool_text(push.repository.private))] + seq![("PUSH_REPOSITORY_FORK"@, bool_text(push.repository.fork))] + seq![("PUSH_REPOSITORY_HTML_URL"@, push.repository.html_url@)] + seq![("PUSH_REPOSITORY_SSH_URL"@, push.repository.ssh_url@)] + seq![("PUSH_REPOSITORY_CLONE_URL"@, push.repository.clone_url@)] + seq![("PUSH_REPOSITORY_WEBSITE"@, push.repository.website@)], seq![("PUSH_REPOSITORY_STARS_COUNT"@, decimal(push.repository.stars_count as nat))], "PUSH_REPOSITORY_OWNER_LOGIN"@);
    lemma_last_value_concat(seq![("PUSH_REPOSITORY_DESCRIPTION"@, push.repository.description@)] + seq![("PUSH_REPOSITORY_PRIVATE"@, bool_text(push.repository.private))] + seq![("PUSH_REPOSITORY_FORK"@, bool_text(push.repository.fork))] + seq![("PUSH_REPOSITORY_HTML_URL"@, push.repository.html_url@)] + seq![("PUSH_REPOSITORY_SSH_URL"@, push.repository.ssh_url@)] + seq![("PUSH_REPOSITORY_CLONE_URL"@, push.repository.clone_url@)], seq![("PUSH_REPOSITORY_WEBSITE"@, push.repository.website@)], "PUSH_REPOSITORY_OWNER_LOGIN"@);
    lemma_last_value_concat(seq![("PUSH_REPOSITORY_DESCRIPTION"@, push.repository.description@)] + seq![("PUSH_REPOSITORY_PRIVATE"@, bool_text(push.repository.private))] + seq![("PUSH_REPOSITORY_FORK"@, bool_text(push.repository.fork))] + seq![("PUSH_REPOSITORY_HTML_URL"@, push.repository.html_url@)] + seq![("PUSH_REPOSITORY_SSH_URL"@, push.repository.ssh_url@)], seq![("PUSH_REPOSITORY_CLONE_URL"@, push.repository.clone_url@)], "PUSH_REPOSITORY_OWNER_LOGIN"@);
    lemma_last_value_concat(seq![("PUSH_REPOSITORY_DESCRIPTION"@, push.repository.description@)] + seq![("PUSH_REPOSITORY_PRIVATE"@, bool_text(push.repository.private))] + seq![("PUSH_REPOSITORY_FORK"@, bool_text(push.repository.fork))] + seq![("PUSH_REPOSITORY_HTML_URL"@, push.repository.html_url@)], seq![("PUSH_REPOSITORY_SSH_URL"@, push.repository.ssh_url@)], "PUSH_REPOSITORY_OWNER_LOGIN"@);
    lemma_last_value_concat(seq![("PUSH_REPOSITORY_DESCRIPTION"@, push.repository.description@)] + seq![("PUSH_REPOSITORY_PRIVATE"@, bool_text(push.repository.private))] + seq![("PUSH_REPOSITORY_FORK"@, bool_text(push.repository.fork))], seq![("PUSH_REPOSITORY_HTML_URL"@, push.repository.html_url@)], "PUSH_REPOSITORY_OWNER_LOGIN"@);
    lemma_last_value_concat(seq![("PUSH_REPOSITORY_DESCRIPTION"@, push.repository.description@)] + seq![("PUSH_REPOSITORY_PRIVATE"@, bool_text(push.repository.private))], seq![("PUSH_REPOSITORY_FORK"@, bool_text(push.repository.fork))], "PUSH_REPOSITORY_OWNER_LOGIN"@);
    lemma_last_value_concat(seq![("PUSH_REPOSITORY_DESCRIPTION"@, push.repository.description@)], seq![("PUSH_REPOSITORY_PRIVATE"@, bool_text(push.repository.private))], "PUSH_REPOSITORY_OWNER_LOGIN"@);
    lemma_last_value_single("PUSH_REPOSITORY_DESCRIPTION"@, push.repository.description@, "PUSH_REPOSITORY_OWNER_LOGIN"@);
    assert("PUSH_REPOSITORY_DESCRIPTION"@[16] != "PUSH_REPOSITORY_OWNER_LOGIN"@[16]);
    lemma_last_value_single("PUSH_REPOSITORY_PRIVATE"@, bool_text(push.repository.private), "PUSH_REPOSITORY_OWNER_LOGIN"@);
    assert("PUSH_REPOSITORY_PRIVATE"@.len() != "PUSH_REPOSITORY_OWNER_LOGIN"@.len());
    lemma_last_value_single("PUSH_REPOSITORY_FORK"@, bool_text(push.repository.fork), "PUSH_REPOSITORY_OWNER_LOGIN"@);
    assert("PUSH_REPOSITORY_FORK"@.len() != "PUSH_REPOSITORY_OWNER_LOGIN"@.len());
    lemma_last_value_single("PUSH_REPOSITORY_HTML_URL"@, push.repository.html_url@, "PUSH_REPOSITORY_OWNER_LOGIN"@);
    assert("PUSH_REPOSITORY_HTML_URL"@.len() != "PUSH_REPOSITORY_OWNER_LOGIN"@.len());
    lemma_last_value_single("PUSH_REPOSITORY_SSH_URL"@, push.repository.ssh_url@, "PUSH_REPOSITORY_OWNER_LOGIN"@);
    assert("PUSH_REPOSITORY_SSH_URL"@.len() != "PUSH_REPOSITORY_OWNER_LOGIN"@.len());
    lemma_last_value_single("PUSH_REPOSITORY_CLONE_URL"@, push.repository.clone_url@, "PUSH_REPOSITORY_OWNER_LOGIN"@);
    assert("PUSH_REPOSITORY_CLONE_URL"@.len() != "PUSH_REPOSITORY_OWNER_LOGIN"@.len());
    lemma_last_value_single("PUSH_REPOSITORY_WEBSITE"@, push.repository.website@, "PUSH_REPOSITORY_OWNER_LOGIN"@);
    assert("PUSH_REPOSITORY_WEBSITE"@.len() != "PUSH_REPOSITORY_OWNER_LOGIN"@.len());
    lemma_last_value_single("PUSH_REPOSITORY_STARS_COUNT"@, decimal(push.repository.stars_count as nat), "PUSH_REPOSITORY_OWNER_LOGIN"@);
    assert("PUSH_REPOSITORY_STARS_COUNT"@[16] != "PUSH_REPOSITORY_OWNER_LOGIN"@[16]);
    lemma_last_value_single("PUSH_REPOSITORY_FORKS_COUNT"@, decimal(push.repository.forks_count as nat), "PUSH_REPOSITORY_OWNER_LOGIN"@);
    assert("PUSH_REPOSITORY_FORKS_COUNT"@[16] != "PUSH_REPOSITORY_OWNER_LOGIN"@[16]);
    lemma_last_value_single("PUSH_REPOSITORY_WATCHERS_COUNT"@, decimal(push.repository.watchers_count as nat), "PUSH_REPOSITORY_OWNER_LOGIN"@);
    assert("PUSH_REPOSITORY_WATCHERS_COUNT"@.len() != "PUSH_REPOSITORY_OWNER_LOGIN"@.len());
    lemma_last_value_single("PUSH_REPOSITORY_OPEN_ISSUES_COUNT"@, decimal(push.repository.open_issues_count as nat), "PUSH_REPOSITORY_OWNER_LOGIN"@);
    assert("PUSH_REPOSITORY_OPEN_ISSUES_COUNT"@.len() != "PUSH_REPOSITORY_OWNER_LOGIN"@.len());
    lemma_last_value_single("PUSH_REPOSITORY_DEFAULT_BRANCH"@, push.repository.default_branch@, "PUSH_REPOSITORY_OWNER_LOGIN"@);
    assert("PUSH_REPOSITORY_DEFAULT_BRANCH"@.len() != "PUSH_REPOSITORY_OWNER_LOGIN"@.len());
    lemma_last_value_concat(push_event_env_part1(push), push_event_env_part2(push), "PUSH_REPOSITORY_OWNER_LOGIN"@);
    lemma_last_value_concat(seq![("PUSH_SENDER_EMAIL"@, push.sender.email@)] + seq![("PUSH_SENDER_AVATAR_URL"@, push.sender.avatar_url@)] + seq![("PUSH_SENDER_USERNAME"@, push.sender.username@)] + seq![("PUSH_REPOSITORY_ID"@, decimal(push.repository.id as nat))] + seq![("PUSH_REPOSITORY_OWNER_ID"@, decimal(push.repository.owner.id as nat))] + seq![("PUSH_REPOSITORY_OWNER_LOGIN"@, push.repository.owner.login@)] + seq![("PUSH_REPOSITORY_OWNER_FULL_NAME"@, push.repository.owner.full_name@)] + seq![("PUSH_REPOSITORY_OWNER_EMAIL"@, push.repository.owner.email@)] + seq![("PUSH_REPOSITORY_OWNER_AVATAR_URL"@, push.repository.owner.avatar_url@)] + seq![("PUSH_REPOSITORY_OWNER_USERNAME"@, push.repository.owner.username@)] + seq![("PUSH_REPOSITORY_NAME"@, push.repository.name@)], seq![("PUSH_REPOSITORY_FULL_NAME"@, push.repository.full_name@)], "PUSH_REPOSITORY_OWNER_LOGIN"@);
    lemma_last_value_single("PUSH_REPOSITORY_FULL_NAME"@, push.repository.full_name@, "PUSH_REPOSITORY_OWNER_LOGIN"@);
    assert("PUSH_REPOSITORY_FULL_NAME"@.len() != "PUSH_REPOSITORY_OWNER_LOGIN"@.len());
    lemma_last_value_concat(seq![("PUSH_SENDER_EMAIL"@, push.sender.email@)] + seq![("PUSH_SENDER_AVATAR_URL"@, push.sender.avatar_url@)] + seq![("PUSH_SENDER_USERNAME"@, push.sender.username@)] + seq![("PUSH_REPOSITORY_ID"@, decimal(push.repository.id as nat))] + seq![("PUSH_REPOSITORY_OWNER_ID"@, decimal(push.repository.owner.id as nat))] + seq![("PUSH_REPOSITORY_OWNER_LOGIN"@, push.repository.owner.login@)] + seq![("PUSH_REPOSITORY_OWNER_FULL_NAME"@, push.repository.owner.full_name@)] + seq![("PUSH_REPOSITORY_OWNER_EMAIL"@, push.repository.owner.email@)] + seq![("PUSH_REPOSITORY_OWNER_AVATAR_URL"@, push.repository.owner.avatar_url@)] + seq![("PUSH_REPOSITORY_OWNER_USERNAME"@, push.repository.owner.username@)], seq![("PUSH_REPOSITORY_NAME"@, push.repository.name@)], "PUSH_REPOSITORY_OWNER_LOGIN"@);
    lemma_last_value_single("PUSH_REPOSITORY_NAME"@, push.repository.name@, "PUSH_REPOSITORY_OWNER_LOGIN"@);
    assert("PUSH_REPOSITORY_NAME"@.len() != "PUSH_REPOSITORY_OWNER_LOGIN"@.len());
    lemma_last_value_concat(seq![("PUSH_SENDER_EMAIL"@, push.sender.email@)] + seq![("PUSH_SENDER_AVATAR_URL"@, push.sender.avatar_url@)] + seq![("PUSH_SENDER_USERNAME"@, push.sender.username@)] + seq![("PUSH_REPOSITORY_ID"@, decimal(push.repository.id as nat))] + seq![("PUSH_REPOSITORY_OWNER_ID"@, decimal(push.repository.owner.id as nat))] + seq![("PUSH_REPOSITORY_OWNER_LOGIN"@, push.repository.owner.login@)] + seq![("PUSH_REPOSITORY_OWNER_FULL_NAME"@, push.repository.owner.full_name@)] + seq![("PUSH_REPOSITORY_OWNER_EMAIL"@, push.repository.owner.email@)] + seq![("PUSH_REPOSITORY_OWNER_AVATAR_URL"@, push.repository.owner.avatar_url@)], seq![("PUSH_REPOSITORY_OWNER_USERNAME"@, push.repository.owner.username@)], "PUSH_REPOSITORY_OWNER_LOGIN"@);
    lemma_last_value_single("PUSH_REPOSITORY_OWNER_USERNAME"@, push.repository.owner.username@, "PUSH_REPOSITORY_OWNER_LOGIN"@);
    assert("PUSH_REPOSITORY_OWNER_USERNAME"@.len() != "PUSH_REPOSITORY_OWNER_LOGIN"@.len());
    lemma_last_value_concat(seq![("PUSH_SENDER_EMAIL"@, push.sender.email@)] + seq![("PUSH_SENDER_AVATAR_URL"@, push.sender.avatar_url@)] + seq![("PUSH_SENDER_USERNAME"@, push.sender.username@)] + seq![("PUSH_REPOSITORY_ID"@, decimal(push.repository.id as nat))] + seq![("PUSH_REPOSITORY_OWNER_ID"@, decimal(push.repository.owner.id as nat))] + seq![("PUSH_REPOSITORY_OWNER_LOGIN"@, push.repository.owner.login@)] + seq![("PUSH_REPOSITORY_OWNER_FULL_NAME"@, push.repository.owner.full_name@)] + seq![("PUSH_REPOSITORY_OWNER_EMAIL"@, push.repository.owner.email@)], seq![("PUSH_REPOSITORY_OWNER_AVATAR_URL"@, push.repository.owner.avatar_url@)], "PUSH_REPOSITORY_OWNER_LOGIN"@);
    lemma_last_value_single("PUSH_REPOSITORY_OWNER_AVATAR_URL"@, push.repository.owner.avatar_url@, "PUSH_REPOSITORY_OWNER_LOGIN"@);
    assert("PUSH_REPOSITORY_OWNER_AVATAR_URL"@.len() != "PUSH_REPOSITORY_OWNER_LOGIN"@.len());
    lemma_last_value_concat(seq![("PUSH_SENDER_EMAIL"@, push.sender.email@)] + seq![("PUSH_SENDER_AVATAR_URL"@, push.sender.avatar_url@)] + seq![("PUSH_SENDER_USERNAME"@, push.sender.username@)] + seq![("PUSH_REPOSITORY_ID"@, decimal(push.repository.id as nat))] + seq![("PUSH_REPOSITORY_OWNER_ID"@, decimal(push.repository.owner.id as nat))] + seq![("PUSH_REPOSITORY_OWNER_LOGIN"@, push.repository.owner.login@)] + seq![("PUSH_REPOSITORY_OWNER_FULL_NAME"@, push.repository.owner.full_name@)], seq![("PUSH_REPOSITORY_OWNER_EMAIL"@, push.repository.owner.email@)], "PUSH_REPOSITORY_OWNER_LOGIN"@);
    lemma_last_value_single("PUSH_REPOSITORY_OWNER_EMAIL"@, push.repository.owner.email@, "PUSH_REPOSITORY_OWNER_LOGIN"@);
    assert("PUSH_REPOSITORY_OWNER_EMAIL"@[22] != "PUSH_REPOSITORY_OWNER_LOGIN"@[22]);
    lemma_last_value_concat(seq![("PUSH_SENDER_EMAIL"@, push.sender.email@)] + seq![("PUSH_SENDER_AVATAR_URL"@, push.sender.avatar_url@)] + seq![("PUSH_SENDER_USERNAME"@, push.sender.username@)] + seq![("PUSH_REPOSITORY_ID"@, decimal(push.repository.id as nat))] + seq![("PUSH_REPOSITORY_OWNER_ID"@, decimal(push.repository.owner.id as nat))] + seq![("PUSH_REPOSITORY_OWNER_LOGIN"@, push.repository.owner.login@)], seq![("PUSH_REPOSITORY_OWNER_FULL_NAME"@, push.repository.owner.full_name@)], "PUSH_REPOSITORY_OWNER_LOGIN"@);
    lemma_last_value_single("PUSH_REPOSITORY_OWNER_FULL_NAME"@, push.repository.owner.full_name@, "PUSH_REPOSITORY_OWNER_LOGIN"@);
    assert("PUSH_REPOSITORY_OWNER_FULL_NAME"@.len() != "PUSH_REPOSITORY_OWNER_LOGIN"@.len());
    lemma_last_value_concat(seq![("PUSH_SENDER_EMAIL"@, push.sender.email@)] + seq![("PUSH_SENDER_AVATAR_URL"@, push.sender.avatar_url@)] + seq![("PUSH_SENDER_USERNAME"@, push.sender.username@)] + seq![("PUSH_REPOSITORY_ID"@, decimal(push.repository.id as nat))] + seq![("PUSH_REPOSITORY_OWNER_ID"@, decimal(push.repository.owner.id as nat))], seq![("PUSH_REPOSITORY_OWNER_LOGIN"@, push.repository.owner.login@)], "PUSH_REPOSITORY_OWNER_LOGIN"@);
    lemma_last_value_single("PUSH_REPOSITORY_OWNER_LOGIN"@, push.repository.owner.login@, "PUSH_REPOSITORY_OWNER_LOGIN"@);
}

/// The command that answers a push leaves the push's repository owner full name in PUSH_REPOSITORY_OWNER_FULL_NAME.
pub proof fn lemma_push_event_repository_owner_full_name(push: PushEvent)
    ensures
        last_value(push_event_command(push).envs, "PUSH_REPOSITORY_OWNER_FULL_NAME"@) == Some(push.repository.owner.full_name@),
{
    reveal_strlit("PUSH_REF_PATH");
    reveal_strlit("PUSH_BEFORE");
    reveal_strlit("PUSH_AFTER");
    reveal_strlit("PUSH_PUSHER_ID");
    reveal_strlit("PUSH_PUSHER_LOGIN");
    reveal_strlit("PUSH_PUSHER_FULL_NAME");
    reveal_strlit("PUSH_PUSHER_EMAIL");
    reveal_strlit("PUSH_PUSHER_AVATAR_URL");
    reveal_strlit("PUSH_PUSHER_USERNAME");
    reveal_strlit("PUSH_SENDER_ID");
    reveal_strlit("PUSH_SENDER_LOGIN");
    reveal_strlit("PUSH_SENDER_FULL_NAME");
    reveal_strlit("PUSH_SENDER_EMAIL");
    reveal_strlit("PUSH_SENDER_AVATAR_URL");
    reveal_strlit("PUSH_SENDER_USERNAME");
    reveal_strlit("PUSH_REPOSITORY_ID");
    reveal_strlit("PUSH_REPOSITORY_OWNER_ID");
    reveal_strlit("PUSH_REPOSITORY_OWNER_LOGIN");
    reveal_strlit("PUSH_REPOSITORY_OWNER_FULL_NAME");
    reveal_strlit("PUSH_REPOSITORY_OWNER_EMAIL");
    reveal_strlit("PUSH_REPOSITORY_OWNER_AVATAR_URL");
    reveal_strlit("PUSH_REPOSITORY_OWNER_USERNAME");
    reveal_strlit("PUSH_REPOSITORY_NAME");
    reveal_strlit("PUSH_REPOSITORY_FULL_NAME");
    reveal_strlit("PUSH_REPOSITORY_DESCRIPTION");
    reveal_strlit("PUSH_REPOSITORY_PRIVATE");
    reveal_strlit("PUSH_REPOSITORY_FORK");
    reveal_strlit("PUSH_REPOSITORY_HTML_URL");
    reveal_strlit("PUSH_REPOSITORY_SSH_URL");
    reveal_strlit("PUSH_REPOSITORY_CLONE_URL");
    reveal_strlit("PUSH_REPOSITORY_WEBSITE");
    reveal_strlit("PUSH_REPOSITORY_STARS_COUNT");
    reveal_strlit("PUSH_REPOSITORY_FORKS_COUNT");
    reveal_strlit("PUSH_REPOSITORY_WATCHERS_COUNT");
    reveal_strlit("PUSH_REPOSITORY_OPEN_ISSUES_COUNT");
    reveal_strlit("PUSH_REPOSITORY_DEFAULT_BRANCH");
    reveal_strlit("PUSH_REPOSITORY_CREATED_AT");
    reveal_strlit("PUSH_REPOSITORY_UPDATED_AT");
    lemma_last_value_concat(push_event_env_part1(push) + push_event_env_part2(push) + push_event_env_part3(push), push_event_env_part4(push), "PUSH_REPOSITORY_OWNER_FULL_NAME"@);
    lemma_last_value_concat(seq![("PUSH_REPOSITORY_CREATED_AT"@, push.repository.created_at@)], seq![("PUSH_REPOSITORY_UPDATED_AT"@, push.repository.updated_at@)], "PUSH_REPOSITORY_OWNER_FULL_NAME"@);
    lemma_last_value_single("PUSH_REPOSITORY_CREATED_AT"@, push.repository.created_at@, "PUSH_REPOSITORY_OWNER_FULL_NAME"@);
    assert("PUSH_REPOSITORY_CREATED_AT"@.len() != "PUSH_REPOSITORY_OWNER_FULL_NAME"@.len());
    lemma_last_value_single("PUSH_REPOSITORY_UPDATED_AT"@, push.repository.updated_at@, "PUSH_REPOSITORY_OWNER_FULL_NAME"@);
    assert("PUSH_REPOSITORY_UPDATED_AT"@.len() != "PUSH_REPOSITORY_OWNER_FULL_NAME"@.len());
    lemma_last_value_concat(push_event_env_part1(push) + push_event_env_part2(push), push_event_env_part3(push), "PUSH_REPOSITORY_OWNER_FULL_NAME"@);
    lemma_last_value_concat(seq![("PUSH_REPOSITORY_DESCRIPTION"@, push.repository.description@)] + seq![("PUSH_REPOSITORY_PRIVATE"@, bool_text(push.repository.private))] + seq![("PUSH_REPOSITORY_FORK"@, bool_text(push.repository.fork))] + seq![("PUSH_REPOSITORY_HTML_URL"@, push.repository.html_url@)] + seq![("PUSH_REPOSITORY_SSH_URL"@, push.repository.ssh_url@)] + seq![("PUSH_REPOSITORY_CLONE_URL"@, push.repository.clone_url@)] + seq![("PUSH_REPOSITORY_WEBSITE"@, push.repository.website@)] + seq![("PUSH_REPOSITORY_STARS_COUNT"@, decimal(push.repository.stars_count as nat))] + seq![("PUSH_REPOSITORY_FORKS_COUNT"@, decimal(push.repository.forks_count as nat))] + seq![("PUSH_REPOSITORY_WATCHERS_COUNT"@, decimal(push.repository.watchers_count as nat))] + seq![("PUSH_REPOSITORY_OPEN_ISSUES_COUNT"@, decimal(push.repository.open_issues_count as nat))], seq![("PUSH_REPOSITORY_DEFAULT_BRANCH"@, push.repository.default_branch@)], "PUSH_REPOSITORY_OWNER_FULL_NAME"@);
    lemma_last_value_concat(seq![("PUSH_REPOSITORY_DESCRIPTION"@, push.repository.description@)] + seq![("PUSH_REPOSITORY_PRIVATE"@, bool_text(push.repository.private))] + seq![("PUSH_REPOSITORY_FORK"@, bool_text(push.repository.fork))] + seq![("PUSH_REPOSITORY_HTML_URL"@, push.repository.html_url@)] + seq![("PUSH_REPOSITORY_SSH_URL"@, push.repository.ssh_url@)] + seq![("PUSH_REPOSITORY_CLONE_URL"@, push.repository.clone_url@)] + seq![("PUSH_REPOSITORY_WEBSITE"@, push.repository.website@)] + seq![("PUSH_REPOSITORY_STARS_COUNT"@, decimal(push.repository.stars_count as nat))] + seq![("PUSH_REPOSITORY_FORKS_COUNT"@, decimal(push.repository.forks_count as nat))] + seq![("PUSH_REPOSITORY_WATCHERS_COUNT"@, decimal(push.repository.watchers_count as nat))], seq![("PUSH_REPOSITORY_OPEN_ISSUES_COUNT"@, decimal(push.repository.open_issues_count as nat))], "PUSH_REPOSITORY_OWNER_FULL_NAME"@);
    lemma_last_value_concat(seq![("PUSH_REPOSITORY_DESCRIPTION"@, push.repository.description@)] + seq![("PUSH_REPOSITORY_PRIVATE"@, bool_text(push.repository.private))] + seq![("PUSH_REPOSITORY_FORK"@, bool_text(push.repository.fork))] + seq![("PUSH_REPOSITORY_HTML_URL"@, push.repository.html_url@)] + seq![("PUSH_REPOSITORY_SSH_URL"@, push.repository.ssh_url@)] + seq![("PUSH_REPOSITORY_CLONE_URL"@, push.repository.clone_url@)] + seq![("PUSH_REPOSITORY_WEBSITE"@, push.repository.website@)] + seq![("PUSH_REPOSITORY_STARS_COUNT"@, decimal(push.repository.stars_count as nat))] + seq![("PUSH_REPOSITORY_FORKS_COUNT"@, decimal(push.repository.forks_count as nat))], seq![("PUSH_REPOSITORY_WATCHERS_COUNT"@, decimal(push.repository.watchers_count as nat))], "PUSH_REPOSITORY_OWNER_FULL_NAME"@);
    lemma_last_value_concat(seq![("PUSH_REPOSITORY_DESCRIPTION"@, push.repository.description@)] + seq![("PUSH_REPOSITORY_PRIVATE"@, bool_text(push.repository.private))] + seq![("PUSH_REPOSITORY_FORK"@, bool_text(push.repository.fork))] + seq![("PUSH_REPOSITORY_HTML_URL"@, push.repository.html_url@)] + seq![("PUSH_REPOSITORY_SSH_URL"@, push.repository.ssh_url@)] + seq![("PUSH_REPOSITORY_CLONE_URL"@, push.repository.clone_url@)] + seq![("PUSH_REPOSITORY_WEBSITE"@, push.repository.website@)] + seq![("PUSH_REPOSITORY_STARS_COUNT"@, decimal(push.repository.stars_count as nat))], seq![("PUSH_REPOSITORY_FORKS_COUNT"@, decimal(push.repository.forks_count as nat))], "PUSH_REPOSITORY_OWNER_FULL_NAME"@);
    lemma_last_value_concat(seq![("PUSH_REPOSITORY_DESCRIPTION"@, push.repository.description@)] + seq![("PUSH_REPOSITORY_PRIVATE"@, bool_text(push.repository.private))] + seq![("PUSH_REPOSITORY_FORK"@, bool_text(push.repository.fork))] + seq![("PUSH_REPOSITORY_HTML_URL"@, push.repository.html_url@)] + seq![("PUSH_REPOSITORY_SSH_URL"@, push.repository.ssh_url@)] + seq![("PUSH_REPOSITORY_CLONE_URL"@, push.repository.clone_url@)] + seq![("PUSH_REPOSITORY_WEBSITE"@, push.repository.website@)], seq![("PUSH_REPOSITORY_STARS_COUNT"@, decimal(push.repository.stars_count as nat))], "PUSH_REPOSITORY_OWNER_FULL_NAME"@);
    lemma_last_value_concat(seq![("PUSH_REPOSITORY_DESCRIPTION"@, push.repository.description@)] + seq![("PUSH_REPOSITORY_PRIVATE"@, bool_text(push.repository.private))] + seq![("PUSH_REPOSITORY_FORK"@, bool_text(push.repository.fork))] + seq![("PUSH_REPOSITORY_HTML_URL"@, push.repository.html_url@)] + seq![("PUSH_REPOSITORY_SSH_URL"@, push.repository.ssh_url@)] + seq![("PUSH_REPOSITORY_CLONE_URL"@, push.repository.clone_url@)], seq![("PUSH_REPOSITORY_WEBSITE"@, push.repository.website@)], "PUSH_REPOSITORY_OWNER_FULL_NAME"@);
    lemma_last_value_concat(seq![("PUSH_REPOSITORY_DESCRIPTION"@, push.repository.description@)] + seq![("PUSH_REPOSITORY_PRIVATE"@, bool_text(push.repository.private))] + seq![("PUSH_REPOSITORY_FORK"@, bool_text(push.repository.fork))] + seq![("PUSH_REPOSITORY_HTML_URL"@, push.repository.html_url@)] + seq![("PUSH_REPOSITORY_SSH_URL"@, push.repository.ssh_url@)], seq![("PUSH_REPOSITORY_CLONE_URL"@, push.repository.clone_url@)], "PUSH_REPOSITORY_OWNER_FULL_NAME"@);
    lemma_last_value_concat(seq![("PUSH_REPOSITORY_DESCRIPTION"@, push.repository.description@)] + seq![("PUSH_REPOSITORY_PRIVATE"@, bool_text(push.repository.private))] + seq![("PUSH_REPOSITORY_FORK"@, bool_text(push.repository.fork))] + seq![("PUSH_REPOSITORY_HTML_URL"@, push.repository.html_url@)], seq![("PUSH_REPOSITORY_SSH_URL"@, push.repository.ssh_url@)], "PUSH_REPOSITORY_OWNER_FULL_NAME"@);
    lemma_last_value_concat(seq![("PUSH_REPOSITORY_DESCRIPTION"@, push.repository.description@)] + seq![("PUSH_REPOSITORY_PRIVATE"@, bool_text(push.repository.private))] + seq![("PUSH_REPOSITORY_FORK"@, bool_text(push.repository.fork))], seq![("PUSH_REPOSITORY_HTML_URL"@, push.repository.html_url@)], "PUSH_REPOSITORY_OWNER_FULL_NAME"@);
    lemma_last_value_concat(seq![("PUSH_REPOSITORY_DESCRIPTION"@, push.repository.description@)] + seq![("PUSH_REPOSITORY_PRIVATE"@, bool_text(push.repository.private))], seq![("PUSH_REPOSITORY_FORK"@, bool_text(push.repository.fork))], "PUSH_REPOSITORY_OWNER_FULL_NAME"@);
    lemma_last_value_concat(seq![("PUSH_REPOSITORY_DESCRIPTION"@, push.repository.description@)], seq![("PUSH_REPOSITORY_PRIVATE"@, bool_text(push.repository.private))], "PUSH_REPOSITORY_OWNER_FULL_NAME"@);
    lemma_last_value_single("PUSH_REPOSITORY_DESCRIPTION"@, push.repository.description@, "PUSH_REPOSITORY_OWNER_FULL_NAME"@);
    assert("PUSH_REPOSITORY_DESCRIPTION"@.len() != "PUSH_REPOSITORY_OWNER_FULL_NAME"@.len());
    lemma_last_value_single("PUSH_REPOSITORY_PRIVATE"@, bool_text(push.repository.private), "PUSH_REPOSITORY_OWNER_FULL_NAME"@);
    assert("PUSH_REPOSITORY_PRIVATE"@.len() != "PUSH_REPOSITORY_OWNER_FULL_NAME"@.len());
    lemma_last_value_single("PUSH_REPOSITORY_FORK"@, bool_text(push.repository.fork), "PUSH_REPOSITORY_OWNER_FULL_NAME"@);
    assert("PUSH_REPOSITORY_FORK"@.len() != "PUSH_REPOSITORY_OWNER_FULL_NAME"@.len());
    lemma_last_value_single("PUSH_REPOSITORY_HTML_URL"@, push.repository.html_url@, "PUSH_REPOSITORY_OWNER_FULL_NAME"@);
    assert("PUSH_REPOSITORY_HTML_URL"@.len() != "PUSH_REPOSITORY_OWNER_FULL_NAME"@.len());
    lemma_last_value_single("PUSH_REPOSITORY_SSH_URL"@, push.repository.ssh_url@, "PUSH_REPOSITORY_OWNER_FULL_NAME"@);
    assert("PUSH_REPOSITORY_SSH_URL"@.len() != "PUSH_REPOSITORY_OWNER_FULL_NAME"@.len());
    lemma_last_value_single("PUSH_REPOSITORY_CLONE_URL"@, push.repository.clone_url@, "PUSH_REPOSITORY_OWNER_FULL_NAME"@);
    assert("PUSH_REPOSITORY_CLONE_URL"@.len() != "PUSH_REPOSITORY_OWNER_FULL_NAME"@.len());
    lemma_last_value_single("PUSH_REPOSITORY_WEBSITE"@, push.repository.website@, "PUSH_REPOSITORY_OWNER_FULL_NAME"@);
    assert("PUSH_REPOSITORY_WEBSITE"@.len() != "PUSH_REPOSITORY_OWNER_FULL_NAME"@.len());
    lemma_last_value_single("PUSH_REPOSITORY_STARS_COUNT"@, decimal(push.repository.stars_count as nat), "PUSH_REPOSITORY_OWNER_FULL_NAME"@);
    assert("PUSH_REPOSITORY_STARS_COUNT"@.len() != "PUSH_REPOSITORY_OWNER_FULL_NAME"@.len());
    lemma_last_value_single("PUSH_REPOSITORY_FORKS_COUNT"@, decimal(push.repository.forks_count as nat), "PUSH_REPOSITORY_OWNER_FULL_NAME"@);
    assert("PUSH_REPOSITORY_FORKS_COUNT"@.len() != "PUSH_REPOSITORY_OWNER_FULL_NAME"@.len());
    lemma_last_value_single("PUSH_REPOSITORY_WATCHERS_COUNT"@, decimal(push.repository.watchers_count as nat), "PUSH_REPOSITORY_OWNER_FULL_NAME"@);
    assert("PUSH_REPOSITORY_WATCHERS_COUNT"@.len() != "PUSH_REPOSITORY_OWNER_FULL_NAME"@.len());
    lemma_last_value_single("PUSH_REPOSITORY_OPEN_ISSUES_COUNT"@, decimal(push.repository.open_issues_count as nat), "PUSH_REPOSITORY_OWNER_FULL_NAME"@);
    assert("PUSH_REPOSITORY_OPEN_ISSUES_COUNT"@.len() != "PUSH_REPOSITORY_OWNER_FULL_NAME"@.len());
    lemma_last_value_single("PUSH_REPOSITORY_DEFAULT_BRANCH"@, push.repository.default_branch@, "PUSH_REPOSITORY_OWNER_FULL_NAME"@);
    assert("PUSH_REPOSITORY_DEFAULT_BRANCH"@.len() != "PUSH_REPOSITORY_OWNER_FULL_NAME"@.len());
    lemma_last_value_concat(push_event_env_part1(push), push_event_env_part2(push), "PUSH_REPOSITORY_OWNER_FULL_NAME"@);
    lemma_last_value_concat(seq![("PUSH_SENDER_EMAIL"@, push.sender.email@)] + seq![("PUSH_SENDER_AVATAR_URL"@, push.sender.avatar_url@)] + seq![("PUSH_SENDER_USERNAME"@, push.sender.username@)] + seq![("PUSH_REPOSITORY_ID"@, decimal(push.repository.id as nat))] + seq![("PUSH_REPOSITORY_OWNER_ID"@, decimal(push.repository.owner.id as nat))] + seq![("PUSH_REPOSITORY_OWNER_LOGIN"@, push.repository.owner.login@)] + seq![("PUSH_REPOSITORY_OWNER_FULL_NAME"@, push.repository.owner.full_name@)] + seq![("PUSH_REPOSITORY_OWNER_EMAIL"@, push.repository.owner.email@)] + seq![("PUSH_REPOSITORY_OWNER_AVATAR_URL"@, push.repository.owner.avatar_url@)] + seq![("PUSH_REPOSITORY_OWNER_USERNAME"@, push.repository.owner.username@)] + seq![("PUSH_REPOSITORY_NAME"@, push.repository.name@)], seq![("PUSH_REPOSITORY_FULL_NAME"@, push.repository.full_name@)], "PUSH_REPOSITORY_OWNER_FULL_NAME"@);
    lemma_last_value_single("PUSH_REPOSITORY_FULL_NAME"@, push.repository.full_name@, "PUSH_REPOSITORY_OWNER_FULL_NAME"@);
    assert("PUSH_REPOSITORY_FULL_NAME"@.len() != "PUSH_REPOSITORY_OWNER_FULL_NAME"@.len());
    lemma_last_value_concat(seq![("PUSH_SENDER_EMAIL"@, push.sender.email@)] + seq![("PUSH_SENDER_AVATAR_URL"@, push.sender.avatar_url@)] + seq![("PUSH_SENDER_USERNAME"@, push.sender.username@)] + seq![("PUSH_REPOSITORY_ID"@, decimal(push.repository.id as nat))] + seq![("PUSH_REPOSITORY_OWNER_ID"@, decimal(push.repository.owner.id as nat))] + seq![("PUSH_REPOSITORY_OWNER_LOGIN"@, push.repository.owner.login@)] + seq![("PUSH_REPOSITORY_OWNER_FULL_NAME"@, push.repository.owner.full_name@)] + seq![("PUSH_REPOSITORY_OWNER_EMAIL"@, push.repository.owner.email@)] + seq![("PUSH_REPOSITORY_OWNER_AVATAR_URL"@, push.repository.owner.avatar_url@)] + seq![("PUSH_REPOSITORY_OWNER_USERNAME"@, push.repository.owner.username@)], seq![("PUSH_REPOSITORY_NAME"@, push.repository.name@)], "PUSH_REPOSITORY_OWNER_FULL_NAME"@);
    lemma_last_value_single("PUSH_REPOSITORY_NAME"@, push.repository.name@, "PUSH_REPOSITORY_OWNER_FULL_NAME"@);
    assert("PUSH_REPOSITORY_NAME"@.len() != "PUSH_REPOSITORY_OWNER_FULL_NAME"@.len());
    lemma_last_value_concat(seq![("PUSH_SENDER_EMAIL"@, push.sender.email@)] + seq![("PUSH_SENDER_AVATAR_URL"@, push.sender.avatar_url@)] + seq![("PUSH_SENDER_USERNAME"@, push.sender.username@)] + seq![("PUSH_REPOSITORY_ID"@, decimal(push.repository.id as nat))] + seq![("PUSH_REPOSITORY_OWNER_ID"@, decimal(push.repository.owner.id as nat))] + seq![("PUSH_REPOSITORY_OWNER_LOGIN"@, push.repository.owner.login@)] + seq![("PUSH_REPOSITORY_OWNER_FULL_NAME"@, push.repository.owner.full_name@)] + seq![("PUSH_REPOSITORY_OWNER_EMAIL"@, push.repository.owner.email@)] + seq![("PUSH_REPOSITORY_OWNER_AVATAR_URL"@, push.repository.owner.avatar_url@)], seq![("PUSH_REPOSITORY_OWNER_USERNAME"@, push.repository.owner.username@)], "PUSH_REPOSITORY_OWNER_FULL_NAME"@);
    lemma_last_value_single("PUSH_REPOSITORY_OWNER_USERNAME"@, push.repository.owner.username@, "PUSH_REPOSITORY_OWNER_FULL_NAME"@);
    assert("PUSH_REPOSITORY_OWNER_USERNAME"@.len() != "PUSH_REPOSITORY_OWNER_FULL_NAME"@.len());
    lemma_last_value_concat(seq![("PUSH_SENDER_EMAIL"@, push.sender.email@)] + seq![("PUSH_SENDER_AVATAR_URL"@, push.sender.avatar_url@)] + seq![("PUSH_SENDER_USERNAME"@, push.sender.username@)] + seq![("PUSH_REPOSITORY_ID"@, decimal(push.repository.id as nat))] + seq![("PUSH_REPOSITORY_OWNER_ID"@, decimal(push.repository.owner.id as nat))] + seq![("PUSH_REPOSITORY_OWNER_LOGIN"@, push.repository.owner.login@)] + seq![("PUSH_REPOSITORY_OWNER_FULL_NAME"@, push.repository.owner.full_name@)] + seq![("PUSH_REPOSITORY_OWNER_EMAIL"@, push.repository.owner.email@)], seq![("PUSH_REPOSITORY_OWNER_AVATAR_URL"@, push.repository.owner.avatar_url@)], "PUSH_REPOSITORY_OWNER_FULL_NAME"@);
    lemma_last_value_single("PUSH_REPOSITORY_OWNER_AVATAR_URL"@, push.repository.owner.avatar_url@, "PUSH_REPOSITORY_OWNER_FULL_NAME"@);
    assert("PUSH_REPOSITORY_OWNER_AVATAR_URL"@.len() != "PUSH_REPOSITORY_OWNER_FULL_NAME"@.len());
    lemma_last_value_concat(seq![("PUSH_SENDER_EMAIL"@, push.sender.email@)] + seq![("PUSH_SENDER_AVATAR_URL"@, push.sender.avatar_url@)] + seq![("PUSH_SENDER_USERNAME"@, push.sender.username@)] + seq![("PUSH_REPOSITORY_ID"@, decimal(push.repository.id as nat))] + seq![("PUSH_REPOSITORY_OWNER_ID"@, decimal(push.repository.owner.id as nat))] + seq![("PUSH_REPOSITORY_OWNER_LOGIN"@, push.repository.owner.login@)] + seq![("PUSH_REPOSITORY_OWNER_FULL_NAME"@, push.repository.owner.full_name@)], seq![("PUSH_REPOSITORY_OWNER_EMAIL"@, push.repository.owner.email@)], "PUSH_REPOSITORY_OWNER_FULL_NAME"@);
    lemma_last_value_single("PUSH_REPOSITORY_OWNER_EMAIL"@, push.repository.owner.email@, "PUSH_REPOSITORY_OWNER_FULL_NAME"@);
    assert("PUSH_REPOSITORY_OWNER_EMAIL"@.len() != "PUSH_REPOSITORY_OWNER_FULL_NAME"@.len());
    lemma_last_value_concat(seq![("PUSH_SENDER_EMAIL"@, push.sender.email@)] + seq![("PUSH_SENDER_AVATAR_URL"@, push.sender.avatar_url@)] + seq![("PUSH_SENDER_USERNAME"@, push.sender.username@)] + seq![("PUSH_REPOSITORY_ID"@, decimal(push.repository.id as nat))] + seq![("PUSH_REPOSITORY_OWNER_ID"@, decimal(push.repository.owner.id as nat))] + seq![("PUSH_REPOSITORY_OWNER_LOGIN"@, push.repository.owner.login@)], seq![("PUSH_REPOSITORY_OWNER_FULL_NAME"@, push.repository.owner.full_name@)], "PUSH_REPOSITORY_OWNER_FULL_NAME"@);
    lemma_last_value_single("PUSH_REPOSITORY_OWNER_FULL_NAME"@, push.repository.owner.full_name@, "PUSH_REPOSITORY_OWNER_FULL_NAME"@);
}

/// The command that answers a push leaves the push's repository owner email in PUSH_REPOSITORY_OWNER_EMAIL.
pub proof fn lemma_push_event_repository_owner_email(push: PushEvent)
    ensures
        last_value(push_event_command(push).envs, "PUSH_REPOSITORY_OWNER_EMAIL"@) == Some(push.repository.owner.email@),
{
    reveal_strlit("PUSH_REF_PATH");
    reveal_strlit("PUSH_BEFORE");
    reveal_strlit("PUSH_AFTER");
    reveal_strlit("PUSH_PUSHER_ID");
    reveal_strlit("PUSH_PUSHER_LOGIN");
    reveal_strlit("PUSH_PUSHER_FULL_NAME");
    reveal_strlit("PUSH_PUSHER_EMAIL");
    reveal_strlit("PUSH_PUSHER_AVATAR_URL");
    reveal_strlit("PUSH_PUSHER_USERNAME");
    reveal_strlit("PUSH_SENDER_ID");
    reveal_strlit("PUSH_SENDER_LOGIN");
    reveal_strlit("PUSH_SENDER_FULL_NAME");
    reveal_strlit("PUSH_SENDER_EMAIL");
    reveal_strlit("PUSH_SENDER_AVATAR_URL");
    reveal_strlit("PUSH_SENDER_USERNAME");
    reveal_strlit("PUSH_REPOSITORY_ID");
    reveal_strlit("PUSH_REPOSITORY_OWNER_ID");
    reveal_strlit("PUSH_REPOSITORY_OWNER_LOGIN");
    reveal_strlit("PUSH_REPOSITORY_OWNER_FULL_NAME");
    reveal_strlit("PUSH_REPOSITORY_OWNER_EMAIL");
    reveal_strlit("PUSH_REPOSITORY_OWNER_AVATAR_URL");
    reveal_strlit("PUSH_REPOSITORY_OWNER_USERNAME");
    reveal_strlit("PUSH_REPOSITORY_NAME");
    reveal_strlit("PUSH_REPOSITORY_FULL_NAME");
    reveal_strlit("PUSH_REPOSITORY_DESCRIPTION");
    reveal_strlit("PUSH_REPOSITORY_PRIVATE");
    reveal_strlit("PUSH_REPOSITORY_FORK");
    reveal_strlit("PUSH_REPOSITORY_HTML_URL");
    reveal_strlit("PUSH_REPOSITORY_SSH_URL");
    reveal_strlit("PUSH_REPOSITORY_CLONE_URL");
    reveal_strlit("PUSH_REPOSITORY_WEBSITE");
    reveal_strlit("PUSH_REPOSITORY_STARS_COUNT");
    reveal_strlit("PUSH_REPOSITORY_FORKS_COUNT");
    reveal_strlit("PUSH_REPOSITORY_WATCHERS_COUNT");
    reveal_strlit("PUSH_REPOSITORY_OPEN_ISSUES_COUNT");
    reveal_strlit("PUSH_REPOSITORY_DEFAULT_BRANCH");
    reveal_strlit("PUSH_REPOSITORY_CREATED_AT");
    reveal_strlit("PUSH_REPOSITORY_UPDATED_AT");
    lemma_last_value_concat(push_event_env_part1(push) + push_event_env_part2(push) + push_event_env_part3(push), push_event_env_part4(push), "PUSH_REPOSITORY_OWNER_EMAIL"@);
    lemma_last_value_concat(seq![("PUSH_REPOSITORY_CREATED_AT"@, push.repository.created_at@)], seq![("PUSH_REPOSITORY_UPDATED_AT"@, push.repository.updated_at@)], "PUSH_REPOSITORY_OWNER_EMAIL"@);
    lemma_last_value_single("PUSH_REPOSITORY_CREATED_AT"@, push.repository.created_at@, "PUSH_REPOSITORY_OWNER_EMAIL"@);
    assert("PUSH_REPOSITORY_CREATED_AT"@.len() != "PUSH_REPOSITORY_OWNER_EMAIL"@.len());
    lemma_last_value_single("PUSH_REPOSITORY_UPDATED_AT"@, push.repository.updated_at@, "PUSH_REPOSITORY_OWNER_EMAIL"@);
    assert("PUSH_REPOSITORY_UPDATED_AT"@.len() != "PUSH_REPOSITORY_OWNER_EMAIL"@.len());
    lemma_last_value_concat(push_event_env_part1(push) + push_event_env_part2(push), push_event_env_part3(push), "PUSH_REPOSITORY_OWNER_EMAIL"@);
    lemma_last_value_concat(seq![("PUSH_REPOSITORY_DESCRIPTION"@, push.repository.description@)] + seq![("PUSH_REPOSITORY_PRIVATE"@, bool_text(push.repository.private))] + seq![("PUSH_REPOSITORY_FORK"@, bool_text(push.repository.fork))] + seq![("PUSH_REPOSITORY_HTML_URL"@, push.repository.html_url@)] + seq![("PUSH_REPOSITORY_SSH_URL"@, push.repository.ssh_url@)] + seq![("PUSH_REPOSITORY_CLONE_URL"@, push.repository.clone_url@)] + seq![("PUSH_REPOSITORY_WEBSITE"@, push.repository.website@)] + seq![("PUSH_REPOSITORY_STARS_COUNT"@, decimal(push.repository.stars_count as nat))] + seq![("PUSH_REPOSITORY_FORKS_COUNT"@, decimal(push.repository.forks_count as nat))] + seq![("PUSH_REPOSITORY_WATCHERS_COUNT"@, decimal(push.repository.watchers_count as nat))] + seq![("PUSH_REPOSITORY_OPEN_ISSUES_COUNT"@, decimal(push.repository.open_issues_count as nat))], seq![("PUSH_REPOSITORY_DEFAULT_BRANCH"@, push.repository.default_branch@)], "PUSH_REPOSITORY_OWNER_EMAIL"@);
    lemma_last_value_concat(seq![("PUSH_REPOSITORY_DESCRIPTION"@, push.repository.description@)] + seq![("PUSH_REPOSITORY_PRIVATE"@, bool_text(push.repository.private))] + seq![("PUSH_REPOSITORY_FORK"@, bool_text(push.repository.fork))] + seq![("PUSH_REPOSITORY_HTML_URL"@, push.repository.html_url@)] + seq![("PUSH_REPOSITORY_SSH_URL"@, push.repository.ssh_url@)] + seq![("PUSH_REPOSITORY_CLONE_URL"@, push.repository.clone_url@)] + seq![("PUSH_REPOSITORY_WEBSITE"@, push.repository.website@)] + seq![("PUSH_REPOSITORY_STARS_COUNT"@, decimal(push.repository.stars_count as nat))] + seq![("PUSH_REPOSITORY_FORKS_COUNT"@, decimal(push.repository.forks_count as nat))] + seq![("PUSH_REPOSITORY_WATCHERS_COUNT"@, decimal(push.repository.watchers_count as nat))], seq![("PUSH_REPOSITORY_OPEN_ISSUES_COUNT"@, decimal(push.repository.open_issues_count as nat))], "PUSH_REPOSITORY_OWNER_EMAIL"@);
    lemma_last_value_concat(seq![("PUSH_REPOSITORY_DESCRIPTION"@, push.repository.description@)] + seq![("PUSH_REPOSITORY_PRIVATE"@, bool_text(push.repository.private))] + seq![("PUSH_REPOSITORY_FORK"@, bool_text(push.repository.fork))] + seq![("PUSH_REPOSITORY_HTML_URL"@, push.repository.html_url@)] + seq![("PUSH_REPOSITORY_SSH_URL"@, push.repository.ssh_url@)] + seq![("PUSH_REPOSITORY_CLONE_URL"@, push.repository.clone_url@)] + seq![("PUSH_REPOSITORY_WEBSITE"@, push.repository.website@)] + seq![("PUSH_REPOSITORY_STARS_COUNT"@, decimal(push.repository.stars_count as nat))] + seq![("PUSH_REPOSITORY_FORKS_COUNT"@, decimal(push.repository.forks_count as nat))], seq![("PUSH_REPOSITORY_WATCHERS_COUNT"@, decimal(push.repository.watchers_count as nat))], "PUSH_REPOSITORY_OWNER_EMAIL"@);
    lemma_last_value_concat(seq![("PUSH_REPOSITORY_DESCRIPTION"@, push.repository.description@)] + seq![("PUSH_REPOSITORY_PRIVATE"@, bool_text(push.repository.private))] + seq![("PUSH_REPOSITORY_FORK"@, bool_text(push.repository.fork))] + seq![("PUSH_REPOSITORY_HTML_URL"@, push.repository.html_url@)] + seq![("PUSH_REPOSITORY_SSH_URL"@, push.repository.ssh_url@)] + seq![("PUSH_REPOSITORY_CLONE_URL"@, push.repository.clone_url@)] + seq![("PUSH_REPOSITORY_WEBSITE"@, push.repository.website@)] + seq![("PUSH_REPOSITORY_STARS_COUNT"@, decimal(push.repository.stars_count as nat))], seq![("PUSH_REPOSITORY_FORKS_COUNT"@, decimal(push.repository.forks_count as nat))], "PUSH_REPOSITORY_OWNER_EMAIL"@);
    lemma_last_value_concat(seq![("PUSH_REPOSITORY_DESCRIPTION"@, push.repository.description@)] + seq![("PUSH_REPOSITORY_PRIVATE"@, bool_text(push.repository.private))] + seq![("PUSH_REPOSITORY_FORK"@, bool_text(push.repository.fork))] + seq![("PUSH_REPOSITORY_HTML_URL"@, push.repository.html_url@)] + seq![("PUSH_REPOSITORY_SSH_URL"@, push.repository.ssh_url@)] + seq![("PUSH_REPOSITORY_CLONE_URL"@, push.repository.clone_url@)] + seq![("PUSH_REPOSITORY_WEBSITE"@, push.repository.website@)], seq![("PUSH_REPOSITORY_STARS_COUNT"@, decimal(push.repository.stars_count as nat))], "PUSH_REPOSITORY_OWNER_EMAIL"@);
    lemma_last_value_concat(seq![("PUSH_REPOSITORY_DESCRIPTION"@, push.repository.description@)] + seq![("PUSH_REPOSITORY_PRIVATE"@, bool_text(push.repository.private))] + seq![("PUSH_REPOSITORY_FORK"@, bool_text(push.repository.fork))] + seq![("PUSH_REPOSITORY_HTML_URL"@, push.repository.html_url@)] + seq![("PUSH_REPOSITORY_SSH_URL"@, push.repository.ssh_url@)] + seq![("PUSH_REPOSITORY_CLONE_URL"@, push.repository.clone_url@)], seq![("PUSH_REPOSITORY_WEBSITE"@, push.repository.website@)], "PUSH_REPOSITORY_OWNER_EMAIL"@);
    lemma_last_value_concat(seq![("PUSH_REPOSITORY_DESCRIPTION"@, push.repository.description@)] + seq![("PUSH_REPOSITORY_PRIVATE"@, bool_text(push.repository.private))] + seq![("PUSH_REPOSITORY_FORK"@, bool_text(push.repository.fork))] + seq![("PUSH_REPOSITORY_HTML_URL"@, push.repository.html_url@)] + seq![("PUSH_REPOSITORY_SSH_URL"@, push.repository.ssh_url@)], seq![("PUSH_REPOSITORY_CLONE_URL"@, push.repository.clone_url@)], "PUSH_REPOSITORY_OWNER_EMAIL"@);
    lemma_last_value_concat(seq![("PUSH_REPOSITORY_DESCRIPTION"@, push.repository.description@)] + seq![("PUSH_REPOSITORY_PRIVATE"@, bool_text(push.repository.private))] + seq![("PUSH_REPOSITORY_FORK"@, bool_text(push.repository.fork))] + seq![("PUSH_REPOSITORY_HTML_URL"@, push.repository.html_url@)], seq![("PUSH_REPOSITORY_SSH_URL"@, push.repository.ssh_url@)], "PUSH_REPOSITORY_OWNER_EMAIL"@);
    lemma_last_value_concat(seq![("PUSH_REPOSITORY_DESCRIPTION"@, push.repository.description@)] + seq![("PUSH_REPOSITORY_PRIVATE"@, bool_text(push.repository.private))] + seq![("PUSH_REPOSITORY_FORK"@, bool_text(push.repository.fork))], seq![("PUSH_REPOSITORY_HTML_URL"@, push.repository.html_url@)], "PUSH_REPOSITORY_OWNER_EMAIL"@);
    lemma_last_value_concat(seq![("PUSH_REPOSITORY_DESCRIPTION"@, push.repository.description@)] + seq![("PUSH_REPOSITORY_PRIVATE"@, bool_text(push.repository.private))], seq![("PUSH_REPOSITORY_FORK"@, bool_text(push.repository.fork))], "PUSH_REPOSITORY_OWNER_EMAIL"@);
    lemma_last_value_concat(seq![("PUSH_REPOSITORY_DESCRIPTION"@, push.repository.description@)], seq![("PUSH_REPOSITORY_PRIVATE"@, bool_text(push.repository.private))], "PUSH_REPOSITORY_OWNER_EMAIL"@);
    lemma_last_value_single("PUSH_REPOSITORY_DESCRIPTION"@, push.repository.description@, "PUSH_REPOSITORY_OWNER_EMAIL"@);
    assert("PUSH_REPOSITORY_DESCRIPTION"@[16] != "PUSH_REPOSITORY_OWNER_EMAIL"@[16]);
    lemma_last_value_single("PUSH_REPOSITORY_PRIVATE"@, bool_text(push.repository.private), "PUSH_REPOSITORY_OWNER_EMAIL"@);
    assert("PUSH_REPOSITORY_PRIVATE"@.len() != "PUSH_REPOSITORY_OWNER_EMAIL"@.len());
    lemma_last_value_single("PUSH_REPOSITORY_FORK"@, bool_text(push.repository.fork), "PUSH_REPOSITORY_OWNER_EMAIL"@);
    assert("PUSH_REPOSITORY_FORK"@.len() != "PUSH_REPOSITORY_OWNER_EMAIL"@.len());
    lemma_last_value_single("PUSH_REPOSITORY_HTML_URL"@, push.repository.html_url@, "PUSH_REPOSITORY_OWNER_EMAIL"@);
    assert("PUSH_REPOSITORY_HTML_URL"@.len() != "PUSH_REPOSITORY_OWNER_EMAIL"@.len());
    lemma_last_value_single("PUSH_REPOSITORY_SSH_URL"@, push.repository.ssh_url@, "PUSH_REPOSITORY_OWNER_EMAIL"@);
    assert("PUSH_REPOSITORY_SSH_URL"@.len() != "PUSH_REPOSITORY_OWNER_EMAIL"@.len());
    lemma_last_value_single("PUSH_REPOSITORY_CLONE_URL"@, push.repository.clone_url@, "PUSH_REPOSITORY_OWNER_EMAIL"@);
    assert("PUSH_REPOSITORY_CLONE_URL"@.len() != "PUSH_REPOSITORY_OWNER_EMAIL"@.len());
    lemma_last_value_single("PUSH_REPOSITORY_WEBSITE"@, push.repository.website@, "PUSH_REPOSITORY_OWNER_EMAIL"@);
    assert("PUSH_REPOSITORY_WEBSITE"@.len() != "PUSH_REPOSITORY_OWNER_EMAIL"@.len());
    lemma_last_value_single("PUSH_REPOSITORY_STARS_COUNT"@, decimal(push.repository.stars_count as nat), "PUSH_REPOSITORY_OWNER_EMAIL"@);
    assert("PUSH_REPOSITORY_STARS_COUNT"@[16] != "PUSH_REPOSITORY_OWNER_EMAIL"@[16]);
    lemma_last_value_single("PUSH_REPOSITORY_FORKS_COUNT"@, decimal(push.repository.forks_count as nat), "PUSH_REPOSITORY_OWNER_EMAIL"@);
    assert("PUSH_REPOSITORY_FORKS_COUNT"@[16] != "PUSH_REPOSITORY_OWNER_EMAIL"@[16]);
    lemma_last_value_single("PUSH_REPOSITORY_WATCHERS_COUNT"@, decimal(push.repository.watchers_count as nat), "PUSH_REPOSITORY_OWNER_EMAIL"@);
    assert("PUSH_REPOSITORY_WATCHERS_COUNT"@.len() != "PUSH_REPOSITORY_OWNER_EMAIL"@.len());
    lemma_last_value_single("PUSH_REPOSITORY_OPEN_ISSUES_COUNT"@, decimal(push.repository.open_issues_count as nat), "PUSH_REPOSITORY_OWNER_EMAIL"@);
    assert("PUSH_REPOSITORY_OPEN_ISSUES_COUNT"@.len() != "PUSH_REPOSITORY_OWNER_EMAIL"@.len());
    lemma_last_value_single("PUSH_REPOSITORY_DEFAULT_BRANCH"@, push.repository.default_branch@, "PUSH_REPOSITORY_OWNER_EMAIL"@);
    assert("PUSH_REPOSITORY_DEFAULT_BRANCH"@.len() != "PUSH_REPOSITORY_OWNER_EMAIL"@.len());
    lemma_last_value_concat(push_event_env_part1(push), push_event_env_part2(push), "PUSH_REPOSITORY_OWNER_EMAIL"@);
    lemma_last_value_concat(seq![("PUSH_SENDER_EMAIL"@, push.sender.email@)] + seq![("PUSH_SENDER_AVATAR_URL"@, push.sender.avatar_url@)] + seq![("PUSH_SENDER_USERNAME"@, push.sender.username@)] + seq![("PUSH_REPOSITORY_ID"@, decimal(push.repository.id as nat))] + seq![("PUSH_REPOSITORY_OWNER_ID"@, decimal(push.repository.owner.id as nat))] + seq![("PUSH_REPOSITORY_OWNER_LOGIN"@, push.repository.owner.login@)] + seq![("PUSH_REPOSITORY_OWNER_FULL_NAME"@, push.repository.owner.full_name@)] + seq![("PUSH_REPOSITORY_OWNER_EMAIL"@, push.repository.owner.email@)] + seq![("PUSH_REPOSITORY_OWNER_AVATAR_URL"@, push.repository.owner.avatar_url@)] + seq![("PUSH_REPOSITORY_OWNER_USERNAME"@, push.repository.owner.username@)] + seq![("PUSH_REPOSITORY_NAME"@, push.repository.name@)], seq![("PUSH_REPOSITORY_FULL_NAME"@, push.repository.full_name@)], "PUSH_REPOSITORY_OWNER_EMAIL"@);
    lemma_last_value_single("PUSH_REPOSITORY_FULL_NAME"@, push.repository.full_name@, "PUSH_REPOSITORY_OWNER_EMAIL"@);
    assert("PUSH_REPOSITORY_FULL_NAME"@.len() != "PUSH_REPOSITORY_OWNER_EMAIL"@.len());
    lemma_last_value_concat(seq![("PUSH_SENDER_EMAIL"@, push.sender.email@)] + seq![("PUSH_SENDER_AVATAR_URL"@, push.sender.avatar_url@)] + seq![("PUSH_SENDER_USERNAME"@, push.sender.username@)] + seq![("PUSH_REPOSITORY_ID"@, decimal(push.repository.id as nat))] + seq![("PUSH_REPOSITORY_OWNER_ID"@, decimal(push.repository.owner.id as nat))] + seq![("PUSH_REPOSITORY_OWNER_LOGIN"@, push.repository.owner.login@)] + seq![("PUSH_REPOSITORY_OWNER_FULL_NAME"@, push.repository.owner.full_name@)] + seq![("PUSH_REPOSITORY_OWNER_EMAIL"@, push.repository.owner.email@)] + seq![("PUSH_REPOSITORY_OWNER_AVATAR_URL"@, push.repository.owner.avatar_url@)] + seq![("PUSH_REPOSITORY_OWNER_USERNAME"@, push.repository.owner.username@)], seq![("PUSH_REPOSITORY_NAME"@, push.repository.name@)], "PUSH_REPOSITORY_OWNER_EMAIL"@);
    lemma_last_value_single("PUSH_REPOSITORY_NAME"@, push.repository.name@, "PUSH_REPOSITORY_OWNER_EMAIL"@);
    assert("PUSH_REPOSITORY_NAME"@.len() != "PUSH_REPOSITORY_OWNER_EMAIL"@.len());
    lemma_last_value_concat(seq![("PUSH_SENDER_EMAIL"@, push.sender.email@)] + seq![("PUSH_SENDER_AVATAR_URL"@, push.sender.avatar_url@)] + seq![("PUSH_SENDER_USERNAME"@, push.sender.username@)] + seq![("PUSH_REPOSITORY_ID"@, decimal(push.repository.id as nat))] + seq![("PUSH_REPOSITORY_OWNER_ID"@, decimal(push.repository.owner.id as nat))] + seq![("PUSH_REPOSITORY_OWNER_LOGIN"@, push.repository.owner.login@)] + seq![("PUSH_REPOSITORY_OWNER_FULL_NAME"@, push.repository.owner.full_name@)] + seq![("PUSH_REPOSITORY_OWNER_EMAIL"@, push.repository.owner.email@)] + seq![("PUSH_REPOSITORY_OWNER_AVATAR_URL"@, push.repository.owner.avatar_url@)], seq![("PUSH_REPOSITORY_OWNER_USERNAME"@, push.repository.owner.username@)], "PUSH_REPOSITORY_OWNER_EMAIL"@);
    lemma_last_value_single("PUSH_REPOSITORY_OWNER_USERNAME"@, push.repository.owner.username@, "PUSH_REPOSITORY_OWNER_EMAIL"@);
    assert("PUSH_REPOSITORY_OWNER_USERNAME"@.len() != "PUSH_REPOSITORY_OWNER_EMAIL"@.len());
    lemma_last_value_concat(seq![("PUSH_SENDER_EMAIL"@, push.sender.email@)] + seq![("PUSH_SENDER_AVATAR_URL"@, push.sender.avatar_url@)] + seq![("PUSH_SENDER_USERNAME"@, push.sender.username@)] + seq![("PUSH_REPOSITORY_ID"@, decimal(push.repository.id as nat))] + seq![("PUSH_REPOSITORY_OWNER_ID"@, decimal(push.repository.owner.id as nat))] + seq![("PUSH_REPOSITORY_OWNER_LOGIN"@, push.repository.owner.login@)] + seq![("PUSH_REPOSITORY_OWNER_FULL_NAME"@, push.repository.owner.full_name@)] + seq![("PUSH_REPOSITORY_OWNER_EMAIL"@, push.repository.owner.email@)], seq![("PUSH_REPOSITORY_OWNER_AVATAR_URL"@, push.repository.owner.avatar_url@)], "PUSH_REPOSITORY_OWNER_EMAIL"@);
    lemma_last_value_single("PUSH_REPOSITORY_OWNER_AVATAR_URL"@, push.repository.owner.avatar_url@, "PUSH_REPOSITORY_OWNER_EMAIL"@);
    assert("PUSH_REPOSITORY_OWNER_AVATAR_URL"@.len() != "PUSH_REPOSITORY_OWNER_EMAIL"@.len());
    lemma_last_value_concat(seq![("PUSH_SENDER_EMAIL"@, push.sender.email@)] + seq![("PUSH_SENDER_AVATAR_URL"@, push.sender.avatar_url@)] + seq![("PUSH_SENDER_USERNAME"@, push.sender.username@)] + seq![("PUSH_REPOSITORY_ID"@, decimal(push.repository.id as nat))] + seq![("PUSH_REPOSITORY_OWNER_ID"@, decimal(push.repository.owner.id as nat))] + seq![("PUSH_REPOSITORY_OWNER_LOGIN"@, push.repository.owner.login@)] + seq![("PUSH_REPOSITORY_OWNER_FULL_NAME"@, push.repository.owner.full_name@)], seq![("PUSH_REPOSITORY_OWNER_EMAIL"@, push.repository.owner.email@)], "PUSH_REPOSITORY_OWNER_EMAIL"@);
    lemma_last_value_single("PUSH_REPOSITORY_OWNER_EMAIL"@, push.repository.owner.email@, "PUSH_REPOSITORY_OWNER_EMAIL"@);
}

/// The command that answers a push leaves the push's repository owner avatar url in PUSH_REPOSITORY_OWNER_AVATAR_URL.
pub proof fn lemma_push_event_repository_owner_avatar_url(push: PushEvent)
    ensures
        last_value(push_event_command(push).envs, "PUSH_REPOSITORY_OWNER_AVATAR_URL"@) == Some(push.repository.owner.avatar_url@),
{
    reveal_strlit("PUSH_REF_PATH");
    reveal_strlit("PUSH_BEFORE");
    reveal_strlit("PUSH_AFTER");
    reveal_strlit("PUSH_PUSHER_ID");
    reveal_strlit("PUSH_PUSHER_LOGIN");
    reveal_strlit("PUSH_PUSHER_FULL_NAME");
    reveal_strlit("PUSH_PUSHER_EMAIL");
    reveal_strlit("PUSH_PUSHER_AVATAR_URL");
    reveal_strlit("PUSH_PUSHER_USERNAME");
    reveal_strlit("PUSH_SENDER_ID");
    reveal_strlit("PUSH_SENDER_LOGIN");
    reveal_strlit("PUSH_SENDER_FULL_NAME");
    reveal_strlit("PUSH_SENDER_EMAIL");
    reveal_strlit("PUSH_SENDER_AVATAR_URL");
    reveal_strlit("PUSH_SENDER_USERNAME");
    reveal_strlit("PUSH_REPOSITORY_ID");
    reveal_strlit("PUSH_REPOSITORY_OWNER_ID");
    reveal_strlit("PUSH_REPOSITORY_OWNER_LOGIN");
    reveal_strlit("PUSH_REPOSITORY_OWNER_FULL_NAME");
    reveal_strlit("PUSH_REPOSITORY_OWNER_EMAIL");
    reveal_strlit("PUSH_REPOSITORY_OWNER_AVATAR_URL");
    reveal_strlit("PUSH_REPOSITORY_OWNER_USERNAME");
    reveal_strlit("PUSH_REPOSITORY_NAME");
    reveal_strlit("PUSH_REPOSITORY_FULL_NAME");
    reveal_strlit("PUSH_REPOSITORY_DESCRIPTION");
    reveal_strlit("PUSH_REPOSITORY_PRIVATE");
    reveal_strlit("PUSH_REPOSITORY_FORK");
    reveal_strlit("PUSH_REPOSITORY_HTML_URL");
    reveal_strlit("PUSH_REPOSITORY_SSH_URL");
    reveal_strlit("PUSH_REPOSITORY_CLONE_URL");
    reveal_strlit("PUSH_REPOSITORY_WEBSITE");
    reveal_strlit("PUSH_REPOSITORY_STARS_COUNT");
    reveal_strlit("PUSH_REPOSITORY_FORKS_COUNT");
    reveal_strlit("PUSH_REPOSITORY_WATCHERS_COUNT");
    reveal_strlit("PUSH_REPOSITORY_OPEN_ISSUES_COUNT");
    reveal_strlit("PUSH_REPOSITORY_DEFAULT_BRANCH");
    reveal_strlit("PUSH_REPOSITORY_CREATED_AT");
    reveal_strlit("PUSH_REPOSITORY_UPDATED_AT");
    lemma_last_value_concat(push_event_env_part1(push) + push_event_env_part2(push) + push_event_env_part3(push), push_event_env_part4(push), "PUSH_REPOSITORY_OWNER_AVATAR_URL"@);
    lemma_last_value_concat(seq![("PUSH_REPOSITORY_CREATED_AT"@, push.repository.created_at@)], seq![("PUSH_REPOSITORY_UPDATED_AT"@, push.repository.updated_at@)], "PUSH_REPOSITORY_OWNER_AVATAR_URL"@);
    lemma_last_value_single("PUSH_REPOSITORY_CREATED_AT"@, push.repository.created_at@, "PUSH_REPOSITORY_OWNER_AVATAR_URL"@);
    assert("PUSH_REPOSITORY_CREATED_AT"@.len() != "PUSH_REPOSITORY_OWNER_AVATAR_URL"@.len());
    lemma_last_value_single("PUSH_REPOSITORY_UPDATED_AT"@, push.repository.updated_at@, "PUSH_REPOSITORY_OWNER_AVATAR_URL"@);
    assert("PUSH_REPOSITORY_UPDATED_AT"@.len() != "PUSH_REPOSITORY_OWNER_AVATAR_URL"@.len());
    lemma_last_value_concat(push_event_env_part1(push) + push_event_env_part2(push), push_event_env_part3(push), "PUSH_REPOSITORY_OWNER_AVATAR_URL"@);
    lemma_last_value_concat(seq![("PUSH_REPOSITORY_DESCRIPTION"@, push.repository.description@)] + seq![("PUSH_REPOSITORY_PRIVATE"@, bool_text(push.repository.private))] + seq![("PUSH_REPOSITORY_FORK"@, bool_text(push.repository.fork))] + seq![("PUSH_REPOSITORY_HTML_URL"@, push.repository.html_url@)] + seq![("PUSH_REPOSITORY_SSH_URL"@, push.repository.ssh_url@)] + seq![("PUSH_REPOSITORY_CLONE_URL"@, push.repository.clone_url@)] + seq![("PUSH_REPOSITORY_WEBSITE"@, push.repository.website@)] + seq![("PUSH_REPOSITORY_STARS_COUNT"@, decimal(push.repository.stars_count as nat))] + seq![("PUSH_REPOSITORY_FORKS_COUNT"@, decimal(push.repository.forks_count as nat))] + seq![("PUSH_REPOSITORY_WATCHERS_COUNT"@, decimal(push.repository.watchers_count as nat))] + seq![("PUSH_REPOSITORY_OPEN_ISSUES_COUNT"@, decimal(push.repository.open_issues_count as nat))], seq![("PUSH_REPOSITORY_DEFAULT_BRANCH"@, push.repository.default_branch@)], "PUSH_REPOSITORY_OWNER_AVATAR_URL"@);
    lemma_last_value_concat(seq![("PUSH_REPOSITORY_DESCRIPTION"@, push.repository.description@)] + seq![("PUSH_REPOSITORY_PRIVATE"@, bool_text(push.repository.private))] + seq![("PUSH_REPOSITORY_FORK"@, bool_text(push.repository.fork))] + seq![("PUSH_REPOSITORY_HTML_URL"@, push.repository.html_url@)] + seq![("PUSH_REPOSITORY_SSH_URL"@, push.repository.ssh_url@)] + seq![("PUSH_REPOSITORY_CLONE_URL"@, push.repository.clone_url@)] + seq![("PUSH_REPOSITORY_WEBSITE"@, push.repository.website@)] + seq![("PUSH_REPOSITORY_STARS_COUNT"@, decimal(push.repository.stars_count as nat))] + seq![("PUSH_REPOSITORY_FORKS_COUNT"@, decimal(push.repository.forks_count as nat))] + seq![("PUSH_REPOSITORY_WATCHERS_COUNT"@, decimal(push.repository.watchers_count as nat))], seq![("PUSH_REPOSITORY_OPEN_ISSUES_COUNT"@, decimal(push.repository.open_issues_count as nat))], "PUSH_REPOSITORY_OWNER_AVATAR_URL"@);
    lemma_last_value_concat(seq![("PUSH_REPOSITORY_DESCRIPTION"@, push.repository.description@)] + seq![("PUSH_REPOSITORY_PRIVATE"@, bool_text(push.repository.private))] + seq![("PUSH_REPOSITORY_FORK"@, bool_text(push.repository.fork))] + seq![("PUSH_REPOSITORY_HTML_URL"@, push.repository.html_url@)] + seq![("PUSH_REPOSITORY_SSH_URL"@, push.repository.ssh_url@)] + seq![("PUSH_REPOSITORY_CLONE_URL"@, push.repository.clone_url@)] + seq![("PUSH_REPOSITORY_WEBSITE"@, push.repository.website@)] + seq![("PUSH_REPOSITORY_STARS_COUNT"@, decimal(push.repository.stars_count as nat))] + seq![("PUSH_REPOSITORY_FORKS_COUNT"@, decimal(push.repository.forks_count as nat))], seq![("PUSH_REPOSITORY_WATCHERS_COUNT"@, decimal(push.repository.watchers_count as nat))], "PUSH_REPOSITORY_OWNER_AVATAR_URL"@);
    lemma_last_value_concat(seq![("PUSH_REPOSITORY_DESCRIPTION"@, push.repository.description@)] + seq![("PUSH_REPOSITORY_PRIVATE"@, bool_text(push.repository.private))] + seq![("PUSH_REPOSITORY_FORK"@, bool_text(push.repository.fork))] + seq![("PUSH_REPOSITORY_HTML_URL"@, push.repository.html_url@)] + seq![("PUSH_REPOSITORY_SSH_URL"@, push.repository.ssh_url@)] + seq![("PUSH_REPOSITORY_CLONE_URL"@, push.repository.clone_url@)] + seq![("PUSH_REPOSITORY_WEBSITE"@, push.repository.website@)] + seq![("PUSH_REPOSITORY_STARS_COUNT"@, decimal(push.repository.stars_count as nat))], seq![("PUSH_REPOSITORY_FORKS_COUNT"@, decimal(push.repository.forks_count as nat))], "PUSH_REPOSITORY_OWNER_AVATAR_URL"@);
    lemma_last_value_concat(seq![("PUSH_REPOSITORY_DESCRIPTION"@, push.repository.description@)] + seq![("PUSH_REPOSITORY_PRIVATE"@, bool_text(push.repository.private))] + seq![("PUSH_REPOSITORY_FORK"@, bool_text(push.repository.fork))] + seq![("PUSH_REPOSITORY_HTML_URL"@, push.repository.html_url@)] + seq![("PUSH_REPOSITORY_SSH_URL"@, push.repository.ssh_url@)] + seq![("PUSH_REPOSITORY_CLONE_URL"@, push.repository.clone_url@)] + seq![("PUSH_REPOSITORY_WEBSITE"@, push.repository.website@)], seq![("PUSH_REPOSITORY_STARS_COUNT"@, decimal(push.repository.stars_count as nat))], "PUSH_REPOSITORY_OWNER_AVATAR_URL"@);
    lemma_last_value_concat(seq![("PUSH_REPOSITORY_DESCRIPTION"@, push.repository.description@)] + seq![("PUSH_REPOSITORY_PRIVATE"@, bool_text(push.repository.private))] + seq![("PUSH_REPOSITORY_FORK"@, bool_text(push.repository.fork))] + seq![("PUSH_REPOSITORY_HTML_URL"@, push.repository.html_url@)] + seq![("PUSH_REPOSITORY_SSH_URL"@, push.repository.ssh_url@)] + seq![("PUSH_REPOSITORY_CLONE_URL"@, push.repository.clone_url@)], seq![("PUSH_REPOSITORY_WEBSITE"@, push.repository.website@)], "PUSH_REPOSITORY_OWNER_AVATAR_URL"@);
    lemma_last_value_concat(seq![("PUSH_REPOSITORY_DESCRIPTION"@, push.repository.description@)] + seq![("PUSH_REPOSITORY_PRIVATE"@, bool_text(push.repository.private))] + seq![("PUSH_REPOSITORY_FORK"@, bool_text(push.repository.fork))] + seq![("PUSH_REPOSITORY_HTML_URL"@, push.repository.html_url@)] + seq![("PUSH_REPOSITORY_SSH_URL"@, push.repository.ssh_url@)], seq![("PUSH_REPOSITORY_CLONE_URL"@, push.repository.clone_url@)], "PUSH_REPOSITORY_OWNER_AVATAR_URL"@);
    lemma_last_value_concat(seq![("PUSH_REPOSITORY_DESCRIPTION"@, push.repository.description@)] + seq![("PUSH_REPOSITORY_PRIVATE"@, bool_text(push.repository.private))] + seq![("PUSH_REPOSITORY_FORK"@, bool_text(push.repository.fork))] + seq![("PUSH_REPOSITORY_HTML_URL"@, push.repository.html_url@)], seq![("PUSH_REPOSITORY_SSH_URL"@, push.repository.ssh_url@)], "PUSH_REPOSITORY_OWNER_AVATAR_URL"@);
    lemma_last_value_concat(seq![("PUSH_REPOSITORY_DESCRIPTION"@, push.repository.description@)] + seq![("PUSH_REPOSITORY_PRIVATE"@, bool_text(push.repository.private))] + seq![("PUSH_REPOSITORY_FORK"@, bool_text(push.repository.fork))], seq![("PUSH_REPOSITORY_HTML_URL"@, push.repository.html_url@)], "PUSH_REPOSITORY_OWNER_AVATAR_URL"@);
    lemma_last_value_concat(seq![("PUSH_REPOSITORY_DESCRIPTION"@, push.repository.description@)] + seq![("PUSH_REPOSITORY_PRIVATE"@, bool_text(push.repository.private))], seq![("PUSH_REPOSITORY_FORK"@, bool_text(push.repository.fork))], "PUSH_REPOSITORY_OWNER_AVATAR_URL"@);
    lemma_last_value_concat(seq![("PUSH_REPOSITORY_DESCRIPTION"@, push.repository.description@)], seq![("PUSH_REPOSITORY_PRIVATE"@, bool_text(push.repository.private))], "PUSH_REPOSITORY_OWNER_AVATAR_URL"@);
    lemma_last_value_single("PUSH_REPOSITORY_DESCRIPTION"@, push.repository.description@, "PUSH_REPOSITORY_OWNER_AVATAR_URL"@);
    assert("PUSH_REPOSITORY_DESCRIPTION"@.len() != "PUSH_REPOSITORY_OWNER_AVATAR_URL"@.len());
    lemma_last_value_single("PUSH_REPOSITORY_PRIVATE"@, bool_text(push.repository.private), "PUSH_REPOSITORY_OWNER_AVATAR_URL"@);
    assert("PUSH_REPOSITORY_PRIVATE"@.len() != "PUSH_REPOSITORY_OWNER_AVATAR_URL"@.len());
    lemma_last_value_single("PUSH_REPOSITORY_FORK"@, bool_text(push.repository.fork), "PUSH_REPOSITORY_OWNER_AVATAR_URL"@);
    assert("PUSH_REPOSITORY_FORK"@.len() != "PUSH_REPOSITORY_OWNER_AVATAR_URL"@.len());
    lemma_last_value_single("PUSH_REPOSITORY_HTML_URL"@, push.repository.html_url@, "PUSH_REPOSITORY_OWNER_AVATAR_URL"@);
    assert("PUSH_REPOSITORY_HTML_URL"@.len() != "PUSH_REPOSITORY_OWNER_AVATAR_URL"@.len());
    lemma_last_value_single("PUSH_REPOSITORY_SSH_URL"@, push.repository.ssh_url@, "PUSH_REPOSITORY_OWNER_AVATAR_URL"@);
    assert("PUSH_REPOSITORY_SSH_URL"@.len() != "PUSH_REPOSITORY_OWNER_AVATAR_URL"@.len());
    lemma_last_value_single("PUSH_REPOSITORY_CLONE_URL"@, push.repository.clone_url@, "PUSH_REPOSITORY_OWNER_AVATAR_URL"@);
    assert("PUSH_REPOSITORY_CLONE_URL"@.len() != "PUSH_REPOSITORY_OWNER_AVATAR_URL"@.len());
    lemma_last_value_single("PUSH_REPOSITORY_WEBSITE"@, push.repository.website@, "PUSH_REPOSITORY_OWNER_AVATAR_URL"@);
    assert("PUSH_REPOSITORY_WEBSITE"@.len() != "PUSH_REPOSITORY_OWNER_AVATAR_URL"@.len());
    lemma_last_value_single("PUSH_REPOSITORY_STARS_COUNT"@, decimal(push.repository.stars_count as nat), "PUSH_REPOSITORY_OWNER_AVATAR_URL"@);
    assert("PUSH_REPOSITORY_STARS_COUNT"@.len() != "PUSH_REPOSITORY_OWNER_AVATAR_URL"@.len());
    lemma_last_value_single("PUSH_REPOSITORY_FORKS_COUNT"@, decimal(push.repository.forks_count as nat), "PUSH_REPOSITORY_OWNER_AVATAR_URL"@);
    assert("PUSH_REPOSITORY_FORKS_COUNT"@.len() != "PUSH_REPOSITORY_OWNER_AVATAR_URL"@.len());
    lemma_last_value_single("PUSH_REPOSITORY_WATCHERS_COUNT"@, decimal(push.repository.watchers_count as nat), "PUSH_REPOSITORY_OWNER_AVATAR_URL"@);
    assert("PUSH_REPOSITORY_WATCHERS_COUNT"@.len() != "PUSH_REPOSITORY_OWNER_AVATAR_URL"@.len());
    lemma_last_value_single("PUSH_REPOSITORY_OPEN_ISSUES_COUNT"@, decimal(push.repository.open_issues_count as nat), "PUSH_REPOSITORY_OWNER_AVATAR_URL"@);
    assert("PUSH_REPOSITORY_OPEN_ISSUES_COUNT"@.len() != "PUSH_REPOSITORY_OWNER_AVATAR_URL"@.len());
    lemma_last_value_single("PUSH_REPOSITORY_DEFAULT_BRANCH"@, push.repository.default_branch@, "PUSH_REPOSITORY_OWNER_AVATAR_URL"@);
    assert("PUSH_REPOSITORY_DEFAULT_BRANCH"@.len() != "PUSH_REPOSITORY_OWNER_AVATAR_URL"@.len());
    lemma_last_value_concat(push_event_env_part1(push), push_event_env_part2(push), "PUSH_REPOSITORY_OWNER_AVATAR_URL"@);
    lemma_last_value_concat(seq![("PUSH_SENDER_EMAIL"@, push.sender.email@)] + seq![("PUSH_SENDER_AVATAR_URL"@, push.sender.avatar_url@)] + seq![("PUSH_SENDER_USERNAME"@, push.sender.username@)] + seq![("PUSH_REPOSITORY_ID"@, decimal(push.repository.id as nat))] + seq![("PUSH_REPOSITORY_OWNER_ID"@, decimal(push.repository.owner.id as nat))] + seq![("PUSH_REPOSITORY_OWNER_LOGIN"@, push.repository.owner.login@)] + seq![("PUSH_REPOSITORY_OWNER_FULL_NAME"@, push.repository.owner.full_name@)] + seq![("PUSH_REPOSITORY_OWNER_EMAIL"@, push.repository.owner.email@)] + seq![("PUSH_REPOSITORY_OWNER_AVATAR_URL"@, push.repository.owner.avatar_url@)] + seq![("PUSH_REPOSITORY_OWNER_USERNAME"@, push.repository.owner.username@)] + seq![("PUSH_REPOSITORY_NAME"@, push.repository.name@)], seq![("PUSH_REPOSITORY_FULL_NAME"@, push.repository.full_name@)], "PUSH_REPOSITORY_OWNER_AVATAR_URL"@);
    lemma_last_value_single("PUSH_REPOSITORY_FULL_NAME"@, push.repository.full_name@, "PUSH_REPOSITORY_OWNER_AVATAR_URL"@);
    assert("PUSH_REPOSITORY_FULL_NAME"@.len() != "PUSH_REPOSITORY_OWNER_AVATAR_URL"@.len());
    lemma_last_value_concat(seq![("PUSH_SENDER_EMAIL"@, push.sender.email@)] + seq![("PUSH_SENDER_AVATAR_URL"@, push.sender.avatar_url@)] + seq![("PUSH_SENDER_USERNAME"@, push.sender.username@)] + seq![("PUSH_REPOSITORY_ID"@, decimal(push.repository.id as nat))] + seq![("PUSH_REPOSITORY_OWNER_ID"@, decimal(push.repository.owner.id as nat))] + seq![("PUSH_REPOSITORY_OWNER_LOGIN"@, push.repository.owner.login@)] + seq![("PUSH_REPOSITORY_OWNER_FULL_NAME"@, push.repository.owner.full_name@)] + seq![("PUSH_REPOSITORY_OWNER_EMAIL"@, push.repository.owner.email@)] + seq![("PUSH_REPOSITORY_OWNER_AVATAR_URL"@, push.repository.owner.avatar_url@)] + seq![("PUSH_REPOSITORY_OWNER_USERNAME"@, push.repository.owner.username@)], seq![("PUSH_REPOSITORY_NAME"@, push.repository.name@)], "PUSH_REPOSITORY_OWNER_AVATAR_URL"@);
    lemma_last_value_single("PUSH_REPOSITORY_NAME"@, push.repository.name@, "PUSH_REPOSITORY_OWNER_AVATAR_URL"@);
    assert("PUSH_REPOSITORY_NAME"@.len() != "PUSH_REPOSITORY_OWNER_AVATAR_URL"@.len());
    lemma_last_value_concat(seq![("PUSH_SENDER_EMAIL"@, push.sender.email@)] + seq![("PUSH_SENDER_AVATAR_URL"@, push.sender.avatar_url@)] + seq![("PUSH_SENDER_USERNAME"@, push.sender.username@)] + seq![("PUSH_REPOSITORY_ID"@, decimal(push.repository.id as nat))] + seq![("PUSH_REPOSITORY_OWNER_ID"@, decimal(push.repository.owner.id as nat))] + seq![("PUSH_REPOSITORY_OWNER_LOGIN"@, push.repository.owner.login@)] + seq![("PUSH_REPOSITORY_OWNER_FULL_NAME"@, push.repository.owner.full_name@)] + seq![("PUSH_REPOSITORY_OWNER_EMAIL"@, push.repository.owner.email@)] + seq![("PUSH_REPOSITORY_OWNER_AVATAR_URL"@, push.repository.owner.avatar_url@)], seq![("PUSH_REPOSITORY_OWNER_USERNAME"@, push.repository.owner.username@)], "PUSH_REPOSITORY_OWNER_AVATAR_URL"@);
    lemma_last_value_single("PUSH_REPOSITORY_OWNER_USERNAME"@, push.repository.owner.username@, "PUSH_REPOSITORY_OWNER_AVATAR_URL"@);
    assert("PUSH_REPOSITORY_OWNER_USERNAME"@.len() != "PUSH_REPOSITORY_OWNER_AVATAR_URL"@.len());
    lemma_last_value_concat(seq![("PUSH_SENDER_EMAIL"@, push.sender.email@)] + seq![("PUSH_SENDER_AVATAR_URL"@, push.sender.avatar_url@)] + seq![("PUSH_SENDER_USERNAME"@, push.sender.username@)] + seq![("PUSH_REPOSITORY_ID"@, decimal(push.repository.id as nat))] + seq![("PUSH_REPOSITORY_OWNER_ID"@, decimal(push.repository.owner.id as nat))] + seq![("PUSH_REPOSITORY_OWNER_LOGIN"@, push.repository.owner.login@)] + seq![("PUSH_REPOSITORY_OWNER_FULL_NAME"@, push.repository.owner.full_name@)] + seq![("PUSH_REPOSITORY_OWNER_EMAIL"@, push.repository.owner.email@)], seq![("PUSH_REPOSITORY_OWNER_AVATAR_URL"@, push.repository.owner.avatar_url@)], "PUSH_REPOSITORY_OWNER_AVATAR_URL"@);
    lemma_last_value_single("PUSH_REPOSITORY_OWNER_AVATAR_URL"@, push.repository.owner.avatar_url@, "PUSH_REPOSITORY_OWNER_AVATAR_URL"@);
}

/// The command that answers a push leaves the push's repository owner username in PUSH_REPOSITORY_OWNER_USERNAME.
pub proof fn lemma_push_event_repository_owner_username(push: PushEvent)
    ensures
        last_value(push_event_command(push).envs, "PUSH_REPOSITORY_OWNER_USERNAME"@) == Some(push.repository.owner.username@),
{
    reveal_strlit("PUSH_REF_PATH");
    reveal_strlit("PUSH_BEFORE");
    reveal_strlit("PUSH_AFTER");
    reveal_strlit("PUSH_PUSHER_ID");
    reveal_strlit("PUSH_PUSHER_LOGIN");
    reveal_strlit("PUSH_PUSHER_FULL_NAME");
    reveal_strlit("PUSH_PUSHER_EMAIL");
    reveal_strlit("PUSH_PUSHER_AVATAR_URL");
    reveal_strlit("PUSH_PUSHER_USERNAME");
    reveal_strlit("PUSH_SENDER_ID");
    reveal_strlit("PUSH_SENDER_LOGIN");
    reveal_strlit("PUSH_SENDER_FULL_NAME");
    reveal_strlit("PUSH_SENDER_EMAIL");
    reveal_strlit("PUSH_SENDER_AVATAR_URL");
    reveal_strlit("PUSH_SENDER_USERNAME");
    reveal_strlit("PUSH_REPOSITORY_ID");
    reveal_strlit("PUSH_REPOSITORY_OWNER_ID");
    reveal_strlit("PUSH_REPOSITORY_OWNER_LOGIN");
    reveal_strlit("PUSH_REPOSITORY_OWNER_FULL_NAME");
    reveal_strlit("PUSH_REPOSITORY_OWNER_EMAIL");
    reveal_strlit("PUSH_REPOSITORY_OWNER_AVATAR_URL");
    reveal_strlit("PUSH_REPOSITORY_OWNER_USERNAME");
    reveal_strlit("PUSH_REPOSITORY_NAME");
    reveal_strlit("PUSH_REPOSITORY_FULL_NAME");
    reveal_strlit("PUSH_REPOSITORY_DESCRIPTION");
    reveal_strlit("PUSH_REPOSITORY_PRIVATE");
    reveal_strlit("PUSH_REPOSITORY_FORK");
    reveal_strlit("PUSH_REPOSITORY_HTML_URL");
    reveal_strlit("PUSH_REPOSITORY_SSH_URL");
    reveal_strlit("PUSH_REPOSITORY_CLONE_URL");
    reveal_strlit("PUSH_REPOSITORY_WEBSITE");
    reveal_strlit("PUSH_REPOSITORY_STARS_COUNT");
    reveal_strlit("PUSH_REPOSITORY_FORKS_COUNT");
    reveal_strlit("PUSH_REPOSITORY_WATCHERS_COUNT");
    reveal_strlit("PUSH_REPOSITORY_OPEN_ISSUES_COUNT");
    reveal_strlit("PUSH_REPOSITORY_DEFAULT_BRANCH");
    reveal_strlit("PUSH_REPOSITORY_CREATED_AT");
    reveal_strlit("PUSH_REPOSITORY_UPDATED_AT");
    lemma_last_value_concat(push_event_env_part1(push) + push_event_env_part2(push) + push_event_env_part3(push), push_event_env_part4(push), "PUSH_REPOSITORY_OWNER_USERNAME"@);
    lemma_last_value_concat(seq![("PUSH_REPOSITORY_CREATED_AT"@, push.repository.created_at@)], seq![("PUSH_REPOSITORY_UPDATED_AT"@, push.repository.updated_at@)], "PUSH_REPOSITORY_OWNER_USERNAME"@);
    lemma_last_value_single("PUSH_REPOSITORY_CREATED_AT"@, push.repository.created_at@, "PUSH_REPOSITORY_OWNER_USERNAME"@);
    assert("PUSH_REPOSITORY_CREATED_AT"@.len() != "PUSH_REPOSITORY_OWNER_USERNAME"@.len());
    lemma_last_value_single("PUSH_REPOSITORY_UPDATED_AT"@, push.repository.updated_at@, "PUSH_REPOSITORY_OWNER_USERNAME"@);
    assert("PUSH_REPOSITORY_UPDATED_AT"@.len() != "PUSH_REPOSITORY_OWNER_USERNAME"@.len());
    lemma_last_value_concat(push_event_env_part1(push) + push_event_env_part2(push), push_event_env_part3(push), "PUSH_REPOSITORY_OWNER_USERNAME"@);
    lemma_last_value_concat(seq![("PUSH_REPOSITORY_DESCRIPTION"@, push.repository.description@)] + seq![("PUSH_REPOSITORY_PRIVATE"@, bool_text(push.repository.private))] + seq![("PUSH_REPOSITORY_FORK"@, bool_text(push.repository.fork))] + seq![("PUSH_REPOSITORY_HTML_URL"@, push.repository.html_url@)] + seq![("PUSH_REPOSITORY_SSH_URL"@, push.repository.ssh_url@)] + seq![("PUSH_REPOSITORY_CLONE_URL"@, push.repository.clone_url@)] + seq![("PUSH_REPOSITORY_WEBSITE"@, push.repository.website@)] + seq![("PUSH_REPOSITORY_STARS_COUNT"@, decimal(push.repository.stars_count as nat))] + seq![("PUSH_REPOSITORY_FORKS_COUNT"@, decimal(push.repository.forks_count as nat))] + seq![("PUSH_REPOSITORY_WATCHERS_COUNT"@, decimal(push.repository.watchers_count as nat))] + seq![("PUSH_REPOSITORY_OPEN_ISSUES_COUNT"@, decimal(push.repository.open_issues_count as nat))], seq![("PUSH_REPOSITORY_DEFAULT_BRANCH"@, push.repository.default_branch@)], "PUSH_REPOSITORY_OWNER_USERNAME"@);
    lemma_last_value_concat(seq![("PUSH_REPOSITORY_DESCRIPTION"@, push.repository.description@)] + seq![("PUSH_REPOSITORY_PRIVATE"@, bool_text(push.repository.private))] + seq![("PUSH_REPOSITORY_FORK"@, bool_text(push.repository.fork))] + seq![("PUSH_REPOSITORY_HTML_URL"@, push.repository.html_url@)] + seq![("PUSH_REPOSITORY_SSH_URL"@, push.repository.ssh_url@)] + seq![("PUSH_REPOSITORY_CLONE_URL"@, push.repository.clone_url@)] + seq![("PUSH_REPOSITORY_WEBSITE"@, push.repository.website@)] + seq![("PUSH_REPOSITORY_STARS_COUNT"@, decimal(push.repository.stars_count as nat))] + seq![("PUSH_REPOSITORY_FORKS_COUNT"@, decimal(push.repository.forks_count as nat))] + seq![("PUSH_REPOSITORY_WATCHERS_COUNT"@, decimal(push.repository.watchers_count as nat))], seq![("PUSH_REPOSITORY_OPEN_ISSUES_COUNT"@, decimal(push.repository.open_issues_count as nat))], "PUSH_REPOSITORY_OWNER_USERNAME"@);
    lemma_last_value_concat(seq![("PUSH_REPOSITORY_DESCRIPTION"@, push.repository.description@)] + seq![("PUSH_REPOSITORY_PRIVATE"@, bool_text(push.repository.private))] + seq![("PUSH_REPOSITORY_FORK"@, bool_text(push.repository.fork))] + seq![("PUSH_REPOSITORY_HTML_URL"@, push.repository.html_url@)] + seq![("PUSH_REPOSITORY_SSH_URL"@, push.repository.ssh_url@)] + seq![("PUSH_REPOSITORY_CLONE_URL"@, push.repository.clone_url@)] + seq![("PUSH_REPOSITORY_WEBSITE"@, push.repository.website@)] + seq![("PUSH_REPOSITORY_STARS_COUNT"@, decimal(push.repository.stars_count as nat))] + seq![("PUSH_REPOSITORY_FORKS_COUNT"@, decimal(push.repository.forks_count as nat))], seq![("PUSH_REPOSITORY_WATCHERS_COUNT"@, decimal(push.repository.watchers_count as nat))], "PUSH_REPOSITORY_OWNER_USERNAME"@);
    lemma_last_value_concat(seq![("PUSH_REPOSITORY_DESCRIPTION"@, push.repository.description@)] + seq![("PUSH_REPOSITORY_PRIVATE"@, bool_text(push.repository.private))] + seq![("PUSH_REPOSITORY_FORK"@, bool_text(push.repository.fork))] + seq![("PUSH_REPOSITORY_HTML_URL"@, push.repository.html_url@)] + seq![("PUSH_REPOSITORY_SSH_URL"@, push.repository.ssh_url@)] + seq![("PUSH_REPOSITORY_CLONE_URL"@, push.repository.clone_url@)] + seq![("PUSH_REPOSITORY_WEBSITE"@, push.repository.website@)] + seq![("PUSH_REPOSITORY_STARS_COUNT"@, decimal(push.repository.stars_count as nat))], seq![("PUSH_REPOSITORY_FORKS_COUNT"@, decimal(push.repository.forks_count as nat))], "PUSH_REPOSITORY_OWNER_USERNAME"@);
    lemma_last_value_concat(seq![("PUSH_REPOSITORY_DESCRIPTION"@, push.repository.description@)] + seq![("PUSH_REPOSITORY_PRIVATE"@, bool_text(push.repository.private))] + seq![("PUSH_REPOSITORY_FORK"@, bool_text(push.repository.fork))] + seq![("PUSH_REPOSITORY_HTML_URL"@, push.repository.html_url@)] + seq![("PUSH_REPOSITORY_SSH_URL"@, push.repository.ssh_url@)] + seq![("PUSH_REPOSITORY_CLONE_URL"@, push.repository.clone_url@)] + seq![("PUSH_REPOSITORY_WEBSITE"@, push.repository.website@)], seq![("PUSH_REPOSITORY_STARS_COUNT"@, decimal(push.repository.stars_count as nat))], "PUSH_REPOSITORY_OWNER_USERNAME"@);
    lemma_last_value_concat(seq![("PUSH_REPOSITORY_DESCRIPTION"@, push.repository.description@)] + seq![("PUSH_REPOSITORY_PRIVATE"@, bool_text(push.repository.private))] + seq![("PUSH_REPOSITORY_FORK"@, bool_text(push.repository.fork))] + seq![("PUSH_REPOSITORY_HTML_URL"@, push.repository.html_url@)] + seq![("PUSH_REPOSITORY_SSH_URL"@, push.repository.ssh_url@)] + seq![("PUSH_REPOSITORY_CLONE_URL"@, push.repository.clone_url@)], seq![("PUSH_REPOSITORY_WEBSITE"@, push.repository.website@)], "PUSH_REPOSITORY_OWNER_USERNAME"@);
    lemma_last_value_concat(seq![("PUSH_REPOSITORY_DESCRIPTION"@, push.repository.description@)] + seq![("PUSH_REPOSITORY_PRIVATE"@, bool_text(push.repository.private))] + seq![("PUSH_REPOSITORY_FORK"@, bool_text(push.repository.fork))] + seq![("PUSH_REPOSITORY_HTML_URL"@, push.repository.html_url@)] + seq![("PUSH_REPOSITORY_SSH_URL"@, push.repository.ssh_url@)], seq![("PUSH_REPOSITORY_CLONE_URL"@, push.repository.clone_url@)], "PUSH_REPOSITORY_OWNER_USERNAME"@);
    lemma_last_value_concat(seq![("PUSH_REPOSITORY_DESCRIPTION"@, push.repository.description@)] + seq![("PUSH_REPOSITORY_PRIVATE"@, bool_text(push.repository.private))] + seq![("PUSH_REPOSITORY_FORK"@, bool_text(push.repository.fork))] + seq![("PUSH_REPOSITORY_HTML_URL"@, push.repository.html_url@)], seq![("PUSH_REPOSITORY_SSH_URL"@, push.repository.ssh_url@)], "PUSH_REPOSITORY_OWNER_USERNAME"@);
    lemma_last_value_concat(seq![("PUSH_REPOSITORY_DESCRIPTION"@, push.repository.description@)] + seq![("PUSH_REPOSITORY_PRIVATE"@, bool_text(push.repository.private))] + seq![("PUSH_REPOSITORY_FORK"@, bool_text(push.repository.fork))], seq![("PUSH_REPOSITORY_HTML_URL"@, push.repository.html_url@)], "PUSH_REPOSITORY_OWNER_USERNAME"@);
    lemma_last_value_concat(seq![("PUSH_REPOSITORY_DESCRIPTION"@, push.repository.description@)] + seq![("PUSH_REPOSITORY_PRIVATE"@, bool_text(push.repository.private))], seq![("PUSH_REPOSITORY_FORK"@, bool_text(push.repository.fork))], "PUSH_REPOSITORY_OWNER_USERNAME"@);
    lemma_last_value_concat(seq![("PUSH_REPOSITORY_DESCRIPTION"@, push.repository.description@)], seq![("PUSH_REPOSITORY_PRIVATE"@, bool_text(push.repository.private))], "PUSH_REPOSITORY_OWNER_USERNAME"@);
    lemma_last_value_single("PUSH_REPOSITORY_DESCRIPTION"@, push.repository.description@, "PUSH_REPOSITORY_OWNER_USERNAME"@);
    assert("PUSH_REPOSITORY_DESCRIPTION"@.len() != "PUSH_REPOSITORY_OWNER_USERNAME"@.len());
    lemma_last_value_single("PUSH_REPOSITORY_PRIVATE"@, bool_text(push.repository.private), "PUSH_REPOSITORY_OWNER_USERNAME"@);
    assert("PUSH_REPOSITORY_PRIVATE"@.len() != "PUSH_REPOSITORY_OWNER_USERNAME"@.len());
    lemma_last_value_single("PUSH_REPOSITORY_FORK"@, bool_text(push.repository.fork), "PUSH_REPOSITORY_OWNER_USERNAME"@);
    assert("PUSH_REPOSITORY_FORK"@.len() != "PUSH_REPOSITORY_OWNER_USERNAME"@.len());
    lemma_last_value_single("PUSH_REPOSITORY_HTML_URL"@, push.repository.html_url@, "PUSH_REPOSITORY_OWNER_USERNAME"@);
    assert("PUSH_REPOSITORY_HTML_URL"@.len() != "PUSH_REPOSITORY_OWNER_USERNAME"@.len());
    lemma_last_value_single("PUSH_REPOSITORY_SSH_URL"@, push.repository.ssh_url@, "PUSH_REPOSITORY_OWNER_USERNAME"@);
    assert("PUSH_REPOSITORY_SSH_URL"@.len() != "PUSH_REPOSITORY_OWNER_USERNAME"@.len());
    lemma_last_value_single("PUSH_REPOSITORY_CLONE_URL"@, push.repository.clone_url@, "PUSH_REPOSITORY_OWNER_USERNAME"@);
    assert("PUSH_REPOSITORY_CLONE_URL"@.len() != "PUSH_REPOSITORY_OWNER_USERNAME"@.len());
    lemma_last_value_single("PUSH_REPOSITORY_WEBSITE"@, push.repository.website@, "PUSH_REPOSITORY_OWNER_USERNAME"@);
    assert("PUSH_REPOSITORY_WEBSITE"@.len() != "PUSH_REPOSITORY_OWNER_USERNAME"@.len());
    lemma_last_value_single("PUSH_REPOSITORY_STARS_COUNT"@, decimal(push.repository.stars_count as nat), "PUSH_REPOSITORY_OWNER_USERNAME"@);
    assert("PUSH_REPOSITORY_STARS_COUNT"@.len() != "PUSH_REPOSITORY_OWNER_USERNAME"@.len());
    lemma_last_value_single("PUSH_REPOSITORY_FORKS_COUNT"@, decimal(push.repository.forks_count as nat), "PUSH_REPOSITORY_OWNER_USERNAME"@);
    assert("PUSH_REPOSITORY_FORKS_COUNT"@.len() != "PUSH_REPOSITORY_OWNER_USERNAME"@.len());
    lemma_last_value_single("PUSH_REPOSITORY_WATCHERS_COUNT"@, decimal(push.repository.watchers_count as nat), "PUSH_REPOSITORY_OWNER_USERNAME"@);
    assert("PUSH_REPOSITORY_WATCHERS_COUNT"@[16] != "PUSH_REPOSITORY_OWNER_USERNAME"@[16]);
    lemma_last_value_single("PUSH_REPOSITORY_OPEN_ISSUES_COUNT"@, decimal(push.repository.open_issues_count as nat), "PUSH_REPOSITORY_OWNER_USERNAME"@);
    assert("PUSH_REPOSITORY_OPEN_ISSUES_COUNT"@.len() != "PUSH_REPOSITORY_OWNER_USERNAME"@.len());
    lemma_last_value_single("PUSH_REPOSITORY_DEFAULT_BRANCH"@, push.repository.default_branch@, "PUSH_REPOSITORY_OWNER_USERNAME"@);
    assert("PUSH_REPOSITORY_DEFAULT_BRANCH"@[16] != "PUSH_REPOSITORY_OWNER_USERNAME"@[16]);
    lemma_last_value_concat(push_event_env_part1(push), push_event_env_part2(push), "PUSH_REPOSITORY_OWNER_USERNAME"@);
    lemma_last_value_concat(seq![("PUSH_SENDER_EMAIL"@, push.sender.email@)] + seq![("PUSH_SENDER_AVATAR_URL"@, push.sender.avatar_url@)] + seq![("PUSH_SENDER_USERNAME"@, push.sender.username@)] + seq![("PUSH_REPOSITORY_ID"@, decimal(push.repository.id as nat))] + seq![("PUSH_REPOSITORY_OWNER_ID"@, decimal(push.repository.owner.id as nat))] + seq![("PUSH_REPOSITORY_OWNER_LOGIN"@, push.repository.owner.login@)] + seq![("PUSH_REPOSITORY_OWNER_FULL_NAME"@, push.repository.owner.full_name@)] + seq![("PUSH_REPOSITORY_OWNER_EMAIL"@, push.repository.owner.email@)] + seq![("PUSH_REPOSITORY_OWNER_AVATAR_URL"@, push.repository.owner.avatar_url@)] + seq![("PUSH_REPOSITORY_OWNER_USERNAME"@, push.repository.owner.username@)] + seq![("PUSH_REPOSITORY_NAME"@, push.repository.name@)], seq![("PUSH_REPOSITORY_FULL_NAME"@, push.repository.full_name@)], "PUSH_REPOSITORY_OWNER_USERNAME"@);
    lemma_last_value_single("PUSH_REPOSITORY_FULL_NAME"@, push.repository.full_name@, "PUSH_REPOSITORY_OWNER_USERNAME"@);
    assert("PUSH_REPOSITORY_FULL_NAME"@.len() != "PUSH_REPOSITORY_OWNER_USERNAME"@.len());
    lemma_last_value_concat(seq![("PUSH_SENDER_EMAIL"@, push.sender.email@)] + seq![("PUSH_SENDER_AVATAR_URL"@, push.sender.avatar_url@)] + seq![("PUSH_SENDER_USERNAME"@, push.sender.username@)] + seq![("PUSH_REPOSITORY_ID"@, decimal(push.repository.id as nat))] + seq![("PUSH_REPOSITORY_OWNER_ID"@, decimal(push.repository.owner.id as nat))] + seq![("PUSH_REPOSITORY_OWNER_LOGIN"@, push.repository.owner.login@)] + seq![("PUSH_REPOSITORY_OWNER_FULL_NAME"@, push.repository.owner.full_name@)] + seq![("PUSH_REPOSITORY_OWNER_EMAIL"@, push.repository.owner.email@)] + seq![("PUSH_REPOSITORY_OWNER_AVATAR_URL"@, push.repository.owner.avatar_url@)] + seq![("PUSH_REPOSITORY_OWNER_USERNAME"@, push.repository.owner.username@)], seq![("PUSH_REPOSITORY_NAME"@, push.repository.name@)], "PUSH_REPOSITORY_OWNER_USERNAME"@);
    lemma_last_value_single("PUSH_REPOSITORY_NAME"@, push.repository.name@, "PUSH_REPOSITORY_OWNER_USERNAME"@);
    assert("PUSH_REPOSITORY_NAME"@.len() != "PUSH_REPOSITORY_OWNER_USERNAME"@.len());
    lemma_last_value_concat(seq![("PUSH_SENDER_EMAIL"@, push.sender.email@)] + seq![("PUSH_SENDER_AVATAR_URL"@, push.sender.avatar_url@)] + seq![("PUSH_SENDER_USERNAME"@, push.sender.username@)] + seq![("PUSH_REPOSITORY_ID"@, decimal(push.repository.id as nat))] + seq![("PUSH_REPOSITORY_OWNER_ID"@, decimal(push.repository.owner.id as nat))] + seq![("PUSH_REPOSITORY_OWNER_LOGIN"@, push.repository.owner.login@)] + seq![("PUSH_REPOSITORY_OWNER_FULL_NAME"@, push.repository.owner.full_name@)] + seq![("PUSH_REPOSITORY_OWNER_EMAIL"@, push.repository.owner.email@)] + seq![("PUSH_REPOSITORY_OWNER_AVATAR_URL"@, push.repository.owner.avatar_url@)], seq![("PUSH_REPOSITORY_OWNER_USERNAME"@, push.repository.owner.username@)], "PUSH_REPOSITORY_OWNER_USERNAME"@);
    lemma_last_value_single("PUSH_REPOSITORY_OWNER_USERNAME"@, push.repository.owner.username@, "PUSH_REPOSITORY_OWNER_USERNAME"@);
}

/// The command that answers a push leaves the push's repository name in PUSH_REPOSITORY_NAME.
pub proof fn lemma_push_event_repository_name(push: PushEvent)
    ensures
        last_value(push_event_command(push).envs, "PUSH_REPOSITORY_NAME"@) == Some(push.repository.name@),
{
    reveal_strlit("PUSH_REF_PATH");
    reveal_strlit("PUSH_BEFORE");
    reveal_strlit("PUSH_AFTER");
    reveal_strlit("PUSH_PUSHER_ID");
    reveal_strlit("PUSH_PUSHER_LOGIN");
    reveal_strlit("PUSH_PUSHER_FULL_NAME");
    reveal_strlit("PUSH_PUSHER_EMAIL");
    reveal_strlit("PUSH_PUSHER_AVATAR_URL");
    reveal_strlit("PUSH_PUSHER_USERNAME");
    reveal_strlit("PUSH_SENDER_ID");
    reveal_strlit("PUSH_SENDER_LOGIN");
    reveal_strlit("PUSH_SENDER_FULL_NAME");
    reveal_strlit("PUSH_SENDER_EMAIL");
    reveal_strlit("PUSH_SENDER_AVATAR_URL");
    reveal_strlit("PUSH_SENDER_USERNAME");
    reveal_strlit("PUSH_REPOSITORY_ID");
    reveal_strlit("PUSH_REPOSITORY_OWNER_ID");
    reveal_strlit("PUSH_REPOSITORY_OWNER_LOGIN");
    reveal_strlit("PUSH_REPOSITORY_OWNER_FULL_NAME");
    reveal_strlit("PUSH_REPOSITORY_OWNER_EMAIL");
    reveal_strlit("PUSH_REPOSITORY_OWNER_AVATAR_URL");
    reveal_strlit("PUSH_REPOSITORY_OWNER_USERNAME");
    reveal_strlit("PUSH_REPOSITORY_NAME");
    reveal_strlit("PUSH_REPOSITORY_FULL_NAME");
    reveal_strlit("PUSH_REPOSITORY_DESCRIPTION");
    reveal_strlit("PUSH_REPOSITORY_PRIVATE");
    reveal_strlit("PUSH_REPOSITORY_FORK");
    reveal_strlit("PUSH_REPOSITORY_HTML_URL");
    reveal_strlit("PUSH_REPOSITORY_SSH_URL");
    reveal_strlit("PUSH_REPOSITORY_CLONE_URL");
    reveal_strlit("PUSH_REPOSITORY_WEBSITE");
    reveal_strlit("PUSH_REPOSITORY_STARS_COUNT");
    reveal_strlit("PUSH_REPOSITORY_FORKS_COUNT");
    reveal_strlit("PUSH_REPOSITORY_WATCHERS_COUNT");
    reveal_strlit("PUSH_REPOSITORY_OPEN_ISSUES_COUNT");
    reveal_strlit("PUSH_REPOSITORY_DEFAULT_BRANCH");
    reveal_strlit("PUSH_REPOSITORY_CREATED_AT");
    reveal_strlit("PUSH_REPOSITORY_UPDATED_AT");
    lemma_last_value_concat(push_event_env_part1(push) + push_event_env_part2(push) + push_event_env_part3(push), push_event_env_part4(push), "PUSH_REPOSITORY_NAME"@);
    lemma_last_value_concat(seq![("PUSH_REPOSITORY_CREATED_AT"@, push.repository.created_at@)], seq![("PUSH_REPOSITORY_UPDATED_AT"@, push.repository.updated_at@)], "PUSH_REPOSITORY_NAME"@);
    lemma_last_value_single("PUSH_REPOSITORY_CREATED_AT"@, push.repository.created_at@, "PUSH_REPOSITORY_NAME"@);
    assert("PUSH_REPOSITORY_CREATED_AT"@.len() != "PUSH_REPOSITORY_NAME"@.len());
    lemma_last_value_single("PUSH_REPOSITORY_UPDATED_AT"@, push.repository.updated_at@, "PUSH_REPOSITORY_NAME"@);
    assert("PUSH_REPOSITORY_UPDATED_AT"@.len() != "PUSH_REPOSITORY_NAME"@.len());
    lemma_last_value_concat(push_event_env_part1(push) + push_event_env_part2(push), push_event_env_part3(push), "PUSH_REPOSITORY_NAME"@);
    lemma_last_value_concat(seq![("PUSH_REPOSITORY_DESCRIPTION"@, push.repository.description@)] + seq![("PUSH_REPOSITORY_PRIVATE"@, bool_text(push.repository.private))] + seq![("PUSH_REPOSITORY_FORK"@, bool_text(push.repository.fork))] + seq![("PUSH_REPOSITORY_HTML_URL"@, push.repository.html_url@)] + seq![("PUSH_REPOSITORY_SSH_URL"@, push.repository.ssh_url@)] + seq![("PUSH_REPOSITORY_CLONE_URL"@, push.repository.clone_url@)] + seq![("PUSH_REPOSITORY_WEBSITE"@, push.repository.website@)] + seq![("PUSH_REPOSITORY_STARS_COUNT"@, decimal(push.repository.stars_count as nat))] + seq![("PUSH_REPOSITORY_FORKS_COUNT"@, decimal(push.repository.forks_count as nat))] + seq![("PUSH_REPOSITORY_WATCHERS_COUNT"@, decimal(push.repository.watchers_count as nat))] + seq![("PUSH_REPOSITORY_OPEN_ISSUES_COUNT"@, decimal(push.repository.open_issues_count as nat))], seq![("PUSH_REPOSITORY_DEFAULT_BRANCH"@, push.repository.default_branch@)], "PUSH_REPOSITORY_NAME"@);
    lemma_last_value_concat(seq![("PUSH_REPOSITORY_DESCRIPTION"@, push.repository.description@)] + seq![("PUSH_REPOSITORY_PRIVATE"@, bool_text(push.repository.private))] + seq![("PUSH_REPOSITORY_FORK"@, bool_text(push.repository.fork))] + seq![("PUSH_REPOSITORY_HTML_URL"@, push.repository.html_url@)] + seq![("PUSH_REPOSITORY_SSH_URL"@, push.repository.ssh_url@)] + seq![("PUSH_REPOSITORY_CLONE_URL"@, push.repository.clone_url@)] + seq![("PUSH_REPOSITORY_WEBSITE"@, push.repository.website@)] + seq![("PUSH_REPOSITORY_STARS_COUNT"@, decimal(push.repository.stars_count as nat))] + seq![("PUSH_REPOSITORY_FORKS_COUNT"@, decimal(push.repository.forks_count as nat))] + seq![("PUSH_REPOSITORY_WATCHERS_COUNT"@, decimal(push.repository.watchers_count as nat))], seq![("PUSH_REPOSITORY_OPEN_ISSUES_COUNT"@, decimal(push.repository.open_issues_count as nat))], "PUSH_REPOSITORY_NAME"@);
    lemma_last_value_concat(seq![("PUSH_REPOSITORY_DESCRIPTION"@, push.repository.description@)] + seq![("PUSH_REPOSITORY_PRIVATE"@, bool_text(push.repository.private))] + seq![("PUSH_REPOSITORY_FORK"@, bool_text(push.repository.fork))] + seq![("PUSH_REPOSITORY_HTML_URL"@, push.repository.html_url@)] + seq![("PUSH_REPOSITORY_SSH_URL"@, push.repository.ssh_url@)] + seq![("PUSH_REPOSITORY_CLONE_URL"@, push.repository.clone_url@)] + seq![("PUSH_REPOSITORY_WEBSITE"@, push.repository.website@)] + seq![("PUSH_REPOSITORY_STARS_COUNT"@, decimal(push.repository.stars_count as nat))] + seq![("PUSH_REPOSITORY_FORKS_COUNT"@, decimal(push.repository.forks_count as nat))], seq![("PUSH_REPOSITORY_WATCHERS_COUNT"@, decimal(push.repository.watchers_count as nat))], "PUSH_REPOSITORY_NAME"@);
    lemma_last_value_concat(seq![("PUSH_REPOSITORY_DESCRIPTION"@, push.repository.description@)] + seq![("PUSH_REPOSITORY_PRIVATE"@, bool_text(push.repository.private))] + seq![("PUSH_REPOSITORY_FORK"@, bool_text(push.repository.fork))] + seq![("PUSH_REPOSITORY_HTML_URL"@, push.repository.html_url@)] + seq![("PUSH_REPOSITORY_SSH_URL"@, push.repository.ssh_url@)] + seq![("PUSH_REPOSITORY_CLONE_URL"@, push.repository.clone_url@)] + seq![("PUSH_REPOSITORY_WEBSITE"@, push.repository.website@)] + seq![("PUSH_REPOSITORY_STARS_COUNT"@, decimal(push.repository.stars_count as nat))], seq![("PUSH_REPOSITORY_FORKS_COUNT"@, decimal(push.repository.forks_count as nat))], "PUSH_REPOSITORY_NAME"@);
    lemma_last_value_concat(seq![("PUSH_REPOSITORY_DESCRIPTION"@, push.repository.description@)] + seq![("PUSH_REPOSITORY_PRIVATE"@, bool_text(push.repository.private))] + seq![("PUSH_REPOSITORY_FORK"@, bool_text(push.repository.fork))] + seq![("PUSH_REPOSITORY_HTML_URL"@, push.repository.html_url@)] + seq![("PUSH_REPOSITORY_SSH_URL"@, push.repository.ssh_url@)] + seq![("PUSH_REPOSITORY_CLONE_URL"@, push.repository.clone_url@)] + seq![("PUSH_REPOSITORY_WEBSITE"@, push.repository.website@)], seq![("PUSH_REPOSITORY_STARS_COUNT"@, decimal(push.repository.stars_count as nat))], "PUSH_REPOSITORY_NAME"@);
    lemma_last_value_concat(seq![("PUSH_REPOSITORY_DESCRIPTION"@, push.repository.description@)] + seq![("PUSH_REPOSITORY_PRIVATE"@, bool_text(push.repository.private))] + seq![("PUSH_REPOSITORY_FORK"@, bool_text(push.repository.fork))] + seq![("PUSH_REPOSITORY_HTML_URL"@, push.repository.html_url@)] + seq![("PUSH_REPOSITORY_SSH_URL"@, push.repository.ssh_url@)] + seq![("PUSH_REPOSITORY_CLONE_URL"@, push.repository.clone_url@)], seq![("PUSH_REPOSITORY_WEBSITE"@, push.repository.website@)], "PUSH_REPOSITORY_NAME"@);
    lemma_last_value_concat(seq![("PUSH_REPOSITORY_DESCRIPTION"@, push.repository.description@)] + seq![("PUSH_REPOSITORY_PRIVATE"@, bool_text(push.repository.private))] + seq![("PUSH_REPOSITORY_FORK"@, bool_text(push.repository.fork))] + seq![("PUSH_REPOSITORY_HTML_URL"@, push.repository.html_url@)] + seq![("PUSH_REPOSITORY_SSH_URL"@, push.repository.ssh_url@)], seq![("PUSH_REPOSITORY_CLONE_URL"@, push.repository.clone_url@)], "PUSH_REPOSITORY_NAME"@);
    lemma_last_value_concat(seq![("PUSH_REPOSITORY_DESCRIPTION"@, push.repository.description@)] + seq![("PUSH_REPOSITORY_PRIVATE"@, bool_text(push.repository.private))] + seq![("PUSH_REPOSITORY_FORK"@, bool_text(push.repository.fork))] + seq![("PUSH_REPOSITORY_HTML_URL"@, push.repository.html_url@)], seq![("PUSH_REPOSITORY_SSH_URL"@, push.repository.ssh_url@)], "PUSH_REPOSITORY_NAME"@);
    lemma_last_value_concat(seq![("PUSH_REPOSITORY_DESCRIPTION"@, push.repository.description@)] + seq![("PUSH_REPOSITORY_PRIVATE"@, bool_text(push.repository.private))] + seq![("PUSH_REPOSITORY_FORK"@, bool_text(push.repository.fork))], seq![("PUSH_REPOSITORY_HTML_URL"@, push.repository.html_url@)], "PUSH_REPOSITORY_NAME"@);
    lemma_last_value_concat(seq![("PUSH_REPOSITORY_DESCRIPTION"@, push.repository.description@)] + seq![("PUSH_REPOSITORY_PRIVATE"@, bool_text(push.repository.private))], seq![("PUSH_REPOSITORY_FORK"@, bool_text(push.repository.fork))], "PUSH_REPOSITORY_NAME"@);
    lemma_last_value_concat(seq![("PUSH_REPOSITORY_DESCRIPTION"@, push.repository.description@)], seq![("PUSH_REPOSITORY_PRIVATE"@, bool_text(push.repository.private))], "PUSH_REPOSITORY_NAME"@);
    lemma_last_value_single("PUSH_REPOSITORY_DESCRIPTION"@, push.repository.description@, "PUSH_REPOSITORY_NAME"@);
    assert("PUSH_REPOSITORY_DESCRIPTION"@.len() != "PUSH_REPOSITORY_NAME"@.len());
    lemma_last_value_single("PUSH_REPOSITORY_PRIVATE"@, bool_text(push.repository.private), "PUSH_REPOSITORY_NAME"@);
    assert("PUSH_REPOSITORY_PRIVATE"@.len() != "PUSH_REPOSITORY_NAME"@.len());
    lemma_last_value_single("PUSH_REPOSITORY_FORK"@, bool_text(push.repository.fork), "PUSH_REPOSITORY_NAME"@);
    assert("PUSH_REPOSITORY_FORK"@[16] != "PUSH_REPOSITORY_NAME"@[16]);
    lemma_last_value_single("PUSH_REPOSITORY_HTML_URL"@, push.repository.html_url@, "PUSH_REPOSITORY_NAME"@);
    assert("PUSH_REPOSITORY_HTML_URL"@.len() != "PUSH_REPOSITORY_NAME"@.len());
    lemma_last_value_single("PUSH_REPOSITORY_SSH_URL"@, push.repository.ssh_url@, "PUSH_REPOSITORY_NAME"@);
    assert("PUSH_REPOSITORY_SSH_URL"@.len() != "PUSH_REPOSITORY_NAME"@.len());
    lemma_last_value_single("PUSH_REPOSITORY_CLONE_URL"@, push.repository.clone_url@, "PUSH_REPOSITORY_NAME"@);
    assert("PUSH_REPOSITORY_CLONE_URL"@.len() != "PUSH_REPOSITORY_NAME"@.len());
    lemma_last_value_single("PUSH_REPOSITORY_WEBSITE"@, push.repository.website@, "PUSH_REPOSITORY_NAME"@);
    assert("PUSH_REPOSITORY_WEBSITE"@.len() != "PUSH_REPOSITORY_NAME"@.len());
    lemma_last_value_single("PUSH_REPOSITORY_STARS_COUNT"@, decimal(push.repository.stars_count as nat), "PUSH_REPOSITORY_NAME"@);
    assert("PUSH_REPOSITORY_STARS_COUNT"@.len() != "PUSH_REPOSITORY_NAME"@.len());
    lemma_last_value_single("PUSH_REPOSITORY_FORKS_COUNT"@, decimal(push.repository.forks_count as nat), "PUSH_REPOSITORY_NAME"@);
    assert("PUSH_REPOSITORY_FORKS_COUNT"@.len() != "PUSH_REPOSITORY_NAME"@.len());
    lemma_last_value_single("PUSH_REPOSITORY_WATCHERS_COUNT"@, decimal(push.repository.watchers_count as nat), "PUSH_REPOSITORY_NAME"@);
    assert("PUSH_REPOSITORY_WATCHERS_COUNT"@.len() != "PUSH_REPOSITORY_NAME"@.len());
    lemma_last_value_single("PUSH_REPOSITORY_OPEN_ISSUES_COUNT"@, decimal(push.repository.open_issues_count as nat), "PUSH_REPOSITORY_NAME"@);
    assert("PUSH_REPOSITORY_OPEN_ISSUES_COUNT"@.len() != "PUSH_REPOSITORY_NAME"@.len());
    lemma_last_value_single("PUSH_REPOSITORY_DEFAULT_BRANCH"@, push.repository.default_branch@, "PUSH_REPOSITORY_NAME"@);
    assert("PUSH_REPOSITORY_DEFAULT_BRANCH"@.len() != "PUSH_REPOSITORY_NAME"@.len());
    lemma_last_value_concat(push_event_env_part1(push), push_event_env_part2(push), "PUSH_REPOSITORY_NAME"@);
    lemma_last_value_concat(seq![("PUSH_SENDER_EMAIL"@, push.sender.email@)] + seq![("PUSH_SENDER_AVATAR_URL"@, push.sender.avatar_url@)] + seq![("PUSH_SENDER_USERNAME"@, push.sender.username@)] + seq![("PUSH_REPOSITORY_ID"@, decimal(push.repository.id as nat))] + seq![("PUSH_REPOSITORY_OWNER_ID"@, decimal(push.repository.owner.id as nat))] + seq![("PUSH_REPOSITORY_OWNER_LOGIN"@, push.repository.owner.login@)] + seq![("PUSH_REPOSITORY_OWNER_FULL_NAME"@, push.repository.owner.full_name@)] + seq![("PUSH_REPOSITORY_OWNER_EMAIL"@, push.repository.owner.email@)] + seq![("PUSH_REPOSITORY_OWNER_AVATAR_URL"@, push.repository.owner.avatar_url@)] + seq![("PUSH_REPOSITORY_OWNER_USERNAME"@, push.repository.owner.username@)] + seq![("PUSH_REPOSITORY_NAME"@, push.repository.name@)], seq![("PUSH_REPOSITORY_FULL_NAME"@, push.repository.full_name@)], "PUSH_REPOSITORY_NAME"@);
    lemma_last_value_single("PUSH_REPOSITORY_FULL_NAME"@, push.repository.full_name@, "PUSH_REPOSITORY_NAME"@);
    assert("PUSH_REPOSITORY_FULL_NAME"@.len() != "PUSH_REPOSITORY_NAME"@.len());
    lemma_last_value_concat(seq![("PUSH_SENDER_EMAIL"@, push.sender.email@)] + seq![("PUSH_SENDER_AVATAR_URL"@, push.sender.avatar_url@)] + seq![("PUSH_SENDER_USERNAME"@, push.sender.username@)] + seq![("PUSH_REPOSITORY_ID"@, decimal(push.repository.id as nat))] + seq![("PUSH_REPOSITORY_OWNER_ID"@, decimal(push.repository.owner.id as nat))] + seq![("PUSH_REPOSITORY_OWNER_LOGIN"@, push.repository.owner.login@)] + seq![("PUSH_REPOSITORY_OWNER_FULL_NAME"@, push.repository.owner.full_name@)] + seq![("PUSH_REPOSITORY_OWNER_EMAIL"@, push.repository.owner.email@)] + seq![("PUSH_REPOSITORY_OWNER_AVATAR_URL"@, push.repository.owner.avatar_url@)] + seq![("PUSH_REPOSITORY_OWNER_USERNAME"@, push.repository.owner.username@)], seq![("PUSH_REPOSITORY_NAME"@, push.repository.name@)], "PUSH_REPOSITORY_NAME"@);
    lemma_last_value_single("PUSH_REPOSITORY_NAME"@, push.repository.name@, "PUSH_REPOSITORY_NAME"@);
}

/// The command that answers a push leaves the push's repository full name in PUSH_REPOSITORY_FULL_NAME.
pub proof fn lemma_push_event_repository_full_name(push: PushEvent)
    ensures
        last_value(push_event_command(push).envs, "PUSH_REPOSITORY_FULL_NAME"@) == Some(push.repository.full_name@),
{
    reveal_strlit("PUSH_REF_PATH");
    reveal_strlit("PUSH_BEFORE");
    reveal_strlit("PUSH_AFTER");
    reveal_strlit("PUSH_PUSHER_ID");
    reveal_strlit("PUSH_PUSHER_LOGIN");
    reveal_strlit("PUSH_PUSHER_FULL_NAME");
    reveal_strlit("PUSH_PUSHER_EMAIL");
    reveal_strlit("PUSH_PUSHER_AVATAR_URL");
    reveal_strlit("PUSH_PUSHER_USERNAME");
    reveal_strlit("PUSH_SENDER_ID");
    reveal_strlit("PUSH_SENDER_LOGIN");
    reveal_strlit("PUSH_SENDER_FULL_NAME");
    reveal_strlit("PUSH_SENDER_EMAIL");
    reveal_strlit("PUSH_SENDER_AVATAR_URL");
    reveal_strlit("PUSH_SENDER_USERNAME");
    reveal_strlit("PUSH_REPOSITORY_ID");
    reveal_strlit("PUSH_REPOSITORY_OWNER_ID");
    reveal_strlit("PUSH_REPOSITORY_OWNER_LOGIN");
    reveal_strlit("PUSH_REPOSITORY_OWNER_FULL_NAME");
    reveal_strlit("PUSH_REPOSITORY_OWNER_EMAIL");
    reveal_strlit("PUSH_REPOSITORY_OWNER_AVATAR_URL");
    reveal_strlit("PUSH_REPOSITORY_OWNER_USERNAME");
    reveal_strlit("PUSH_REPOSITORY_NAME");
    reveal_strlit("PUSH_REPOSITORY_FULL_NAME");
    reveal_strlit("PUSH_REPOSITORY_DESCRIPTION");
    reveal_strlit("PUSH_REPOSITORY_PRIVATE");
    reveal_strlit("PUSH_REPOSITORY_FORK");
    reveal_strlit("PUSH_REPOSITORY_HTML_URL");
    reveal_strlit("PUSH_REPOSITORY_SSH_URL");
    reveal_strlit("PUSH_REPOSITORY_CLONE_URL");
    reveal_strlit("PUSH_REPOSITORY_WEBSITE");
    reveal_strlit("PUSH_REPOSITORY_STARS_COUNT");
    reveal_strlit("PUSH_REPOSITORY_FORKS_COUNT");
    reveal_strlit("PUSH_REPOSITORY_WATCHERS_COUNT");
    reveal_strlit("PUSH_REPOSITORY_OPEN_ISSUES_COUNT");
    reveal_strlit("PUSH_REPOSITORY_DEFAULT_BRANCH");
    reveal_strlit("PUSH_REPOSITORY_CREATED_AT");
    reveal_strlit("PUSH_REPOSITORY_UPDATED_AT");
    lemma_last_value_concat(push_event_env_part1(push) + push_event_env_part2(push) + push_event_env_part3(push), push_event_env_part4(push), "PUSH_REPOSITORY_FULL_NAME"@);
    lemma_last_value_concat(seq![("PUSH_REPOSITORY_CREATED_AT"@, push.repository.created_at@)], seq![("PUSH_REPOSITORY_UPDATED_AT"@, push.repository.updated_at@)], "PUSH_REPOSITORY_FULL_NAME"@);
    lemma_last_value_single("PUSH_REPOSITORY_CREATED_AT"@, push.repository.created_at@, "PUSH_REPOSITORY_FULL_NAME"@);
    assert("PUSH_REPOSITORY_CREATED_AT"@.len() != "PUSH_REPOSITORY_FULL_NAME"@.len());
    lemma_last_value_single("PUSH_REPOSITORY_UPDATED_AT"@, push.repository.updated_at@, "PUSH_REPOSITORY_FULL_NAME"@);
    assert("PUSH_REPOSITORY_UPDATED_AT"@.len() != "PUSH_REPOSITORY_FULL_NAME"@.len());
    lemma_last_value_concat(push_event_env_part1(push) + push_event_env_part2(push), push_event_env_part3(push), "PUSH_REPOSITORY_FULL_NAME"@);
    lemma_last_value_concat(seq![("PUSH_REPOSITORY_DESCRIPTION"@, push.repository.description@)] + seq![("PUSH_REPOSITORY_PRIVATE"@, bool_text(push.repository.private))] + seq![("PUSH_REPOSITORY_FORK"@, bool_text(push.repository.fork))] + seq![("PUSH_REPOSITORY_HTML_URL"@, push.repository.html_url@)] + seq![("PUSH_REPOSITORY_SSH_URL"@, push.repository.ssh_url@)] + seq![("PUSH_REPOSITORY_CLONE_URL"@, push.repository.clone_url@)] + seq![("PUSH_REPOSITORY_WEBSITE"@, push.repository.website@)] + seq![("PUSH_REPOSITORY_STARS_COUNT"@, decimal(push.repository.stars_count as nat))] + seq![("PUSH_REPOSITORY_FORKS_COUNT"@, decimal(push.repository.forks_count as nat))] + seq![("PUSH_REPOSITORY_WATCHERS_COUNT"@, decimal(push.repository.watchers_count as nat))] + seq![("PUSH_REPOSITORY_OPEN_ISSUES_COUNT"@, decimal(push.repository.open_issues_count as nat))], seq![("PUSH_REPOSITORY_DEFAULT_BRANCH"@, push.repository.default_branch@)], "PUSH_REPOSITORY_FULL_NAME"@);
    lemma_last_value_concat(seq![("PUSH_REPOSITORY_DESCRIPTION"@, push.repository.description@)] + seq![("PUSH_REPOSITORY_PRIVATE"@, bool_text(push.repository.private))] + seq![("PUSH_REPOSITORY_FORK"@, bool_text(push.repository.fork))] + seq![("PUSH_REPOSITORY_HTML_URL"@, push.repository.html_url@)] + seq![("PUSH_REPOSITORY_SSH_URL"@, push.repository.ssh_url@)] + seq![("PUSH_REPOSITORY_CLONE_URL"@, push.repository.clone_url@)] + seq![("PUSH_REPOSITORY_WEBSITE"@, push.repository.website@)] + seq![("PUSH_REPOSITORY_STARS_COUNT"@, decimal(push.repository.stars_count as nat))] + seq![("PUSH_REPOSITORY_FORKS_COUNT"@, decimal(push.repository.forks_count as nat))] + seq![("PUSH_REPOSITORY_WATCHERS_COUNT"@, decimal(push.repository.watchers_count as nat))], seq![("PUSH_REPOSITORY_OPEN_ISSUES_COUNT"@, decimal(push.repository.open_issues_count as nat))], "PUSH_REPOSITORY_FULL_NAME"@);
    lemma_last_value_concat(seq![("PUSH_REPOSITORY_DESCRIPTION"@, push.repository.description@)] + seq![("PUSH_REPOSITORY_PRIVATE"@, bool_text(push.repository.private))] + seq![("PUSH_REPOSITORY_FORK"@, bool_text(push.repository.fork))] + seq![("PUSH_REPOSITORY_HTML_URL"@, push.repository.html_url@)] + seq![("PUSH_REPOSITORY_SSH_URL"@, push.repository.ssh_url@)] + seq![("PUSH_REPOSITORY_CLONE_URL"@, push.repository.clone_url@)] + seq![("PUSH_REPOSITORY_WEBSITE"@, push.repository.website@)] + seq![("PUSH_REPOSITORY_STARS_COUNT"@, decimal(push.repository.stars_count as nat))] + seq![("PUSH_REPOSITORY_FORKS_COUNT"@, decimal(push.repository.forks_count as nat))], seq![("PUSH_REPOSITORY_WATCHERS_COUNT"@, decimal(push.repository.watchers_count as nat))], "PUSH_REPOSITORY_FULL_NAME"@);
    lemma_last_value_concat(seq![("PUSH_REPOSITORY_DESCRIPTION"@, push.repository.description@)] + seq![("PUSH_REPOSITORY_PRIVATE"@, bool_text(push.repository.private))] + seq![("PUSH_REPOSITORY_FORK"@, bool_text(push.repository.fork))] + seq![("PUSH_REPOSITORY_HTML_URL"@, push.repository.html_url@)] + seq![("PUSH_REPOSITORY_SSH_URL"@, push.repository.ssh_url@)] + seq![("PUSH_REPOSITORY_CLONE_URL"@, push.repository.clone_url@)] + seq![("PUSH_REPOSITORY_WEBSITE"@, push.repository.website@)] + seq![("PUSH_REPOSITORY_STARS_COUNT"@, decimal(push.repository.stars_count as nat))], seq![("PUSH_REPOSITORY_FORKS_COUNT"@, decimal(push.repository.forks_count as nat))], "PUSH_REPOSITORY_FULL_NAME"@);
    lemma_last_value_concat(seq![("PUSH_REPOSITORY_DESCRIPTION"@, push.repository.description@)] + seq![("PUSH_REPOSITORY_PRIVATE"@, bool_text(push.repository.private))] + seq![("PUSH_REPOSITORY_FORK"@, bool_text(push.repository.fork))] + seq![("PUSH_REPOSITORY_HTML_URL"@, push.repository.html_url@)] + seq![("PUSH_REPOSITORY_SSH_URL"@, push.repository.ssh_url@)] + seq![("PUSH_REPOSITORY_CLONE_URL"@, push.repository.clone_url@)] + seq![("PUSH_REPOSITORY_WEBSITE"@, push.repository.website@)], seq![("PUSH_REPOSITORY_STARS_COUNT"@, decimal(push.repository.stars_count as nat))], "PUSH_REPOSITORY_FULL_NAME"@);
    lemma_last_value_concat(seq![("PUSH_REPOSITORY_DESCRIPTION"@, push.repository.description@)] + seq![("PUSH_REPOSITORY_PRIVATE"@, bool_text(push.repository.private))] + seq![("PUSH_REPOSITORY_FORK"@, bool_text(push.repository.fork))] + seq![("PUSH_REPOSITORY_HTML_URL"@, push.repository.html_url@)] + seq![("PUSH_REPOSITORY_SSH_URL"@, push.repository.ssh_url@)] + seq![("PUSH_REPOSITORY_CLONE_URL"@, push.repository.clone_url@)], seq![("PUSH_REPOSITORY_WEBSITE"@, push.repository.website@)], "PUSH_REPOSITORY_FULL_NAME"@);
    lemma_last_value_concat(seq![("PUSH_REPOSITORY_DESCRIPTION"@, push.repository.description@)] + seq![("PUSH_REPOSITORY_PRIVATE"@, bool_text(push.repository.private))] + seq![("PUSH_REPOSITORY_FORK"@, bool_text(push.repository.fork))] + seq![("PUSH_REPOSITORY_HTML_URL"@, push.repository.html_url@)] + seq![("PUSH_REPOSITORY_SSH_URL"@, push.repository.ssh_url@)], seq![("PUSH_REPOSITORY_CLONE_URL"@, push.repository.clone_url@)], "PUSH_REPOSITORY_FULL_NAME"@);
    lemma_last_value_concat(seq![("PUSH_REPOSITORY_DESCRIPTION"@, push.repository.description@)] + seq![("PUSH_REPOSITORY_PRIVATE"@, bool_text(push.repository.private))] + seq![("PUSH_REPOSITORY_FORK"@, bool_text(push.repository.fork))] + seq![("PUSH_REPOSITORY_HTML_URL"@, push.repository.html_url@)], seq![("PUSH_REPOSITORY_SSH_URL"@, push.repository.ssh_url@)], "PUSH_REPOSITORY_FULL_NAME"@);
    lemma_last_value_concat(seq![("PUSH_REPOSITORY_DESCRIPTION"@, push.repository.description@)] + seq![("PUSH_REPOSITORY_PRIVATE"@, bool_text(push.repository.private))] + seq![("PUSH_REPOSITORY_FORK"@, bool_text(push.repository.fork))], seq![("PUSH_REPOSITORY_HTML_URL"@, push.repository.html_url@)], "PUSH_REPOSITORY_FULL_NAME"@);
    lemma_last_value_concat(seq![("PUSH_REPOSITORY_DESCRIPTION"@, push.repository.description@)] + seq![("PUSH_REPOSITORY_PRIVATE"@, bool_text(push.repository.private))], seq![("PUSH_REPOSITORY_FORK"@, bool_text(push.repository.fork))], "PUSH_REPOSITORY_FULL_NAME"@);
    lemma_last_value_concat(seq![("PUSH_REPOSITORY_DESCRIPTION"@, push.repository.description@)], seq![("PUSH_REPOSITORY_PRIVATE"@, bool_text(push.repository.private))], "PUSH_REPOSITORY_FULL_NAME"@);
    lemma_last_value_single("PUSH_REPOSITORY_DESCRIPTION"@, push.repository.description@, "PUSH_REPOSITORY_FULL_NAME"@);
    assert("PUSH_REPOSITORY_DESCRIPTION"@.len() != "PUSH_REPOSITORY_FULL_NAME"@.len());
    lemma_last_value_single("PUSH_REPOSITORY_PRIVATE"@, bool_text(push.repository.private), "PUSH_REPOSITORY_FULL_NAME"@);
    assert("PUSH_REPOSITORY_PRIVATE"@.len() != "PUSH_REPOSITORY_FULL_NAME"@.len());
    lemma_last_value_single("PUSH_REPOSITORY_FORK"@, bool_text(push.repository.fork), "PUSH_REPOSITORY_FULL_NAME"@);
    assert("PUSH_REPOSITORY_FORK"@.len() != "PUSH_REPOSITORY_FULL_NAME"@.len());
    lemma_last_value_single("PUSH_REPOSITORY_HTML_URL"@, push.repository.html_url@, "PUSH_REPOSITORY_FULL_NAME"@);
    assert("PUSH_REPOSITORY_HTML_URL"@.len() != "PUSH_REPOSITORY_FULL_NAME"@.len());
    lemma_last_value_single("PUSH_REPOSITORY_SSH_URL"@, push.repository.ssh_url@, "PUSH_REPOSITORY_FULL_NAME"@);
    assert("PUSH_REPOSITORY_SSH_URL"@.len() != "PUSH_REPOSITORY_FULL_NAME"@.len());
    lemma_last_value_single("PUSH_REPOSITORY_CLONE_URL"@, push.repository.clone_url@, "PUSH_REPOSITORY_FULL_NAME"@);
    assert("PUSH_REPOSITORY_CLONE_URL"@[16] != "PUSH_REPOSITORY_FULL_NAME"@[16]);
    lemma_last_value_single("PUSH_REPOSITORY_WEBSITE"@, push.repository.website@, "PUSH_REPOSITORY_FULL_NAME"@);
    assert("PUSH_REPOSITORY_WEBSITE"@.len() != "PUSH_REPOSITORY_FULL_NAME"@.len());
    lemma_last_value_single("PUSH_REPOSITORY_STARS_COUNT"@, decimal(push.repository.stars_count as nat), "PUSH_REPOSITORY_FULL_NAME"@);
    assert("PUSH_REPOSITORY_STARS_COUNT"@.len() != "PUSH_REPOSITORY_FULL_NAME"@.len());
    lemma_last_value_single("PUSH_REPOSITORY_FORKS_COUNT"@, decimal(push.repository.forks_count as nat), "PUSH_REPOSITORY_FULL_NAME"@);
    assert("PUSH_REPOSITORY_FORKS_COUNT"@.len() != "PUSH_REPOSITORY_FULL_NAME"@.len());
    lemma_last_value_single("PUSH_REPOSITORY_WATCHERS_COUNT"@, decimal(push.repository.watchers_count as nat), "PUSH_REPOSITORY_FULL_NAME"@);
    assert("PUSH_REPOSITORY_WATCHERS_COUNT"@.len() != "PUSH_REPOSITORY_FULL_NAME"@.len());
    lemma_last_value_single("PUSH_REPOSITORY_OPEN_ISSUES_COUNT"@, decimal(push.repository.open_issues_count as nat), "PUSH_REPOSITORY_FULL_NAME"@);
    assert("PUSH_REPOSITORY_OPEN_ISSUES_COUNT"@.len() != "PUSH_REPOSITORY_FULL_NAME"@.len());
    lemma_last_value_single("PUSH_REPOSITORY_DEFAULT_BRANCH"@, push.repository.default_branch@, "PUSH_REPOSITORY_FULL_NAME"@);
    assert("PUSH_REPOSITORY_DEFAULT_BRANCH"@.len() != "PUSH_REPOSITORY_FULL_NAME"@.len());
    lemma_last_value_concat(push_event_env_part1(push), push_event_env_part2(push), "PUSH_REPOSITORY_FULL_NAME"@);
    lemma_last_value_concat(seq![("PUSH_SENDER_EMAIL"@, push.sender.email@)] + seq![("PUSH_SENDER_AVATAR_URL"@, push.sender.avatar_url@)] + seq![("PUSH_SENDER_USERNAME"@, push.sender.username@)] + seq![("PUSH_REPOSITORY_ID"@, decimal(push.repository.id as nat))] + seq![("PUSH_REPOSITORY_OWNER_ID"@, decimal(push.repository.owner.id as nat))] + seq![("PUSH_REPOSITORY_OWNER_LOGIN"@, push.repository.owner.login@)] + seq![("PUSH_REPOSITORY_OWNER_FULL_NAME"@, push.repository.owner.full_name@)] + seq![("PUSH_REPOSITORY_OWNER_EMAIL"@, push.repository.owner.email@)] + seq![("PUSH_REPOSITORY_OWNER_AVATAR_URL"@, push.repository.owner.avatar_url@)] + seq![("PUSH_REPOSITORY_OWNER_USERNAME"@, push.repository.owner.username@)] + seq![("PUSH_REPOSITORY_NAME"@, push.repository.name@)], seq![("PUSH_REPOSITORY_FULL_NAME"@, push.repository.full_name@)], "PUSH_REPOSITORY_FULL_NAME"@);
    lemma_last_value_single("PUSH_REPOSITORY_FULL_NAME"@, push.repository.full_name@, "PUSH_REPOSITORY_FULL_NAME"@);
}

/// The command that answers a push leaves the push's repository description in PUSH_REPOSITORY_DESCRIPTION.
pub proof fn lemma_push_event_repository_description(push: PushEvent)
    ensures
        last_value(push_event_command(push).envs, "PUSH_REPOSITORY_DESCRIPTION"@) == Some(push.repository.description@),
{
    reveal_strlit("PUSH_REF_PATH");
    reveal_strlit("PUSH_BEFORE");
    reveal_strlit("PUSH_AFTER");
    reveal_strlit("PUSH_PUSHER_ID");
    reveal_strlit("PUSH_PUSHER_LOGIN");
    reveal_strlit("PUSH_PUSHER_FULL_NAME");
    reveal_strlit("PUSH_PUSHER_EMAIL");
    reveal_strlit("PUSH_PUSHER_AVATAR_URL");
    reveal_strlit("PUSH_PUSHER_USERNAME");
    reveal_strlit("PUSH_SENDER_ID");
    reveal_strlit("PUSH_SENDER_LOGIN");
    reveal_strlit("PUSH_SENDER_FULL_NAME");
    reveal_strlit("PUSH_SENDER_EMAIL");
    reveal_strlit("PUSH_SENDER_AVATAR_URL");
    reveal_strlit("PUSH_SENDER_USERNAME");
    reveal_strlit("PUSH_REPOSITORY_ID");
    reveal_strlit("PUSH_REPOSITORY_OWNER_ID");
    reveal_strlit("PUSH_REPOSITORY_OWNER_LOGIN");
    reveal_strlit("PUSH_REPOSITORY_OWNER_FULL_NAME");
    reveal_strlit("PUSH_REPOSITORY_OWNER_EMAIL");
    reveal_strlit("PUSH_REPOSITORY_OWNER_AVATAR_URL");
    reveal_strlit("PUSH_REPOSITORY_OWNER_USERNAME");
    reveal_strlit("PUSH_REPOSITORY_NAME");
    reveal_strlit("PUSH_REPOSITORY_FULL_NAME");
    reveal_strlit("PUSH_REPOSITORY_DESCRIPTION");
    reveal_strlit("PUSH_REPOSITORY_PRIVATE");
    reveal_strlit("PUSH_REPOSITORY_FORK");
    reveal_strlit("PUSH_REPOSITORY_HTML_URL");
    reveal_strlit("PUSH_REPOSITORY_SSH_URL");
    reveal_strlit("PUSH_REPOSITORY_CLONE_URL");
    reveal_strlit("PUSH_REPOSITORY_WEBSITE");
    reveal_strlit("PUSH_REPOSITORY_STARS_COUNT");
    reveal_strlit("PUSH_REPOSITORY_FORKS_COUNT");
    reveal_strlit("PUSH_REPOSITORY_WATCHERS_COUNT");
    reveal_strlit("PUSH_REPOSITORY_OPEN_ISSUES_COUNT");
    reveal_strlit("PUSH_REPOSITORY_DEFAULT_BRANCH");
    reveal_strlit("PUSH_REPOSITORY_CREATED_AT");
    reveal_strlit("PUSH_REPOSITORY_UPDATED_AT");
    lemma_last_value_concat(push_event_env_part1(push) + push_event_env_part2(push) + push_event_env_part3(push), push_event_env_part4(push), "PUSH_REPOSITORY_DESCRIPTION"@);
    lemma_last_value_concat(seq![("PUSH_REPOSITORY_CREATED_AT"@, push.repository.created_at@)], seq![("PUSH_REPOSITORY_UPDATED_AT"@, push.repository.updated_at@)], "PUSH_REPOSITORY_DESCRIPTION"@);
    lemma_last_value_single("PUSH_REPOSITORY_CREATED_AT"@, push.repository.created_at@, "PUSH_REPOSITORY_DESCRIPTION"@);
    assert("PUSH_REPOSITORY_CREATED_AT"@.len() != "PUSH_REPOSITORY_DESCRIPTION"@.len());
    lemma_last_value_single("PUSH_REPOSITORY_UPDATED_AT"@, push.repository.updated_at@, "PUSH_REPOSITORY_DESCRIPTION"@);
    assert("PUSH_REPOSITORY_UPDATED_AT"@.len() != "PUSH_REPOSITORY_DESCRIPTION"@.len());
    lemma_last_value_concat(push_event_env_part1(push) + push_event_env_part2(push), push_event_env_part3(push), "PUSH_REPOSITORY_DESCRIPTION"@);
    lemma_last_value_concat(seq![("PUSH_REPOSITORY_DESCRIPTION"@, push.repository.description@)] + seq![("PUSH_REPOSITORY_PRIVATE"@, bool_text(push.repository.private))] + seq![("PUSH_REPOSITORY_FORK"@, bool_text(push.repository.fork))] + seq![("PUSH_REPOSITORY_HTML_URL"@, push.repository.html_url@)] + seq![("PUSH_REPOSITORY_SSH_URL"@, push.repository.ssh_url@)] + seq![("PUSH_REPOSITORY_CLONE_URL"@, push.repository.clone_url@)] + seq![("PUSH_REPOSITORY_WEBSITE"@, push.repository.website@)] + seq![("PUSH_REPOSITORY_STARS_COUNT"@, decimal(push.repository.stars_count as nat))] + seq![("PUSH_REPOSITORY_FORKS_COUNT"@, decimal(push.repository.forks_count as nat))] + seq![("PUSH_REPOSITORY_WATCHERS_COUNT"@, decimal(push.repository.watchers_count as nat))] + seq![("PUSH_REPOSITORY_OPEN_ISSUES_COUNT"@, decimal(push.repository.open_issues_count as nat))], seq![("PUSH_REPOSITORY_DEFAULT_BRANCH"@, push.repository.default_branch@)], "PUSH_REPOSITORY_DESCRIPTION"@);
    lemma_last_value_single("PUSH_REPOSITORY_DEFAULT_BRANCH"@, push.repository.default_branch@, "PUSH_REPOSITORY_DESCRIPTION"@);
    assert("PUSH_REPOSITORY_DEFAULT_BRANCH"@.len() != "PUSH_REPOSITORY_DESCRIPTION"@.len());
    lemma_last_value_concat(seq![("PUSH_REPOSITORY_DESCRIPTION"@, push.repository.description@)] + seq![("PUSH_REPOSITORY_PRIVATE"@, bool_text(push.repository.private))] + seq![("PUSH_REPOSITORY_FORK"@, bool_text(push.repository.fork))] + seq![("PUSH_REPOSITORY_HTML_URL"@, push.repository.html_url@)] + seq![("PUSH_REPOSITORY_SSH_URL"@, push.repository.ssh_url@)] + seq![("PUSH_REPOSITORY_CLONE_URL"@, push.repository.clone_url@)] + seq![("PUSH_REPOSITORY_WEBSITE"@, push.repository.website@)] + seq![("PUSH_REPOSITORY_STARS_COUNT"@, decimal(push.repository.stars_count as nat))] + seq![("PUSH_REPOSITORY_FORKS_COUNT"@, decimal(push.repository.forks_count as nat))] + seq![("PUSH_REPOSITORY_WATCHERS_COUNT"@, decimal(push.repository.watchers_count as nat))], seq![("PUSH_REPOSITORY_OPEN_ISSUES_COUNT"@, decimal(push.repository.open_issues_count as nat))], "PUSH_REPOSITORY_DESCRIPTION"@);
    lemma_last_value_single("PUSH_REPOSITORY_OPEN_ISSUES_COUNT"@, decimal(push.repository.open_issues_count as nat), "PUSH_REPOSITORY_DESCRIPTION"@);
    assert("PUSH_REPOSITORY_OPEN_ISSUES_COUNT"@.len() != "PUSH_REPOSITORY_DESCRIPTION"@.len());
    lemma_last_value_concat(seq![("PUSH_REPOSITORY_DESCRIPTION"@, push.repository.description@)] + seq![("PUSH_REPOSITORY_PRIVATE"@, bool_text(push.repository.private))] + seq![("PUSH_REPOSITORY_FORK"@, bool_text(push.repository.fork))] + seq![("PUSH_REPOSITORY_HTML_URL"@, push.repository.html_url@)] + seq![("PUSH_REPOSITORY_SSH_URL"@, push.repository.ssh_url@)] + seq![("PUSH_REPOSITORY_CLONE_URL"@, push.repository.clone_url@)] + seq![("PUSH_REPOSITORY_WEBSITE"@, push.repository.website@)] + seq![("PUSH_REPOSITORY_STARS_COUNT"@, decimal(push.repository.stars_count as nat))] + seq![("PUSH_REPOSITORY_FORKS_COUNT"@, decimal(push.repository.forks_count as nat))], seq![("PUSH_REPOSITORY_WATCHERS_COUNT"@, decimal(push.repository.watchers_count as nat))], "PUSH_REPOSITORY_DESCRIPTION"@);
    lemma_last_value_single("PUSH_REPOSITORY_WATCHERS_COUNT"@, decimal(push.repository.watchers_count as nat), "PUSH_REPOSITORY_DESCRIPTION"@);
    assert("PUSH_REPOSITORY_WATCHERS_COUNT"@.len() != "PUSH_REPOSITORY_DESCRIPTION"@.len());
    lemma_last_value_concat(seq![("PUSH_REPOSITORY_DESCRIPTION"@, push.repository.description@)] + seq![("PUSH_REPOSITORY_PRIVATE"@, bool_text(push.repository.private))] + seq![("PUSH_REPOSITORY_FORK"@, bool_text(push.repository.fork))] + seq![("PUSH_REPOSITORY_HTML_URL"@, push.repository.html_url@)] + seq![("PUSH_REPOSITORY_SSH_URL"@, push.repository.ssh_url@)] + seq![("PUSH_REPOSITORY_CLONE_URL"@, push.repository.clone_url@)] + seq![("PUSH_REPOSITORY_WEBSITE"@, push.repository.website@)] + seq![("PUSH_REPOSITORY_STARS_COUNT"@, decimal(push.repository.stars_count as nat))], seq![("PUSH_REPOSITORY_FORKS_COUNT"@, decimal(push.repository.forks_count as nat))], "PUSH_REPOSITORY_DESCRIPTION"@);
    lemma_last_value_single("PUSH_REPOSITORY_FORKS_COUNT"@, decimal(push.repository.forks_count as nat), "PUSH_REPOSITORY_DESCRIPTION"@);
    assert("PUSH_REPOSITORY_FORKS_COUNT"@[16] != "PUSH_REPOSITORY_DESCRIPTION"@[16]);
    lemma_last_value_concat(seq![("PUSH_REPOSITORY_DESCRIPTION"@, push.repository.description@)] + seq![("PUSH_REPOSITORY_PRIVATE"@, bool_text(push.repository.private))] + seq![("PUSH_REPOSITORY_FORK"@, bool_text(push.repository.fork))] + seq![("PUSH_REPOSITORY_HTML_URL"@, push.repository.html_url@)] + seq![("PUSH_REPOSITORY_SSH_URL"@, push.repository.ssh_url@)] + seq![("PUSH_REPOSITORY_CLONE_URL"@, push.repository.clone_url@)] + seq![("PUSH_REPOSITORY_WEBSITE"@, push.repository.website@)], seq![("PUSH_REPOSITORY_STARS_COUNT"@, decimal(push.repository.stars_count as nat))], "PUSH_REPOSITORY_DESCRIPTION"@);
    lemma_last_value_single("PUSH_REPOSITORY_STARS_COUNT"@, decimal(push.repository.stars_count as nat), "PUSH_REPOSITORY_DESCRIPTION"@);
    assert("PUSH_REPOSITORY_STARS_COUNT"@[16] != "PUSH_REPOSITORY_DESCRIPTION"@[16]);
    lemma_last_value_concat(seq![("PUSH_REPOSITORY_DESCRIPTION"@, push.repository.description@)] + seq![("PUSH_REPOSITORY_PRIVATE"@, bool_text(push.repository.private))] + seq![("PUSH_REPOSITORY_FORK"@, bool_text(push.repository.fork))] + seq![("PUSH_REPOSITORY_HTML_URL"@, push.repository.html_url@)] + seq![("PUSH_REPOSITORY_SSH_URL"@, push.repository.ssh_url@)] + seq![("PUSH_REPOSITORY_CLONE_URL"@, push.repository.clone_url@)], seq![("PUSH_REPOSITORY_WEBSITE"@, push.repository.website@)], "PUSH_REPOSITORY_DESCRIPTION"@);
    lemma_last_value_single("PUSH_REPOSITORY_WEBSITE"@, push.repository.website@, "PUSH_REPOSITORY_DESCRIPTION"@);
    assert("PUSH_REPOSITORY_WEBSITE"@.len() != "PUSH_REPOSITORY_DESCRIPTION"@.len());
    lemma_last_value_concat(seq![("PUSH_REPOSITORY_DESCRIPTION"@, push.repository.description@)] + seq![("PUSH_REPOSITORY_PRIVATE"@, bool_text(push.repository.private))] + seq![("PUSH_REPOSITORY_FORK"@, bool_text(push.repository.fork))] + seq![("PUSH_REPOSITORY_HTML_URL"@, push.repository.html_url@)] + seq![("PUSH_REPOSITORY_SSH_URL"@, push.repository.ssh_url@)], seq![("PUSH_REPOSITORY_CLONE_URL"@, push.repository.clone_url@)], "PUSH_REPOSITORY_DESCRIPTION"@);
    lemma_last_value_single("PUSH_REPOSITORY_CLONE_URL"@, push.repository.clone_url@, "PUSH_REPOSITORY_DESCRIPTION"@);
    assert("PUSH_REPOSITORY_CLONE_URL"@.len() != "PUSH_REPOSITORY_DESCRIPTION"@.len());
    lemma_last_value_concat(seq![("PUSH_REPOSITORY_DESCRIPTION"@, push.repository.description@)] + seq![("PUSH_REPOSITORY_PRIVATE"@, bool_text(push.repository.private))] + seq![("PUSH_REPOSITORY_FORK"@, bool_text(push.repository.fork))] + seq![("PUSH_REPOSITORY_HTML_URL"@, push.repository.html_url@)], seq![("PUSH_REPOSITORY_SSH_URL"@, push.repository.ssh_url@)], "PUSH_REPOSITORY_DESCRIPTION"@);
    lemma_last_value_single("PUSH_REPOSITORY_SSH_URL"@, push.repository.ssh_url@, "PUSH_REPOSITORY_DESCRIPTION"@);
    assert("PUSH_REPOSITORY_SSH_URL"@.len() != "PUSH_REPOSITORY_DESCRIPTION"@.len());
    lemma_last_value_concat(seq![("PUSH_REPOSITORY_DESCRIPTION"@, push.repository.description@)] + seq![("PUSH_REPOSITORY_PRIVATE"@, bool_text(push.repository.private))] + seq![("PUSH_REPOSITORY_FORK"@, bool_text(push.repository.fork))], seq![("PUSH_REPOSITORY_HTML_URL"@, push.repository.html_url@)], "PUSH_REPOSITORY_DESCRIPTION"@);
    lemma_last_value_single("PUSH_REPOSITORY_HTML_URL"@, push.repository.html_url@, "PUSH_REPOSITORY_DESCRIPTION"@);
    assert("PUSH_REPOSITORY_HTML_URL"@.len() != "PUSH_REPOSITORY_DESCRIPTION"@.len());
    lemma_last_value_concat(seq![("PUSH_REPOSITORY_DESCRIPTION"@, push.repository.description@)] + seq![("PUSH_REPOSITORY_PRIVATE"@, bool_text(push.repository.private))], seq![("PUSH_REPOSITORY_FORK"@, bool_text(push.repository.fork))], "PUSH_REPOSITORY_DESCRIPTION"@);
    lemma_last_value_single("PUSH_REPOSITORY_FORK"@, bool_text(push.repository.fork), "PUSH_REPOSITORY_DESCRIPTION"@);
    assert("PUSH_REPOSITORY_FORK"@.len() != "PUSH_REPOSITORY_DESCRIPTION"@.len());
    lemma_last_value_concat(seq![("PUSH_REPOSITORY_DESCRIPTION"@, push.repository.description@)], seq![("PUSH_REPOSITORY_PRIVATE"@, bool_text(push.repository.private))], "PUSH_REPOSITORY_DESCRIPTION"@);
    lemma_last_value_single("PUSH_REPOSITORY_PRIVATE"@, bool_text(push.repository.private), "PUSH_REPOSITORY_DESCRIPTION"@);
    assert("PUSH_REPOSITORY_PRIVATE"@.len() != "PUSH_REPOSITORY_DESCRIPTION"@.len());
    lemma_last_value_single("PUSH_REPOSITORY_DESCRIPTION"@, push.repository.description@, "PUSH_REPOSITORY_DESCRIPTION"@);
}

/// The command that answers a push leaves the push's repository private in PUSH_REPOSITORY_PRIVATE.
pub proof fn lemma_push_event_repository_private(push: PushEvent)
    ensures
        last_value(push_event_command(push).envs, "PUSH_REPOSITORY_PRIVATE"@) == Some(bool_text(push.repository.private)),
{
    reveal_strlit("PUSH_REF_PATH");
    reveal_strlit("PUSH_BEFORE");
    reveal_strlit("PUSH_AFTER");
    reveal_strlit("PUSH_PUSHER_ID");
    reveal_strlit("PUSH_PUSHER_LOGIN");
    reveal_strlit("PUSH_PUSHER_FULL_NAME");
    reveal_strlit("PUSH_PUSHER_EMAIL");
    reveal_strlit("PUSH_PUSHER_AVATAR_URL");
    reveal_strlit("PUSH_PUSHER_USERNAME");
    reveal_strlit("PUSH_SENDER_ID");
    reveal_strlit("PUSH_SENDER_LOGIN");
    reveal_strlit("PUSH_SENDER_FULL_NAME");
    reveal_strlit("PUSH_SENDER_EMAIL");
    reveal_strlit("PUSH_SENDER_AVATAR_URL");
    reveal_strlit("PUSH_SENDER_USERNAME");
    reveal_strlit("PUSH_REPOSITORY_ID");
    reveal_strlit("PUSH_REPOSITORY_OWNER_ID");
    reveal_strlit("PUSH_REPOSITORY_OWNER_LOGIN");
    reveal_strlit("PUSH_REPOSITORY_OWNER_FULL_NAME");
    reveal_strlit("PUSH_REPOSITORY_OWNER_EMAIL");
    reveal_strlit("PUSH_REPOSITORY_OWNER_AVATAR_URL");
    reveal_strlit("PUSH_REPOSITORY_OWNER_USERNAME");
    reveal_strlit("PUSH_REPOSITORY_NAME");
    reveal_strlit("PUSH_REPOSITORY_FULL_NAME");
    reveal_strlit("PUSH_REPOSITORY_DESCRIPTION");
    reveal_strlit("PUSH_REPOSITORY_PRIVATE");
    reveal_strlit("PUSH_REPOSITORY_FORK");
    reveal_strlit("PUSH_REPOSITORY_HTML_URL");
    reveal_strlit("PUSH_REPOSITORY_SSH_URL");
    reveal_strlit("PUSH_REPOSITORY_CLONE_URL");
    reveal_strlit("PUSH_REPOSITORY_WEBSITE");
    reveal_strlit("PUSH_REPOSITORY_STARS_COUNT");
    reveal_strlit("PUSH_REPOSITORY_FORKS_COUNT");
    reveal_strlit("PUSH_REPOSITORY_WATCHERS_COUNT");
    reveal_strlit("PUSH_REPOSITORY_OPEN_ISSUES_COUNT");
    reveal_strlit("PUSH_REPOSITORY_DEFAULT_BRANCH");
    reveal_strlit("PUSH_REPOSITORY_CREATED_AT");
    reveal_strlit("PUSH_REPOSITORY_UPDATED_AT");
    lemma_last_value_concat(push_event_env_part1(push) + push_event_env_part2(push) + push_event_env_part3(push), push_event_env_part4(push), "PUSH_REPOSITORY_PRIVATE"@);
    lemma_last_value_concat(seq![("PUSH_REPOSITORY_CREATED_AT"@, push.repository.created_at@)], seq![("PUSH_REPOSITORY_UPDATED_AT"@, push.repository.updated_at@)], "PUSH_REPOSITORY_PRIVATE"@);
    lemma_last_value_single("PUSH_REPOSITORY_CREATED_AT"@, push.repository.created_at@, "PUSH_REPOSITORY_PRIVATE"@);
    assert("PUSH_REPOSITORY_CREATED_AT"@.len() != "PUSH_REPOSITORY_PRIVATE"@.len());
    lemma_last_value_single("PUSH_REPOSITORY_UPDATED_AT"@, push.repository.updated_at@, "PUSH_REPOSITORY_PRIVATE"@);
    assert("PUSH_REPOSITORY_UPDATED_AT"@.len() != "PUSH_REPOSITORY_PRIVATE"@.len());
    lemma_last_value_concat(push_event_env_part1(push) + push_event_env_part2(push), push_event_env_part3(push), "PUSH_REPOSITORY_PRIVATE"@);
    lemma_last_value_concat(seq![("PUSH_REPOSITORY_DESCRIPTION"@, push.repository.description@)] + seq![("PUSH_REPOSITORY_PRIVATE"@, bool_text(push.repository.private))] + seq![("PUSH_REPOSITORY_FORK"@, bool_text(push.repository.fork))] + seq![("PUSH_REPOSITORY_HTML_URL"@, push.repository.html_url@)] + seq![("PUSH_REPOSITORY_SSH_URL"@, push.repository.ssh_url@)] + seq![("PUSH_REPOSITORY_CLONE_URL"@, push.repository.clone_url@)] + seq![("PUSH_REPOSITORY_WEBSITE"@, push.repository.website@)] + seq![("PUSH_REPOSITORY_STARS_COUNT"@, decimal(push.repository.stars_count as nat))] + seq![("PUSH_REPOSITORY_FORKS_COUNT"@, decimal(push.repository.forks_count as nat))] + seq![("PUSH_REPOSITORY_WATCHERS_COUNT"@, decimal(push.repository.watchers_count as nat))] + seq![("PUSH_REPOSITORY_OPEN_ISSUES_COUNT"@, decimal(push.repository.open_issues_count as nat))], seq![("PUSH_REPOSITORY_DEFAULT_BRANCH"@, push.repository.default_branch@)], "PUSH_REPOSITORY_PRIVATE"@);
    lemma_last_value_single("PUSH_REPOSITORY_DEFAULT_BRANCH"@, push.repository.default_branch@, "PUSH_REPOSITORY_PRIVATE"@);
    assert("PUSH_REPOSITORY_DEFAULT_BRANCH"@.len() != "PUSH_REPOSITORY_PRIVATE"@.len());
    lemma_last_value_concat(seq![("PUSH_REPOSITORY_DESCRIPTION"@, push.repository.description@)] + seq![("PUSH_REPOSITORY_PRIVATE"@, bool_text(push.repository.private))] + seq![("PUSH_REPOSITORY_FORK"@, bool_text(push.repository.fork))] + seq![("PUSH_REPOSITORY_HTML_URL"@, push.repository.html_url@)] + seq![("PUSH_REPOSITORY_SSH_URL"@, push.repository.ssh_url@)] + seq![("PUSH_REPOSITORY_CLONE_URL"@, push.repository.clone_url@)] + seq![("PUSH_REPOSITORY_WEBSITE"@, push.repository.website@)] + seq![("PUSH_REPOSITORY_STARS_COUNT"@, decimal(push.repository.stars_count as nat))] + seq![("PUSH_REPOSITORY_FORKS_COUNT"@, decimal(push.repository.forks_count as nat))] + seq![("PUSH_REPOSITORY_WATCHERS_COUNT"@, decimal(push.repository.watchers_count as nat))], seq![("PUSH_REPOSITORY_OPEN_ISSUES_COUNT"@, decimal(push.repository.open_issues_count as nat))], "PUSH_REPOSITORY_PRIVATE"@);
    lemma_last_value_single("PUSH_REPOSITORY_OPEN_ISSUES_COUNT"@, decimal(push.repository.open_issues_count as nat), "PUSH_REPOSITORY_PRIVATE"@);
    assert("PUSH_REPOSITORY_OPEN_ISSUES_COUNT"@.len() != "PUSH_REPOSITORY_PRIVATE"@.len());
    lemma_last_value_concat(seq![("PUSH_REPOSITORY_DESCRIPTION"@, push.repository.description@)] + seq![("PUSH_REPOSITORY_PRIVATE"@, bool_text(push.repository.private))] + seq![("PUSH_REPOSITORY_FORK"@, bool_text(push.repository.fork))] + seq![("PUSH_REPOSITORY_HTML_URL"@, push.repository.html_url@)] + seq![("PUSH_REPOSITORY_SSH_URL"@, push.repository.ssh_url@)] + seq![("PUSH_REPOSITORY_CLONE_URL"@, push.repository.clone_url@)] + seq![("PUSH_REPOSITORY_WEBSITE"@, push.repository.website@)] + seq![("PUSH_REPOSITORY_STARS_COUNT"@, decimal(push.repository.stars_count as nat))] + seq![("PUSH_REPOSITORY_FORKS_COUNT"@, decimal(push.repository.forks_count as nat))], seq![("PUSH_REPOSITORY_WATCHERS_COUNT"@, decimal(push.repository.watchers_count as nat))], "PUSH_REPOSITORY_PRIVATE"@);
    lemma_last_value_single("PUSH_REPOSITORY_WATCHERS_COUNT"@, decimal(push.repository.watchers_count as nat), "PUSH_REPOSITORY_PRIVATE"@);
    assert("PUSH_REPOSITORY_WATCHERS_COUNT"@.len() != "PUSH_REPOSITORY_PRIVATE"@.len());
    lemma_last_value_concat(seq![("PUSH_REPOSITORY_DESCRIPTION"@, push.repository.description@)] + seq![("PUSH_REPOSITORY_PRIVATE"@, bool_text(push.repository.private))] + seq![("PUSH_REPOSITORY_FORK"@, bool_text(push.repository.fork))] + seq![("PUSH_REPOSITORY_HTML_URL"@, push.repository.html_url@)] + seq![("PUSH_REPOSITORY_SSH_URL"@, push.repository.ssh_url@)] + seq![("PUSH_REPOSITORY_CLONE_URL"@, push.repository.clone_url@)] + seq![("PUSH_REPOSITORY_WEBSITE"@, push.repository.website@)] + seq![("PUSH_REPOSITORY_STARS_COUNT"@, decimal(push.repository.stars_count as nat))], seq![("PUSH_REPOSITORY_FORKS_COUNT"@, decimal(push.repository.forks_count as nat))], "PUSH_REPOSITORY_PRIVATE"@);
    lemma_last_value_single("PUSH_REPOSITORY_FORKS_COUNT"@, decimal(push.repository.forks_count as nat), "PUSH_REPOSITORY_PRIVATE"@);
    assert("PUSH_REPOSITORY_FORKS_COUNT"@.len() != "PUSH_REPOSITORY_PRIVATE"@.len());
    lemma_last_value_concat(seq![("PUSH_REPOSITORY_DESCRIPTION"@, push.repository.description@)] + seq![("PUSH_REPOSITORY_PRIVATE"@, bool_text(push.repository.private))] + seq![("PUSH_REPOSITORY_FORK"@, bool_text(push.repository.fork))] + seq![("PUSH_REPOSITORY_HTML_URL"@, push.repository.html_url@)] + seq![("PUSH_REPOSITORY_SSH_URL"@, push.repository.ssh_url@)] + seq![("PUSH_REPOSITORY_CLONE_URL"@, push.repository.clone_url@)] + seq![("PUSH_REPOSITORY_WEBSITE"@, push.repository.website@)], seq![("PUSH_REPOSITORY_STARS_COUNT"@, decimal(push.repository.stars_count as nat))], "PUSH_REPOSITORY_PRIVATE"@);
    lemma_last_value_single("PUSH_REPOSITORY_STARS_COUNT"@, decimal(push.repository.stars_count as nat), "PUSH_REPOSITORY_PRIVATE"@);
    assert("PUSH_REPOSITORY_STARS_COUNT"@.len() != "PUSH_REPOSITORY_PRIVATE"@.len());
    lemma_last_value_concat(seq![("PUSH_REPOSITORY_DESCRIPTION"@, push.repository.description@)] + seq![("PUSH_REPOSITORY_PRIVATE"@, bool_text(push.repository.private))] + seq![("PUSH_REPOSITORY_FORK"@, bool_text(push.repository.fork))] + seq![("PUSH_REPOSITORY_HTML_URL"@, push.repository.html_url@)] + seq![("PUSH_REPOSITORY_SSH_URL"@, push.repository.ssh_url@)] + seq![("PUSH_REPOSITORY_CLONE_URL"@, push.repository.clone_url@)], seq![("PUSH_REPOSITORY_WEBSITE"@, push.repository.website@)], "PUSH_REPOSITORY_PRIVATE"@);
    lemma_last_value_single("PUSH_REPOSITORY_WEBSITE"@, push.repository.website@, "PUSH_REPOSITORY_PRIVATE"@);
    assert("PUSH_REPOSITORY_WEBSITE"@[16] != "PUSH_REPOSITORY_PRIVATE"@[16]);
    lemma_last_value_concat(seq![("PUSH_REPOSITORY_DESCRIPTION"@, push.repository.description@)] + seq![("PUSH_REPOSITORY_PRIVATE"@, bool_text(push.repository.private))] + seq![("PUSH_REPOSITORY_FORK"@, bool_text(push.repository.fork))] + seq![("PUSH_REPOSITORY_HTML_URL"@, push.repository.html_url@)] + seq![("PUSH_REPOSITORY_SSH_URL"@, push.repository.ssh_url@)], seq![("PUSH_REPOSITORY_CLONE_URL"@, push.repository.clone_url@)], "PUSH_REPOSITORY_PRIVATE"@);
    lemma_last_value_single("PUSH_REPOSITORY_CLONE_URL"@, push.repository.clone_url@, "PUSH_REPOSITORY_PRIVATE"@);
    assert("PUSH_REPOSITORY_CLONE_URL"@.len() != "PUSH_REPOSITORY_PRIVATE"@.len());
    lemma_last_value_concat(seq![("PUSH_REPOSITORY_DESCRIPTION"@, push.repository.description@)] + seq![("PUSH_REPOSITORY_PRIVATE"@, bool_text(push.repository.private))] + seq![("PUSH_REPOSITORY_FORK"@, bool_text(push.repository.fork))] + seq![("PUSH_REPOSITORY_HTML_URL"@, push.repository.html_url@)], seq![("PUSH_REPOSITORY_SSH_URL"@, push.repository.ssh_url@)], "PUSH_REPOSITORY_PRIVATE"@);
    lemma_last_value_single("PUSH_REPOSITORY_SSH_URL"@, push.repository.ssh_url@, "PUSH_REPOSITORY_PRIVATE"@);
    assert("PUSH_REPOSITORY_SSH_URL"@[16] != "PUSH_REPOSITORY_PRIVATE"@[16]);
    lemma_last_value_concat(seq![("PUSH_REPOSITORY_DESCRIPTION"@, push.repository.description@)] + seq![("PUSH_REPOSITORY_PRIVATE"@, bool_text(push.repository.private))] + seq![("PUSH_REPOSITORY_FORK"@, bool_text(push.repository.fork))], seq![("PUSH_REPOSITORY_HTML_URL"@, push.repository.html_url@)], "PUSH_REPOSITORY_PRIVATE"@);
    lemma_last_value_single("PUSH_REPOSITORY_HTML_URL"@, push.repository.html_url@, "PUSH_REPOSITORY_PRIVATE"@);
    assert("PUSH_REPOSITORY_HTML_URL"@.len() != "PUSH_REPOSITORY_PRIVATE"@.len());
    lemma_last_value_concat(seq![("PUSH_REPOSITORY_DESCRIPTION"@, push.repository.description@)] + seq![("PUSH_REPOSITORY_PRIVATE"@, bool_text(push.repository.private))], seq![("PUSH_REPOSITORY_FORK"@, bool_text(push.repository.fork))], "PUSH_REPOSITORY_PRIVATE"@);
    lemma_last_value_single("PUSH_REPOSITORY_FORK"@, bool_text(push.repository.fork), "PUSH_REPOSITORY_PRIVATE"@);
    assert("PUSH_REPOSITORY_FORK"@.len() != "PUSH_REPOSITORY_PRIVATE"@.len());
    lemma_last_value_concat(seq![("PUSH_REPOSITORY_DESCRIPTION"@, push.repository.description@)], seq![("PUSH_REPOSITORY_PRIVATE"@, bool_text(push.repository.private))], "PUSH_REPOSITORY_PRIVATE"@);
    lemma_last_value_single("PUSH_REPOSITORY_PRIVATE"@, bool_text(push.repository.private), "PUSH_REPOSITORY_PRIVATE"@);
}

/// The command that answers a push leaves the push's repository fork in PUSH_REPOSITORY_FORK.
pub proof fn lemma_push_event_repository_fork(push: PushEvent)
    ensures
        last_value(push_event_command(push).envs, "PUSH_REPOSITORY_FORK"@) == Some(bool_text(push.repository.fork)),
{
    reveal_strlit("PUSH_REF_PATH");
    reveal_strlit("PUSH_BEFORE");
    reveal_strlit("PUSH_AFTER");
    reveal_strlit("PUSH_PUSHER_ID");
    reveal_strlit("PUSH_PUSHER_LOGIN");
    reveal_strlit("PUSH_PUSHER_FULL_NAME");
    reveal_strlit("PUSH_PUSHER_EMAIL");
    reveal_strlit("PUSH_PUSHER_AVATAR_URL");
    reveal_strlit("PUSH_PUSHER_USERNAME");
    reveal_strlit("PUSH_SENDER_ID");
    reveal_strlit("PUSH_SENDER_LOGIN");
    reveal_strlit("PUSH_SENDER_FULL_NAME");
    reveal_strlit("PUSH_SENDER_EMAIL");
    reveal_strlit("PUSH_SENDER_AVATAR_URL");
    reveal_strlit("PUSH_SENDER_USERNAME");
    reveal_strlit("PUSH_REPOSITORY_ID");
    reveal_strlit("PUSH_REPOSITORY_OWNER_ID");
    reveal_strlit("PUSH_REPOSITORY_OWNER_LOGIN");
    reveal_strlit("PUSH_REPOSITORY_OWNER_FULL_NAME");
    reveal_strlit("PUSH_REPOSITORY_OWNER_EMAIL");
    reveal_strlit("PUSH_REPOSITORY_OWNER_AVATAR_URL");
    reveal_strlit("PUSH_REPOSITORY_OWNER_USERNAME");
    reveal_strlit("PUSH_REPOSITORY_NAME");
    reveal_strlit("PUSH_REPOSITORY_FULL_NAME");
    reveal_strlit("PUSH_REPOSITORY_DESCRIPTION");
    reveal_strlit("PUSH_REPOSITORY_PRIVATE");
    reveal_strlit("PUSH_REPOSITORY_FORK");
    reveal_strlit("PUSH_REPOSITORY_HTML_URL");
    reveal_strlit("PUSH_REPOSITORY_SSH_URL");
    reveal_strlit("PUSH_REPOSITORY_CLONE_URL");
    reveal_strlit("PUSH_REPOSITORY_WEBSITE");
    reveal_strlit("PUSH_REPOSITORY_STARS_COUNT");
    reveal_strlit("PUSH_REPOSITORY_FORKS_COUNT");
    reveal_strlit("PUSH_REPOSITORY_WATCHERS_COUNT");
    reveal_strlit("PUSH_REPOSITORY_OPEN_ISSUES_COUNT");
    reveal_strlit("PUSH_REPOSITORY_DEFAULT_BRANCH");
    reveal_strlit("PUSH_REPOSITORY_CREATED_AT");
    reveal_strlit("PUSH_REPOSITORY_UPDATED_AT");
    lemma_last_value_concat(push_event_env_part1(push) + push_event_env_part2(push) + push_event_env_part3(push), push_event_env_part4(push), "PUSH_REPOSITORY_FORK"@);
    lemma_last_value_concat(seq![("PUSH_REPOSITORY_CREATED_AT"@, push.repository.created_at@)], seq![("PUSH_REPOSITORY_UPDATED_AT"@, push.repository.updated_at@)], "PUSH_REPOSITORY_FORK"@);
    lemma_last_value_single("PUSH_REPOSITORY_CREATED_AT"@, push.repository.created_at@, "PUSH_REPOSITORY_FORK"@);
    assert("PUSH_REPOSITORY_CREATED_AT"@.len() != "PUSH_REPOSITORY_FORK"@.len());
    lemma_last_value_single("PUSH_REPOSITORY_UPDATED_AT"@, push.repository.updated_at@, "PUSH_REPOSITORY_FORK"@);
    assert("PUSH_REPOSITORY_UPDATED_AT"@.len() != "PUSH_REPOSITORY_FORK"@.len());
    lemma_last_value_concat(push_event_env_part1(push) + push_event_env_part2(push), push_event_env_part3(push), "PUSH_REPOSITORY_FORK"@);
    lemma_last_value_concat(seq![("PUSH_REPOSITORY_DESCRIPTION"@, push.repository.description@)] + seq![("PUSH_REPOSITORY_PRIVATE"@, bool_text(push.repository.private))] + seq![("PUSH_REPOSITORY_FORK"@, bool_text(push.repository.fork))] + seq![("PUSH_REPOSITORY_HTML_URL"@, push.repository.html_url@)] + seq![("PUSH_REPOSITORY_SSH_URL"@, push.repository.ssh_url@)] + seq![("PUSH_REPOSITORY_CLONE_URL"@, push.repository.clone_url@)] + seq![("PUSH_REPOSITORY_WEBSITE"@, push.repository.website@)] + seq![("PUSH_REPOSITORY_STARS_COUNT"@, decimal(push.repository.stars_count as nat))] + seq![("PUSH_REPOSITORY_FORKS_COUNT"@, decimal(push.repository.forks_count as nat))] + seq![("PUSH_REPOSITORY_WATCHERS_COUNT"@, decimal(push.repository.watchers_count as nat))] + seq![("PUSH_REPOSITORY_OPEN_ISSUES_COUNT"@, decimal(push.repository.open_issues_count as nat))], seq![("PUSH_REPOSITORY_DEFAULT_BRANCH"@, push.repository.default_branch@)], "PUSH_REPOSITORY_FORK"@);
    lemma_last_value_single("PUSH_REPOSITORY_DEFAULT_BRANCH"@, push.repository.default_branch@, "PUSH_REPOSITORY_FORK"@);
    assert("PUSH_REPOSITORY_DEFAULT_BRANCH"@.len() != "PUSH_REPOSITORY_FORK"@.len());
    lemma_last_value_concat(seq![("PUSH_REPOSITORY_DESCRIPTION"@, push.repository.description@)] + seq![("PUSH_REPOSITORY_PRIVATE"@, bool_text(push.repository.private))] + seq![("PUSH_REPOSITORY_FORK"@, bool_text(push.repository.fork))] + seq![("PUSH_REPOSITORY_HTML_URL"@, push.repository.html_url@)] + seq![("PUSH_REPOSITORY_SSH_URL"@, push.repository.ssh_url@)] + seq![("PUSH_REPOSITORY_CLONE_URL"@, push.repository.clone_url@)] + seq![("PUSH_REPOSITORY_WEBSITE"@, push.repository.website@)] + seq![("PUSH_REPOSITORY_STARS_COUNT"@, decimal(push.repository.stars_count as nat))] + seq![("PUSH_REPOSITORY_FORKS_COUNT"@, decimal(push.repository.forks_count as nat))] + seq![("PUSH_REPOSITORY_WATCHERS_COUNT"@, decimal(push.repository.watchers_count as nat))], seq![("PUSH_REPOSITORY_OPEN_ISSUES_COUNT"@, decimal(push.repository.open_issues_count as nat))], "PUSH_REPOSITORY_FORK"@);
    lemma_last_value_single("PUSH_REPOSITORY_OPEN_ISSUES_COUNT"@, decimal(push.repository.open_issues_count as nat), "PUSH_REPOSITORY_FORK"@);
    assert("PUSH_REPOSITORY_OPEN_ISSUES_COUNT"@.len() != "PUSH_REPOSITORY_FORK"@.len());
    lemma_last_value_concat(seq![("PUSH_REPOSITORY_DESCRIPTION"@, push.repository.description@)] + seq![("PUSH_REPOSITORY_PRIVATE"@, bool_text(push.repository.private))] + seq![("PUSH_REPOSITORY_FORK"@, bool_text(push.repository.fork))] + seq![("PUSH_REPOSITORY_HTML_URL"@, push.repository.html_url@)] + seq![("PUSH_REPOSITORY_SSH_URL"@, push.repository.ssh_url@)] + seq![("PUSH_REPOSITORY_CLONE_URL"@, push.repository.clone_url@)] + seq![("PUSH_REPOSITORY_WEBSITE"@, push.repository.website@)] + seq![("PUSH_REPOSITORY_STARS_COUNT"@, decimal(push.repository.stars_count as nat))] + seq![("PUSH_REPOSITORY_FORKS_COUNT"@, decimal(push.repository.forks_count as nat))], seq![("PUSH_REPOSITORY_WATCHERS_COUNT"@, decimal(push.repository.watchers_count as nat))], "PUSH_REPOSITORY_FORK"@);
    lemma_last_value_single("PUSH_REPOSITORY_WATCHERS_COUNT"@, decimal(push.repository.watchers_count as nat), "PUSH_REPOSITORY_FORK"@);
    assert("PUSH_REPOSITORY_WATCHERS_COUNT"@.len() != "PUSH_REPOSITORY_FORK"@.len());
    lemma_last_value_concat(seq![("PUSH_REPOSITORY_DESCRIPTION"@, push.repository.description@)] + seq![("PUSH_REPOSITORY_PRIVATE"@, bool_text(push.repository.private))] + seq![("PUSH_REPOSITORY_FORK"@, bool_text(push.repository.fork))] + seq![("PUSH_REPOSITORY_HTML_URL"@, push.repository.html_url@)] + seq![("PUSH_REPOSITORY_SSH_URL"@, push.repository.ssh_url@)] + seq![("PUSH_REPOSITORY_CLONE_URL"@, push.repository.clone_url@)] + seq![("PUSH_REPOSITORY_WEBSITE"@, push.repository.website@)] + seq![("PUSH_REPOSITORY_STARS_COUNT"@, decimal(push.repository.stars_count as nat))], seq![("PUSH_REPOSITORY_FORKS_COUNT"@, decimal(push.repository.forks_count as nat))], "PUSH_REPOSITORY_FORK"@);
    lemma_last_value_single("PUSH_REPOSITORY_FORKS_COUNT"@, decimal(push.repository.forks_count as nat), "PUSH_REPOSITORY_FORK"@);
    assert("PUSH_REPOSITORY_FORKS_COUNT"@.len() != "PUSH_REPOSITORY_FORK"@.len());
    lemma_last_value_concat(seq![("PUSH_REPOSITORY_DESCRIPTION"@, push.repository.description@)] + seq![("PUSH_REPOSITORY_PRIVATE"@, bool_text(push.repository.private))] + seq![("PUSH_REPOSITORY_FORK"@, bool_text(push.repository.fork))] + seq![("PUSH_REPOSITORY_HTML_URL"@, push.repository.html_url@)] + seq![("PUSH_REPOSITORY_SSH_URL"@, push.repository.ssh_url@)] + seq![("PUSH_REPOSITORY_CLONE_URL"@, push.repository.clone_url@)] + seq![("PUSH_REPOSITORY_WEBSITE"@, push.repository.website@)], seq![("PUSH_REPOSITORY_STARS_COUNT"@, decimal(push.repository.stars_count as nat))], "PUSH_REPOSITORY_FORK"@);
    lemma_last_value_single("PUSH_REPOSITORY_STARS_COUNT"@, decimal(push.repository.stars_count as nat), "PUSH_REPOSITORY_FORK"@);
    assert("PUSH_REPOSITORY_STARS_COUNT"@.len() != "PUSH_REPOSITORY_FORK"@.len());
    lemma_last_value_concat(seq![("PUSH_REPOSITORY_DESCRIPTION"@, push.repository.description@)] + seq![("PUSH_REPOSITORY_PRIVATE"@, bool_text(push.repository.private))] + seq![("PUSH_REPOSITORY_FORK"@, bool_text(push.repository.fork))] + seq![("PUSH_REPOSITORY_HTML_URL"@, push.repository.html_url@)] + seq![("PUSH_REPOSITORY_SSH_URL"@, push.repository.ssh_url@)] + seq![("PUSH_REPOSITORY_CLONE_URL"@, push.repository.clone_url@)], seq![("PUSH_REPOSITORY_WEBSITE"@, push.repository.website@)], "PUSH_REPOSITORY_FORK"@);
    lemma_last_value_single("PUSH_REPOSITORY_WEBSITE"@, push.repository.website@, "PUSH_REPOSITORY_FORK"@);
    assert("PUSH_REPOSITORY_WEBSITE"@.len() != "PUSH_REPOSITORY_FORK"@.len());
    lemma_last_value_concat(seq![("PUSH_REPOSITORY_DESCRIPTION"@, push.repository.description@)] + seq![("PUSH_REPOSITORY_PRIVATE"@, bool_text(push.repository.private))] + seq![("PUSH_REPOSITORY_FORK"@, bool_text(push.repository.fork))] + seq![("PUSH_REPOSITORY_HTML_URL"@, push.repository.html_url@)] + seq![("PUSH_REPOSITORY_SSH_URL"@, push.repository.ssh_url@)], seq![("PUSH_REPOSITORY_CLONE_URL"@, push.repository.clone_url@)], "PUSH_REPOSITORY_FORK"@);
    lemma_last_value_single("PUSH_REPOSITORY_CLONE_URL"@, push.repository.clone_url@, "PUSH_REPOSITORY_FORK"@);
    assert("PUSH_REPOSITORY_CLONE_URL"@.len() != "PUSH_REPOSITORY_FORK"@.len());
    lemma_last_value_concat(seq![("PUSH_REPOSITORY_DESCRIPTION"@, push.repository.description@)] + seq![("PUSH_REPOSITORY_PRIVATE"@, bool_text(push.repository.private))] + seq![("PUSH_REPOSITORY_FORK"@, bool_text(push.repository.fork))] + seq![("PUSH_REPOSITORY_HTML_URL"@, push.repository.html_url@)], seq![("PUSH_REPOSITORY_SSH_URL"@, push.repository.ssh_url@)], "PUSH_REPOSITORY_FORK"@);
    lemma_last_value_single("PUSH_REPOSITORY_SSH_URL"@, push.repository.ssh_url@, "PUSH_REPOSITORY_FORK"@);
    assert("PUSH_REPOSITORY_SSH_URL"@.len() != "PUSH_REPOSITORY_FORK"@.len());
    lemma_last_value_concat(seq![("PUSH_REPOSITORY_DESCRIPTION"@, push.repository.description@)] + seq![("PUSH_REPOSITORY_PRIVATE"@, bool_text(push.repository.private))] + seq![("PUSH_REPOSITORY_FORK"@, bool_text(push.repository.fork))], seq![("PUSH_REPOSITORY_HTML_URL"@, push.repository.html_url@)], "PUSH_REPOSITORY_FORK"@);
    lemma_last_value_single("PUSH_REPOSITORY_HTML_URL"@, push.repository.html_url@, "PUSH_REPOSITORY_FORK"@);
    assert("PUSH_REPOSITORY_HTML_URL"@.len() != "PUSH_REPOSITORY_FORK"@.len());
    lemma_last_value_concat(seq![("PUSH_REPOSITORY_DESCRIPTION"@, push.repository.description@)] + seq![("PUSH_REPOSITORY_PRIVATE"@, bool_text(push.repository.private))], seq![("PUSH_REPOSITORY_FORK"@, bool_text(push.repository.fork))], "PUSH_REPOSITORY_FORK"@);
    lemma_last_value_single("PUSH_REPOSITORY_FORK"@, bool_text(push.repository.fork), "PUSH_REPOSITORY_FORK"@);
}

/// The command that answers a push leaves the push's repository html url in PUSH_REPOSITORY_HTML_URL.
pub proof fn lemma_push_event_repository_html_url(push: PushEvent)
    ensures
        last_value(push_event_command(push).envs, "PUSH_REPOSITORY_HTML_URL"@) == Some(push.repository.html_url@),
{
    reveal_strlit("PUSH_REF_PATH");
    reveal_strlit("PUSH_BEFORE");
    reveal_strlit("PUSH_AFTER");
    reveal_strlit("PUSH_PUSHER_ID");
    reveal_strlit("PUSH_PUSHER_LOGIN");
    reveal_strlit("PUSH_PUSHER_FULL_NAME");
    reveal_strlit("PUSH_PUSHER_EMAIL");
    reveal_strlit("PUSH_PUSHER_AVATAR_URL");
    reveal_strlit("PUSH_PUSHER_USERNAME");
    reveal_strlit("PUSH_SENDER_ID");
    reveal_strlit("PUSH_SENDER_LOGIN");
    reveal_strlit("PUSH_SENDER_FULL_NAME");
    reveal_strlit("PUSH_SENDER_EMAIL");
    reveal_strlit("PUSH_SENDER_AVATAR_URL");
    reveal_strlit("PUSH_SENDER_USERNAME");
    reveal_strlit("PUSH_REPOSITORY_ID");
    reveal_strlit("PUSH_REPOSITORY_OWNER_ID");
    reveal_strlit("PUSH_REPOSITORY_OWNER_LOGIN");
    reveal_strlit("PUSH_REPOSITORY_OWNER_FULL_NAME");
    reveal_strlit("PUSH_REPOSITORY_OWNER_EMAIL");
    reveal_strlit("PUSH_REPOSITORY_OWNER_AVATAR_URL");
    reveal_strlit("PUSH_REPOSITORY_OWNER_USERNAME");
    reveal_strlit("PUSH_REPOSITORY_NAME");
    reveal_strlit("PUSH_REPOSITORY_FULL_NAME");
    reveal_strlit("PUSH_REPOSITORY_DESCRIPTION");
    reveal_strlit("PUSH_REPOSITORY_PRIVATE");
    reveal_strlit("PUSH_REPOSITORY_FORK");
    reveal_strlit("PUSH_REPOSITORY_HTML_URL");
    reveal_strlit("PUSH_REPOSITORY_SSH_URL");
    reveal_strlit("PUSH_REPOSITORY_CLONE_URL");
    reveal_strlit("PUSH_REPOSITORY_WEBSITE");
    reveal_strlit("PUSH_REPOSITORY_STARS_COUNT");
    reveal_strlit("PUSH_REPOSITORY_FORKS_COUNT");
    reveal_strlit("PUSH_REPOSITORY_WATCHERS_COUNT");
    reveal_strlit("PUSH_REPOSITORY_OPEN_ISSUES_COUNT");
    reveal_strlit("PUSH_REPOSITORY_DEFAULT_BRANCH");
    reveal_strlit("PUSH_REPOSITORY_CREATED_AT");
    reveal_strlit("PUSH_REPOSITORY_UPDATED_AT");
    lemma_last_value_concat(push_event_env_part1(push) + push_event_env_part2(push) + push_event_env_part3(push), push_event_env_part4(push), "PUSH_REPOSITORY_HTML_URL"@);
    lemma_last_value_concat(seq![("PUSH_REPOSITORY_CREATED_AT"@, push.repository.created_at@)], seq![("PUSH_REPOSITORY_UPDATED_AT"@, push.repository.updated_at@)], "PUSH_REPOSITORY_HTML_URL"@);
    lemma_last_value_single("PUSH_REPOSITORY_CREATED_AT"@, push.repository.created_at@, "PUSH_REPOSITORY_HTML_URL"@);
    assert("PUSH_REPOSITORY_CREATED_AT"@.len() != "PUSH_REPOSITORY_HTML_URL"@.len());
    lemma_last_value_single("PUSH_REPOSITORY_UPDATED_AT"@, push.repository.updated_at@, "PUSH_REPOSITORY_HTML_URL"@);
    assert("PUSH_REPOSITORY_UPDATED_AT"@.len() != "PUSH_REPOSITORY_HTML_URL"@.len());
    lemma_last_value_concat(push_event_env_part1(push) + push_event_env_part2(push), push_event_env_part3(push), "PUSH_REPOSITORY_HTML_URL"@);
    lemma_last_value_concat(seq![("PUSH_REPOSITORY_DESCRIPTION"@, push.repository.description@)] + seq![("PUSH_REPOSITORY_PRIVATE"@, bool_text(push.repository.private))] + seq![("PUSH_REPOSITORY_FORK"@, bool_text(push.repository.fork))] + seq![("PUSH_REPOSITORY_HTML_URL"@, push.repository.html_url@)] + seq![("PUSH_REPOSITORY_SSH_URL"@, push.repository.ssh_url@)] + seq![("PUSH_REPOSITORY_CLONE_URL"@, push.repository.clone_url@)] + seq![("PUSH_REPOSITORY_WEBSITE"@, push.repository.website@)] + seq![("PUSH_REPOSITORY_STARS_COUNT"@, decimal(push.repository.stars_count as nat))] + seq![("PUSH_REPOSITORY_FORKS_COUNT"@, decimal(push.repository.forks_count as nat))] + seq![("PUSH_REPOSITORY_WATCHERS_COUNT"@, decimal(push.repository.watchers_count as nat))] + seq![("PUSH_REPOSITORY_OPEN_ISSUES_COUNT"@, decimal(push.repository.open_issues_count as nat))], seq![("PUSH_REPOSITORY_DEFAULT_BRANCH"@, push.repository.default_branch@)], "PUSH_REPOSITORY_HTML_URL"@);
    lemma_last_value_single("PUSH_REPOSITORY_DEFAULT_BRANCH"@, push.repository.default_branch@, "PUSH_REPOSITORY_HTML_URL"@);
    assert("PUSH_REPOSITORY_DEFAULT_BRANCH"@.len() != "PUSH_REPOSITORY_HTML_URL"@.len());
    lemma_last_value_concat(seq![("PUSH_REPOSITORY_DESCRIPTION"@, push.repository.description@)] + seq![("PUSH_REPOSITORY_PRIVATE"@, bool_text(push.repository.private))] + seq![("PUSH_REPOSITORY_FORK"@, bool_text(push.repository.fork))] + seq![("PUSH_REPOSITORY_HTML_URL"@, push.repository.html_url@)] + seq![("PUSH_REPOSITORY_SSH_URL"@, push.repository.ssh_url@)] + seq![("PUSH_REPOSITORY_CLONE_URL"@, push.repository.clone_url@)] + seq![("PUSH_REPOSITORY_WEBSITE"@, push.repository.website@)] + seq![("PUSH_REPOSITORY_STARS_COUNT"@, decimal(push.repository.stars_count as nat))] + seq![("PUSH_REPOSITORY_FORKS_COUNT"@, decimal(push.repository.forks_count as nat))] + seq![("PUSH_REPOSITORY_WATCHERS_COUNT"@, decimal(push.repository.watchers_count as nat))], seq![("PUSH_REPOSITORY_OPEN_ISSUES_COUNT"@, decimal(push.repository.open_issues_count as nat))], "PUSH_REPOSITORY_HTML_URL"@);
    lemma_last_value_single("PUSH_REPOSITORY_OPEN_ISSUES_COUNT"@, decimal(push.repository.open_issues_count as nat), "PUSH_REPOSITORY_HTML_URL"@);
    assert("PUSH_REPOSITORY_OPEN_ISSUES_COUNT"@.len() != "PUSH_REPOSITORY_HTML_URL"@.len());
    lemma_last_value_concat(seq![("PUSH_REPOSITORY_DESCRIPTION"@, push.repository.description@)] + seq![("PUSH_REPOSITORY_PRIVATE"@, bool_text(push.repository.private))] + seq![("PUSH_REPOSITORY_FORK"@, bool_text(push.repository.fork))] + seq![("PUSH_REPOSITORY_HTML_URL"@, push.repository.html_url@)] + seq![("PUSH_REPOSITORY_SSH_URL"@, push.repository.ssh_url@)] + seq![("PUSH_REPOSITORY_CLONE_URL"@, push.repository.clone_url@)] + seq![("PUSH_REPOSITORY_WEBSITE"@, push.repository.website@)] + seq![("PUSH_REPOSITORY_STARS_COUNT"@, decimal(push.repository.stars_count as nat))] + seq![("PUSH_REPOSITORY_FORKS_COUNT"@, decimal(push.repository.forks_count as nat))], seq![("PUSH_REPOSITORY_WATCHERS_COUNT"@, decimal(push.repository.watchers_count as nat))], "PUSH_REPOSITORY_HTML_URL"@);
    lemma_last_value_single("PUSH_REPOSITORY_WATCHERS_COUNT"@, decimal(push.repository.watchers_count as nat), "PUSH_REPOSITORY_HTML_URL"@);
    assert("PUSH_REPOSITORY_WATCHERS_COUNT"@.len() != "PUSH_REPOSITORY_HTML_URL"@.len());
    lemma_last_value_concat(seq![("PUSH_REPOSITORY_DESCRIPTION"@, push.repository.description@)] + seq![("PUSH_REPOSITORY_PRIVATE"@, bool_text(push.repository.private))] + seq![("PUSH_REPOSITORY_FORK"@, bool_text(push.repository.fork))] + seq![("PUSH_REPOSITORY_HTML_URL"@, push.repository.html_url@)] + seq![("PUSH_REPOSITORY_SSH_URL"@, push.repository.ssh_url@)] + seq![("PUSH_REPOSITORY_CLONE_URL"@, push.repository.clone_url@)] + seq![("PUSH_REPOSITORY_WEBSITE"@, push.repository.website@)] + seq![("PUSH_REPOSITORY_STARS_COUNT"@, decimal(push.repository.stars_count as nat))], seq![("PUSH_REPOSITORY_FORKS_COUNT"@, decimal(push.repository.forks_count as nat))], "PUSH_REPOSITORY_HTML_URL"@);
    lemma_last_value_single("PUSH_REPOSITORY_FORKS_COUNT"@, decimal(push.repository.forks_count as nat), "PUSH_REPOSITORY_HTML_URL"@);
    assert("PUSH_REPOSITORY_FORKS_COUNT"@.len() != "PUSH_REPOSITORY_HTML_URL"@.len());
    lemma_last_value_concat(seq![("PUSH_REPOSITORY_DESCRIPTION"@, push.repository.description@)] + seq![("PUSH_REPOSITORY_PRIVATE"@, bool_text(push.repository.private))] + seq![("PUSH_REPOSITORY_FORK"@, bool_text(push.repository.fork))] + seq![("PUSH_REPOSITORY_HTML_URL"@, push.repository.html_url@)] + seq![("PUSH_REPOSITORY_SSH_URL"@, push.repository.ssh_url@)] + seq![("PUSH_REPOSITORY_CLONE_URL"@, push.repository.clone_url@)] + seq![("PUSH_REPOSITORY_WEBSITE"@, push.repository.website@)], seq![("PUSH_REPOSITORY_STARS_COUNT"@, decimal(push.repository.stars_count as nat))], "PUSH_REPOSITORY_HTML_URL"@);
    lemma_last_value_single("PUSH_REPOSITORY_STARS_COUNT"@, decimal(push.repository.stars_count as nat), "PUSH_REPOSITORY_HTML_URL"@);
    assert("PUSH_REPOSITORY_STARS_COUNT"@.len() != "PUSH_REPOSITORY_HTML_URL"@.len());
    lemma_last_value_concat(seq![("PUSH_REPOSITORY_DESCRIPTION"@, push.repository.description@)] + seq![("PUSH_REPOSITORY_PRIVATE"@, bool_text(push.repository.private))] + seq![("PUSH_REPOSITORY_FORK"@, bool_text(push.repository.fork))] + seq![("PUSH_REPOSITORY_HTML_URL"@, push.repository.html_url@)] + seq![("PUSH_REPOSITORY_SSH_URL"@, push.repository.ssh_url@)] + seq![("PUSH_REPOSITORY_CLONE_URL"@, push.repository.clone_url@)], seq![("PUSH_REPOSITORY_WEBSITE"@, push.repository.website@)], "PUSH_REPOSITORY_HTML_URL"@);
    lemma_last_value_single("PUSH_REPOSITORY_WEBSITE"@, push.repository.website@, "PUSH_REPOSITORY_HTML_URL"@);
    assert("PUSH_REPOSITORY_WEBSITE"@.len() != "PUSH_REPOSITORY_HTML_URL"@.len());
    lemma_last_value_concat(seq![("PUSH_REPOSITORY_DESCRIPTION"@, push.repository.description@)] + seq![("PUSH_REPOSITORY_PRIVATE"@, bool_text(push.repository.private))] + seq![("PUSH_REPOSITORY_FORK"@, bool_text(push.repository.fork))] + seq![("PUSH_REPOSITORY_HTML_URL"@, push.repository.html_url@)] + seq![("PUSH_REPOSITORY_SSH_URL"@, push.repository.ssh_url@)], seq![("PUSH_REPOSITORY_CLONE_URL"@, push.repository.clone_url@)], "PUSH_REPOSITORY_HTML_URL"@);
    lemma_last_value_single("PUSH_REPOSITORY_CLONE_URL"@, push.repository.clone_url@, "PUSH_REPOSITORY_HTML_URL"@);
    assert("PUSH_REPOSITORY_CLONE_URL"@.len() != "PUSH_REPOSITORY_HTML_URL"@.len());
    lemma_last_value_concat(seq![("PUSH_REPOSITORY_DESCRIPTION"@, push.repository.description@)] + seq![("PUSH_REPOSITORY_PRIVATE"@, bool_text(push.repository.private))] + seq![("PUSH_REPOSITORY_FORK"@, bool_text(push.repository.fork))] + seq![("PUSH_REPOSITORY_HTML_URL"@, push.repository.html_url@)], seq![("PUSH_REPOSITORY_SSH_URL"@, push.repository.ssh_url@)], "PUSH_REPOSITORY_HTML_URL"@);
    lemma_last_value_single("PUSH_REPOSITORY_SSH_URL"@, push.repository.ssh_url@, "PUSH_REPOSITORY_HTML_URL"@);
    assert("PUSH_REPOSITORY_SSH_URL"@.len() != "PUSH_REPOSITORY_HTML_URL"@.len());
    lemma_last_value_concat(seq![("PUSH_REPOSITORY_DESCRIPTION"@, push.repository.description@)] + seq![("PUSH_REPOSITORY_PRIVATE"@, bool_text(push.repository.private))] + seq![("PUSH_REPOSITORY_FORK"@, bool_text(push.repository.fork))], seq![("PUSH_REPOSITORY_HTML_URL"@, push.repository.html_url@)], "PUSH_REPOSITORY_HTML_URL"@);
    lemma_last_value_single("PUSH_REPOSITORY_HTML_URL"@, push.repository.html_url@, "PUSH_REPOSITORY_HTML_URL"@);
}

/// The command that answers a push leaves the push's repository ssh url in PUSH_REPOSITORY_SSH_URL.
pub proof fn lemma_push_event_repository_ssh_url(push: PushEvent)
    ensures
        last_value(push_event_command(push).envs, "PUSH_REPOSITORY_SSH_URL"@) == Some(push.repository.ssh_url@),
{
    reveal_strlit("PUSH_REF_PATH");
    reveal_strlit("PUSH_BEFORE");
    reveal_strlit("PUSH_AFTER");
    reveal_strlit("PUSH_PUSHER_ID");
    reveal_strlit("PUSH_PUSHER_LOGIN");
    reveal_strlit("PUSH_PUSHER_FULL_NAME");
    reveal_strlit("PUSH_PUSHER_EMAIL");
    reveal_strlit("PUSH_PUSHER_AVATAR_URL");
    reveal_strlit("PUSH_PUSHER_USERNAME");
    reveal_strlit("PUSH_SENDER_ID");
    reveal_strlit("PUSH_SENDER_LOGIN");
    reveal_strlit("PUSH_SENDER_FULL_NAME");
    reveal_strlit("PUSH_SENDER_EMAIL");
    reveal_strlit("PUSH_SENDER_AVATAR_URL");
    reveal_strlit("PUSH_SENDER_USERNAME");
    reveal_strlit("PUSH_REPOSITORY_ID");
    reveal_strlit("PUSH_REPOSITORY_OWNER_ID");
    reveal_strlit("PUSH_REPOSITORY_OWNER_LOGIN");
    reveal_strlit("PUSH_REPOSITORY_OWNER_FULL_NAME");
    reveal_strlit("PUSH_REPOSITORY_OWNER_EMAIL");
    reveal_strlit("PUSH_REPOSITORY_OWNER_AVATAR_URL");
    reveal_strlit("PUSH_REPOSITORY_OWNER_USERNAME");
    reveal_strlit("PUSH_REPOSITORY_NAME");
    reveal_strlit("PUSH_REPOSITORY_FULL_NAME");
    reveal_strlit("PUSH_REPOSITORY_DESCRIPTION");
    reveal_strlit("PUSH_REPOSITORY_PRIVATE");
    reveal_strlit("PUSH_REPOSITORY_FORK");
    reveal_strlit("PUSH_REPOSITORY_HTML_URL");
    reveal_strlit("PUSH_REPOSITORY_SSH_URL");
    reveal_strlit("PUSH_REPOSITORY_CLONE_URL");
    reveal_strlit("PUSH_REPOSITORY_WEBSITE");
    reveal_strlit("PUSH_REPOSITORY_STARS_COUNT");
    reveal_strlit("PUSH_REPOSITORY_FORKS_COUNT");
    reveal_strlit("PUSH_REPOSITORY_WATCHERS_COUNT");
    reveal_strlit("PUSH_REPOSITORY_OPEN_ISSUES_COUNT");
    reveal_strlit("PUSH_REPOSITORY_DEFAULT_BRANCH");
    reveal_strlit("PUSH_REPOSITORY_CREATED_AT");
    reveal_strlit("PUSH_REPOSITORY_UPDATED_AT");
    lemma_last_value_concat(push_event_env_part1(push) + push_event_env_part2(push) + push_event_env_part3(push), push_event_env_part4(push), "PUSH_REPOSITORY_SSH_URL"@);
    lemma_last_value_concat(seq![("PUSH_REPOSITORY_CREATED_AT"@, push.repository.created_at@)], seq![("PUSH_REPOSITORY_UPDATED_AT"@, push.repository.updated_at@)], "PUSH_REPOSITORY_SSH_URL"@);
    lemma_last_value_single("PUSH_REPOSITORY_CREATED_AT"@, push.repository.created_at@, "PUSH_REPOSITORY_SSH_URL"@);
    assert("PUSH_REPOSITORY_CREATED_AT"@.len() != "PUSH_REPOSITORY_SSH_URL"@.len());
    lemma_last_value_single("PUSH_REPOSITORY_UPDATED_AT"@, push.repository.updated_at@, "PUSH_REPOSITORY_SSH_URL"@);
    assert("PUSH_REPOSITORY_UPDATED_AT"@.len() != "PUSH_REPOSITORY_SSH_URL"@.len());
    lemma_last_value_concat(push_event_env_part1(push) + push_event_env_part2(push), push_event_env_part3(push), "PUSH_REPOSITORY_SSH_URL"@);
    lemma_last_value_concat(seq![("PUSH_REPOSITORY_DESCRIPTION"@, push.repository.description@)] + seq![("PUSH_REPOSITORY_PRIVATE"@, bool_text(push.repository.private))] + seq![("PUSH_REPOSITORY_FORK"@, bool_text(push.repository.fork))] + seq![("PUSH_REPOSITORY_HTML_URL"@, push.repository.html_url@)] + seq![("PUSH_REPOSITORY_SSH_URL"@, push.repository.ssh_url@)] + seq![("PUSH_REPOSITORY_CLONE_URL"@, push.repository.clone_url@)] + seq![("PUSH_REPOSITORY_WEBSITE"@, push.repository.website@)] + seq![("PUSH_REPOSITORY_STARS_COUNT"@, decimal(push.repository.stars_count as nat))] + seq![("PUSH_REPOSITORY_FORKS_COUNT"@, decimal(push.repository.forks_count as nat))] + seq![("PUSH_REPOSITORY_WATCHERS_COUNT"@, decimal(push.repository.watchers_count as nat))] + seq![("PUSH_REPOSITORY_OPEN_ISSUES_COUNT"@, decimal(push.repository.open_issues_count as nat))], seq![("PUSH_REPOSITORY_DEFAULT_BRANCH"@, push.repository.default_branch@)], "PUSH_REPOSITORY_SSH_URL"@);
    lemma_last_value_single("PUSH_REPOSITORY_DEFAULT_BRANCH"@, push.repository.default_branch@, "PUSH_REPOSITORY_SSH_URL"@);
    assert("PUSH_REPOSITORY_DEFAULT_BRANCH"@.len() != "PUSH_REPOSITORY_SSH_URL"@.len());
    lemma_last_value_concat(seq![("PUSH_REPOSITORY_DESCRIPTION"@, push.repository.description@)] + seq![("PUSH_REPOSITORY_PRIVATE"@, bool_text(push.repository.private))] + seq![("PUSH_REPOSITORY_FORK"@, bool_text(push.repository.fork))] + seq![("PUSH_REPOSITORY_HTML_URL"@, push.repository.html_url@)] + seq![("PUSH_REPOSITORY_SSH_URL"@, push.repository.ssh_url@)] + seq![("PUSH_REPOSITORY_CLONE_URL"@, push.repository.clone_url@)] + seq![("PUSH_REPOSITORY_WEBSITE"@, push.repository.website@)] + seq![("PUSH_REPOSITORY_STARS_COUNT"@, decimal(push.repository.stars_count as nat))] + seq![("PUSH_REPOSITORY_FORKS_COUNT"@, decimal(push.repository.forks_count as nat))] + seq![("PUSH_REPOSITORY_WATCHERS_COUNT"@, decimal(push.repository.watchers_count as nat))], seq![("PUSH_REPOSITORY_OPEN_ISSUES_COUNT"@, decimal(push.repository.open_issues_count as nat))], "PUSH_REPOSITORY_SSH_URL"@);
    lemma_last_value_single("PUSH_REPOSITORY_OPEN_ISSUES_COUNT"@, decimal(push.repository.open_issues_count as nat), "PUSH_REPOSITORY_SSH_URL"@);
    assert("PUSH_REPOSITORY_OPEN_ISSUES_COUNT"@.len() != "PUSH_REPOSITORY_SSH_URL"@.len());
    lemma_last_value_concat(seq![("PUSH_REPOSITORY_DESCRIPTION"@, push.repository.description@)] + seq![("PUSH_REPOSITORY_PRIVATE"@, bool_text(push.repository.private))] + seq![("PUSH_REPOSITORY_FORK"@, bool_text(push.repository.fork))] + seq![("PUSH_REPOSITORY_HTML_URL"@, push.repository.html_url@)] + seq![("PUSH_REPOSITORY_SSH_URL"@, push.repository.ssh_url@)] + seq![("PUSH_REPOSITORY_CLONE_URL"@, push.repository.clone_url@)] + seq![("PUSH_REPOSITORY_WEBSITE"@, push.repository.website@)] + seq![("PUSH_REPOSITORY_STARS_COUNT"@, decimal(push.repository.stars_count as nat))] + seq![("PUSH_REPOSITORY_FORKS_COUNT"@, decimal(push.repository.forks_count as nat))], seq![("PUSH_REPOSITORY_WATCHERS_COUNT"@, decimal(push.repository.watchers_count as nat))], "PUSH_REPOSITORY_SSH_URL"@);
    lemma_last_value_single("PUSH_REPOSITORY_WATCHERS_COUNT"@, decimal(push.repository.watchers_count as nat), "PUSH_REPOSITORY_SSH_URL"@);
    assert("PUSH_REPOSITORY_WATCHERS_COUNT"@.len() != "PUSH_REPOSITORY_SSH_URL"@.len());
    lemma_last_value_concat(seq![("PUSH_REPOSITORY_DESCRIPTION"@, push.repository.description@)] + seq![("PUSH_REPOSITORY_PRIVATE"@, bool_text(push.repository.private))] + seq![("PUSH_REPOSITORY_FORK"@, bool_text(push.repository.fork))] + seq![("PUSH_REPOSITORY_HTML_URL"@, push.repository.html_url@)] + seq![("PUSH_REPOSITORY_SSH_URL"@, push.repository.ssh_url@)] + seq![("PUSH_REPOSITORY_CLONE_URL"@, push.repository.clone_url@)] + seq![("PUSH_REPOSITORY_WEBSITE"@, push.repository.website@)] + seq![("PUSH_REPOSITORY_STARS_COUNT"@, decimal(push.repository.stars_count as nat))], seq![("PUSH_REPOSITORY_FORKS_COUNT"@, decimal(push.repository.forks_count as nat))], "PUSH_REPOSITORY_SSH_URL"@);
    lemma_last_value_single("PUSH_REPOSITORY_FORKS_COUNT"@, decimal(push.repository.forks_count as nat), "PUSH_REPOSITORY_SSH_URL"@);
    assert("PUSH_REPOSITORY_FORKS_COUNT"@.len() != "PUSH_REPOSITORY_SSH_URL"@.len());
    lemma_last_value_concat(seq![("PUSH_REPOSITORY_DESCRIPTION"@, push.repository.description@)] + seq![("PUSH_REPOSITORY_PRIVATE"@, bool_text(push.repository.private))] + seq![("PUSH_REPOSITORY_FORK"@, bool_text(push.repository.fork))] + seq![("PUSH_REPOSITORY_HTML_URL"@, push.repository.html_url@)] + seq![("PUSH_REPOSITORY_SSH_URL"@, push.repository.ssh_url@)] + seq![("PUSH_REPOSITORY_CLONE_URL"@, push.repository.clone_url@)] + seq![("PUSH_REPOSITORY_WEBSITE"@, push.repository.website@)], seq![("PUSH_REPOSITORY_STARS_COUNT"@, decimal(push.repository.stars_count as nat))], "PUSH_REPOSITORY_SSH_URL"@);
    lemma_last_value_single("PUSH_REPOSITORY_STARS_COUNT"@, decimal(push.repository.stars_count as nat), "PUSH_REPOSITORY_SSH_URL"@);
    assert("PUSH_REPOSITORY_STARS_COUNT"@.len() != "PUSH_REPOSITORY_SSH_URL"@.len());
    lemma_last_value_concat(seq![("PUSH_REPOSITORY_DESCRIPTION"@, push.repository.description@)] + seq![("PUSH_REPOSITORY_PRIVATE"@, bool_text(push.repository.private))] + seq![("PUSH_REPOSITORY_FORK"@, bool_text(push.repository.fork))] + seq![("PUSH_REPOSITORY_HTML_URL"@, push.repository.html_url@)] + seq![("PUSH_REPOSITORY_SSH_URL"@, push.repository.ssh_url@)] + seq![("PUSH_REPOSITORY_CLONE_URL"@, push.repository.clone_url@)], seq![("PUSH_REPOSITORY_WEBSITE"@, push.repository.website@)], "PUSH_REPOSITORY_SSH_URL"@);
    lemma_last_value_single("PUSH_REPOSITORY_WEBSITE"@, push.repository.website@, "PUSH_REPOSITORY_SSH_URL"@);
    assert("PUSH_REPOSITORY_WEBSITE"@[16] != "PUSH_REPOSITORY_SSH_URL"@[16]);
    lemma_last_value_concat(seq![("PUSH_REPOSITORY_DESCRIPTION"@, push.repository.description@)] + seq![("PUSH_REPOSITORY_PRIVATE"@, bool_text(push.repository.private))] + seq![("PUSH_REPOSITORY_FORK"@, bool_text(push.repository.fork))] + seq![("PUSH_REPOSITORY_HTML_URL"@, push.repository.html_url@)] + seq![("PUSH_REPOSITORY_SSH_URL"@, push.repository.ssh_url@)], seq![("PUSH_REPOSITORY_CLONE_URL"@, push.repository.clone_url@)], "PUSH_REPOSITORY_SSH_URL"@);
    lemma_last_value_single("PUSH_REPOSITORY_CLONE_URL"@, push.repository.clone_url@, "PUSH_REPOSITORY_SSH_URL"@);
    assert("PUSH_REPOSITORY_CLONE_URL"@.len() != "PUSH_REPOSITORY_SSH_URL"@.len());
    lemma_last_value_concat(seq![("PUSH_REPOSITORY_DESCRIPTION"@, push.repository.description@)] + seq![("PUSH_REPOSITORY_PRIVATE"@, bool_text(push.repository.private))] + seq![("PUSH_REPOSITORY_FORK"@, bool_text(push.repository.fork))] + seq![("PUSH_REPOSITORY_HTML_URL"@, push.repository.html_url@)], seq![("PUSH_REPOSITORY_SSH_URL"@, push.repository.ssh_url@)], "PUSH_REPOSITORY_SSH_URL"@);
    lemma_last_value_single("PUSH_REPOSITORY_SSH_URL"@, push.repository.ssh_url@, "PUSH_REPOSITORY_SSH_URL"@);
}

/// The command that answers a push leaves the push's repository clone url in PUSH_REPOSITORY_CLONE_URL.
pub proof fn lemma_push_event_repository_clone_url(push: PushEvent)
    ensures
        last_value(push_event_command(push).envs, "PUSH_REPOSITORY_CLONE_URL"@) == Some(push.repository.clone_url@),
{
    reveal_strlit("PUSH_REF_PATH");
    reveal_strlit("PUSH_BEFORE");
    reveal_strlit("PUSH_AFTER");
    reveal_strlit("PUSH_PUSHER_ID");
    reveal_strlit("PUSH_PUSHER_LOGIN");
    reveal_strlit("PUSH_PUSHER_FULL_NAME");
    reveal_strlit("PUSH_PUSHER_EMAIL");
    reveal_strlit("PUSH_PUSHER_AVATAR_URL");
    reveal_strlit("PUSH_PUSHER_USERNAME");
    reveal_strlit("PUSH_SENDER_ID");
    reveal_strlit("PUSH_SENDER_LOGIN");
    reveal_strlit("PUSH_SENDER_FULL_NAME");
    reveal_strlit("PUSH_SENDER_EMAIL");
    reveal_strlit("PUSH_SENDER_AVATAR_URL");
    reveal_strlit("PUSH_SENDER_USERNAME");
    reveal_strlit("PUSH_REPOSITORY_ID");
    reveal_strlit("PUSH_REPOSITORY_OWNER_ID");
    reveal_strlit("PUSH_REPOSITORY_OWNER_LOGIN");
    reveal_strlit("PUSH_REPOSITORY_OWNER_FULL_NAME");
    reveal_strlit("PUSH_REPOSITORY_OWNER_EMAIL");
    reveal_strlit("PUSH_REPOSITORY_OWNER_AVATAR_URL");
    reveal_strlit("PUSH_REPOSITORY_OWNER_USERNAME");
    reveal_strlit("PUSH_REPOSITORY_NAME");
    reveal_strlit("PUSH_REPOSITORY_FULL_NAME");
    reveal_strlit("PUSH_REPOSITORY_DESCRIPTION");
    reveal_strlit("PUSH_REPOSITORY_PRIVATE");
    reveal_strlit("PUSH_REPOSITORY_FORK");
    reveal_strlit("PUSH_REPOSITORY_HTML_URL");
    reveal_strlit("PUSH_REPOSITORY_SSH_URL");
    reveal_strlit("PUSH_REPOSITORY_CLONE_URL");
    reveal_strlit("PUSH_REPOSITORY_WEBSITE");
    reveal_strlit("PUSH_REPOSITORY_STARS_COUNT");
    reveal_strlit("PUSH_REPOSITORY_FORKS_COUNT");
    reveal_strlit("PUSH_REPOSITORY_WATCHERS_COUNT");
    reveal_strlit("PUSH_REPOSITORY_OPEN_ISSUES_COUNT");
    reveal_strlit("PUSH_REPOSITORY_DEFAULT_BRANCH");
    reveal_strlit("PUSH_REPOSITORY_CREATED_AT");
    reveal_strlit("PUSH_REPOSITORY_UPDATED_AT");
    lemma_last_value_concat(push_event_env_part1(push) + push_event_env_part2(push) + push_event_env_part3(push), push_event_env_part4(push), "PUSH_REPOSITORY_CLONE_URL"@);
    lemma_last_value_concat(seq![("PUSH_REPOSITORY_CREATED_AT"@, push.repository.created_at@)], seq![("PUSH_REPOSITORY_UPDATED_AT"@, push.repository.updated_at@)], "PUSH_REPOSITORY_CLONE_URL"@);
    lemma_last_value_single("PUSH_REPOSITORY_CREATED_AT"@, push.repository.created_at@, "PUSH_REPOSITORY_CLONE_URL"@);
    assert("PUSH_REPOSITORY_CREATED_AT"@.len() != "PUSH_REPOSITORY_CLONE_URL"@.len());
    lemma_last_value_single("PUSH_REPOSITORY_UPDATED_AT"@, push.repository.updated_at@, "PUSH_REPOSITORY_CLONE_URL"@);
    assert("PUSH_REPOSITORY_UPDATED_AT"@.len() != "PUSH_REPOSITORY_CLONE_URL"@.len());
    lemma_last_value_concat(push_event_env_part1(push) + push_event_env_part2(push), push_event_env_part3(push), "PUSH_REPOSITORY_CLONE_URL"@);
    lemma_last_value_concat(seq![("PUSH_REPOSITORY_DESCRIPTION"@, push.repository.description@)] + seq![("PUSH_REPOSITORY_PRIVATE"@, bool_text(push.repository.private))] + seq![("PUSH_REPOSITORY_FORK"@, bool_text(push.repository.fork))] + seq![("PUSH_REPOSITORY_HTML_URL"@, push.repository.html_url@)] + seq![("PUSH_REPOSITORY_SSH_URL"@, push.repository.ssh_url@)] + seq![("PUSH_REPOSITORY_CLONE_URL"@, push.repository.clone_url@)] + seq![("PUSH_REPOSITORY_WEBSITE"@, push.repository.website@)] + seq![("PUSH_REPOSITORY_STARS_COUNT"@, decimal(push.repository.stars_count as nat))] + seq![("PUSH_REPOSITORY_FORKS_COUNT"@, decimal(push.repository.forks_count as nat))] + seq![("PUSH_REPOSITORY_WATCHERS_COUNT"@, decimal(push.repository.watchers_count as nat))] + seq![("PUSH_REPOSITORY_OPEN_ISSUES_COUNT"@, decimal(push.repository.open_issues_count as nat))], seq![("PUSH_REPOSITORY_DEFAULT_BRANCH"@, push.repository.default_branch@)], "PUSH_REPOSITORY_CLONE_URL"@);
    lemma_last_value_single("PUSH_REPOSITORY_DEFAULT_BRANCH"@, push.repository.default_branch@, "PUSH_REPOSITORY_CLONE_URL"@);
    assert("PUSH_REPOSITORY_DEFAULT_BRANCH"@.len() != "PUSH_REPOSITORY_CLONE_URL"@.len());
    lemma_last_value_concat(seq![("PUSH_REPOSITORY_DESCRIPTION"@, push.repository.description@)] + seq![("PUSH_REPOSITORY_PRIVATE"@, bool_text(push.repository.private))] + seq![("PUSH_REPOSITORY_FORK"@, bool_text(push.repository.fork))] + seq![("PUSH_REPOSITORY_HTML_URL"@, push.repository.html_url@)] + seq![("PUSH_REPOSITORY_SSH_URL"@, push.repository.ssh_url@)] + seq![("PUSH_REPOSITORY_CLONE_URL"@, push.repository.clone_url@)] + seq![("PUSH_REPOSITORY_WEBSITE"@, push.repository.website@)] + seq![("PUSH_REPOSITORY_STARS_COUNT"@, decimal(push.repository.stars_count as nat))] + seq![("PUSH_REPOSITORY_FORKS_COUNT"@, decimal(push.repository.forks_count as nat))] + seq![("PUSH_REPOSITORY_WATCHERS_COUNT"@, decimal(push.repository.watchers_count as nat))], seq![("PUSH_REPOSITORY_OPEN_ISSUES_COUNT"@, decimal(push.repository.open_issues_count as nat))], "PUSH_REPOSITORY_CLONE_URL"@);
    lemma_last_value_single("PUSH_REPOSITORY_OPEN_ISSUES_COUNT"@, decimal(push.repository.open_issues_count as nat), "PUSH_REPOSITORY_CLONE_URL"@);
    assert("PUSH_REPOSITORY_OPEN_ISSUES_COUNT"@.len() != "PUSH_REPOSITORY_CLONE_URL"@.len());
    lemma_last_value_concat(seq![("PUSH_REPOSITORY_DESCRIPTION"@, push.repository.description@)] + seq![("PUSH_REPOSITORY_PRIVATE"@, bool_text(push.repository.private))] + seq![("PUSH_REPOSITORY_FORK"@, bool_text(push.repository.fork))] + seq![("PUSH_REPOSITORY_HTML_URL"@, push.repository.html_url@)] + seq![("PUSH_REPOSITORY_SSH_URL"@, push.repository.ssh_url@)] + seq![("PUSH_REPOSITORY_CLONE_URL"@, push.repository.clone_url@)] + seq![("PUSH_REPOSITORY_WEBSITE"@, push.repository.website@)] + seq![("PUSH_REPOSITORY_STARS_COUNT"@, decimal(push.repository.stars_count as nat))] + seq![("PUSH_REPOSITORY_FORKS_COUNT"@, decimal(push.repository.forks_count as nat))], seq![("PUSH_REPOSITORY_WATCHERS_COUNT"@, decimal(push.repository.watchers_count as nat))], "PUSH_REPOSITORY_CLONE_URL"@);
    lemma_last_value_single("PUSH_REPOSITORY_WATCHERS_COUNT"@, decimal(push.repository.watchers_count as nat), "PUSH_REPOSITORY_CLONE_URL"@);
    assert("PUSH_REPOSITORY_WATCHERS_COUNT"@.len() != "PUSH_REPOSITORY_CLONE_URL"@.len());
    lemma_last_value_concat(seq![("PUSH_REPOSITORY_DESCRIPTION"@, push.repository.description@)] + seq![("PUSH_REPOSITORY_PRIVATE"@, bool_text(push.repository.private))] + seq![("PUSH_REPOSITORY_FORK"@, bool_text(push.repository.fork))] + seq![("PUSH_REPOSITORY_HTML_URL"@, push.repository.html_url@)] + seq![("PUSH_REPOSITORY_SSH_URL"@, push.repository.ssh_url@)] + seq![("PUSH_REPOSITORY_CLONE_URL"@, push.repository.clone_url@)] + seq![("PUSH_REPOSITORY_WEBSITE"@, push.repository.website@)] + seq![("PUSH_REPOSITORY_STARS_COUNT"@, decimal(push.repository.stars_count as nat))], seq![("PUSH_REPOSITORY_FORKS_COUNT"@, decimal(push.repository.forks_count as nat))], "PUSH_REPOSITORY_CLONE_URL"@);
    lemma_last_value_single("PUSH_REPOSITORY_FORKS_COUNT"@, decimal(push.repository.forks_count as nat), "PUSH_REPOSITORY_CLONE_URL"@);
    assert("PUSH_REPOSITORY_FORKS_COUNT"@.len() != "PUSH_REPOSITORY_CLONE_URL"@.len());
    lemma_last_value_concat(seq![("PUSH_REPOSITORY_DESCRIPTION"@, push.repository.description@)] + seq![("PUSH_REPOSITORY_PRIVATE"@, bool_text(push.repository.private))] + seq![("PUSH_REPOSITORY_FORK"@, bool_text(push.repository.fork))] + seq![("PUSH_REPOSITORY_HTML_URL"@, push.repository.html_url@)] + seq![("PUSH_REPOSITORY_SSH_URL"@, push.repository.ssh_url@)] + seq![("PUSH_REPOSITORY_CLONE_URL"@, push.repository.clone_url@)] + seq![("PUSH_REPOSITORY_WEBSITE"@, push.repository.website@)], seq![("PUSH_REPOSITORY_STARS_COUNT"@, decimal(push.repository.stars_count as nat))], "PUSH_REPOSITORY_CLONE_URL"@);
    lemma_last_value_single("PUSH_REPOSITORY_STARS_COUNT"@, decimal(push.repository.stars_count as nat), "PUSH_REPOSITORY_CLONE_URL"@);
    assert("PUSH_REPOSITORY_STARS_COUNT"@.len() != "PUSH_REPOSITORY_CLONE_URL"@.len());
    lemma_last_value_concat(seq![("PUSH_REPOSITORY_DESCRIPTION"@, push.repository.description@)] + seq![("PUSH_REPOSITORY_PRIVATE"@, bool_text(push.repository.private))] + seq![("PUSH_REPOSITORY_FORK"@, bool_text(push.repository.fork))] + seq![("PUSH_REPOSITORY_HTML_URL"@, push.repository.html_url@)] + seq![("PUSH_REPOSITORY_SSH_URL"@, push.repository.ssh_url@)] + seq![("PUSH_REPOSITORY_CLONE_URL"@, push.repository.clone_url@)], seq![("PUSH_REPOSITORY_WEBSITE"@, push.repository.website@)], "PUSH_REPOSITORY_CLONE_URL"@);
    lemma_last_value_single("PUSH_REPOSITORY_WEBSITE"@, push.repository.website@, "PUSH_REPOSITORY_CLONE_URL"@);
    assert("PUSH_REPOSITORY_WEBSITE"@.len() != "PUSH_REPOSITORY_CLONE_URL"@.len());
    lemma_last_value_concat(seq![("PUSH_REPOSITORY_DESCRIPTION"@, push.repository.description@)] + seq![("PUSH_REPOSITORY_PRIVATE"@, bool_text(push.repository.private))] + seq![("PUSH_REPOSITORY_FORK"@, bool_text(push.repository.fork))] + seq![("PUSH_REPOSITORY_HTML_URL"@, push.repository.html_url@)] + seq![("PUSH_REPOSITORY_SSH_URL"@, push.repository.ssh_url@)], seq![("PUSH_REPOSITORY_CLONE_URL"@, push.repository.clone_url@)], "PUSH_REPOSITORY_CLONE_URL"@);
    lemma_last_value_single("PUSH_REPOSITORY_CLONE_URL"@, push.repository.clone_url@, "PUSH_REPOSITORY_CLONE_URL"@);
}

/// The command that answers a push leaves the push's repository website in PUSH_REPOSITORY_WEBSITE.
pub proof fn lemma_push_event_repository_website(push: PushEvent)
    ensures
        last_value(push_event_command(push).envs, "PUSH_REPOSITORY_WEBSITE"@) == Some(push.repository.website@),
{
    reveal_strlit("PUSH_REF_PATH");
    reveal_strlit("PUSH_BEFORE");
    reveal_strlit("PUSH_AFTER");
    reveal_strlit("PUSH_PUSHER_ID");
    reveal_strlit("PUSH_PUSHER_LOGIN");
    reveal_strlit("PUSH_PUSHER_FULL_NAME");
    reveal_strlit("PUSH_PUSHER_EMAIL");
    reveal_strlit("PUSH_PUSHER_AVATAR_URL");
    reveal_strlit("PUSH_PUSHER_USERNAME");
    reveal_strlit("PUSH_SENDER_ID");
    reveal_strlit("PUSH_SENDER_LOGIN");
    reveal_strlit("PUSH_SENDER_FULL_NAME");
    reveal_strlit("PUSH_SENDER_EMAIL");
    reveal_strlit("PUSH_SENDER_AVATAR_URL");
    reveal_strlit("PUSH_SENDER_USERNAME");
    reveal_strlit("PUSH_REPOSITORY_ID");
    reveal_strlit("PUSH_REPOSITORY_OWNER_ID");
    reveal_strlit("PUSH_REPOSITORY_OWNER_LOGIN");
    reveal_strlit("PUSH_REPOSITORY_OWNER_FULL_NAME");
    reveal_strlit("PUSH_REPOSITORY_OWNER_EMAIL");
    reveal_strlit("PUSH_REPOSITORY_OWNER_AVATAR_URL");
    reveal_strlit("PUSH_REPOSITORY_OWNER_USERNAME");
    reveal_strlit("PUSH_REPOSITORY_NAME");
    reveal_strlit("PUSH_REPOSITORY_FULL_NAME");
    reveal_strlit("PUSH_REPOSITORY_DESCRIPTION");
    reveal_strlit("PUSH_REPOSITORY_PRIVATE");
    reveal_strlit("PUSH_REPOSITORY_FORK");
    reveal_strlit("PUSH_REPOSITORY_HTML_URL");
    reveal_strlit("PUSH_REPOSITORY_SSH_URL");
    reveal_strlit("PUSH_REPOSITORY_CLONE_URL");
    reveal_strlit("PUSH_REPOSITORY_WEBSITE");
    reveal_strlit("PUSH_REPOSITORY_STARS_COUNT");
    reveal_strlit("PUSH_REPOSITORY_FORKS_COUNT");
    reveal_strlit("PUSH_REPOSITORY_WATCHERS_COUNT");
    reveal_strlit("PUSH_REPOSITORY_OPEN_ISSUES_COUNT");
    reveal_strlit("PUSH_REPOSITORY_DEFAULT_BRANCH");
    reveal_strlit("PUSH_REPOSITORY_CREATED_AT");
    reveal_strlit("PUSH_REPOSITORY_UPDATED_AT");
    lemma_last_value_concat(push_event_env_part1(push) + push_event_env_part2(push) + push_event_env_part3(push), push_event_env_part4(push), "PUSH_REPOSITORY_WEBSITE"@);
    lemma_last_value_concat(seq![("PUSH_REPOSITORY_CREATED_AT"@, push.repository.created_at@)], seq![("PUSH_REPOSITORY_UPDATED_AT"@, push.repository.updated_at@)], "PUSH_REPOSITORY_WEBSITE"@);
    lemma_last_value_single("PUSH_REPOSITORY_CREATED_AT"@, push.repository.created_at@, "PUSH_REPOSITORY_WEBSITE"@);
    assert("PUSH_REPOSITORY_CREATED_AT"@.len() != "PUSH_REPOSITORY_WEBSITE"@.len());
    lemma_last_value_single("PUSH_REPOSITORY_UPDATED_AT"@, push.repository.updated_at@, "PUSH_REPOSITORY_WEBSITE"@);
    assert("PUSH_REPOSITORY_UPDATED_AT"@.len() != "PUSH_REPOSITORY_WEBSITE"@.len());
    lemma_last_value_concat(push_event_env_part1(push) + push_event_env_part2(push), push_event_env_part3(push), "PUSH_REPOSITORY_WEBSITE"@);
    lemma_last_value_concat(seq![("PUSH_REPOSITORY_DESCRIPTION"@, push.repository.description@)] + seq![("PUSH_REPOSITORY_PRIVATE"@, bool_text(push.repository.private))] + seq![("PUSH_REPOSITORY_FORK"@, bool_text(push.repository.fork))] + seq![("PUSH_REPOSITORY_HTML_URL"@, push.repository.html_url@)] + seq![("PUSH_REPOSITORY_SSH_URL"@, push.repository.ssh_url@)] + seq![("PUSH_REPOSITORY_CLONE_URL"@, push.repository.clone_url@)] + seq![("PUSH_REPOSITORY_WEBSITE"@, push.repository.website@)] + seq![("PUSH_REPOSITORY_STARS_COUNT"@, decimal(push.repository.stars_count as nat))] + seq![("PUSH_REPOSITORY_FORKS_COUNT"@, decimal(push.repository.forks_count as nat))] + seq![("PUSH_REPOSITORY_WATCHERS_COUNT"@, decimal(push.repository.watchers_count as nat))] + seq![("PUSH_REPOSITORY_OPEN_ISSUES_COUNT"@, decimal(push.repository.open_issues_count as nat))], seq![("PUSH_REPOSITORY_DEFAULT_BRANCH"@, push.repository.default_branch@)], "PUSH_REPOSITORY_WEBSITE"@);
    lemma_last_value_single("PUSH_REPOSITORY_DEFAULT_BRANCH"@, push.repository.default_branch@, "PUSH_REPOSITORY_WEBSITE"@);
    assert("PUSH_REPOSITORY_DEFAULT_BRANCH"@.len() != "PUSH_REPOSITORY_WEBSITE"@.len());
    lemma_last_value_concat(seq![("PUSH_REPOSITORY_DESCRIPTION"@, push.repository.description@)] + seq![("PUSH_REPOSITORY_PRIVATE"@, bool_text(push.repository.private))] + seq![("PUSH_REPOSITORY_FORK"@, bool_text(push.repository.fork))] + seq![("PUSH_REPOSITORY_HTML_URL"@, push.repository.html_url@)] + seq![("PUSH_REPOSITORY_SSH_URL"@, push.repository.ssh_url@)] + seq![("PUSH_REPOSITORY_CLONE_URL"@, push.repository.clone_url@)] + seq![("PUSH_REPOSITORY_WEBSITE"@, push.repository.website@)] + seq![("PUSH_REPOSITORY_STARS_COUNT"@, decimal(push.repository.stars_count as nat))] + seq![("PUSH_REPOSITORY_FORKS_COUNT"@, decimal(push.repository.forks_count as nat))] + seq![("PUSH_REPOSITORY_WATCHERS_COUNT"@, decimal(push.repository.watchers_count as nat))], seq![("PUSH_REPOSITORY_OPEN_ISSUES_COUNT"@, decimal(push.repository.open_issues_count as nat))], "PUSH_REPOSITORY_WEBSITE"@);
    lemma_last_value_single("PUSH_REPOSITORY_OPEN_ISSUES_COUNT"@, decimal(push.repository.open_issues_count as nat), "PUSH_REPOSITORY_WEBSITE"@);
    assert("PUSH_REPOSITORY_OPEN_ISSUES_COUNT"@.len() != "PUSH_REPOSITORY_WEBSITE"@.len());
    lemma_last_value_concat(seq![("PUSH_REPOSITORY_DESCRIPTION"@, push.repository.description@)] + seq![("PUSH_REPOSITORY_PRIVATE"@, bool_text(push.repository.private))] + seq![("PUSH_REPOSITORY_FORK"@, bool_text(push.repository.fork))] + seq![("PUSH_REPOSITORY_HTML_URL"@, push.repository.html_url@)] + seq![("PUSH_REPOSITORY_SSH_URL"@, push.repository.ssh_url@)] + seq![("PUSH_REPOSITORY_CLONE_URL"@, push.repository.clone_url@)] + seq![("PUSH_REPOSITORY_WEBSITE"@, push.repository.website@)] + seq![("PUSH_REPOSITORY_STARS_COUNT"@, decimal(push.repository.stars_count as nat))] + seq![("PUSH_REPOSITORY_FORKS_COUNT"@, decimal(push.repository.forks_count as nat))], seq![("PUSH_REPOSITORY_WATCHERS_COUNT"@, decimal(push.repository.watchers_count as nat))], "PUSH_REPOSITORY_WEBSITE"@);
    lemma_last_value_single("PUSH_REPOSITORY_WATCHERS_COUNT"@, decimal(push.repository.watchers_count as nat), "PUSH_REPOSITORY_WEBSITE"@);
    assert("PUSH_REPOSITORY_WATCHERS_COUNT"@.len() != "PUSH_REPOSITORY_WEBSITE"@.len());
    lemma_last_value_concat(seq![("PUSH_REPOSITORY_DESCRIPTION"@, push.repository.description@)] + seq![("PUSH_REPOSITORY_PRIVATE"@, bool_text(push.repository.private))] + seq![("PUSH_REPOSITORY_FORK"@, bool_text(push.repository.fork))] + seq![("PUSH_REPOSITORY_HTML_URL"@, push.repository.html_url@)] + seq![("PUSH_REPOSITORY_SSH_URL"@, push.repository.ssh_url@)] + seq![("PUSH_REPOSITORY_CLONE_URL"@, push.repository.clone_url@)] + seq![("PUSH_REPOSITORY_WEBSITE"@, push.repository.website@)] + seq![("PUSH_REPOSITORY_STARS_COUNT"@, decimal(push.repository.stars_count as nat))], seq![("PUSH_REPOSITORY_FORKS_COUNT"@, decimal(push.repository.forks_count as nat))], "PUSH_REPOSITORY_WEBSITE"@);
    lemma_last_value_single("PUSH_REPOSITORY_FORKS_COUNT"@, decimal(push.repository.forks_count as nat), "PUSH_REPOSITORY_WEBSITE"@);
    assert("PUSH_REPOSITORY_FORKS_COUNT"@.len() != "PUSH_REPOSITORY_WEBSITE"@.len());
    lemma_last_value_concat(seq![("PUSH_REPOSITORY_DESCRIPTION"@, push.repository.description@)] + seq![("PUSH_REPOSITORY_PRIVATE"@, bool_text(push.repository.private))] + seq![("PUSH_REPOSITORY_FORK"@, bool_text(push.repository.fork))] + seq![("PUSH_REPOSITORY_HTML_URL"@, push.repository.html_url@)] + seq![("PUSH_REPOSITORY_SSH_URL"@, push.repository.ssh_url@)] + seq![("PUSH_REPOSITORY_CLONE_URL"@, push.repository.clone_url@)] + seq![("PUSH_REPOSITORY_WEBSITE"@, push.repository.website@)], seq![("PUSH_REPOSITORY_STARS_COUNT"@, decimal(push.repository.stars_count as nat))], "PUSH_REPOSITORY_WEBSITE"@);
    lemma_last_value_single("PUSH_REPOSITORY_STARS_COUNT"@, decimal(push.repository.stars_count as nat), "PUSH_REPOSITORY_WEBSITE"@);
    assert("PUSH_REPOSITORY_STARS_COUNT"@.len() != "PUSH_REPOSITORY_WEBSITE"@.len());
    lemma_last_value_concat(seq![("PUSH_REPOSITORY_DESCRIPTION"@, push.repository.description@)] + seq![("PUSH_REPOSITORY_PRIVATE"@, bool_text(push.repository.private))] + seq![("PUSH_REPOSITORY_FORK"@, bool_text(push.repository.fork))] + seq![("PUSH_REPOSITORY_HTML_URL"@, push.repository.html_url@)] + seq![("PUSH_REPOSITORY_SSH_URL"@, push.repository.ssh_url@)] + seq![("PUSH_REPOSITORY_CLONE_URL"@, push.repository.clone_url@)], seq![("PUSH_REPOSITORY_WEBSITE"@, push.repository.website@)], "PUSH_REPOSITORY_WEBSITE"@);
    lemma_last_value_single("PUSH_REPOSITORY_WEBSITE"@, push.repository.website@, "PUSH_REPOSITORY_WEBSITE"@);
}

/// The command that answers a push leaves the push's repository stars count in PUSH_REPOSITORY_STARS_COUNT.
pub proof fn lemma_push_event_repository_stars_count(push: PushEvent)
    ensures
        last_value(push_event_command(push).envs, "PUSH_REPOSITORY_STARS_COUNT"@) == Some(decimal(push.repository.stars_count as nat)),
{
    reveal_strlit("PUSH_REF_PATH");
    reveal_strlit("PUSH_BEFORE");
    reveal_strlit("PUSH_AFTER");
    reveal_strlit("PUSH_PUSHER_ID");
    reveal_strlit("PUSH_PUSHER_LOGIN");
    reveal_strlit("PUSH_PUSHER_FULL_NAME");
    reveal_strlit("PUSH_PUSHER_EMAIL");
    reveal_strlit("PUSH_PUSHER_AVATAR_URL");
    reveal_strlit("PUSH_PUSHER_USERNAME");
    reveal_strlit("PUSH_SENDER_ID");
    reveal_strlit("PUSH_SENDER_LOGIN");
    reveal_strlit("PUSH_SENDER_FULL_NAME");
    reveal_strlit("PUSH_SENDER_EMAIL");
    reveal_strlit("PUSH_SENDER_AVATAR_URL");
    reveal_strlit("PUSH_SENDER_USERNAME");
    reveal_strlit("PUSH_REPOSITORY_ID");
    reveal_strlit("PUSH_REPOSITORY_OWNER_ID");
    reveal_strlit("PUSH_REPOSITORY_OWNER_LOGIN");
    reveal_strlit("PUSH_REPOSITORY_OWNER_FULL_NAME");
    reveal_strlit("PUSH_REPOSITORY_OWNER_EMAIL");
    reveal_strlit("PUSH_REPOSITORY_OWNER_AVATAR_URL");
    reveal_strlit("PUSH_REPOSITORY_OWNER_USERNAME");
    reveal_strlit("PUSH_REPOSITORY_NAME");
    reveal_strlit("PUSH_REPOSITORY_FULL_NAME");
    reveal_strlit("PUSH_REPOSITORY_DESCRIPTION");
    reveal_strlit("PUSH_REPOSITORY_PRIVATE");
    reveal_strlit("PUSH_REPOSITORY_FORK");
    reveal_strlit("PUSH_REPOSITORY_HTML_URL");
    reveal_strlit("PUSH_REPOSITORY_SSH_URL");
    reveal_strlit("PUSH_REPOSITORY_CLONE_URL");
    reveal_strlit("PUSH_REPOSITORY_WEBSITE");
    reveal_strlit("PUSH_REPOSITORY_STARS_COUNT");
    reveal_strlit("PUSH_REPOSITORY_FORKS_COUNT");
    reveal_strlit("PUSH_REPOSITORY_WATCHERS_COUNT");
    reveal_strlit("PUSH_REPOSITORY_OPEN_ISSUES_COUNT");
    reveal_strlit("PUSH_REPOSITORY_DEFAULT_BRANCH");
    reveal_strlit("PUSH_REPOSITORY_CREATED_AT");
    reveal_strlit("PUSH_REPOSITORY_UPDATED_AT");
    lemma_last_value_concat(push_event_env_part1(push) + push_event_env_part2(push) + push_event_env_part3(push), push_event_env_part4(push), "PUSH_REPOSITORY_STARS_COUNT"@);
    lemma_last_value_concat(seq![("PUSH_REPOSITORY_CREATED_AT"@, push.repository.created_at@)], seq![("PUSH_REPOSITORY_UPDATED_AT"@, push.repository.updated_at@)], "PUSH_REPOSITORY_STARS_COUNT"@);
    lemma_last_value_single("PUSH_REPOSITORY_CREATED_AT"@, push.repository.created_at@, "PUSH_REPOSITORY_STARS_COUNT"@);
    assert("PUSH_REPOSITORY_CREATED_AT"@.len() != "PUSH_REPOSITORY_STARS_COUNT"@.len());
    lemma_last_value_single("PUSH_REPOSITORY_UPDATED_AT"@, push.repository.updated_at@, "PUSH_REPOSITORY_STARS_COUNT"@);
    assert("PUSH_REPOSITORY_UPDATED_AT"@.len() != "PUSH_REPOSITORY_STARS_COUNT"@.len());
    lemma_last_value_concat(push_event_env_part1(push) + push_event_env_part2(push), push_event_env_part3(push), "PUSH_REPOSITORY_STARS_COUNT"@);
    lemma_last_value_concat(seq![("PUSH_REPOSITORY_DESCRIPTION"@, push.repository.description@)] + seq![("PUSH_REPOSITORY_PRIVATE"@, bool_text(push.repository.private))] + seq![("PUSH_REPOSITORY_FORK"@, bool_text(push.repository.fork))] + seq![("PUSH_REPOSITORY_HTML_URL"@, push.repository.html_url@)] + seq![("PUSH_REPOSITORY_SSH_URL"@, push.repository.ssh_url@)] + seq![("PUSH_REPOSITORY_CLONE_URL"@, push.repository.clone_url@)] + seq![("PUSH_REPOSITORY_WEBSITE"@, push.repository.website@)] + seq![("PUSH_REPOSITORY_STARS_COUNT"@, decimal(push.repository.stars_count as nat))] + seq![("PUSH_REPOSITORY_FORKS_COUNT"@, decimal(push.repository.forks_count as nat))] + seq![("PUSH_REPOSITORY_WATCHERS_COUNT"@, decimal(push.repository.watchers_count as nat))] + seq![("PUSH_REPOSITORY_OPEN_ISSUES_COUNT"@, decimal(push.repository.open_issues_count as nat))], seq![("PUSH_REPOSITORY_DEFAULT_BRANCH"@, push.repository.default_branch@)], "PUSH_REPOSITORY_STARS_COUNT"@);
    lemma_last_value_single("PUSH_REPOSITORY_DEFAULT_BRANCH"@, push.repository.default_branch@, "PUSH_REPOSITORY_STARS_COUNT"@);
    assert("PUSH_REPOSITORY_DEFAULT_BRANCH"@.len() != "PUSH_REPOSITORY_STARS_COUNT"@.len());
    lemma_last_value_concat(seq![("PUSH_REPOSITORY_DESCRIPTION"@, push.repository.description@)] + seq![("PUSH_REPOSITORY_PRIVATE"@, bool_text(push.repository.private))] + seq![("PUSH_REPOSITORY_FORK"@, bool_text(push.repository.fork))] + seq![("PUSH_REPOSITORY_HTML_URL"@, push.repository.html_url@)] + seq![("PUSH_REPOSITORY_SSH_URL"@, push.repository.ssh_url@)] + seq![("PUSH_REPOSITORY_CLONE_URL"@, push.repository.clone_url@)] + seq![("PUSH_REPOSITORY_WEBSITE"@, push.repository.website@)] + seq![("PUSH_REPOSITORY_STARS_COUNT"@, decimal(push.repository.stars_count as nat))] + seq![("PUSH_REPOSITORY_FORKS_COUNT"@, decimal(push.repository.forks_count as nat))] + seq![("PUSH_REPOSITORY_WATCHERS_COUNT"@, decimal(push.repository.watchers_count as nat))], seq![("PUSH_REPOSITORY_OPEN_ISSUES_COUNT"@, decimal(push.repository.open_issues_count as nat))], "PUSH_REPOSITORY_STARS_COUNT"@);
    lemma_last_value_single("PUSH_REPOSITORY_OPEN_ISSUES_COUNT"@, decimal(push.repository.open_issues_count as nat), "PUSH_REPOSITORY_STARS_COUNT"@);
    assert("PUSH_REPOSITORY_OPEN_ISSUES_COUNT"@.len() != "PUSH_REPOSITORY_STARS_COUNT"@.len());
    lemma_last_value_concat(seq![("PUSH_REPOSITORY_DESCRIPTION"@, push.repository.description@)] + seq![("PUSH_REPOSITORY_PRIVATE"@, bool_text(push.repository.private))] + seq![("PUSH_REPOSITORY_FORK"@, bool_text(push.repository.fork))] + seq![("PUSH_REPOSITORY_HTML_URL"@, push.repository.html_url@)] + seq![("PUSH_REPOSITORY_SSH_URL"@, push.repository.ssh_url@)] + seq![("PUSH_REPOSITORY_CLONE_URL"@, push.repository.clone_url@)] + seq![("PUSH_REPOSITORY_WEBSITE"@, push.repository.website@)] + seq![("PUSH_REPOSITORY_STARS_COUNT"@, decimal(push.repository.stars_count as nat))] + seq![("PUSH_REPOSITORY_FORKS_COUNT"@, decimal(push.repository.forks_count as nat))], seq![("PUSH_REPOSITORY_WATCHERS_COUNT"@, decimal(push.repository.watchers_count as nat))], "PUSH_REPOSITORY_STARS_COUNT"@);
    lemma_last_value_single("PUSH_REPOSITORY_WATCHERS_COUNT"@, decimal(push.repository.watchers_count as nat), "PUSH_REPOSITORY_STARS_COUNT"@);
    assert("PUSH_REPOSITORY_WATCHERS_COUNT"@.len() != "PUSH_REPOSITORY_STARS_COUNT"@.len());
    lemma_last_value_concat(seq![("PUSH_REPOSITORY_DESCRIPTION"@, push.repository.description@)] + seq![("PUSH_REPOSITORY_PRIVATE"@, bool_text(push.repository.private))] + seq![("PUSH_REPOSITORY_FORK"@, bool_text(push.repository.fork))] + seq![("PUSH_REPOSITORY_HTML_URL"@, push.repository.html_url@)] + seq![("PUSH_REPOSITORY_SSH_URL"@, push.repository.ssh_url@)] + seq![("PUSH_REPOSITORY_CLONE_URL"@, push.repository.clone_url@)] + seq![("PUSH_REPOSITORY_WEBSITE"@, push.repository.website@)] + seq![("PUSH_REPOSITORY_STARS_COUNT"@, decimal(push.repository.stars_count as nat))], seq![("PUSH_REPOSITORY_FORKS_COUNT"@, decimal(push.repository.forks_count as nat))], "PUSH_REPOSITORY_STARS_COUNT"@);
    lemma_last_value_single("PUSH_REPOSITORY_FORKS_COUNT"@, decimal(push.repository.forks_count as nat), "PUSH_REPOSITORY_STARS_COUNT"@);
    assert("PUSH_REPOSITORY_FORKS_COUNT"@[16] != "PUSH_REPOSITORY_STARS_COUNT"@[16]);
    lemma_last_value_concat(seq![("PUSH_REPOSITORY_DESCRIPTION"@, push.repository.description@)] + seq![("PUSH_REPOSITORY_PRIVATE"@, bool_text(push.repository.private))] + seq![("PUSH_REPOSITORY_FORK"@, bool_text(push.repository.fork))] + seq![("PUSH_REPOSITORY_HTML_URL"@, push.repository.html_url@)] + seq![("PUSH_REPOSITORY_SSH_URL"@, push.repository.ssh_url@)] + seq![("PUSH_REPOSITORY_CLONE_URL"@, push.repository.clone_url@)] + seq![("PUSH_REPOSITORY_WEBSITE"@, push.repository.website@)], seq![("PUSH_REPOSITORY_STARS_COUNT"@, decimal(push.repository.stars_count as nat))], "PUSH_REPOSITORY_STARS_COUNT"@);
    lemma_last_value_single("PUSH_REPOSITORY_STARS_COUNT"@, decimal(push.repository.stars_count as nat), "PUSH_REPOSITORY_STARS_COUNT"@);
}

/// The command that answers a push leaves the push's repository forks count in PUSH_REPOSITORY_FORKS_COUNT.
pub proof fn lemma_push_event_repository_forks_count(push: PushEvent)
    ensures
        last_value(push_event_command(push).envs, "PUSH_REPOSITORY_FORKS_COUNT"@) == Some(decimal(push.repository.forks_count as nat)),
{
    reveal_strlit("PUSH_REF_PATH");
    reveal_strlit("PUSH_BEFORE");
    reveal_strlit("PUSH_AFTER");
    reveal_strlit("PUSH_PUSHER_ID");
    reveal_strlit("PUSH_PUSHER_LOGIN");
    reveal_strlit("PUSH_PUSHER_FULL_NAME");
    reveal_strlit("PUSH_PUSHER_EMAIL");
    reveal_strlit("PUSH_PUSHER_AVATAR_URL");
    reveal_strlit("PUSH_PUSHER_USERNAME");
    reveal_strlit("PUSH_SENDER_ID");
    reveal_strlit("PUSH_SENDER_LOGIN");
    reveal_strlit("PUSH_SENDER_FULL_NAME");
    reveal_strlit("PUSH_SENDER_EMAIL");
    reveal_strlit("PUSH_SENDER_AVATAR_URL");
    reveal_strlit("PUSH_SENDER_USERNAME");
    reveal_strlit("PUSH_REPOSITORY_ID");
    reveal_strlit("PUSH_REPOSITORY_OWNER_ID");
    reveal_strlit("PUSH_REPOSITORY_OWNER_LOGIN");
    reveal_strlit("PUSH_REPOSITORY_OWNER_FULL_NAME");
    reveal_strlit("PUSH_REPOSITORY_OWNER_EMAIL");
    reveal_strlit("PUSH_REPOSITORY_OWNER_AVATAR_URL");
    reveal_strlit("PUSH_REPOSITORY_OWNER_USERNAME");
    reveal_strlit("PUSH_REPOSITORY_NAME");
    reveal_strlit("PUSH_REPOSITORY_FULL_NAME");
    reveal_strlit("PUSH_REPOSITORY_DESCRIPTION");
    reveal_strlit("PUSH_REPOSITORY_PRIVATE");
    reveal_strlit("PUSH_REPOSITORY_FORK");
    reveal_strlit("PUSH_REPOSITORY_HTML_URL");
    reveal_strlit("PUSH_REPOSITORY_SSH_URL");
    reveal_strlit("PUSH_REPOSITORY_CLONE_URL");
    reveal_strlit("PUSH_REPOSITORY_WEBSITE");
    reveal_strlit("PUSH_REPOSITORY_STARS_COUNT");
    reveal_strlit("PUSH_REPOSITORY_FORKS_COUNT");
    reveal_strlit("PUSH_REPOSITORY_WATCHERS_COUNT");
    reveal_strlit("PUSH_REPOSITORY_OPEN_ISSUES_COUNT");
    reveal_strlit("PUSH_REPOSITORY_DEFAULT_BRANCH");
    reveal_strlit("PUSH_REPOSITORY_CREATED_AT");
    reveal_strlit("PUSH_REPOSITORY_UPDATED_AT");
    lemma_last_value_concat(push_event_env_part1(push) + push_event_env_part2(push) + push_event_env_part3(push), push_event_env_part4(push), "PUSH_REPOSITORY_FORKS_COUNT"@);
    lemma_last_value_concat(seq![("PUSH_REPOSITORY_CREATED_AT"@, push.repository.created_at@)], seq![("PUSH_REPOSITORY_UPDATED_AT"@, push.repository.updated_at@)], "PUSH_REPOSITORY_FORKS_COUNT"@);
    lemma_last_value_single("PUSH_REPOSITORY_CREATED_AT"@, push.repository.created_at@, "PUSH_REPOSITORY_FORKS_COUNT"@);
    assert("PUSH_REPOSITORY_CREATED_AT"@.len() != "PUSH_REPOSITORY_FORKS_COUNT"@.len());
    lemma_last_value_single("PUSH_REPOSITORY_UPDATED_AT"@, push.repository.updated_at@, "PUSH_REPOSITORY_FORKS_COUNT"@);
    assert("PUSH_REPOSITORY_UPDATED_AT"@.len() != "PUSH_REPOSITORY_FORKS_COUNT"@.len());
    lemma_last_value_concat(push_event_env_part1(push) + push_event_env_part2(push), push_event_env_part3(push), "PUSH_REPOSITORY_FORKS_COUNT"@);
    lemma_last_value_concat(seq![("PUSH_REPOSITORY_DESCRIPTION"@, push.repository.description@)] + seq![("PUSH_REPOSITORY_PRIVATE"@, bool_text(push.repository.private))] + seq![("PUSH_REPOSITORY_FORK"@, bool_text(push.repository.fork))] + seq![("PUSH_REPOSITORY_HTML_URL"@, push.repository.html_url@)] + seq![("PUSH_REPOSITORY_SSH_URL"@, push.repository.ssh_url@)] + seq![("PUSH_REPOSITORY_CLONE_URL"@, push.repository.clone_url@)] + seq![("PUSH_REPOSITORY_WEBSITE"@, push.repository.website@)] + seq![("PUSH_REPOSITORY_STARS_COUNT"@, decimal(push.repository.stars_count as nat))] + seq![("PUSH_REPOSITORY_FORKS_COUNT"@, decimal(push.repository.forks_count as nat))] + seq![("PUSH_REPOSITORY_WATCHERS_COUNT"@, decimal(push.repository.watchers_count as nat))] + seq![("PUSH_REPOSITORY_OPEN_ISSUES_COUNT"@, decimal(push.repository.open_issues_count as nat))], seq![("PUSH_REPOSITORY_DEFAULT_BRANCH"@, push.repository.default_branch@)], "PUSH_REPOSITORY_FORKS_COUNT"@);
    lemma_last_value_single("PUSH_REPOSITORY_DEFAULT_BRANCH"@, push.repository.default_branch@, "PUSH_REPOSITORY_FORKS_COUNT"@);
    assert("PUSH_REPOSITORY_DEFAULT_BRANCH"@.len() != "PUSH_REPOSITORY_FORKS_COUNT"@.len());
    lemma_last_value_concat(seq![("PUSH_REPOSITORY_DESCRIPTION"@, push.repository.description@)] + seq![("PUSH_REPOSITORY_PRIVATE"@, bool_text(push.repository.private))] + seq![("PUSH_REPOSITORY_FORK"@, bool_text(push.repository.fork))] + seq![("PUSH_REPOSITORY_HTML_URL"@, push.repository.html_url@)] + seq![("PUSH_REPOSITORY_SSH_URL"@, push.repository.ssh_url@)] + seq![("PUSH_REPOSITORY_CLONE_URL"@, push.repository.clone_url@)] + seq![("PUSH_REPOSITORY_WEBSITE"@, push.repository.website@)] + seq![("PUSH_REPOSITORY_STARS_COUNT"@, decimal(push.repository.stars_count as nat))] + seq![("PUSH_REPOSITORY_FORKS_COUNT"@, decimal(push.repository.forks_count as nat))] + seq![("PUSH_REPOSITORY_WATCHERS_COUNT"@, decimal(push.repository.watchers_count as nat))], seq![("PUSH_REPOSITORY_OPEN_ISSUES_COUNT"@, decimal(push.repository.open_issues_count as nat))], "PUSH_REPOSITORY_FORKS_COUNT"@);
    lemma_last_value_single("PUSH_REPOSITORY_OPEN_ISSUES_COUNT"@, decimal(push.repository.open_issues_count as nat), "PUSH_REPOSITORY_FORKS_COUNT"@);
    assert("PUSH_REPOSITORY_OPEN_ISSUES_COUNT"@.len() != "PUSH_REPOSITORY_FORKS_COUNT"@.len());
    lemma_last_value_concat(seq![("PUSH_REPOSITORY_DESCRIPTION"@, push.repository.description@)] + seq![("PUSH_REPOSITORY_PRIVATE"@, bool_text(push.repository.private))] + seq![("PUSH_REPOSITORY_FORK"@, bool_text(push.repository.fork))] + seq![("PUSH_REPOSITORY_HTML_URL"@, push.repository.html_url@)] + seq![("PUSH_REPOSITORY_SSH_URL"@, push.repository.ssh_url@)] + seq![("PUSH_REPOSITORY_CLONE_URL"@, push.repository.clone_url@)] + seq![("PUSH_REPOSITORY_WEBSITE"@, push.repository.website@)] + seq![("PUSH_REPOSITORY_STARS_COUNT"@, decimal(push.repository.stars_count as nat))] + seq![("PUSH_REPOSITORY_FORKS_COUNT"@, decimal(push.repository.forks_count as nat))], seq![("PUSH_REPOSITORY_WATCHERS_COUNT"@, decimal(push.repository.watchers_count as nat))], "PUSH_REPOSITORY_FORKS_COUNT"@);
    lemma_last_value_single("PUSH_REPOSITORY_WATCHERS_COUNT"@, decimal(push.repository.watchers_count as nat), "PUSH_REPOSITORY_FORKS_COUNT"@);
    assert("PUSH_REPOSITORY_WATCHERS_COUNT"@.len() != "PUSH_REPOSITORY_FORKS_COUNT"@.len());
    lemma_last_value_concat(seq![("PUSH_REPOSITORY_DESCRIPTION"@, push.repository.description@)] + seq![("PUSH_REPOSITORY_PRIVATE"@, bool_text(push.repository.private))] + seq![("PUSH_REPOSITORY_FORK"@, bool_text(push.repository.fork))] + seq![("PUSH_REPOSITORY_HTML_URL"@, push.repository.html_url@)] + seq![("PUSH_REPOSITORY_SSH_URL"@, push.repository.ssh_url@)] + seq![("PUSH_REPOSITORY_CLONE_URL"@, push.repository.clone_url@)] + seq![("PUSH_REPOSITORY_WEBSITE"@, push.repository.website@)] + seq![("PUSH_REPOSITORY_STARS_COUNT"@, decimal(push.repository.stars_count as nat))], seq![("PUSH_REPOSITORY_FORKS_COUNT"@, decimal(push.repository.forks_count as nat))], "PUSH_REPOSITORY_FORKS_COUNT"@);
    lemma_last_value_single("PUSH_REPOSITORY_FORKS_COUNT"@, decimal(push.repository.forks_count as nat), "PUSH_REPOSITORY_FORKS_COUNT"@);
}

/// The command that answers a push leaves the push's repository watchers count in PUSH_REPOSITORY_WATCHERS_COUNT.
pub proof fn lemma_push_event_repository_watchers_count(push: PushEvent)
    ensures
        last_value(push_event_command(push).envs, "PUSH_REPOSITORY_WATCHERS_COUNT"@) == Some(decimal(push.repository.watchers_count as nat)),
{
    reveal_strlit("PUSH_REF_PATH");
    reveal_strlit("PUSH_BEFORE");
    reveal_strlit("PUSH_AFTER");
    reveal_strlit("PUSH_PUSHER_ID");
    reveal_strlit("PUSH_PUSHER_LOGIN");
    reveal_strlit("PUSH_PUSHER_FULL_NAME");
    reveal_strlit("PUSH_PUSHER_EMAIL");
    reveal_strlit("PUSH_PUSHER_AVATAR_URL");
    reveal_strlit("PUSH_PUSHER_USERNAME");
    reveal_strlit("PUSH_SENDER_ID");
    reveal_strlit("PUSH_SENDER_LOGIN");
    reveal_strlit("PUSH_SENDER_FULL_NAME");
    reveal_strlit("PUSH_SENDER_EMAIL");
    reveal_strlit("PUSH_SENDER_AVATAR_URL");
    reveal_strlit("PUSH_SENDER_USERNAME");
    reveal_strlit("PUSH_REPOSITORY_ID");
    reveal_strlit("PUSH_REPOSITORY_OWNER_ID");
    reveal_strlit("PUSH_REPOSITORY_OWNER_LOGIN");
    reveal_strlit("PUSH_REPOSITORY_OWNER_FULL_NAME");
    reveal_strlit("PUSH_REPOSITORY_OWNER_EMAIL");
    reveal_strlit("PUSH_REPOSITORY_OWNER_AVATAR_URL");
    reveal_strlit("PUSH_REPOSITORY_OWNER_USERNAME");
    reveal_strlit("PUSH_REPOSITORY_NAME");
    reveal_strlit("PUSH_REPOSITORY_FULL_NAME");
    reveal_strlit("PUSH_REPOSITORY_DESCRIPTION");
    reveal_strlit("PUSH_REPOSITORY_PRIVATE");
    reveal_strlit("PUSH_REPOSITORY_FORK");
    reveal_strlit("PUSH_REPOSITORY_HTML_URL");
    reveal_strlit("PUSH_REPOSITORY_SSH_URL");
    reveal_strlit("PUSH_REPOSITORY_CLONE_URL");
    reveal_strlit("PUSH_REPOSITORY_WEBSITE");
    reveal_strlit("PUSH_REPOSITORY_STARS_COUNT");
    reveal_strlit("PUSH_REPOSITORY_FORKS_COUNT");
    reveal_strlit("PUSH_REPOSITORY_WATCHERS_COUNT");
    reveal_strlit("PUSH_REPOSITORY_OPEN_ISSUES_COUNT");
    reveal_strlit("PUSH_REPOSITORY_DEFAULT_BRANCH");
    reveal_strlit("PUSH_REPOSITORY_CREATED_AT");
    reveal_strlit("PUSH_REPOSITORY_UPDATED_AT");
    lemma_last_value_concat(push_event_env_part1(push) + push_event_env_part2(push) + push_event_env_part3(push), push_event_env_part4(push), "PUSH_REPOSITORY_WATCHERS_COUNT"@);
    lemma_last_value_concat(seq![("PUSH_REPOSITORY_CREATED_AT"@, push.repository.created_at@)], seq![("PUSH_REPOSITORY_UPDATED_AT"@, push.repository.updated_at@)], "PUSH_REPOSITORY_WATCHERS_COUNT"@);
    lemma_last_value_single("PUSH_REPOSITORY_CREATED_AT"@, push.repository.created_at@, "PUSH_REPOSITORY_WATCHERS_COUNT"@);
    assert("PUSH_REPOSITORY_CREATED_AT"@.len() != "PUSH_REPOSITORY_WATCHERS_COUNT"@.len());
    lemma_last_value_single("PUSH_REPOSITORY_UPDATED_AT"@, push.repository.updated_at@, "PUSH_REPOSITORY_WATCHERS_COUNT"@);
    assert("PUSH_REPOSITORY_UPDATED_AT"@.len() != "PUSH_REPOSITORY_WATCHERS_COUNT"@.len());
    lemma_last_value_concat(push_event_env_part1(push) + push_event_env_part2(push), push_event_env_part3(push), "PUSH_REPOSITORY_WATCHERS_COUNT"@);
    lemma_last_value_concat(seq![("PUSH_REPOSITORY_DESCRIPTION"@, push.repository.description@)] + seq![("PUSH_REPOSITORY_PRIVATE"@, bool_text(push.repository.private))] + seq![("PUSH_REPOSITORY_FORK"@, bool_text(push.repository.fork))] + seq![("PUSH_REPOSITORY_HTML_URL"@, push.repository.html_url@)] + seq![("PUSH_REPOSITORY_SSH_URL"@, push.repository.ssh_url@)] + seq![("PUSH_REPOSITORY_CLONE_URL"@, push.repository.clone_url@)] + seq![("PUSH_REPOSITORY_WEBSITE"@, push.repository.website@)] + seq![("PUSH_REPOSITORY_STARS_COUNT"@, decimal(push.repository.stars_count as nat))] + seq![("PUSH_REPOSITORY_FORKS_COUNT"@, decimal(push.repository.forks_count as nat))] + seq![("PUSH_REPOSITORY_WATCHERS_COUNT"@, decimal(push.repository.watchers_count as nat))] + seq![("PUSH_REPOSITORY_OPEN_ISSUES_COUNT"@, decimal(push.repository.open_issues_count as nat))], seq![("PUSH_REPOSITORY_DEFAULT_BRANCH"@, push.repository.default_branch@)], "PUSH_REPOSITORY_WATCHERS_COUNT"@);
    lemma_last_value_single("PUSH_REPOSITORY_DEFAULT_BRANCH"@, push.repository.default_branch@, "PUSH_REPOSITORY_WATCHERS_COUNT"@);
    assert("PUSH_REPOSITORY_DEFAULT_BRANCH"@[16] != "PUSH_REPOSITORY_WATCHERS_COUNT"@[16]);
    lemma_last_value_concat(seq![("PUSH_REPOSITORY_DESCRIPTION"@, push.repository.description@)] + seq![("PUSH_REPOSITORY_PRIVATE"@, bool_text(push.repository.private))] + seq![("PUSH_REPOSITORY_FORK"@, bool_text(push.repository.fork))] + seq![("PUSH_REPOSITORY_HTML_URL"@, push.repository.html_url@)] + seq![("PUSH_REPOSITORY_SSH_URL"@, push.repository.ssh_url@)] + seq![("PUSH_REPOSITORY_CLONE_URL"@, push.repository.clone_url@)] + seq![("PUSH_REPOSITORY_WEBSITE"@, push.repository.website@)] + seq![("PUSH_REPOSITORY_STARS_COUNT"@, decimal(push.repository.stars_count as nat))] + seq![("PUSH_REPOSITORY_FORKS_COUNT"@, decimal(push.repository.forks_count as nat))] + seq![("PUSH_REPOSITORY_WATCHERS_COUNT"@, decimal(push.repository.watchers_count as nat))], seq![("PUSH_REPOSITORY_OPEN_ISSUES_COUNT"@, decimal(push.repository.open_issues_count as nat))], "PUSH_REPOSITORY_WATCHERS_COUNT"@);
    lemma_last_value_single("PUSH_REPOSITORY_OPEN_ISSUES_COUNT"@, decimal(push.repository.open_issues_count as nat), "PUSH_REPOSITORY_WATCHERS_COUNT"@);
    assert("PUSH_REPOSITORY_OPEN_ISSUES_COUNT"@.len() != "PUSH_REPOSITORY_WATCHERS_COUNT"@.len());
    lemma_last_value_concat(seq![("PUSH_REPOSITORY_DESCRIPTION"@, push.repository.description@)] + seq![("PUSH_REPOSITORY_PRIVATE"@, bool_text(push.repository.private))] + seq![("PUSH_REPOSITORY_FORK"@, bool_text(push.repository.fork))] + seq![("PUSH_REPOSITORY_HTML_URL"@, push.repository.html_url@)] + seq![("PUSH_REPOSITORY_SSH_URL"@, push.repository.ssh_url@)] + seq![("PUSH_REPOSITORY_CLONE_URL"@, push.repository.clone_url@)] + seq![("PUSH_REPOSITORY_WEBSITE"@, push.repository.website@)] + seq![("PUSH_REPOSITORY_STARS_COUNT"@, decimal(push.repository.stars_count as nat))] + seq![("PUSH_REPOSITORY_FORKS_COUNT"@, decimal(push.repository.forks_count as nat))], seq![("PUSH_REPOSITORY_WATCHERS_COUNT"@, decimal(push.repository.watchers_count as nat))], "PUSH_REPOSITORY_WATCHERS_COUNT"@);
    lemma_last_value_single("PUSH_REPOSITORY_WATCHERS_COUNT"@, decimal(push.repository.watchers_count as nat), "PUSH_REPOSITORY_WATCHERS_COUNT"@);
}

/// The command that answers a push leaves the push's repository open issues count in PUSH_REPOSITORY_OPEN_ISSUES_COUNT.
pub proof fn lemma_push_event_repository_open_issues_count(push: PushEvent)
    ensures
        last_value(push_event_command(push).envs, "PUSH_REPOSITORY_OPEN_ISSUES_COUNT"@) == Some(decimal(push.repository.open_issues_count as nat)),
{
    reveal_strlit("PUSH_REF_PATH");
    reveal_strlit("PUSH_BEFORE");
    reveal_strlit("PUSH_AFTER");
    reveal_strlit("PUSH_PUSHER_ID");
    reveal_strlit("PUSH_PUSHER_LOGIN");
    reveal_strlit("PUSH_PUSHER_FULL_NAME");
    reveal_strlit("PUSH_PUSHER_EMAIL");
    reveal_strlit("PUSH_PUSHER_AVATAR_URL");
    reveal_strlit("PUSH_PUSHER_USERNAME");
    reveal_strlit("PUSH_SENDER_ID");
    reveal_strlit("PUSH_SENDER_LOGIN");
    reveal_strlit("PUSH_SENDER_FULL_NAME");
    reveal_strlit("PUSH_SENDER_EMAIL");
    reveal_strlit("PUSH_SENDER_AVATAR_URL");
    reveal_strlit("PUSH_SENDER_USERNAME");
    reveal_strlit("PUSH_REPOSITORY_ID");
    reveal_strlit("PUSH_REPOSITORY_OWNER_ID");
    reveal_strlit("PUSH_REPOSITORY_OWNER_LOGIN");
    reveal_strlit("PUSH_REPOSITORY_OWNER_FULL_NAME");
    reveal_strlit("PUSH_REPOSITORY_OWNER_EMAIL");
    reveal_strlit("PUSH_REPOSITORY_OWNER_AVATAR_URL");
    reveal_strlit("PUSH_REPOSITORY_OWNER_USERNAME");
    reveal_strlit("PUSH_REPOSITORY_NAME");
    reveal_strlit("PUSH_REPOSITORY_FULL_NAME");
    reveal_strlit("PUSH_REPOSITORY_DESCRIPTION");
    reveal_strlit("PUSH_REPOSITORY_PRIVATE");
    reveal_strlit("PUSH_REPOSITORY_FORK");
    reveal_strlit("PUSH_REPOSITORY_HTML_URL");
    reveal_strlit("PUSH_REPOSITORY_SSH_URL");
    reveal_strlit("PUSH_REPOSITORY_CLONE_URL");
    reveal_strlit("PUSH_REPOSITORY_WEBSITE");
    reveal_strlit("PUSH_REPOSITORY_STARS_COUNT");
    reveal_strlit("PUSH_REPOSITORY_FORKS_COUNT");
    reveal_strlit("PUSH_REPOSITORY_WATCHERS_COUNT");
    reveal_strlit("PUSH_REPOSITORY_OPEN_ISSUES_COUNT");
    reveal_strlit("PUSH_REPOSITORY_DEFAULT_BRANCH");
    reveal_strlit("PUSH_REPOSITORY_CREATED_AT");
    reveal_strlit("PUSH_REPOSITORY_UPDATED_AT");
    lemma_last_value_concat(push_event_env_part1(push) + push_event_env_part2(push) + push_event_env_part3(push), push_event_env_part4(push), "PUSH_REPOSITORY_OPEN_ISSUES_COUNT"@);
    lemma_last_value_concat(seq![("PUSH_REPOSITORY_CREATED_AT"@, push.repository.created_at@)], seq![("PUSH_REPOSITORY_UPDATED_AT"@, push.repository.updated_at@)], "PUSH_REPOSITORY_OPEN_ISSUES_COUNT"@);
    lemma_last_value_single("PUSH_REPOSITORY_CREATED_AT"@, push.repository.created_at@, "PUSH_REPOSITORY_OPEN_ISSUES_COUNT"@);
    assert("PUSH_REPOSITORY_CREATED_AT"@.len() != "PUSH_REPOSITORY_OPEN_ISSUES_COUNT"@.len());
    lemma_last_value_single("PUSH_REPOSITORY_UPDATED_AT"@, push.repository.updated_at@, "PUSH_REPOSITORY_OPEN_ISSUES_COUNT"@);
    assert("PUSH_REPOSITORY_UPDATED_AT"@.len() != "PUSH_REPOSITORY_OPEN_ISSUES_COUNT"@.len());
    lemma_last_value_concat(push_event_env_part1(push) + push_event_env_part2(push), push_event_env_part3(push), "PUSH_REPOSITORY_OPEN_ISSUES_COUNT"@);
    lemma_last_value_concat(seq![("PUSH_REPOSITORY_DESCRIPTION"@, push.repository.description@)] + seq![("PUSH_REPOSITORY_PRIVATE"@, bool_text(push.repository.private))] + seq![("PUSH_REPOSITORY_FORK"@, bool_text(push.repository.fork))] + seq![("PUSH_REPOSITORY_HTML_URL"@, push.repository.html_url@)] + seq![("PUSH_REPOSITORY_SSH_URL"@, push.repository.ssh_url@)] + seq![("PUSH_REPOSITORY_CLONE_URL"@, push.repository.clone_url@)] + seq![("PUSH_REPOSITORY_WEBSITE"@, push.repository.website@)] + seq![("PUSH_REPOSITORY_STARS_COUNT"@, decimal(push.repository.stars_count as nat))] + seq![("PUSH_REPOSITORY_FORKS_COUNT"@, decimal(push.repository.forks_count as nat))] + seq![("PUSH_REPOSITORY_WATCHERS_COUNT"@, decimal(push.repository.watchers_count as nat))] + seq![("PUSH_REPOSITORY_OPEN_ISSUES_COUNT"@, decimal(push.repository.open_issues_count as nat))], seq![("PUSH_REPOSITORY_DEFAULT_BRANCH"@, push.repository.default_branch@)], "PUSH_REPOSITORY_OPEN_ISSUES_COUNT"@);
    lemma_last_value_single("PUSH_REPOSITORY_DEFAULT_BRANCH"@, push.repository.default_branch@, "PUSH_REPOSITORY_OPEN_ISSUES_COUNT"@);
    assert("PUSH_REPOSITORY_DEFAULT_BRANCH"@.len() != "PUSH_REPOSITORY_OPEN_ISSUES_COUNT"@.len());
    lemma_last_value_concat(seq![("PUSH_REPOSITORY_DESCRIPTION"@, push.repository.description@)] + seq![("PUSH_REPOSITORY_PRIVATE"@, bool_text(push.repository.private))] + seq![("PUSH_REPOSITORY_FORK"@, bool_text(push.repository.fork))] + seq![("PUSH_REPOSITORY_HTML_URL"@, push.repository.html_url@)] + seq![("PUSH_REPOSITORY_SSH_URL"@, push.repository.ssh_url@)] + seq![("PUSH_REPOSITORY_CLONE_URL"@, push.repository.clone_url@)] + seq![("PUSH_REPOSITORY_WEBSITE"@, push.repository.website@)] + seq![("PUSH_REPOSITORY_STARS_COUNT"@, decimal(push.repository.stars_count as nat))] + seq![("PUSH_REPOSITORY_FORKS_COUNT"@, decimal(push.repository.forks_count as nat))] + seq![("PUSH_REPOSITORY_WATCHERS_COUNT"@, decimal(push.repository.watchers_count as nat))], seq![("PUSH_REPOSITORY_OPEN_ISSUES_COUNT"@, decimal(push.repository.open_issues_count as nat))], "PUSH_REPOSITORY_OPEN_ISSUES_COUNT"@);
    lemma_last_value_single("PUSH_REPOSITORY_OPEN_ISSUES_COUNT"@, decimal(push.repository.open_issues_count as nat), "PUSH_REPOSITORY_OPEN_ISSUES_COUNT"@);
}

/// The command that answers a push leaves the push's repository default branch in PUSH_REPOSITORY_DEFAULT_BRANCH.
pub proof fn lemma_push_event_repository_default_branch(push: PushEvent)
    ensures
        last_value(push_event_command(push).envs, "PUSH_REPOSITORY_DEFAULT_BRANCH"@) == Some(push.repository.default_branch@),
{
    reveal_strlit("PUSH_REF_PATH");
    reveal_strlit("PUSH_BEFORE");
    reveal_strlit("PUSH_AFTER");
    reveal_strlit("PUSH_PUSHER_ID");
    reveal_strlit("PUSH_PUSHER_LOGIN");
    reveal_strlit("PUSH_PUSHER_FULL_NAME");
    reveal_strlit("PUSH_PUSHER_EMAIL");
    reveal_strlit("PUSH_PUSHER_AVATAR_URL");
    reveal_strlit("PUSH_PUSHER_USERNAME");
    reveal_strlit("PUSH_SENDER_ID");
    reveal_strlit("PUSH_SENDER_LOGIN");
    reveal_strlit("PUSH_SENDER_FULL_NAME");
    reveal_strlit("PUSH_SENDER_EMAIL");
    reveal_strlit("PUSH_SENDER_AVATAR_URL");
    reveal_strlit("PUSH_SENDER_USERNAME");
    reveal_strlit("PUSH_REPOSITORY_ID");
    reveal_strlit("PUSH_REPOSITORY_OWNER_ID");
    reveal_strlit("PUSH_REPOSITORY_OWNER_LOGIN");
    reveal_strlit("PUSH_REPOSITORY_OWNER_FULL_NAME");
    reveal_strlit("PUSH_REPOSITORY_OWNER_EMAIL");
    reveal_strlit("PUSH_REPOSITORY_OWNER_AVATAR_URL");
    reveal_strlit("PUSH_REPOSITORY_OWNER_USERNAME");
    reveal_strlit("PUSH_REPOSITORY_NAME");
    reveal_strlit("PUSH_REPOSITORY_FULL_NAME");
    reveal_strlit("PUSH_REPOSITORY_DESCRIPTION");
    reveal_strlit("PUSH_REPOSITORY_PRIVATE");
    reveal_strlit("PUSH_REPOSITORY_FORK");
    reveal_strlit("PUSH_REPOSITORY_HTML_URL");
    reveal_strlit("PUSH_REPOSITORY_SSH_URL");
    reveal_strlit("PUSH_REPOSITORY_CLONE_URL");
    reveal_strlit("PUSH_REPOSITORY_WEBSITE");
    reveal_strlit("PUSH_REPOSITORY_STARS_COUNT");
    reveal_strlit("PUSH_REPOSITORY_FORKS_COUNT");
    reveal_strlit("PUSH_REPOSITORY_WATCHERS_COUNT");
    reveal_strlit("PUSH_REPOSITORY_OPEN_ISSUES_COUNT");
    reveal_strlit("PUSH_REPOSITORY_DEFAULT_BRANCH");
    reveal_strlit("PUSH_REPOSITORY_CREATED_AT");
    reveal_strlit("PUSH_REPOSITORY_UPDATED_AT");
    lemma_last_value_concat(push_event_env_part1(push) + push_event_env_part2(push) + push_event_env_part3(push), push_event_env_part4(push), "PUSH_REPOSITORY_DEFAULT_BRANCH"@);
    lemma_last_value_concat(seq![("PUSH_REPOSITORY_CREATED_AT"@, push.repository.created_at@)], seq![("PUSH_REPOSITORY_UPDATED_AT"@, push.repository.updated_at@)], "PUSH_REPOSITORY_DEFAULT_BRANCH"@);
    lemma_last_value_single("PUSH_REPOSITORY_CREATED_AT"@, push.repository.created_at@, "PUSH_REPOSITORY_DEFAULT_BRANCH"@);
    assert("PUSH_REPOSITORY_CREATED_AT"@.len() != "PUSH_REPOSITORY_DEFAULT_BRANCH"@.len());
    lemma_last_value_single("PUSH_REPOSITORY_UPDATED_AT"@, push.repository.updated_at@, "PUSH_REPOSITORY_DEFAULT_BRANCH"@);
    assert("PUSH_REPOSITORY_UPDATED_AT"@.len() != "PUSH_REPOSITORY_DEFAULT_BRANCH"@.len());
    lemma_last_value_concat(push_event_env_part1(push) + push_event_env_part2(push), push_event_env_part3(push), "PUSH_REPOSITORY_DEFAULT_BRANCH"@);
    lemma_last_value_concat(seq![("PUSH_REPOSITORY_DESCRIPTION"@, push.repository.description@)] + seq![("PUSH_REPOSITORY_PRIVATE"@, bool_text(push.repository.private))] + seq![("PUSH_REPOSITORY_FORK"@, bool_text(push.repository.fork))] + seq![("PUSH_REPOSITORY_HTML_URL"@, push.repository.html_url@)] + seq![("PUSH_REPOSITORY_SSH_URL"@, push.repository.ssh_url@)] + seq![("PUSH_REPOSITORY_CLONE_URL"@, push.repository.clone_url@)] + seq![("PUSH_REPOSITORY_WEBSITE"@, push.repository.website@)] + seq![("PUSH_REPOSITORY_STARS_COUNT"@, decimal(push.repository.stars_count as nat))] + seq![("PUSH_REPOSITORY_FORKS_COUNT"@, decimal(push.repository.forks_count as nat))] + seq![("PUSH_REPOSITORY_WATCHERS_COUNT"@, decimal(push.repository.watchers_count as nat))] + seq![("PUSH_REPOSITORY_OPEN_ISSUES_COUNT"@, decimal(push.repository.open_issues_count as nat))], seq![("PUSH_REPOSITORY_DEFAULT_BRANCH"@, push.repository.default_branch@)], "PUSH_REPOSITORY_DEFAULT_BRANCH"@);
    lemma_last_value_single("PUSH_REPOSITORY_DEFAULT_BRANCH"@, push.repository.default_branch@, "PUSH_REPOSITORY_DEFAULT_BRANCH"@);
}

/// The command that answers a push leaves the push's repository created at in PUSH_REPOSITORY_CREATED_AT.
pub proof fn lemma_push_event_repository_created_at(push: PushEvent)
    ensures
        last_value(push_event_command(push).envs, "PUSH_REPOSITORY_CREATED_AT"@) == Some(push.repository.created_at@),
{
    reveal_strlit("PUSH_REF_PATH");
    reveal_strlit("PUSH_BEFORE");
    reveal_strlit("PUSH_AFTER");
    reveal_strlit("PUSH_PUSHER_ID");
    reveal_strlit("PUSH_PUSHER_LOGIN");
    reveal_strlit("PUSH_PUSHER_FULL_NAME");
    reveal_strlit("PUSH_PUSHER_EMAIL");
    reveal_strlit("PUSH_PUSHER_AVATAR_URL");
    reveal_strlit("PUSH_PUSHER_USERNAME");
    reveal_strlit("PUSH_SENDER_ID");
    reveal_strlit("PUSH_SENDER_LOGIN");
    reveal_strlit("PUSH_SENDER_FULL_NAME");
    reveal_strlit("PUSH_SENDER_EMAIL");
    reveal_strlit("PUSH_SENDER_AVATAR_URL");
    reveal_strlit("PUSH_SENDER_USERNAME");
    reveal_strlit("PUSH_REPOSITORY_ID");
    reveal_strlit("PUSH_REPOSITORY_OWNER_ID");
    reveal_strlit("PUSH_REPOSITORY_OWNER_LOGIN");
    reveal_strlit("PUSH_REPOSITORY_OWNER_FULL_NAME");
    reveal_strlit("PUSH_REPOSITORY_OWNER_EMAIL");
    reveal_strlit("PUSH_REPOSITORY_OWNER_AVATAR_URL");
    reveal_strlit("PUSH_REPOSITORY_OWNER_USERNAME");
    reveal_strlit("PUSH_REPOSITORY_NAME");
    reveal_strlit("PUSH_REPOSITORY_FULL_NAME");
    reveal_strlit("PUSH_REPOSITORY_DESCRIPTION");
    reveal_strlit("PUSH_REPOSITORY_PRIVATE");
    reveal_strlit("PUSH_REPOSITORY_FORK");
    reveal_strlit("PUSH_REPOSITORY_HTML_URL");
    reveal_strlit("PUSH_REPOSITORY_SSH_URL");
    reveal_strlit("PUSH_REPOSITORY_CLONE_URL");
    reveal_strlit("PUSH_REPOSITORY_WEBSITE");
    reveal_strlit("PUSH_REPOSITORY_STARS_COUNT");
    reveal_strlit("PUSH_REPOSITORY_FORKS_COUNT");
    reveal_strlit("PUSH_REPOSITORY_WATCHERS_COUNT");
    reveal_strlit("PUSH_REPOSITORY_OPEN_ISSUES_COUNT");
    reveal_strlit("PUSH_REPOSITORY_DEFAULT_BRANCH");
    reveal_strlit("PUSH_REPOSITORY_CREATED_AT");
    reveal_strlit("PUSH_REPOSITORY_UPDATED_AT");
    lemma_last_value_concat(push_event_env_part1(push) + push_event_env_part2(push) + push_event_env_part3(push), push_event_env_part4(push), "PUSH_REPOSITORY_CREATED_AT"@);
    lemma_last_value_concat(seq![("PUSH_REPOSITORY_CREATED_AT"@, push.repository.created_at@)], seq![("PUSH_REPOSITORY_UPDATED_AT"@, push.repository.updated_at@)], "PUSH_REPOSITORY_CREATED_AT"@);
    lemma_last_value_single("PUSH_REPOSITORY_UPDATED_AT"@, push.repository.updated_at@, "PUSH_REPOSITORY_CREATED_AT"@);
    assert("PUSH_REPOSITORY_UPDATED_AT"@[16] != "PUSH_REPOSITORY_CREATED_AT"@[16]);
    lemma_last_value_single("PUSH_REPOSITORY_CREATED_AT"@, push.repository.created_at@, "PUSH_REPOSITORY_CREATED_AT"@);
}

/// The command that answers a push leaves the push's repository updated at in PUSH_REPOSITORY_UPDATED_AT.
pub proof fn lemma_push_event_repository_updated_at(push: PushEvent)
    ensures
        last_value(push_event_command(push).envs, "PUSH_REPOSITORY_UPDATED_AT"@) == Some(push.repository.updated_at@),
{
    reveal_strlit("PUSH_REF_PATH");
    reveal_strlit("PUSH_BEFORE");
    reveal_strlit("PUSH_AFTER");
    reveal_strlit("PUSH_PUSHER_ID");
    reveal_strlit("PUSH_PUSHER_LOGIN");
    reveal_strlit("PUSH_PUSHER_FULL_NAME");
    reveal_strlit("PUSH_PUSHER_EMAIL");
    reveal_strlit("PUSH_PUSHER_AVATAR_URL");
    reveal_strlit("PUSH_PUSHER_USERNAME");
    reveal_strlit("PUSH_SENDER_ID");
    reveal_strlit("PUSH_SENDER_LOGIN");
    reveal_strlit("PUSH_SENDER_FULL_NAME");
    reveal_strlit("PUSH_SENDER_EMAIL");
    reveal_strlit("PUSH_SENDER_AVATAR_URL");
    reveal_strlit("PUSH_SENDER_USERNAME");
    reveal_strlit("PUSH_REPOSITORY_ID");
    reveal_strlit("PUSH_REPOSITORY_OWNER_ID");
    reveal_strlit("PUSH_REPOSITORY_OWNER_LOGIN");
    reveal_strlit("PUSH_REPOSITORY_OWNER_FULL_NAME");
    reveal_strlit("PUSH_REPOSITORY_OWNER_EMAIL");
    reveal_strlit("PUSH_REPOSITORY_OWNER_AVATAR_URL");
    reveal_strlit("PUSH_REPOSITORY_OWNER_USERNAME");
    reveal_strlit("PUSH_REPOSITORY_NAME");
    reveal_strlit("PUSH_REPOSITORY_FULL_NAME");
    reveal_strlit("PUSH_REPOSITORY_DESCRIPTION");
    reveal_strlit("PUSH_REPOSITORY_PRIVATE");
    reveal_strlit("PUSH_REPOSITORY_FORK");
    reveal_strlit("PUSH_REPOSITORY_HTML_URL");
    reveal_strlit("PUSH_REPOSITORY_SSH_URL");
    reveal_strlit("PUSH_REPOSITORY_CLONE_URL");
    reveal_strlit("PUSH_REPOSITORY_WEBSITE");
    reveal_strlit("PUSH_REPOSITORY_STARS_COUNT");
    reveal_strlit("PUSH_REPOSITORY_FORKS_COUNT");
    reveal_strlit("PUSH_REPOSITORY_WATCHERS_COUNT");
    reveal_strlit("PUSH_REPOSITORY_OPEN_ISSUES_COUNT");
    reveal_strlit("PUSH_REPOSITORY_DEFAULT_BRANCH");
    reveal_strlit("PUSH_REPOSITORY_CREATED_AT");
    reveal_strlit("PUSH_REPOSITORY_UPDATED_AT");
    lemma_last_value_concat(push_event_env_part1(push) + push_event_env_part2(push) + push_event_env_part3(push), push_event_env_part4(push), "PUSH_REPOSITORY_UPDATED_AT"@);
    lemma_last_value_concat(seq![("PUSH_REPOSITORY_CREATED_AT"@, push.repository.created_at@)], seq![("PUSH_REPOSITORY_UPDATED_AT"@, push.repository.updated_at@)], "PUSH_REPOSITORY_UPDATED_AT"@);
    lemma_last_value_single("PUSH_REPOSITORY_UPDATED_AT"@, push.repository.updated_at@, "PUSH_REPOSITORY_UPDATED_AT"@);
}

} // verus!
