//! The environment that describes each Gitea record to a command: every field
//! under its JSON key in capitals, after a prefix and an underscore; a nested
//! record under the field's name as a longer prefix; an optional part only
//! where it is present; and the items of a list under the list's name, an
//! underscore and the item's index.
use vstd::prelude::*;
use crate::command::{
    all_under, entry, last_value, lemma_entry_under, lemma_last_value_concat, lemma_last_value_single,
    lemma_no_value_apart, lemma_no_value_shorter, lemma_single_apart, lemma_single_apart_len,
    lemma_starts_with_char, lemma_under_concat, lemma_under_longer, lemma_with_envs_twice,
    lemma_with_no_envs, or_else, starts_with, CommandSpec, EnvEntry,
};
use crate::luffy_gitea::structs::{
    Attachment, Changes, ChangesFromPayload, Comment, Commit, ExternalTracker, ExternalWiki, GitUser,
    GiteaUser, InternalTracker, Issue, Milestone, PRBranchInfo, Permissions, PullRequest,
    PullRequestMeta, Release, Repository, RepositoryMeta,
};
use crate::text::{bool_text, bool_to_text, decimal, i64_text, join, signed_decimal, u64_text};

verus! {

/// The assignments that describe the author or committer of a commit, each name starting with `prefix`.
pub open spec fn git_user_env(prefix: Seq<char>, item: GitUser) -> Seq<EnvEntry>
{
    seq![entry(prefix, "_NAME"@, item.name@)]
    + seq![entry(prefix, "_EMAIL"@, item.email@)]
    + seq![entry(prefix, "_USERNAME"@, item.username@)]
}

/// Makes the assignments that describe the author or committer of a commit, each name starting with `prefix`.
pub fn add_git_user_env(cmd: &mut CommandSpec, prefix: &str, item: &GitUser)
    ensures
        final(cmd)@ == old(cmd)@.with_envs(git_user_env(prefix@, *item)),
{
    let ghost start = cmd@;
    let ghost p = prefix@;
    cmd.put(prefix, "_NAME", item.name.clone());
    let ghost mut acc: Seq<EnvEntry> = seq![entry(p, "_NAME"@, (*item).name@)];
    cmd.put(prefix, "_EMAIL", item.email.clone());
    proof {
        lemma_with_envs_twice(start, acc, seq![entry(p, "_EMAIL"@, (*item).email@)]);
        acc = acc + seq![entry(p, "_EMAIL"@, (*item).email@)];
    }
    cmd.put(prefix, "_USERNAME", item.username.clone());
    proof {
        lemma_with_envs_twice(start, acc, seq![entry(p, "_USERNAME"@, (*item).username@)]);
    }
}

/// The assignments that describe a Gitea account, each name starting with `prefix`.
pub open spec fn user_env(prefix: Seq<char>, item: GiteaUser) -> Seq<EnvEntry>
{
    seq![entry(prefix, "_ID"@, signed_decimal(item.id as int))]
    + seq![entry(prefix, "_LOGIN"@, item.login@)]
    + seq![entry(prefix, "_FULL_NAME"@, item.full_name@)]
    + seq![entry(prefix, "_EMAIL"@, item.email@)]
    + seq![entry(prefix, "_AVATAR_URL"@, item.avatar_url@)]
    + seq![entry(prefix, "_USERNAME"@, item.username@)]
    + seq![entry(prefix, "_LANGUAGE"@, item.language@)]
    + seq![entry(prefix, "_IS_ADMIN"@, bool_text(item.is_admin))]
    + seq![entry(prefix, "_LAST_LOGIN"@, item.last_login@)]
    + seq![entry(prefix, "_CREATED"@, item.created@)]
}

/// Makes the assignments that describe a Gitea account, each name starting with `prefix`.
pub fn add_user_env(cmd: &mut CommandSpec, prefix: &str, item: &GiteaUser)
    ensures
        final(cmd)@ == old(cmd)@.with_envs(user_env(prefix@, *item)),
{
    let ghost start = cmd@;
    let ghost p = prefix@;
    cmd.put(prefix, "_ID", i64_text(item.id as i64));
    let ghost mut acc: Seq<EnvEntry> = seq![entry(p, "_ID"@, signed_decimal((*item).id as int))];
    cmd.put(prefix, "_LOGIN", item.login.clone());
    proof {
        lemma_with_envs_twice(start, acc, seq![entry(p, "_LOGIN"@, (*item).login@)]);
        acc = acc + seq![entry(p, "_LOGIN"@, (*item).login@)];
    }
    cmd.put(prefix, "_FULL_NAME", item.full_name.clone());
    proof {
        lemma_with_envs_twice(start, acc, seq![entry(p, "_FULL_NAME"@, (*item).full_name@)]);
        acc = acc + seq![entry(p, "_FULL_NAME"@, (*item).full_name@)];
    }
    cmd.put(prefix, "_EMAIL", item.email.clone());
    proof {
        lemma_with_envs_twice(start, acc, seq![entry(p, "_EMAIL"@, (*item).email@)]);
        acc = acc + seq![entry(p, "_EMAIL"@, (*item).email@)];
    }
    cmd.put(prefix, "_AVATAR_URL", item.avatar_url.clone());
    proof {
        lemma_with_envs_twice(start, acc, seq![entry(p, "_AVATAR_URL"@, (*item).avatar_url@)]);
        acc = acc + seq![entry(p, "_AVATAR_URL"@, (*item).avatar_url@)];
    }
    cmd.put(prefix, "_USERNAME", item.username.clone());
    proof {
        lemma_with_envs_twice(start, acc, seq![entry(p, "_USERNAME"@, (*item).username@)]);
        acc = acc + seq![entry(p, "_USERNAME"@, (*item).username@)];
    }
    cmd.put(prefix, "_LANGUAGE", item.language.clone());
    proof {
        lemma_with_envs_twice(start, acc, seq![entry(p, "_LANGUAGE"@, (*item).language@)]);
        acc = acc + seq![entry(p, "_LANGUAGE"@, (*item).language@)];
    }
    cmd.put(prefix, "_IS_ADMIN", bool_to_text(item.is_admin));
    proof {
        lemma_with_envs_twice(start, acc, seq![entry(p, "_IS_ADMIN"@, bool_text((*item).is_admin))]);
        acc = acc + seq![entry(p, "_IS_ADMIN"@, bool_text((*item).is_admin))];
    }
    cmd.put(prefix, "_LAST_LOGIN", item.last_login.clone());
    proof {
        lemma_with_envs_twice(start, acc, seq![entry(p, "_LAST_LOGIN"@, (*item).last_login@)]);
        acc = acc + seq![entry(p, "_LAST_LOGIN"@, (*item).last_login@)];
    }
    cmd.put(prefix, "_CREATED", item.created.clone());
    proof {
        lemma_with_envs_twice(start, acc, seq![entry(p, "_CREATED"@, (*item).created@)]);
    }
}

/// The assignments that describe a commit, each name starting with `prefix`.
pub open spec fn commit_env(prefix: Seq<char>, item: Commit) -> Seq<EnvEntry>
{
    seq![entry(prefix, "_ID"@, item.id@)]
    + seq![entry(prefix, "_MESSAGE"@, item.message@)]
    + seq![entry(prefix, "_URL"@, item.url@)]
    + git_user_env(prefix + "_AUTHOR"@, item.author)
    + git_user_env(prefix + "_COMMITTER"@, item.committer)
    + seq![entry(prefix, "_TIMESTAMP"@, item.timestamp@)]
}

/// Makes the assignments that describe a commit, each name starting with `prefix`.
pub fn add_commit_env(cmd: &mut CommandSpec, prefix: &str, item: &Commit)
    ensures
        final(cmd)@ == old(cmd)@.with_envs(commit_env(prefix@, *item)),
{
    let ghost start = cmd@;
    let ghost p = prefix@;
    cmd.put(prefix, "_ID", item.id.clone());
    let ghost mut acc: Seq<EnvEntry> = seq![entry(p, "_ID"@, (*item).id@)];
    cmd.put(prefix, "_MESSAGE", item.message.clone());
    proof {
        lemma_with_envs_twice(start, acc, seq![entry(p, "_MESSAGE"@, (*item).message@)]);
        acc = acc + seq![entry(p, "_MESSAGE"@, (*item).message@)];
    }
    cmd.put(prefix, "_URL", item.url.clone());
    proof {
        lemma_with_envs_twice(start, acc, seq![entry(p, "_URL"@, (*item).url@)]);
        acc = acc + seq![entry(p, "_URL"@, (*item).url@)];
    }
    add_git_user_env(cmd, join(prefix, "_AUTHOR").as_str(), &item.author);
    proof {
        lemma_with_envs_twice(start, acc, git_user_env(p + "_AUTHOR"@, (*item).author));
        acc = acc + git_user_env(p + "_AUTHOR"@, (*item).author);
    }
    add_git_user_env(cmd, join(prefix, "_COMMITTER").as_str(), &item.committer);
    proof {
        lemma_with_envs_twice(start, acc, git_user_env(p + "_COMMITTER"@, (*item).committer));
        acc = acc + git_user_env(p + "_COMMITTER"@, (*item).committer);
    }
    cmd.put(prefix, "_TIMESTAMP", item.timestamp.clone());
    proof {
        lemma_with_envs_twice(start, acc, seq![entry(p, "_TIMESTAMP"@, (*item).timestamp@)]);
    }
}

/// The assignments that describe a milestone, each name starting with `prefix`.
pub open spec fn milestone_env(prefix: Seq<char>, item: Milestone) -> Seq<EnvEntry>
{
    seq![entry(prefix, "_ID"@, signed_decimal(item.id as int))]
    + seq![entry(prefix, "_TITLE"@, item.title@)]
    + seq![entry(prefix, "_DESCRIPTION"@, item.description@)]
    + seq![entry(prefix, "_STATE"@, item.state@)]
    + seq![entry(prefix, "_OPEN_ISSUES"@, signed_decimal(item.open_issues as int))]
    + seq![entry(prefix, "_CLOSED_ISSUES"@, signed_decimal(item.closed_issues as int))]
    + seq![entry(prefix, "_CREATED_AT"@, item.created_at@)]
    + seq![entry(prefix, "_UPDATED_AT"@, item.updated_at@)]
    + seq![entry(prefix, "_CLOSED_AT"@, item.closed_at@)]
    + seq![entry(prefix, "_DUE_ON"@, item.due_on@)]
}

/// Makes the assignments that describe a milestone, each name starting with `prefix`.
pub fn add_milestone_env(cmd: &mut CommandSpec, prefix: &str, item: &Milestone)
    ensures
        final(cmd)@ == old(cmd)@.with_envs(milestone_env(prefix@, *item)),
{
    let ghost start = cmd@;
    let ghost p = prefix@;
    cmd.put(prefix, "_ID", i64_text(item.id as i64));
    let ghost mut acc: Seq<EnvEntry> = seq![entry(p, "_ID"@, signed_decimal((*item).id as int))];
    cmd.put(prefix, "_TITLE", item.title.clone());
    proof {
        lemma_with_envs_twice(start, acc, seq![entry(p, "_TITLE"@, (*item).title@)]);
        acc = acc + seq![entry(p, "_TITLE"@, (*item).title@)];
    }
    cmd.put(prefix, "_DESCRIPTION", item.description.clone());
    proof {
        lemma_with_envs_twice(start, acc, seq![entry(p, "_DESCRIPTION"@, (*item).description@)]);
        acc = acc + seq![entry(p, "_DESCRIPTION"@, (*item).description@)];
    }
    cmd.put(prefix, "_STATE", item.state.clone());
    proof {
        lemma_with_envs_twice(start, acc, seq![entry(p, "_STATE"@, (*item).state@)]);
        acc = acc + seq![entry(p, "_STATE"@, (*item).state@)];
    }
    cmd.put(prefix, "_OPEN_ISSUES", i64_text(item.open_issues as i64));
    proof {
        lemma_with_envs_twice(start, acc, seq![entry(p, "_OPEN_ISSUES"@, signed_decimal((*item).open_issues as int))]);
        acc = acc + seq![entry(p, "_OPEN_ISSUES"@, signed_decimal((*item).open_issues as int))];
    }
    cmd.put(prefix, "_CLOSED_ISSUES", i64_text(item.closed_issues as i64));
    proof {
        lemma_with_envs_twice(start, acc, seq![entry(p, "_CLOSED_ISSUES"@, signed_decimal((*item).closed_issues as int))]);
        acc = acc + seq![entry(p, "_CLOSED_ISSUES"@, signed_decimal((*item).closed_issues as int))];
    }
    cmd.put(prefix, "_CREATED_AT", item.created_at.clone());
    proof {
        lemma_with_envs_twice(start, acc, seq![entry(p, "_CREATED_AT"@, (*item).created_at@)]);
        acc = acc + seq![entry(p, "_CREATED_AT"@, (*item).created_at@)];
    }
    cmd.put(prefix, "_UPDATED_AT", item.updated_at.clone());
    proof {
        lemma_with_envs_twice(start, acc, seq![entry(p, "_UPDATED_AT"@, (*item).updated_at@)]);
        acc = acc + seq![entry(p, "_UPDATED_AT"@, (*item).updated_at@)];
    }
    cmd.put(prefix, "_CLOSED_AT", item.closed_at.clone());
    proof {
        lemma_with_envs_twice(start, acc, seq![entry(p, "_CLOSED_AT"@, (*item).closed_at@)]);
        acc = acc + seq![entry(p, "_CLOSED_AT"@, (*item).closed_at@)];
    }
    cmd.put(prefix, "_DUE_ON", item.due_on.clone());
    proof {
        lemma_with_envs_twice(start, acc, seq![entry(p, "_DUE_ON"@, (*item).due_on@)]);
    }
}

/// The assignments that describe what the sender may do with a repository, each name starting with `prefix`.
pub open spec fn permissions_env(prefix: Seq<char>, item: Permissions) -> Seq<EnvEntry>
{
    seq![entry(prefix, "_ADMIN"@, bool_text(item.has_admin))]
    + seq![entry(prefix, "_PUSH"@, bool_text(item.has_push))]
    + seq![entry(prefix, "_PULL"@, bool_text(item.has_pull))]
}

/// Makes the assignments that describe what the sender may do with a repository, each name starting with `prefix`.
pub fn add_permissions_env(cmd: &mut CommandSpec, prefix: &str, item: &Permissions)
    ensures
        final(cmd)@ == old(cmd)@.with_envs(permissions_env(prefix@, *item)),
{
    let ghost start = cmd@;
    let ghost p = prefix@;
    cmd.put(prefix, "_ADMIN", bool_to_text(item.has_admin));
    let ghost mut acc: Seq<EnvEntry> = seq![entry(p, "_ADMIN"@, bool_text((*item).has_admin))];
    cmd.put(prefix, "_PUSH", bool_to_text(item.has_push));
    proof {
        lemma_with_envs_twice(start, acc, seq![entry(p, "_PUSH"@, bool_text((*item).has_push))]);
        acc = acc + seq![entry(p, "_PUSH"@, bool_text((*item).has_push))];
    }
    cmd.put(prefix, "_PULL", bool_to_text(item.has_pull));
    proof {
        lemma_with_envs_twice(start, acc, seq![entry(p, "_PULL"@, bool_text((*item).has_pull))]);
    }
}

/// The assignments that describe the settings of a repository's own issue tracker, each name starting with `prefix`.
pub open spec fn internal_tracker_env(prefix: Seq<char>, item: InternalTracker) -> Seq<EnvEntry>
{
    seq![entry(prefix, "_ENABLE_TIME_TRACKER"@, bool_text(item.is_enabled))]
    + seq![entry(prefix, "_ALLOW_ONLY_CONTRIBUTORS_TO_TRACK_TIME"@, bool_text(item.is_contributor_only_time_tracking_enabled))]
    + seq![entry(prefix, "_ENABLE_ISSUE_DEPENDENCIES"@, bool_text(item.is_issue_dependencies_enabled))]
}

/// Makes the assignments that describe the settings of a repository's own issue tracker, each name starting with `prefix`.
pub fn add_internal_tracker_env(cmd: &mut CommandSpec, prefix: &str, item: &InternalTracker)
    ensures
        final(cmd)@ == old(cmd)@.with_envs(internal_tracker_env(prefix@, *item)),
{
    let ghost start = cmd@;
    let ghost p = prefix@;
    cmd.put(prefix, "_ENABLE_TIME_TRACKER", bool_to_text(item.is_enabled));
    let ghost mut acc: Seq<EnvEntry> = seq![entry(p, "_ENABLE_TIME_TRACKER"@, bool_text((*item).is_enabled))];
    cmd.put(prefix, "_ALLOW_ONLY_CONTRIBUTORS_TO_TRACK_TIME", bool_to_text(item.is_contributor_only_time_tracking_enabled));
    proof {
        lemma_with_envs_twice(start, acc, seq![entry(p, "_ALLOW_ONLY_CONTRIBUTORS_TO_TRACK_TIME"@, bool_text((*item).is_contributor_only_time_tracking_enabled))]);
        acc = acc + seq![entry(p, "_ALLOW_ONLY_CONTRIBUTORS_TO_TRACK_TIME"@, bool_text((*item).is_contributor_only_time_tracking_enabled))];
    }
    cmd.put(prefix, "_ENABLE_ISSUE_DEPENDENCIES", bool_to_text(item.is_issue_dependencies_enabled));
    proof {
        lemma_with_envs_twice(start, acc, seq![entry(p, "_ENABLE_ISSUE_DEPENDENCIES"@, bool_text((*item).is_issue_dependencies_enabled))]);
    }
}

/// The assignments that describe an issue tracker outside Gitea, each name starting with `prefix`.
pub open spec fn external_tracker_env(prefix: Seq<char>, item: ExternalTracker) -> Seq<EnvEntry>
{
    seq![entry(prefix, "_EXTERNAL_TRACKER_URL"@, item.external_tracker_url@)]
    + seq![entry(prefix, "_EXTERNAL_TRACKER_FORMAT"@, item.external_tracker_format@)]
    + seq![entry(prefix, "_EXTERNAL_TRACKER_STYLE"@, item.external_tracker_style@)]
}

/// Makes the assignments that describe an issue tracker outside Gitea, each name starting with `prefix`.
pub fn add_external_tracker_env(cmd: &mut CommandSpec, prefix: &str, item: &ExternalTracker)
    ensures
        final(cmd)@ == old(cmd)@.with_envs(external_tracker_env(prefix@, *item)),
{
    let ghost start = cmd@;
    let ghost p = prefix@;
    cmd.put(prefix, "_EXTERNAL_TRACKER_URL", item.external_tracker_url.clone());
    let ghost mut acc: Seq<EnvEntry> = seq![entry(p, "_EXTERNAL_TRACKER_URL"@, (*item).external_tracker_url@)];
    cmd.put(prefix, "_EXTERNAL_TRACKER_FORMAT", item.external_tracker_format.clone());
    proof {
        lemma_with_envs_twice(start, acc, seq![entry(p, "_EXTERNAL_TRACKER_FORMAT"@, (*item).external_tracker_format@)]);
        acc = acc + seq![entry(p, "_EXTERNAL_TRACKER_FORMAT"@, (*item).external_tracker_format@)];
    }
    cmd.put(prefix, "_EXTERNAL_TRACKER_STYLE", item.external_tracker_style.clone());
    proof {
        lemma_with_envs_twice(start, acc, seq![entry(p, "_EXTERNAL_TRACKER_STYLE"@, (*item).external_tracker_style@)]);
    }
}

/// The assignments that describe a wiki outside Gitea, each name starting with `prefix`.
pub open spec fn external_wiki_env(prefix: Seq<char>, item: ExternalWiki) -> Seq<EnvEntry>
{
    seq![entry(prefix, "_EXTERNAL_WIKI_URL"@, item.url@)]
}

/// Makes the assignments that describe a wiki outside Gitea, each name starting with `prefix`.
pub fn add_external_wiki_env(cmd: &mut CommandSpec, prefix: &str, item: &ExternalWiki)
    ensures
        final(cmd)@ == old(cmd)@.with_envs(external_wiki_env(prefix@, *item)),
{
    cmd.put(prefix, "_EXTERNAL_WIKI_URL", item.url.clone());
}

/// The assignments for the fields of a repository from ID to PARENT.
pub open spec fn repository_env_part1(prefix: Seq<char>, item: Repository) -> Seq<EnvEntry>
    decreases item, 0nat,
{
    seq![entry(prefix, "_ID"@, signed_decimal(item.id as int))]
    + user_env(prefix + "_OWNER"@, item.owner)
    + seq![entry(prefix, "_NAME"@, item.name@)]
    + seq![entry(prefix, "_FULL_NAME"@, item.full_name@)]
    + seq![entry(prefix, "_DESCRIPTION"@, item.description@)]
    + seq![entry(prefix, "_EMPTY"@, bool_text(item.is_empty))]
    + seq![entry(prefix, "_PRIVATE"@, bool_text(item.is_private))]
    + seq![entry(prefix, "_FORK"@, bool_text(item.is_fork))]
    + seq![entry(prefix, "_TEMPLATE"@, bool_text(item.is_template))]
    + (match &item.parent { Some(v) => repository_env(prefix + "_PARENT"@, **v), None => seq![] })
}

/// Makes the assignments for the fields of a repository from ID to PARENT.
pub fn add_repository_env_part1(cmd: &mut CommandSpec, prefix: &str, item: &Repository)
    ensures
        final(cmd)@ == old(cmd)@.with_envs(repository_env_part1(prefix@, *item)),
    decreases item, 0nat,
{
    let ghost start = cmd@;
    let ghost p = prefix@;
    cmd.put(prefix, "_ID", i64_text(item.id as i64));
    let ghost mut acc: Seq<EnvEntry> = seq![entry(p, "_ID"@, signed_decimal((*item).id as int))];
    add_user_env(cmd, join(prefix, "_OWNER").as_str(), &item.owner);
    proof {
        lemma_with_envs_twice(start, acc, user_env(p + "_OWNER"@, (*item).owner));
        acc = acc + user_env(p + "_OWNER"@, (*item).owner);
    }
    cmd.put(prefix, "_NAME", item.name.clone());
    proof {
        lemma_with_envs_twice(start, acc, seq![entry(p, "_NAME"@, (*item).name@)]);
        acc = acc + seq![entry(p, "_NAME"@, (*item).name@)];
    }
    cmd.put(prefix, "_FULL_NAME", item.full_name.clone());
    proof {
        lemma_with_envs_twice(start, acc, seq![entry(p, "_FULL_NAME"@, (*item).full_name@)]);
        acc = acc + seq![entry(p, "_FULL_NAME"@, (*item).full_name@)];
    }
    cmd.put(prefix, "_DESCRIPTION", item.description.clone());
    proof {
        lemma_with_envs_twice(start, acc, seq![entry(p, "_DESCRIPTION"@, (*item).description@)]);
        acc = acc + seq![entry(p, "_DESCRIPTION"@, (*item).description@)];
    }
    cmd.put(prefix, "_EMPTY", bool_to_text(item.is_empty));
    proof {
        lemma_with_envs_twice(start, acc, seq![entry(p, "_EMPTY"@, bool_text((*item).is_empty))]);
        acc = acc + seq![entry(p, "_EMPTY"@, bool_text((*item).is_empty))];
    }
    cmd.put(prefix, "_PRIVATE", bool_to_text(item.is_private));
    proof {
        lemma_with_envs_twice(start, acc, seq![entry(p, "_PRIVATE"@, bool_text((*item).is_private))]);
        acc = acc + seq![entry(p, "_PRIVATE"@, bool_text((*item).is_private))];
    }
    cmd.put(prefix, "_FORK", bool_to_text(item.is_fork));
    proof {
        lemma_with_envs_twice(start, acc, seq![entry(p, "_FORK"@, bool_text((*item).is_fork))]);
        acc = acc + seq![entry(p, "_FORK"@, bool_text((*item).is_fork))];
    }
    cmd.put(prefix, "_TEMPLATE", bool_to_text(item.is_template));
    proof {
        lemma_with_envs_twice(start, acc, seq![entry(p, "_TEMPLATE"@, bool_text((*item).is_template))]);
        acc = acc + seq![entry(p, "_TEMPLATE"@, bool_text((*item).is_template))];
    }
    if let Some(v) = &item.parent {
        add_repository_env(cmd, join(prefix, "_PARENT").as_str(), &**v);
    } else {
        proof {
            lemma_with_no_envs(cmd@);
        }
    }
    proof {
        lemma_with_envs_twice(start, acc, (match &(*item).parent { Some(v) => repository_env(p + "_PARENT"@, **v), None => seq![] }));
    }
}

/// The assignments for the fields of a repository from MIRROR to WATCHERS_COUNT.
pub open spec fn repository_env_part2(prefix: Seq<char>, item: Repository) -> Seq<EnvEntry>
{
    seq![entry(prefix, "_MIRROR"@, bool_text(item.is_mirror))]
    + seq![entry(prefix, "_SIZE"@, signed_decimal(item.size_mib as int))]
    + seq![entry(prefix, "_HTML_URL"@, item.html_url@)]
    + seq![entry(prefix, "_SSH_URL"@, item.ssh_url@)]
    + seq![entry(prefix, "_CLONE_URL"@, item.clone_url@)]
    + seq![entry(prefix, "_ORIGINAL_URL"@, item.original_url@)]
    + seq![entry(prefix, "_WEBSITE"@, item.website@)]
    + seq![entry(prefix, "_STARS_COUNT"@, signed_decimal(item.stars_count as int))]
    + seq![entry(prefix, "_FORKS_COUNT"@, signed_decimal(item.forks_count as int))]
    + seq![entry(prefix, "_WATCHERS_COUNT"@, signed_decimal(item.watchers_count as int))]
}

/// Makes the assignments for the fields of a repository from MIRROR to WATCHERS_COUNT.
pub fn add_repository_env_part2(cmd: &mut CommandSpec, prefix: &str, item: &Repository)
    ensures
        final(cmd)@ == old(cmd)@.with_envs(repository_env_part2(prefix@, *item)),
{
    let ghost start = cmd@;
    let ghost p = prefix@;
    cmd.put(prefix, "_MIRROR", bool_to_text(item.is_mirror));
    let ghost mut acc: Seq<EnvEntry> = seq![entry(p, "_MIRROR"@, bool_text((*item).is_mirror))];
    cmd.put(prefix, "_SIZE", i64_text(item.size_mib as i64));
    proof {
        lemma_with_envs_twice(start, acc, seq![entry(p, "_SIZE"@, signed_decimal((*item).size_mib as int))]);
        acc = acc + seq![entry(p, "_SIZE"@, signed_decimal((*item).size_mib as int))];
    }
    cmd.put(prefix, "_HTML_URL", item.html_url.clone());
    proof {
        lemma_with_envs_twice(start, acc, seq![entry(p, "_HTML_URL"@, (*item).html_url@)]);
        acc = acc + seq![entry(p, "_HTML_URL"@, (*item).html_url@)];
    }
    cmd.put(prefix, "_SSH_URL", item.ssh_url.clone());
    proof {
        lemma_with_envs_twice(start, acc, seq![entry(p, "_SSH_URL"@, (*item).ssh_url@)]);
        acc = acc + seq![entry(p, "_SSH_URL"@, (*item).ssh_url@)];
    }
    cmd.put(prefix, "_CLONE_URL", item.clone_url.clone());
    proof {
        lemma_with_envs_twice(start, acc, seq![entry(p, "_CLONE_URL"@, (*item).clone_url@)]);
        acc = acc + seq![entry(p, "_CLONE_URL"@, (*item).clone_url@)];
    }
    cmd.put(prefix, "_ORIGINAL_URL", item.original_url.clone());
    proof {
        lemma_with_envs_twice(start, acc, seq![entry(p, "_ORIGINAL_URL"@, (*item).original_url@)]);
        acc = acc + seq![entry(p, "_ORIGINAL_URL"@, (*item).original_url@)];
    }
    cmd.put(prefix, "_WEBSITE", item.website.clone());
    proof {
        lemma_with_envs_twice(start, acc, seq![entry(p, "_WEBSITE"@, (*item).website@)]);
        acc = acc + seq![entry(p, "_WEBSITE"@, (*item).website@)];
    }
    cmd.put(prefix, "_STARS_COUNT", i64_text(item.stars_count as i64));
    proof {
        lemma_with_envs_twice(start, acc, seq![entry(p, "_STARS_COUNT"@, signed_decimal((*item).stars_count as int))]);
        acc = acc + seq![entry(p, "_STARS_COUNT"@, signed_decimal((*item).stars_count as int))];
    }
    cmd.put(prefix, "_FORKS_COUNT", i64_text(item.forks_count as i64));
    proof {
        lemma_with_envs_twice(start, acc, seq![entry(p, "_FORKS_COUNT"@, signed_decimal((*item).forks_count as int))]);
        acc = acc + seq![entry(p, "_FORKS_COUNT"@, signed_decimal((*item).forks_count as int))];
    }
    cmd.put(prefix, "_WATCHERS_COUNT", i64_text(item.watchers_count as i64));
    proof {
        lemma_with_envs_twice(start, acc, seq![entry(p, "_WATCHERS_COUNT"@, signed_decimal((*item).watchers_count as int))]);
    }
}

/// The assignments for the fields of a repository from OPEN_ISSUES_COUNT to INTERNAL_TRACKER.
pub open spec fn repository_env_part3(prefix: Seq<char>, item: Repository) -> Seq<EnvEntry>
{
    seq![entry(prefix, "_OPEN_ISSUES_COUNT"@, signed_decimal(item.open_issues_count as int))]
    + seq![entry(prefix, "_OPEN_PR_COUNTER"@, signed_decimal(item.open_pr_counter as int))]
    + seq![entry(prefix, "_RELEASE_COUNTER"@, signed_decimal(item.release_counter as int))]
    + seq![entry(prefix, "_DEFAULT_BRANCH"@, item.default_branch@)]
    + seq![entry(prefix, "_ARCHIVED"@, bool_text(item.is_archived))]
    + seq![entry(prefix, "_CREATED_AT"@, item.created_at@)]
    + seq![entry(prefix, "_UPDATED_AT"@, item.updated_at@)]
    + (match &item.permissions { Some(v) => permissions_env(prefix + "_PERMISSIONS"@, *v), None => seq![] })
    + seq![entry(prefix, "_HAS_ISSUES"@, bool_text(item.has_issues))]
    + (match &item.internal_tracker { Some(v) => internal_tracker_env(prefix + "_INTERNAL_TRACKER"@, *v), None => seq![] })
}

/// Makes the assignments for the fields of a repository from OPEN_ISSUES_COUNT to INTERNAL_TRACKER.
pub fn add_repository_env_part3(cmd: &mut CommandSpec, prefix: &str, item: &Repository)
    ensures
        final(cmd)@ == old(cmd)@.with_envs(repository_env_part3(prefix@, *item)),
{
    let ghost start = cmd@;
    let ghost p = prefix@;
    cmd.put(prefix, "_OPEN_ISSUES_COUNT", i64_text(item.open_issues_count as i64));
    let ghost mut acc: Seq<EnvEntry> = seq![entry(p, "_OPEN_ISSUES_COUNT"@, signed_decimal((*item).open_issues_count as int))];
    cmd.put(prefix, "_OPEN_PR_COUNTER", i64_text(item.open_pr_counter as i64));
    proof {
        lemma_with_envs_twice(start, acc, seq![entry(p, "_OPEN_PR_COUNTER"@, signed_decimal((*item).open_pr_counter as int))]);
        acc = acc + seq![entry(p, "_OPEN_PR_COUNTER"@, signed_decimal((*item).open_pr_counter as int))];
    }
    cmd.put(prefix, "_RELEASE_COUNTER", i64_text(item.release_counter as i64));
    proof {
        lemma_with_envs_twice(start, acc, seq![entry(p, "_RELEASE_COUNTER"@, signed_decimal((*item).release_counter as int))]);
        acc = acc + seq![entry(p, "_RELEASE_COUNTER"@, signed_decimal((*item).release_counter as int))];
    }
    cmd.put(prefix, "_DEFAULT_BRANCH", item.default_branch.clone());
    proof {
        lemma_with_envs_twice(start, acc, seq![entry(p, "_DEFAULT_BRANCH"@, (*item).default_branch@)]);
        acc = acc + seq![entry(p, "_DEFAULT_BRANCH"@, (*item).default_branch@)];
    }
    cmd.put(prefix, "_ARCHIVED", bool_to_text(item.is_archived));
    proof {
        lemma_with_envs_twice(start, acc, seq![entry(p, "_ARCHIVED"@, bool_text((*item).is_archived))]);
        acc = acc + seq![entry(p, "_ARCHIVED"@, bool_text((*item).is_archived))];
    }
    cmd.put(prefix, "_CREATED_AT", item.created_at.clone());
    proof {
        lemma_with_envs_twice(start, acc, seq![entry(p, "_CREATED_AT"@, (*item).created_at@)]);
        acc = acc + seq![entry(p, "_CREATED_AT"@, (*item).created_at@)];
    }
    cmd.put(prefix, "_UPDATED_AT", item.updated_at.clone());
    proof {
        lemma_with_envs_twice(start, acc, seq![entry(p, "_UPDATED_AT"@, (*item).updated_at@)]);
        acc = acc + seq![entry(p, "_UPDATED_AT"@, (*item).updated_at@)];
    }
    if let Some(v) = &item.permissions {
        add_permissions_env(cmd, join(prefix, "_PERMISSIONS").as_str(), v);
    } else {
        proof {
            lemma_with_no_envs(cmd@);
        }
    }
    proof {
        lemma_with_envs_twice(start, acc, (match &(*item).permissions { Some(v) => permissions_env(p + "_PERMISSIONS"@, *v), None => seq![] }));
        acc = acc + (match &(*item).permissions { Some(v) => permissions_env(p + "_PERMISSIONS"@, *v), None => seq![] });
    }
    cmd.put(prefix, "_HAS_ISSUES", bool_to_text(item.has_issues));
    proof {
        lemma_with_envs_twice(start, acc, seq![entry(p, "_HAS_ISSUES"@, bool_text((*item).has_issues))]);
        acc = acc + seq![entry(p, "_HAS_ISSUES"@, bool_text((*item).has_issues))];
    }
    if let Some(v) = &item.internal_tracker {
        add_internal_tracker_env(cmd, join(prefix, "_INTERNAL_TRACKER").as_str(), v);
    } else {
        proof {
            lemma_with_no_envs(cmd@);
        }
    }
    proof {
        lemma_with_envs_twice(start, acc, (match &(*item).internal_tracker { Some(v) => internal_tracker_env(p + "_INTERNAL_TRACKER"@, *v), None => seq![] }));
    }
}

/// The assignments for the fields of a repository from EXTERNAL_TRACKER to ALLOW_SQUASH_MERGE.
pub open spec fn repository_env_part4(prefix: Seq<char>, item: Repository) -> Seq<EnvEntry>
{
    (match &item.external_tracker { Some(v) => external_tracker_env(prefix + "_EXTERNAL_TRACKER"@, *v), None => seq![] })
    + seq![entry(prefix, "_HAS_WIKI"@, bool_text(item.has_wiki))]
    + (match &item.external_wiki { Some(v) => external_wiki_env(prefix + "_EXTERNAL_WIKI"@, *v), None => seq![] })
    + seq![entry(prefix, "_HAS_PULL_REQUESTS"@, bool_text(item.has_pull_requests))]
    + seq![entry(prefix, "_HAS_PROJECTS"@, bool_text(item.has_projects))]
    + seq![entry(prefix, "_IGNORE_WHITESPACE_CONFLICTS"@, bool_text(item.is_whitespace_conflict_ignored))]
    + seq![entry(prefix, "_ALLOW_MERGE_COMMITS"@, bool_text(item.allow_merge_commits))]
    + seq![entry(prefix, "_ALLOW_REBASE"@, bool_text(item.allow_rebase))]
    + seq![entry(prefix, "_ALLOW_REBASE_EXPLICIT"@, bool_text(item.allow_rebase_explicit))]
    + seq![entry(prefix, "_ALLOW_SQUASH_MERGE"@, bool_text(item.allow_squash_merge))]
}

/// Makes the assignments for the fields of a repository from EXTERNAL_TRACKER to ALLOW_SQUASH_MERGE.
pub fn add_repository_env_part4(cmd: &mut CommandSpec, prefix: &str, item: &Repository)
    ensures
        final(cmd)@ == old(cmd)@.with_envs(repository_env_part4(prefix@, *item)),
{
    let ghost start = cmd@;
    let ghost p = prefix@;
    if let Some(v) = &item.external_tracker {
        add_external_tracker_env(cmd, join(prefix, "_EXTERNAL_TRACKER").as_str(), v);
    } else {
        proof {
            lemma_with_no_envs(cmd@);
        }
    }
    let ghost mut acc: Seq<EnvEntry> = (match &(*item).external_tracker { Some(v) => external_tracker_env(p + "_EXTERNAL_TRACKER"@, *v), None => seq![] });
    cmd.put(prefix, "_HAS_WIKI", bool_to_text(item.has_wiki));
    proof {
        lemma_with_envs_twice(start, acc, seq![entry(p, "_HAS_WIKI"@, bool_text((*item).has_wiki))]);
        acc = acc + seq![entry(p, "_HAS_WIKI"@, bool_text((*item).has_wiki))];
    }
    if let Some(v) = &item.external_wiki {
        add_external_wiki_env(cmd, join(prefix, "_EXTERNAL_WIKI").as_str(), v);
    } else {
        proof {
            lemma_with_no_envs(cmd@);
        }
    }
    proof {
        lemma_with_envs_twice(start, acc, (match &(*item).external_wiki { Some(v) => external_wiki_env(p + "_EXTERNAL_WIKI"@, *v), None => seq![] }));
        acc = acc + (match &(*item).external_wiki { Some(v) => external_wiki_env(p + "_EXTERNAL_WIKI"@, *v), None => seq![] });
    }
    cmd.put(prefix, "_HAS_PULL_REQUESTS", bool_to_text(item.has_pull_requests));
    proof {
        lemma_with_envs_twice(start, acc, seq![entry(p, "_HAS_PULL_REQUESTS"@, bool_text((*item).has_pull_requests))]);
        acc = acc + seq![entry(p, "_HAS_PULL_REQUESTS"@, bool_text((*item).has_pull_requests))];
    }
    cmd.put(prefix, "_HAS_PROJECTS", bool_to_text(item.has_projects));
    proof {
        lemma_with_envs_twice(start, acc, seq![entry(p, "_HAS_PROJECTS"@, bool_text((*item).has_projects))]);
        acc = acc + seq![entry(p, "_HAS_PROJECTS"@, bool_text((*item).has_projects))];
    }
    cmd.put(prefix, "_IGNORE_WHITESPACE_CONFLICTS", bool_to_text(item.is_whitespace_conflict_ignored));
    proof {
        lemma_with_envs_twice(start, acc, seq![entry(p, "_IGNORE_WHITESPACE_CONFLICTS"@, bool_text((*item).is_whitespace_conflict_ignored))]);
        acc = acc + seq![entry(p, "_IGNORE_WHITESPACE_CONFLICTS"@, bool_text((*item).is_whitespace_conflict_ignored))];
    }
    cmd.put(prefix, "_ALLOW_MERGE_COMMITS", bool_to_text(item.allow_merge_commits));
    proof {
        lemma_with_envs_twice(start, acc, seq![entry(p, "_ALLOW_MERGE_COMMITS"@, bool_text((*item).allow_merge_commits))]);
        acc = acc + seq![entry(p, "_ALLOW_MERGE_COMMITS"@, bool_text((*item).allow_merge_commits))];
    }
    cmd.put(prefix, "_ALLOW_REBASE", bool_to_text(item.allow_rebase));
    proof {
        lemma_with_envs_twice(start, acc, seq![entry(p, "_ALLOW_REBASE"@, bool_text((*item).allow_rebase))]);
        acc = acc + seq![entry(p, "_ALLOW_REBASE"@, bool_text((*item).allow_rebase))];
    }
    cmd.put(prefix, "_ALLOW_REBASE_EXPLICIT", bool_to_text(item.allow_rebase_explicit));
    proof {
        lemma_with_envs_twice(start, acc, seq![entry(p, "_ALLOW_REBASE_EXPLICIT"@, bool_text((*item).allow_rebase_explicit))]);
        acc = acc + seq![entry(p, "_ALLOW_REBASE_EXPLICIT"@, bool_text((*item).allow_rebase_explicit))];
    }
    cmd.put(prefix, "_ALLOW_SQUASH_MERGE", bool_to_text(item.allow_squash_merge));
    proof {
        lemma_with_envs_twice(start, acc, seq![entry(p, "_ALLOW_SQUASH_MERGE"@, bool_text((*item).allow_squash_merge))]);
    }
}

/// The assignments for the fields of a repository from AVATAR_URL to INTERNAL.
pub open spec fn repository_env_part5(prefix: Seq<char>, item: Repository) -> Seq<EnvEntry>
{
    seq![entry(prefix, "_AVATAR_URL"@, item.avatar_url@)]
    + seq![entry(prefix, "_INTERNAL"@, bool_text(item.is_internal))]
}

/// Makes the assignments for the fields of a repository from AVATAR_URL to INTERNAL.
pub fn add_repository_env_part5(cmd: &mut CommandSpec, prefix: &str, item: &Repository)
    ensures
        final(cmd)@ == old(cmd)@.with_envs(repository_env_part5(prefix@, *item)),
{
    let ghost start = cmd@;
    let ghost p = prefix@;
    cmd.put(prefix, "_AVATAR_URL", item.avatar_url.clone());
    let ghost acc: Seq<EnvEntry> = seq![entry(p, "_AVATAR_URL"@, (*item).avatar_url@)];
    cmd.put(prefix, "_INTERNAL", bool_to_text(item.is_internal));
    proof {
        lemma_with_envs_twice(start, acc, seq![entry(p, "_INTERNAL"@, bool_text((*item).is_internal))]);
    }
}

/// The assignments that describe a repository, each name starting with `prefix`.
pub open spec fn repository_env(prefix: Seq<char>, item: Repository) -> Seq<EnvEntry>
    decreases item, 1nat,
{
    repository_env_part1(prefix, item)
    + repository_env_part2(prefix, item)
    + repository_env_part3(prefix, item)
    + repository_env_part4(prefix, item)
    + repository_env_part5(prefix, item)
}

/// Makes the assignments that describe a repository, each name starting with `prefix`.
pub fn add_repository_env(cmd: &mut CommandSpec, prefix: &str, item: &Repository)
    ensures
        final(cmd)@ == old(cmd)@.with_envs(repository_env(prefix@, *item)),
    decreases item, 1nat,
{
    let ghost start = cmd@;
    add_repository_env_part1(cmd, prefix, item);
    add_repository_env_part2(cmd, prefix, item);
    proof {
        lemma_with_envs_twice(start, repository_env_part1(prefix@, *item), repository_env_part2(prefix@, *item));
    }
    add_repository_env_part3(cmd, prefix, item);
    proof {
        lemma_with_envs_twice(start, repository_env_part1(prefix@, *item) + repository_env_part2(prefix@, *item), repository_env_part3(prefix@, *item));
    }
    add_repository_env_part4(cmd, prefix, item);
    proof {
        lemma_with_envs_twice(start, repository_env_part1(prefix@, *item) + repository_env_part2(prefix@, *item) + repository_env_part3(prefix@, *item), repository_env_part4(prefix@, *item));
    }
    add_repository_env_part5(cmd, prefix, item);
    proof {
        lemma_with_envs_twice(start, repository_env_part1(prefix@, *item) + repository_env_part2(prefix@, *item) + repository_env_part3(prefix@, *item) + repository_env_part4(prefix@, *item), repository_env_part5(prefix@, *item));
    }
}

/// The assignments that describe the pull request side of an issue, each name starting with `prefix`.
pub open spec fn pull_request_meta_env(prefix: Seq<char>, item: PullRequestMeta) -> Seq<EnvEntry>
{
    seq![entry(prefix, "_MERGED"@, bool_text(item.is_merged))]
    + seq![entry(prefix, "_MERGED_AT"@, item.time_merged@)]
}

/// Makes the assignments that describe the pull request side of an issue, each name starting with `prefix`.
pub fn add_pull_request_meta_env(cmd: &mut CommandSpec, prefix: &str, item: &PullRequestMeta)
    ensures
        final(cmd)@ == old(cmd)@.with_envs(pull_request_meta_env(prefix@, *item)),
{
    let ghost start = cmd@;
    let ghost p = prefix@;
    cmd.put(prefix, "_MERGED", bool_to_text(item.is_merged));
    let ghost acc: Seq<EnvEntry> = seq![entry(p, "_MERGED"@, bool_text((*item).is_merged))];
    cmd.put(prefix, "_MERGED_AT", item.time_merged.clone());
    proof {
        lemma_with_envs_twice(start, acc, seq![entry(p, "_MERGED_AT"@, (*item).time_merged@)]);
    }
}

/// The assignments that describe the repository an issue belongs to, each name starting with `prefix`.
pub open spec fn repository_meta_env(prefix: Seq<char>, item: RepositoryMeta) -> Seq<EnvEntry>
{
    seq![entry(prefix, "_ID"@, signed_decimal(item.id as int))]
    + seq![entry(prefix, "_NAME"@, item.name@)]
    + seq![entry(prefix, "_OWNER"@, item.owner@)]
    + seq![entry(prefix, "_FULL_NAME"@, item.full_name@)]
}

/// Makes the assignments that describe the repository an issue belongs to, each name starting with `prefix`.
pub fn add_repository_meta_env(cmd: &mut CommandSpec, prefix: &str, item: &RepositoryMeta)
    ensures
        final(cmd)@ == old(cmd)@.with_envs(repository_meta_env(prefix@, *item)),
{
    let ghost start = cmd@;
    let ghost p = prefix@;
    cmd.put(prefix, "_ID", i64_text(item.id as i64));
    let ghost mut acc: Seq<EnvEntry> = seq![entry(p, "_ID"@, signed_decimal((*item).id as int))];
    cmd.put(prefix, "_NAME", item.name.clone());
    proof {
        lemma_with_envs_twice(start, acc, seq![entry(p, "_NAME"@, (*item).name@)]);
        acc = acc + seq![entry(p, "_NAME"@, (*item).name@)];
    }
    cmd.put(prefix, "_OWNER", item.owner.clone());
    proof {
        lemma_with_envs_twice(start, acc, seq![entry(p, "_OWNER"@, (*item).owner@)]);
        acc = acc + seq![entry(p, "_OWNER"@, (*item).owner@)];
    }
    cmd.put(prefix, "_FULL_NAME", item.full_name.clone());
    proof {
        lemma_with_envs_twice(start, acc, seq![entry(p, "_FULL_NAME"@, (*item).full_name@)]);
    }
}

/// The assignments for the fields of an issue from ID to LABELS.
pub open spec fn issue_env_part1(prefix: Seq<char>, item: Issue) -> Seq<EnvEntry>
{
    seq![entry(prefix, "_ID"@, signed_decimal(item.id as int))]
    + seq![entry(prefix, "_URL"@, item.api_url@)]
    + seq![entry(prefix, "_HTML_URL"@, item.html_url@)]
    + seq![entry(prefix, "_NUMBER"@, signed_decimal(item.number as int))]
    + user_env(prefix + "_USER"@, item.user)
    + seq![entry(prefix, "_ORIGINAL_AUTHOR"@, item.original_author@)]
    + seq![entry(prefix, "_ORIGINAL_AUTHOR_ID"@, signed_decimal(item.original_author_id as int))]
    + seq![entry(prefix, "_TITLE"@, item.title@)]
    + seq![entry(prefix, "_BODY"@, item.body@)]
    + labels_env(prefix + "_LABELS_"@, item.labels@)
}

/// Makes the assignments for the fields of an issue from ID to LABELS.
pub fn add_issue_env_part1(cmd: &mut CommandSpec, prefix: &str, item: &Issue)
    ensures
        final(cmd)@ == old(cmd)@.with_envs(issue_env_part1(prefix@, *item)),
{
    let ghost start = cmd@;
    let ghost p = prefix@;
    cmd.put(prefix, "_ID", i64_text(item.id as i64));
    let ghost mut acc: Seq<EnvEntry> = seq![entry(p, "_ID"@, signed_decimal((*item).id as int))];
    cmd.put(prefix, "_URL", item.api_url.clone());
    proof {
        lemma_with_envs_twice(start, acc, seq![entry(p, "_URL"@, (*item).api_url@)]);
        acc = acc + seq![entry(p, "_URL"@, (*item).api_url@)];
    }
    cmd.put(prefix, "_HTML_URL", item.html_url.clone());
    proof {
        lemma_with_envs_twice(start, acc, seq![entry(p, "_HTML_URL"@, (*item).html_url@)]);
        acc = acc + seq![entry(p, "_HTML_URL"@, (*item).html_url@)];
    }
    cmd.put(prefix, "_NUMBER", i64_text(item.number as i64));
    proof {
        lemma_with_envs_twice(start, acc, seq![entry(p, "_NUMBER"@, signed_decimal((*item).number as int))]);
        acc = acc + seq![entry(p, "_NUMBER"@, signed_decimal((*item).number as int))];
    }
    add_user_env(cmd, join(prefix, "_USER").as_str(), &item.user);
    proof {
        lemma_with_envs_twice(start, acc, user_env(p + "_USER"@, (*item).user));
        acc = acc + user_env(p + "_USER"@, (*item).user);
    }
    cmd.put(prefix, "_ORIGINAL_AUTHOR", item.original_author.clone());
    proof {
        lemma_with_envs_twice(start, acc, seq![entry(p, "_ORIGINAL_AUTHOR"@, (*item).original_author@)]);
        acc = acc + seq![entry(p, "_ORIGINAL_AUTHOR"@, (*item).original_author@)];
    }
    cmd.put(prefix, "_ORIGINAL_AUTHOR_ID", i64_text(item.original_author_id as i64));
    proof {
        lemma_with_envs_twice(start, acc, seq![entry(p, "_ORIGINAL_AUTHOR_ID"@, signed_decimal((*item).original_author_id as int))]);
        acc = acc + seq![entry(p, "_ORIGINAL_AUTHOR_ID"@, signed_decimal((*item).original_author_id as int))];
    }
    cmd.put(prefix, "_TITLE", item.title.clone());
    proof {
        lemma_with_envs_twice(start, acc, seq![entry(p, "_TITLE"@, (*item).title@)]);
        acc = acc + seq![entry(p, "_TITLE"@, (*item).title@)];
    }
    cmd.put(prefix, "_BODY", item.body.clone());
    proof {
        lemma_with_envs_twice(start, acc, seq![entry(p, "_BODY"@, (*item).body@)]);
        acc = acc + seq![entry(p, "_BODY"@, (*item).body@)];
    }
    add_labels_env(cmd, join(prefix, "_LABELS_").as_str(), &item.labels);
    proof {
        lemma_with_envs_twice(start, acc, labels_env(p + "_LABELS_"@, (*item).labels@));
    }
}

/// The assignments for the fields of an issue from MILESTONE to DUE_DATE.
pub open spec fn issue_env_part2(prefix: Seq<char>, item: Issue) -> Seq<EnvEntry>
{
    (match &item.milestone { Some(v) => milestone_env(prefix + "_MILESTONE"@, *v), None => seq![] })
    + (match &item.assignee { Some(v) => user_env(prefix + "_ASSIGNEE"@, *v), None => seq![] })
    + (match &item.assignees { Some(v) => users_env(prefix + "_ASSIGNEES_"@, v@), None => seq![] })
    + seq![entry(prefix, "_STATE"@, item.state@)]
    + seq![entry(prefix, "_IS_LOCKED"@, bool_text(item.is_locked))]
    + seq![entry(prefix, "_COMMENTS"@, signed_decimal(item.comment_count as int))]
    + seq![entry(prefix, "_CREATED_AT"@, item.created_at@)]
    + seq![entry(prefix, "_UPDATED_AT"@, item.updated_at@)]
    + (match &item.closed_at { Some(v) => seq![entry(prefix, "_CLOSED_AT"@, v@)], None => seq![] })
    + (match &item.due_date { Some(v) => seq![entry(prefix, "_DUE_DATE"@, v@)], None => seq![] })
}

/// Makes the assignments for the fields of an issue from MILESTONE to DUE_DATE.
pub fn add_issue_env_part2(cmd: &mut CommandSpec, prefix: &str, item: &Issue)
    ensures
        final(cmd)@ == old(cmd)@.with_envs(issue_env_part2(prefix@, *item)),
{
    let ghost start = cmd@;
    let ghost p = prefix@;
    if let Some(v) = &item.milestone {
        add_milestone_env(cmd, join(prefix, "_MILESTONE").as_str(), v);
    } else {
        proof {
            lemma_with_no_envs(cmd@);
        }
    }
    let ghost mut acc: Seq<EnvEntry> = (match &(*item).milestone { Some(v) => milestone_env(p + "_MILESTONE"@, *v), None => seq![] });
    if let Some(v) = &item.assignee {
        add_user_env(cmd, join(prefix, "_ASSIGNEE").as_str(), v);
    } else {
        proof {
            lemma_with_no_envs(cmd@);
        }
    }
    proof {
        lemma_with_envs_twice(start, acc, (match &(*item).assignee { Some(v) => user_env(p + "_ASSIGNEE"@, *v), None => seq![] }));
        acc = acc + (match &(*item).assignee { Some(v) => user_env(p + "_ASSIGNEE"@, *v), None => seq![] });
    }
    if let Some(v) = &item.assignees {
        add_users_env(cmd, join(prefix, "_ASSIGNEES_").as_str(), v);
    } else {
        proof {
            lemma_with_no_envs(cmd@);
        }
    }
    proof {
        lemma_with_envs_twice(start, acc, (match &(*item).assignees { Some(v) => users_env(p + "_ASSIGNEES_"@, v@), None => seq![] }));
        acc = acc + (match &(*item).assignees { Some(v) => users_env(p + "_ASSIGNEES_"@, v@), None => seq![] });
    }
    cmd.put(prefix, "_STATE", item.state.clone());
    proof {
        lemma_with_envs_twice(start, acc, seq![entry(p, "_STATE"@, (*item).state@)]);
        acc = acc + seq![entry(p, "_STATE"@, (*item).state@)];
    }
    cmd.put(prefix, "_IS_LOCKED", bool_to_text(item.is_locked));
    proof {
        lemma_with_envs_twice(start, acc, seq![entry(p, "_IS_LOCKED"@, bool_text((*item).is_locked))]);
        acc = acc + seq![entry(p, "_IS_LOCKED"@, bool_text((*item).is_locked))];
    }
    cmd.put(prefix, "_COMMENTS", i64_text(item.comment_count as i64));
    proof {
        lemma_with_envs_twice(start, acc, seq![entry(p, "_COMMENTS"@, signed_decimal((*item).comment_count as int))]);
        acc = acc + seq![entry(p, "_COMMENTS"@, signed_decimal((*item).comment_count as int))];
    }
    cmd.put(prefix, "_CREATED_AT", item.created_at.clone());
    proof {
        lemma_with_envs_twice(start, acc, seq![entry(p, "_CREATED_AT"@, (*item).created_at@)]);
        acc = acc + seq![entry(p, "_CREATED_AT"@, (*item).created_at@)];
    }
    cmd.put(prefix, "_UPDATED_AT", item.updated_at.clone());
    proof {
        lemma_with_envs_twice(start, acc, seq![entry(p, "_UPDATED_AT"@, (*item).updated_at@)]);
        acc = acc + seq![entry(p, "_UPDATED_AT"@, (*item).updated_at@)];
    }
    if let Some(v) = &item.closed_at {
        cmd.put(prefix, "_CLOSED_AT", v.clone());
    } else {
        proof {
            lemma_with_no_envs(cmd@);
        }
    }
    proof {
        lemma_with_envs_twice(start, acc, (match &(*item).closed_at { Some(v) => seq![entry(p, "_CLOSED_AT"@, v@)], None => seq![] }));
        acc = acc + (match &(*item).closed_at { Some(v) => seq![entry(p, "_CLOSED_AT"@, v@)], None => seq![] });
    }
    if let Some(v) = &item.due_date {
        cmd.put(prefix, "_DUE_DATE", v.clone());
    } else {
        proof {
            lemma_with_no_envs(cmd@);
        }
    }
    proof {
        lemma_with_envs_twice(start, acc, (match &(*item).due_date { Some(v) => seq![entry(p, "_DUE_DATE"@, v@)], None => seq![] }));
    }
}

/// The assignments for the fields of an issue from PULL_REQUEST to REPOSITORY.
pub open spec fn issue_env_part3(prefix: Seq<char>, item: Issue) -> Seq<EnvEntry>
{
    (match &item.pull_request_meta { Some(v) => pull_request_meta_env(prefix + "_PULL_REQUEST"@, *v), None => seq![] })
    + (match &item.repository_meta { Some(v) => repository_meta_env(prefix + "_REPOSITORY"@, *v), None => seq![] })
}

/// Makes the assignments for the fields of an issue from PULL_REQUEST to REPOSITORY.
pub fn add_issue_env_part3(cmd: &mut CommandSpec, prefix: &str, item: &Issue)
    ensures
        final(cmd)@ == old(cmd)@.with_envs(issue_env_part3(prefix@, *item)),
{
    let ghost start = cmd@;
    let ghost p = prefix@;
    if let Some(v) = &item.pull_request_meta {
        add_pull_request_meta_env(cmd, join(prefix, "_PULL_REQUEST").as_str(), v);
    } else {
        proof {
            lemma_with_no_envs(cmd@);
        }
    }
    let ghost acc: Seq<EnvEntry> = (match &(*item).pull_request_meta { Some(v) => pull_request_meta_env(p + "_PULL_REQUEST"@, *v), None => seq![] });
    if let Some(v) = &item.repository_meta {
        add_repository_meta_env(cmd, join(prefix, "_REPOSITORY").as_str(), v);
    } else {
        proof {
            lemma_with_no_envs(cmd@);
        }
    }
    proof {
        lemma_with_envs_twice(start, acc, (match &(*item).repository_meta { Some(v) => repository_meta_env(p + "_REPOSITORY"@, *v), None => seq![] }));
    }
}

/// The assignments that describe an issue, each name starting with `prefix`.
pub open spec fn issue_env(prefix: Seq<char>, item: Issue) -> Seq<EnvEntry>
{
    issue_env_part1(prefix, item)
    + issue_env_part2(prefix, item)
    + issue_env_part3(prefix, item)
}

/// Makes the assignments that describe an issue, each name starting with `prefix`.
pub fn add_issue_env(cmd: &mut CommandSpec, prefix: &str, item: &Issue)
    ensures
        final(cmd)@ == old(cmd)@.with_envs(issue_env(prefix@, *item)),
{
    let ghost start = cmd@;
    add_issue_env_part1(cmd, prefix, item);
    add_issue_env_part2(cmd, prefix, item);
    proof {
        lemma_with_envs_twice(start, issue_env_part1(prefix@, *item), issue_env_part2(prefix@, *item));
    }
    add_issue_env_part3(cmd, prefix, item);
    proof {
        lemma_with_envs_twice(start, issue_env_part1(prefix@, *item) + issue_env_part2(prefix@, *item), issue_env_part3(prefix@, *item));
    }
}

/// The assignments that describe a comment, each name starting with `prefix`.
pub open spec fn comment_env(prefix: Seq<char>, item: Comment) -> Seq<EnvEntry>
{
    seq![entry(prefix, "_ID"@, signed_decimal(item.id as int))]
    + seq![entry(prefix, "_HTML_URL"@, item.html_url@)]
    + seq![entry(prefix, "_PULL_REQUEST_URL"@, item.pull_request_url@)]
    + seq![entry(prefix, "_ISSUE_URL"@, item.issue_url@)]
    + user_env(prefix + "_USER"@, item.user)
    + seq![entry(prefix, "_ORIGINAL_AUTHOR"@, item.original_author@)]
    + seq![entry(prefix, "_ORIGINAL_AUTHOR_ID"@, signed_decimal(item.original_author_id as int))]
    + seq![entry(prefix, "_BODY"@, item.comment_text@)]
    + seq![entry(prefix, "_CREATED_AT"@, item.created_at@)]
    + seq![entry(prefix, "_UPDATED_AT"@, item.updated_at@)]
}

/// Makes the assignments that describe a comment, each name starting with `prefix`.
pub fn add_comment_env(cmd: &mut CommandSpec, prefix: &str, item: &Comment)
    ensures
        final(cmd)@ == old(cmd)@.with_envs(comment_env(prefix@, *item)),
{
    let ghost start = cmd@;
    let ghost p = prefix@;
    cmd.put(prefix, "_ID", i64_text(item.id as i64));
    let ghost mut acc: Seq<EnvEntry> = seq![entry(p, "_ID"@, signed_decimal((*item).id as int))];
    cmd.put(prefix, "_HTML_URL", item.html_url.clone());
    proof {
        lemma_with_envs_twice(start, acc, seq![entry(p, "_HTML_URL"@, (*item).html_url@)]);
        acc = acc + seq![entry(p, "_HTML_URL"@, (*item).html_url@)];
    }
    cmd.put(prefix, "_PULL_REQUEST_URL", item.pull_request_url.clone());
    proof {
        lemma_with_envs_twice(start, acc, seq![entry(p, "_PULL_REQUEST_URL"@, (*item).pull_request_url@)]);
        acc = acc + seq![entry(p, "_PULL_REQUEST_URL"@, (*item).pull_request_url@)];
    }
    cmd.put(prefix, "_ISSUE_URL", item.issue_url.clone());
    proof {
        lemma_with_envs_twice(start, acc, seq![entry(p, "_ISSUE_URL"@, (*item).issue_url@)]);
        acc = acc + seq![entry(p, "_ISSUE_URL"@, (*item).issue_url@)];
    }
    add_user_env(cmd, join(prefix, "_USER").as_str(), &item.user);
    proof {
        lemma_with_envs_twice(start, acc, user_env(p + "_USER"@, (*item).user));
        acc = acc + user_env(p + "_USER"@, (*item).user);
    }
    cmd.put(prefix, "_ORIGINAL_AUTHOR", item.original_author.clone());
    proof {
        lemma_with_envs_twice(start, acc, seq![entry(p, "_ORIGINAL_AUTHOR"@, (*item).original_author@)]);
        acc = acc + seq![entry(p, "_ORIGINAL_AUTHOR"@, (*item).original_author@)];
    }
    cmd.put(prefix, "_ORIGINAL_AUTHOR_ID", i64_text(item.original_author_id as i64));
    proof {
        lemma_with_envs_twice(start, acc, seq![entry(p, "_ORIGINAL_AUTHOR_ID"@, signed_decimal((*item).original_author_id as int))]);
        acc = acc + seq![entry(p, "_ORIGINAL_AUTHOR_ID"@, signed_decimal((*item).original_author_id as int))];
    }
    cmd.put(prefix, "_BODY", item.comment_text.clone());
    proof {
        lemma_with_envs_twice(start, acc, seq![entry(p, "_BODY"@, (*item).comment_text@)]);
        acc = acc + seq![entry(p, "_BODY"@, (*item).comment_text@)];
    }
    cmd.put(prefix, "_CREATED_AT", item.created_at.clone());
    proof {
        lemma_with_envs_twice(start, acc, seq![entry(p, "_CREATED_AT"@, (*item).created_at@)]);
        acc = acc + seq![entry(p, "_CREATED_AT"@, (*item).created_at@)];
    }
    cmd.put(prefix, "_UPDATED_AT", item.updated_at.clone());
    proof {
        lemma_with_envs_twice(start, acc, seq![entry(p, "_UPDATED_AT"@, (*item).updated_at@)]);
    }
}

/// The assignments that describe an earlier value, each name starting with `prefix`.
pub open spec fn earlier_value_env(prefix: Seq<char>, item: ChangesFromPayload) -> Seq<EnvEntry>
{
    seq![entry(prefix, "_FROM"@, item.from@)]
}

/// Makes the assignments that describe an earlier value, each name starting with `prefix`.
pub fn add_earlier_value_env(cmd: &mut CommandSpec, prefix: &str, item: &ChangesFromPayload)
    ensures
        final(cmd)@ == old(cmd)@.with_envs(earlier_value_env(prefix@, *item)),
{
    cmd.put(prefix, "_FROM", item.from.clone());
}

/// The assignments that describe what an edit changed, each name starting with `prefix`.
pub open spec fn changes_env(prefix: Seq<char>, item: Changes) -> Seq<EnvEntry>
{
    (match &item.title { Some(v) => earlier_value_env(prefix + "_TITLE"@, *v), None => seq![] })
    + (match &item.body { Some(v) => earlier_value_env(prefix + "_BODY"@, *v), None => seq![] })
    + (match &item.ref_path { Some(v) => earlier_value_env(prefix + "_REF"@, *v), None => seq![] })
}

/// Makes the assignments that describe what an edit changed, each name starting with `prefix`.
pub fn add_changes_env(cmd: &mut CommandSpec, prefix: &str, item: &Changes)
    ensures
        final(cmd)@ == old(cmd)@.with_envs(changes_env(prefix@, *item)),
{
    let ghost start = cmd@;
    let ghost p = prefix@;
    if let Some(v) = &item.title {
        add_earlier_value_env(cmd, join(prefix, "_TITLE").as_str(), v);
    } else {
        proof {
            lemma_with_no_envs(cmd@);
        }
    }
    let ghost mut acc: Seq<EnvEntry> = (match &(*item).title { Some(v) => earlier_value_env(p + "_TITLE"@, *v), None => seq![] });
    if let Some(v) = &item.body {
        add_earlier_value_env(cmd, join(prefix, "_BODY").as_str(), v);
    } else {
        proof {
            lemma_with_no_envs(cmd@);
        }
    }
    proof {
        lemma_with_envs_twice(start, acc, (match &(*item).body { Some(v) => earlier_value_env(p + "_BODY"@, *v), None => seq![] }));
        acc = acc + (match &(*item).body { Some(v) => earlier_value_env(p + "_BODY"@, *v), None => seq![] });
    }
    if let Some(v) = &item.ref_path {
        add_earlier_value_env(cmd, join(prefix, "_REF").as_str(), v);
    } else {
        proof {
            lemma_with_no_envs(cmd@);
        }
    }
    proof {
        lemma_with_envs_twice(start, acc, (match &(*item).ref_path { Some(v) => earlier_value_env(p + "_REF"@, *v), None => seq![] }));
    }
}

/// The assignments that describe a file attached to a release, each name starting with `prefix`.
pub open spec fn attachment_env(prefix: Seq<char>, item: Attachment) -> Seq<EnvEntry>
{
    seq![entry(prefix, "_ID"@, signed_decimal(item.id as int))]
    + seq![entry(prefix, "_NAME"@, item.name@)]
    + seq![entry(prefix, "_SIZE"@, signed_decimal(item.size as int))]
    + seq![entry(prefix, "_DOWNLOAD_COUNT"@, signed_decimal(item.download_count as int))]
    + seq![entry(prefix, "_CREATED_AT"@, item.created_at@)]
    + seq![entry(prefix, "_UUID"@, item.uuid@)]
    + seq![entry(prefix, "_BROWSER_DOWNLOAD_URL"@, item.browser_download_url@)]
}

/// Makes the assignments that describe a file attached to a release, each name starting with `prefix`.
pub fn add_attachment_env(cmd: &mut CommandSpec, prefix: &str, item: &Attachment)
    ensures
        final(cmd)@ == old(cmd)@.with_envs(attachment_env(prefix@, *item)),
{
    let ghost start = cmd@;
    let ghost p = prefix@;
    cmd.put(prefix, "_ID", i64_text(item.id as i64));
    let ghost mut acc: Seq<EnvEntry> = seq![entry(p, "_ID"@, signed_decimal((*item).id as int))];
    cmd.put(prefix, "_NAME", item.name.clone());
    proof {
        lemma_with_envs_twice(start, acc, seq![entry(p, "_NAME"@, (*item).name@)]);
        acc = acc + seq![entry(p, "_NAME"@, (*item).name@)];
    }
    cmd.put(prefix, "_SIZE", i64_text(item.size as i64));
    proof {
        lemma_with_envs_twice(start, acc, seq![entry(p, "_SIZE"@, signed_decimal((*item).size as int))]);
        acc = acc + seq![entry(p, "_SIZE"@, signed_decimal((*item).size as int))];
    }
    cmd.put(prefix, "_DOWNLOAD_COUNT", i64_text(item.download_count as i64));
    proof {
        lemma_with_envs_twice(start, acc, seq![entry(p, "_DOWNLOAD_COUNT"@, signed_decimal((*item).download_count as int))]);
        acc = acc + seq![entry(p, "_DOWNLOAD_COUNT"@, signed_decimal((*item).download_count as int))];
    }
    cmd.put(prefix, "_CREATED_AT", item.created_at.clone());
    proof {
        lemma_with_envs_twice(start, acc, seq![entry(p, "_CREATED_AT"@, (*item).created_at@)]);
        acc = acc + seq![entry(p, "_CREATED_AT"@, (*item).created_at@)];
    }
    cmd.put(prefix, "_UUID", item.uuid.clone());
    proof {
        lemma_with_envs_twice(start, acc, seq![entry(p, "_UUID"@, (*item).uuid@)]);
        acc = acc + seq![entry(p, "_UUID"@, (*item).uuid@)];
    }
    cmd.put(prefix, "_BROWSER_DOWNLOAD_URL", item.browser_download_url.clone());
    proof {
        lemma_with_envs_twice(start, acc, seq![entry(p, "_BROWSER_DOWNLOAD_URL"@, (*item).browser_download_url@)]);
    }
}

/// The assignments for the fields of a release from ID to DRAFT.
pub open spec fn release_env_part1(prefix: Seq<char>, item: Release) -> Seq<EnvEntry>
{
    seq![entry(prefix, "_ID"@, signed_decimal(item.id as int))]
    + seq![entry(prefix, "_TAG_NAME"@, item.tag_name@)]
    + seq![entry(prefix, "_TARGET_COMMITISH"@, item.target_commitish@)]
    + seq![entry(prefix, "_NAME"@, item.name@)]
    + seq![entry(prefix, "_BODY"@, item.body@)]
    + seq![entry(prefix, "_URL"@, item.api_url@)]
    + seq![entry(prefix, "_HTML_URL"@, item.html_url@)]
    + seq![entry(prefix, "_TARBALL_URL"@, item.tarball_url@)]
    + seq![entry(prefix, "_ZIPBALL_URL"@, item.zipball_url@)]
    + seq![entry(prefix, "_DRAFT"@, bool_text(item.is_draft))]
}

/// Makes the assignments for the fields of a release from ID to DRAFT.
pub fn add_release_env_part1(cmd: &mut CommandSpec, prefix: &str, item: &Release)
    ensures
        final(cmd)@ == old(cmd)@.with_envs(release_env_part1(prefix@, *item)),
{
    let ghost start = cmd@;
    let ghost p = prefix@;
    cmd.put(prefix, "_ID", i64_text(item.id as i64));
    let ghost mut acc: Seq<EnvEntry> = seq![entry(p, "_ID"@, signed_decimal((*item).id as int))];
    cmd.put(prefix, "_TAG_NAME", item.tag_name.clone());
    proof {
        lemma_with_envs_twice(start, acc, seq![entry(p, "_TAG_NAME"@, (*item).tag_name@)]);
        acc = acc + seq![entry(p, "_TAG_NAME"@, (*item).tag_name@)];
    }
    cmd.put(prefix, "_TARGET_COMMITISH", item.target_commitish.clone());
    proof {
        lemma_with_envs_twice(start, acc, seq![entry(p, "_TARGET_COMMITISH"@, (*item).target_commitish@)]);
        acc = acc + seq![entry(p, "_TARGET_COMMITISH"@, (*item).target_commitish@)];
    }
    cmd.put(prefix, "_NAME", item.name.clone());
    proof {
        lemma_with_envs_twice(start, acc, seq![entry(p, "_NAME"@, (*item).name@)]);
        acc = acc + seq![entry(p, "_NAME"@, (*item).name@)];
    }
    cmd.put(prefix, "_BODY", item.body.clone());
    proof {
        lemma_with_envs_twice(start, acc, seq![entry(p, "_BODY"@, (*item).body@)]);
        acc = acc + seq![entry(p, "_BODY"@, (*item).body@)];
    }
    cmd.put(prefix, "_URL", item.api_url.clone());
    proof {
        lemma_with_envs_twice(start, acc, seq![entry(p, "_URL"@, (*item).api_url@)]);
        acc = acc + seq![entry(p, "_URL"@, (*item).api_url@)];
    }
    cmd.put(prefix, "_HTML_URL", item.html_url.clone());
    proof {
        lemma_with_envs_twice(start, acc, seq![entry(p, "_HTML_URL"@, (*item).html_url@)]);
        acc = acc + seq![entry(p, "_HTML_URL"@, (*item).html_url@)];
    }
    cmd.put(prefix, "_TARBALL_URL", item.tarball_url.clone());
    proof {
        lemma_with_envs_twice(start, acc, seq![entry(p, "_TARBALL_URL"@, (*item).tarball_url@)]);
        acc = acc + seq![entry(p, "_TARBALL_URL"@, (*item).tarball_url@)];
    }
    cmd.put(prefix, "_ZIPBALL_URL", item.zipball_url.clone());
    proof {
        lemma_with_envs_twice(start, acc, seq![entry(p, "_ZIPBALL_URL"@, (*item).zipball_url@)]);
        acc = acc + seq![entry(p, "_ZIPBALL_URL"@, (*item).zipball_url@)];
    }
    cmd.put(prefix, "_DRAFT", bool_to_text(item.is_draft));
    proof {
        lemma_with_envs_twice(start, acc, seq![entry(p, "_DRAFT"@, bool_text((*item).is_draft))]);
    }
}

/// The assignments for the fields of a release from PRELEASE to ASSETS.
pub open spec fn release_env_part2(prefix: Seq<char>, item: Release) -> Seq<EnvEntry>
{
    seq![entry(prefix, "_PRELEASE"@, bool_text(item.is_prerelease))]
    + seq![entry(prefix, "_CREATED_AT"@, item.created_at@)]
    + seq![entry(prefix, "_PUBLISHED_AT"@, item.published_at@)]
    + user_env(prefix + "_AUTHOR"@, item.author)
    + attachments_env(prefix + "_ASSETS_"@, item.assets@)
}

/// Makes the assignments for the fields of a release from PRELEASE to ASSETS.
pub fn add_release_env_part2(cmd: &mut CommandSpec, prefix: &str, item: &Release)
    ensures
        final(cmd)@ == old(cmd)@.with_envs(release_env_part2(prefix@, *item)),
{
    let ghost start = cmd@;
    let ghost p = prefix@;
    cmd.put(prefix, "_PRELEASE", bool_to_text(item.is_prerelease));
    let ghost mut acc: Seq<EnvEntry> = seq![entry(p, "_PRELEASE"@, bool_text((*item).is_prerelease))];
    cmd.put(prefix, "_CREATED_AT", item.created_at.clone());
    proof {
        lemma_with_envs_twice(start, acc, seq![entry(p, "_CREATED_AT"@, (*item).created_at@)]);
        acc = acc + seq![entry(p, "_CREATED_AT"@, (*item).created_at@)];
    }
    cmd.put(prefix, "_PUBLISHED_AT", item.published_at.clone());
    proof {
        lemma_with_envs_twice(start, acc, seq![entry(p, "_PUBLISHED_AT"@, (*item).published_at@)]);
        acc = acc + seq![entry(p, "_PUBLISHED_AT"@, (*item).published_at@)];
    }
    add_user_env(cmd, join(prefix, "_AUTHOR").as_str(), &item.author);
    proof {
        lemma_with_envs_twice(start, acc, user_env(p + "_AUTHOR"@, (*item).author));
        acc = acc + user_env(p + "_AUTHOR"@, (*item).author);
    }
    add_attachments_env(cmd, join(prefix, "_ASSETS_").as_str(), &item.assets);
    proof {
        lemma_with_envs_twice(start, acc, attachments_env(p + "_ASSETS_"@, (*item).assets@));
    }
}

/// The assignments that describe a release, each name starting with `prefix`.
pub open spec fn release_env(prefix: Seq<char>, item: Release) -> Seq<EnvEntry>
{
    release_env_part1(prefix, item)
    + release_env_part2(prefix, item)
}

/// Makes the assignments that describe a release, each name starting with `prefix`.
pub fn add_release_env(cmd: &mut CommandSpec, prefix: &str, item: &Release)
    ensures
        final(cmd)@ == old(cmd)@.with_envs(release_env(prefix@, *item)),
{
    let ghost start = cmd@;
    add_release_env_part1(cmd, prefix, item);
    add_release_env_part2(cmd, prefix, item);
    proof {
        lemma_with_envs_twice(start, release_env_part1(prefix@, *item), release_env_part2(prefix@, *item));
    }
}

/// The assignments that describe one side of a pull request, each name starting with `prefix`.
pub open spec fn branch_env(prefix: Seq<char>, item: PRBranchInfo) -> Seq<EnvEntry>
{
    seq![entry(prefix, "_LABEL"@, item.label@)]
    + seq![entry(prefix, "_REF"@, item.ref_path@)]
    + seq![entry(prefix, "_SHA"@, item.sha@)]
    + seq![entry(prefix, "_REPO_ID"@, signed_decimal(item.repo_id as int))]
    + repository_env(prefix + "_REPO"@, item.repository)
}

/// Makes the assignments that describe one side of a pull request, each name starting with `prefix`.
pub fn add_branch_env(cmd: &mut CommandSpec, prefix: &str, item: &PRBranchInfo)
    ensures
        final(cmd)@ == old(cmd)@.with_envs(branch_env(prefix@, *item)),
{
    let ghost start = cmd@;
    let ghost p = prefix@;
    cmd.put(prefix, "_LABEL", item.label.clone());
    let ghost mut acc: Seq<EnvEntry> = seq![entry(p, "_LABEL"@, (*item).label@)];
    cmd.put(prefix, "_REF", item.ref_path.clone());
    proof {
        lemma_with_envs_twice(start, acc, seq![entry(p, "_REF"@, (*item).ref_path@)]);
        acc = acc + seq![entry(p, "_REF"@, (*item).ref_path@)];
    }
    cmd.put(prefix, "_SHA", item.sha.clone());
    proof {
        lemma_with_envs_twice(start, acc, seq![entry(p, "_SHA"@, (*item).sha@)]);
        acc = acc + seq![entry(p, "_SHA"@, (*item).sha@)];
    }
    cmd.put(prefix, "_REPO_ID", i64_text(item.repo_id as i64));
    proof {
        lemma_with_envs_twice(start, acc, seq![entry(p, "_REPO_ID"@, signed_decimal((*item).repo_id as int))]);
        acc = acc + seq![entry(p, "_REPO_ID"@, signed_decimal((*item).repo_id as int))];
    }
    add_repository_env(cmd, join(prefix, "_REPO").as_str(), &item.repository);
    proof {
        lemma_with_envs_twice(start, acc, repository_env(p + "_REPO"@, (*item).repository));
    }
}

/// The assignments for the fields of a pull request from ID to STATE.
pub open spec fn pull_request_env_part1(prefix: Seq<char>, item: PullRequest) -> Seq<EnvEntry>
{
    seq![entry(prefix, "_ID"@, signed_decimal(item.id as int))]
    + seq![entry(prefix, "_URL"@, item.url@)]
    + seq![entry(prefix, "_NUMBER"@, signed_decimal(item.number as int))]
    + user_env(prefix + "_USER"@, item.user)
    + seq![entry(prefix, "_TITLE"@, item.title@)]
    + seq![entry(prefix, "_BODY"@, item.body@)]
    + (match &item.milestone { Some(v) => milestone_env(prefix + "_MILESTONE"@, *v), None => seq![] })
    + (match &item.assignee { Some(v) => user_env(prefix + "_ASSIGNEE"@, *v), None => seq![] })
    + (match &item.assignees { Some(v) => users_env(prefix + "_ASSIGNEES_"@, v@), None => seq![] })
    + seq![entry(prefix, "_STATE"@, item.state@)]
}

/// Makes the assignments for the fields of a pull request from ID to STATE.
pub fn add_pull_request_env_part1(cmd: &mut CommandSpec, prefix: &str, item: &PullRequest)
    ensures
        final(cmd)@ == old(cmd)@.with_envs(pull_request_env_part1(prefix@, *item)),
{
    let ghost start = cmd@;
    let ghost p = prefix@;
    cmd.put(prefix, "_ID", i64_text(item.id as i64));
    let ghost mut acc: Seq<EnvEntry> = seq![entry(p, "_ID"@, signed_decimal((*item).id as int))];
    cmd.put(prefix, "_URL", item.url.clone());
    proof {
        lemma_with_envs_twice(start, acc, seq![entry(p, "_URL"@, (*item).url@)]);
        acc = acc + seq![entry(p, "_URL"@, (*item).url@)];
    }
    cmd.put(prefix, "_NUMBER", i64_text(item.number as i64));
    proof {
        lemma_with_envs_twice(start, acc, seq![entry(p, "_NUMBER"@, signed_decimal((*item).number as int))]);
        acc = acc + seq![entry(p, "_NUMBER"@, signed_decimal((*item).number as int))];
    }
    add_user_env(cmd, join(prefix, "_USER").as_str(), &item.user);
    proof {
        lemma_with_envs_twice(start, acc, user_env(p + "_USER"@, (*item).user));
        acc = acc + user_env(p + "_USER"@, (*item).user);
    }
    cmd.put(prefix, "_TITLE", item.title.clone());
    proof {
        lemma_with_envs_twice(start, acc, seq![entry(p, "_TITLE"@, (*item).title@)]);
        acc = acc + seq![entry(p, "_TITLE"@, (*item).title@)];
    }
    cmd.put(prefix, "_BODY", item.body.clone());
    proof {
        lemma_with_envs_twice(start, acc, seq![entry(p, "_BODY"@, (*item).body@)]);
        acc = acc + seq![entry(p, "_BODY"@, (*item).body@)];
    }
    if let Some(v) = &item.milestone {
        add_milestone_env(cmd, join(prefix, "_MILESTONE").as_str(), v);
    } else {
        proof {
            lemma_with_no_envs(cmd@);
        }
    }
    proof {
        lemma_with_envs_twice(start, acc, (match &(*item).milestone { Some(v) => milestone_env(p + "_MILESTONE"@, *v), None => seq![] }));
        acc = acc + (match &(*item).milestone { Some(v) => milestone_env(p + "_MILESTONE"@, *v), None => seq![] });
    }
    if let Some(v) = &item.assignee {
        add_user_env(cmd, join(prefix, "_ASSIGNEE").as_str(), v);
    } else {
        proof {
            lemma_with_no_envs(cmd@);
        }
    }
    proof {
        lemma_with_envs_twice(start, acc, (match &(*item).assignee { Some(v) => user_env(p + "_ASSIGNEE"@, *v), None => seq![] }));
        acc = acc + (match &(*item).assignee { Some(v) => user_env(p + "_ASSIGNEE"@, *v), None => seq![] });
    }
    if let Some(v) = &item.assignees {
        add_users_env(cmd, join(prefix, "_ASSIGNEES_").as_str(), v);
    } else {
        proof {
            lemma_with_no_envs(cmd@);
        }
    }
    proof {
        lemma_with_envs_twice(start, acc, (match &(*item).assignees { Some(v) => users_env(p + "_ASSIGNEES_"@, v@), None => seq![] }));
        acc = acc + (match &(*item).assignees { Some(v) => users_env(p + "_ASSIGNEES_"@, v@), None => seq![] });
    }
    cmd.put(prefix, "_STATE", item.state.clone());
    proof {
        lemma_with_envs_twice(start, acc, seq![entry(p, "_STATE"@, (*item).state@)]);
    }
}

/// The assignments for the fields of a pull request from IS_LOCKED to MERGED_BY.
pub open spec fn pull_request_env_part2(prefix: Seq<char>, item: PullRequest) -> Seq<EnvEntry>
{
    seq![entry(prefix, "_IS_LOCKED"@, bool_text(item.is_locked))]
    + seq![entry(prefix, "_COMMENTS"@, signed_decimal(item.comment_count as int))]
    + seq![entry(prefix, "_HTML_URL"@, item.html_url@)]
    + seq![entry(prefix, "_DIFF_URL"@, item.diff_url@)]
    + seq![entry(prefix, "_PATCH_URL"@, item.patch_url@)]
    + seq![entry(prefix, "_MERGEABLE"@, bool_text(item.is_mergeable))]
    + seq![entry(prefix, "_MERGED"@, bool_text(item.is_merged))]
    + (match &item.merged_at { Some(v) => seq![entry(prefix, "_MERGED_AT"@, v@)], None => seq![] })
    + (match &item.merge_commit_sha { Some(v) => seq![entry(prefix, "_MERGE_COMMIT_SHA"@, v@)], None => seq![] })
    + (match &item.merged_by { Some(v) => user_env(prefix + "_MERGED_BY"@, *v), None => seq![] })
}

/// Makes the assignments for the fields of a pull request from IS_LOCKED to MERGED_BY.
pub fn add_pull_request_env_part2(cmd: &mut CommandSpec, prefix: &str, item: &PullRequest)
    ensures
        final(cmd)@ == old(cmd)@.with_envs(pull_request_env_part2(prefix@, *item)),
{
    let ghost start = cmd@;
    let ghost p = prefix@;
    cmd.put(prefix, "_IS_LOCKED", bool_to_text(item.is_locked));
    let ghost mut acc: Seq<EnvEntry> = seq![entry(p, "_IS_LOCKED"@, bool_text((*item).is_locked))];
    cmd.put(prefix, "_COMMENTS", i64_text(item.comment_count as i64));
    proof {
        lemma_with_envs_twice(start, acc, seq![entry(p, "_COMMENTS"@, signed_decimal((*item).comment_count as int))]);
        acc = acc + seq![entry(p, "_COMMENTS"@, signed_decimal((*item).comment_count as int))];
    }
    cmd.put(prefix, "_HTML_URL", item.html_url.clone());
    proof {
        lemma_with_envs_twice(start, acc, seq![entry(p, "_HTML_URL"@, (*item).html_url@)]);
        acc = acc + seq![entry(p, "_HTML_URL"@, (*item).html_url@)];
    }
    cmd.put(prefix, "_DIFF_URL", item.diff_url.clone());
    proof {
        lemma_with_envs_twice(start, acc, seq![entry(p, "_DIFF_URL"@, (*item).diff_url@)]);
        acc = acc + seq![entry(p, "_DIFF_URL"@, (*item).diff_url@)];
    }
    cmd.put(prefix, "_PATCH_URL", item.patch_url.clone());
    proof {
        lemma_with_envs_twice(start, acc, seq![entry(p, "_PATCH_URL"@, (*item).patch_url@)]);
        acc = acc + seq![entry(p, "_PATCH_URL"@, (*item).patch_url@)];
    }
    cmd.put(prefix, "_MERGEABLE", bool_to_text(item.is_mergeable));
    proof {
        lemma_with_envs_twice(start, acc, seq![entry(p, "_MERGEABLE"@, bool_text((*item).is_mergeable))]);
        acc = acc + seq![entry(p, "_MERGEABLE"@, bool_text((*item).is_mergeable))];
    }
    cmd.put(prefix, "_MERGED", bool_to_text(item.is_merged));
    proof {
        lemma_with_envs_twice(start, acc, seq![entry(p, "_MERGED"@, bool_text((*item).is_merged))]);
        acc = acc + seq![entry(p, "_MERGED"@, bool_text((*item).is_merged))];
    }
    if let Some(v) = &item.merged_at {
        cmd.put(prefix, "_MERGED_AT", v.clone());
    } else {
        proof {
            lemma_with_no_envs(cmd@);
        }
    }
    proof {
        lemma_with_envs_twice(start, acc, (match &(*item).merged_at { Some(v) => seq![entry(p, "_MERGED_AT"@, v@)], None => seq![] }));
        acc = acc + (match &(*item).merged_at { Some(v) => seq![entry(p, "_MERGED_AT"@, v@)], None => seq![] });
    }
    if let Some(v) = &item.merge_commit_sha {
        cmd.put(prefix, "_MERGE_COMMIT_SHA", v.clone());
    } else {
        proof {
            lemma_with_no_envs(cmd@);
        }
    }
    proof {
        lemma_with_envs_twice(start, acc, (match &(*item).merge_commit_sha { Some(v) => seq![entry(p, "_MERGE_COMMIT_SHA"@, v@)], None => seq![] }));
        acc = acc + (match &(*item).merge_commit_sha { Some(v) => seq![entry(p, "_MERGE_COMMIT_SHA"@, v@)], None => seq![] });
    }
    if let Some(v) = &item.merged_by {
        add_user_env(cmd, join(prefix, "_MERGED_BY").as_str(), v);
    } else {
        proof {
            lemma_with_no_envs(cmd@);
        }
    }
    proof {
        lemma_with_envs_twice(start, acc, (match &(*item).merged_by { Some(v) => user_env(p + "_MERGED_BY"@, *v), None => seq![] }));
    }
}

/// The assignments for the fields of a pull request from BASE to CLOSED_AT.
pub open spec fn pull_request_env_part3(prefix: Seq<char>, item: PullRequest) -> Seq<EnvEntry>
{
    (match &item.base { Some(v) => branch_env(prefix + "_BASE"@, *v), None => seq![] })
    + (match &item.head { Some(v) => branch_env(prefix + "_HEAD"@, *v), None => seq![] })
    + seq![entry(prefix, "_MERGE_BASE"@, item.merge_base@)]
    + (match &item.due_date { Some(v) => seq![entry(prefix, "_DUE_DATE"@, v@)], None => seq![] })
    + (match &item.created_at { Some(v) => seq![entry(prefix, "_CREATED_AT"@, v@)], None => seq![] })
    + (match &item.updated_at { Some(v) => seq![entry(prefix, "_UPDATED_AT"@, v@)], None => seq![] })
    + (match &item.closed_at { Some(v) => seq![entry(prefix, "_CLOSED_AT"@, v@)], None => seq![] })
}

/// Makes the assignments for the fields of a pull request from BASE to CLOSED_AT.
pub fn add_pull_request_env_part3(cmd: &mut CommandSpec, prefix: &str, item: &PullRequest)
    ensures
        final(cmd)@ == old(cmd)@.with_envs(pull_request_env_part3(prefix@, *item)),
{
    let ghost start = cmd@;
    let ghost p = prefix@;
    if let Some(v) = &item.base {
        add_branch_env(cmd, join(prefix, "_BASE").as_str(), v);
    } else {
        proof {
            lemma_with_no_envs(cmd@);
        }
    }
    let ghost mut acc: Seq<EnvEntry> = (match &(*item).base { Some(v) => branch_env(p + "_BASE"@, *v), None => seq![] });
    if let Some(v) = &item.head {
        add_branch_env(cmd, join(prefix, "_HEAD").as_str(), v);
    } else {
        proof {
            lemma_with_no_envs(cmd@);
        }
    }
    proof {
        lemma_with_envs_twice(start, acc, (match &(*item).head { Some(v) => branch_env(p + "_HEAD"@, *v), None => seq![] }));
        acc = acc + (match &(*item).head { Some(v) => branch_env(p + "_HEAD"@, *v), None => seq![] });
    }
    cmd.put(prefix, "_MERGE_BASE", item.merge_base.clone());
    proof {
        lemma_with_envs_twice(start, acc, seq![entry(p, "_MERGE_BASE"@, (*item).merge_base@)]);
        acc = acc + seq![entry(p, "_MERGE_BASE"@, (*item).merge_base@)];
    }
    if let Some(v) = &item.due_date {
        cmd.put(prefix, "_DUE_DATE", v.clone());
    } else {
        proof {
            lemma_with_no_envs(cmd@);
        }
    }
    proof {
        lemma_with_envs_twice(start, acc, (match &(*item).due_date { Some(v) => seq![entry(p, "_DUE_DATE"@, v@)], None => seq![] }));
        acc = acc + (match &(*item).due_date { Some(v) => seq![entry(p, "_DUE_DATE"@, v@)], None => seq![] });
    }
    if let Some(v) = &item.created_at {
        cmd.put(prefix, "_CREATED_AT", v.clone());
    } else {
        proof {
            lemma_with_no_envs(cmd@);
        }
    }
    proof {
        lemma_with_envs_twice(start, acc, (match &(*item).created_at { Some(v) => seq![entry(p, "_CREATED_AT"@, v@)], None => seq![] }));
        acc = acc + (match &(*item).created_at { Some(v) => seq![entry(p, "_CREATED_AT"@, v@)], None => seq![] });
    }
    if let Some(v) = &item.updated_at {
        cmd.put(prefix, "_UPDATED_AT", v.clone());
    } else {
        proof {
            lemma_with_no_envs(cmd@);
        }
    }
    proof {
        lemma_with_envs_twice(start, acc, (match &(*item).updated_at { Some(v) => seq![entry(p, "_UPDATED_AT"@, v@)], None => seq![] }));
        acc = acc + (match &(*item).updated_at { Some(v) => seq![entry(p, "_UPDATED_AT"@, v@)], None => seq![] });
    }
    if let Some(v) = &item.closed_at {
        cmd.put(prefix, "_CLOSED_AT", v.clone());
    } else {
        proof {
            lemma_with_no_envs(cmd@);
        }
    }
    proof {
        lemma_with_envs_twice(start, acc, (match &(*item).closed_at { Some(v) => seq![entry(p, "_CLOSED_AT"@, v@)], None => seq![] }));
    }
}

/// The assignments that describe a pull request, each name starting with `prefix`.
pub open spec fn pull_request_env(prefix: Seq<char>, item: PullRequest) -> Seq<EnvEntry>
{
    pull_request_env_part1(prefix, item)
    + pull_request_env_part2(prefix, item)
    + pull_request_env_part3(prefix, item)
}

/// Makes the assignments that describe a pull request, each name starting with `prefix`.
pub fn add_pull_request_env(cmd: &mut CommandSpec, prefix: &str, item: &PullRequest)
    ensures
        final(cmd)@ == old(cmd)@.with_envs(pull_request_env(prefix@, *item)),
{
    let ghost start = cmd@;
    add_pull_request_env_part1(cmd, prefix, item);
    add_pull_request_env_part2(cmd, prefix, item);
    proof {
        lemma_with_envs_twice(start, pull_request_env_part1(prefix@, *item), pull_request_env_part2(prefix@, *item));
    }
    add_pull_request_env_part3(cmd, prefix, item);
    proof {
        lemma_with_envs_twice(start, pull_request_env_part1(prefix@, *item) + pull_request_env_part2(prefix@, *item), pull_request_env_part3(prefix@, *item));
    }
}

/// The assignments that describe a list of labels: the item at index `i` under
/// `prefix` followed by the decimal digits of `i`.
pub open spec fn labels_env(prefix: Seq<char>, items: Seq<String>) -> Seq<EnvEntry>
    decreases items.len(),
{
    if items.len() == 0 {
        seq![]
    } else {
        labels_env(prefix, items.drop_last()) + seq![(prefix + decimal((items.len() - 1) as nat), items.last()@)]
    }
}

/// Makes the assignments that describe a list of labels.
pub fn add_labels_env(cmd: &mut CommandSpec, prefix: &str, items: &Vec<String>)
    ensures
        final(cmd)@ == old(cmd)@.with_envs(labels_env(prefix@, items@)),
{
    let ghost start = cmd@;
    let n: usize = items.len();
    let mut i: usize = 0;
    assert(items@.take(0) =~= seq![]);
    while i < n
        invariant
            n == items@.len(),
            i <= n,
            cmd@ == start.with_envs(labels_env(prefix@, items@.take(i as int))),
        decreases n - i,
    {
        let ghost done = labels_env(prefix@, items@.take(i as int));
        let item_prefix = join(prefix, u64_text(i as u64).as_str());
        cmd.env(item_prefix, items[i].clone());
        proof {
            lemma_with_envs_twice(start, done, seq![(prefix@ + decimal(i as nat), items@[i as int]@)]);
        }
        assert(items@.take(i + 1).drop_last() =~= items@.take(i as int));
        i = i + 1;
    }
    assert(items@.take(n as int) =~= items@);
}

/// The assignments that describe a list of accounts: the item at index `i` under
/// `prefix` followed by the decimal digits of `i`.
pub open spec fn users_env(prefix: Seq<char>, items: Seq<GiteaUser>) -> Seq<EnvEntry>
    decreases items.len(),
{
    if items.len() == 0 {
        seq![]
    } else {
        users_env(prefix, items.drop_last()) + user_env(prefix + decimal((items.len() - 1) as nat), items.last())
    }
}

/// Makes the assignments that describe a list of accounts.
pub fn add_users_env(cmd: &mut CommandSpec, prefix: &str, items: &Vec<GiteaUser>)
    ensures
        final(cmd)@ == old(cmd)@.with_envs(users_env(prefix@, items@)),
{
    let ghost start = cmd@;
    let n: usize = items.len();
    let mut i: usize = 0;
    assert(items@.take(0) =~= seq![]);
    while i < n
        invariant
            n == items@.len(),
            i <= n,
            cmd@ == start.with_envs(users_env(prefix@, items@.take(i as int))),
        decreases n - i,
    {
        let ghost done = users_env(prefix@, items@.take(i as int));
        let item_prefix = join(prefix, u64_text(i as u64).as_str());
        add_user_env(cmd, item_prefix.as_str(), &items[i]);
        proof {
            lemma_with_envs_twice(start, done, user_env(prefix@ + decimal(i as nat), items@[i as int]));
        }
        assert(items@.take(i + 1).drop_last() =~= items@.take(i as int));
        i = i + 1;
    }
    assert(items@.take(n as int) =~= items@);
}

/// The assignments that describe a list of attachments: the item at index `i` under
/// `prefix` followed by the decimal digits of `i`.
pub open spec fn attachments_env(prefix: Seq<char>, items: Seq<Attachment>) -> Seq<EnvEntry>
    decreases items.len(),
{
    if items.len() == 0 {
        seq![]
    } else {
        attachments_env(prefix, items.drop_last()) + attachment_env(prefix + decimal((items.len() - 1) as nat), items.last())
    }
}

/// Makes the assignments that describe a list of attachments.
pub fn add_attachments_env(cmd: &mut CommandSpec, prefix: &str, items: &Vec<Attachment>)
    ensures
        final(cmd)@ == old(cmd)@.with_envs(attachments_env(prefix@, items@)),
{
    let ghost start = cmd@;
    let n: usize = items.len();
    let mut i: usize = 0;
    assert(items@.take(0) =~= seq![]);
    while i < n
        invariant
            n == items@.len(),
            i <= n,
            cmd@ == start.with_envs(attachments_env(prefix@, items@.take(i as int))),
        decreases n - i,
    {
        let ghost done = attachments_env(prefix@, items@.take(i as int));
        let item_prefix = join(prefix, u64_text(i as u64).as_str());
        add_attachment_env(cmd, item_prefix.as_str(), &items[i]);
        proof {
            lemma_with_envs_twice(start, done, attachment_env(prefix@ + decimal(i as nat), items@[i as int]));
        }
        assert(items@.take(i + 1).drop_last() =~= items@.take(i as int));
        i = i + 1;
    }
    assert(items@.take(n as int) =~= items@);
}

/// The assignments that describe a list of commits: the item at index `i` under
/// `prefix` followed by the decimal digits of `i`.
pub open spec fn commits_env(prefix: Seq<char>, items: Seq<Commit>) -> Seq<EnvEntry>
    decreases items.len(),
{
    if items.len() == 0 {
        seq![]
    } else {
        commits_env(prefix, items.drop_last()) + commit_env(prefix + decimal((items.len() - 1) as nat), items.last())
    }
}

/// Makes the assignments that describe a list of commits.
pub fn add_commits_env(cmd: &mut CommandSpec, prefix: &str, items: &Vec<Commit>)
    ensures
        final(cmd)@ == old(cmd)@.with_envs(commits_env(prefix@, items@)),
{
    let ghost start = cmd@;
    let n: usize = items.len();
    let mut i: usize = 0;
    assert(items@.take(0) =~= seq![]);
    while i < n
        invariant
            n == items@.len(),
            i <= n,
            cmd@ == start.with_envs(commits_env(prefix@, items@.take(i as int))),
        decreases n - i,
    {
        let ghost done = commits_env(prefix@, items@.take(i as int));
        let item_prefix = join(prefix, u64_text(i as u64).as_str());
        add_commit_env(cmd, item_prefix.as_str(), &items[i]);
        proof {
            lemma_with_envs_twice(start, done, commit_env(prefix@ + decimal(i as nat), items@[i as int]));
        }
        assert(items@.take(i + 1).drop_last() =~= items@.take(i as int));
        i = i + 1;
    }
    assert(items@.take(n as int) =~= items@);
}


/// Every name that the environment of the author or committer of a commit assigns starts with `prefix`.
pub proof fn lemma_git_user_env_under(prefix: Seq<char>, item: GitUser)
    ensures
        all_under(prefix, git_user_env(prefix, item)),
{
    lemma_entry_under(prefix, "_NAME"@, item.name@);
    let acc = seq![entry(prefix, "_NAME"@, item.name@)];
    lemma_entry_under(prefix, "_EMAIL"@, item.email@);
    lemma_under_concat(prefix, acc, seq![entry(prefix, "_EMAIL"@, item.email@)]);
    let acc = acc + seq![entry(prefix, "_EMAIL"@, item.email@)];
    lemma_entry_under(prefix, "_USERNAME"@, item.username@);
    lemma_under_concat(prefix, acc, seq![entry(prefix, "_USERNAME"@, item.username@)]);
}

/// Every name that the environment of a Gitea account assigns starts with `prefix`.
pub proof fn lemma_user_env_under(prefix: Seq<char>, item: GiteaUser)
    ensures
        all_under(prefix, user_env(prefix, item)),
{
    lemma_entry_under(prefix, "_ID"@, signed_decimal(item.id as int));
    let acc = seq![entry(prefix, "_ID"@, signed_decimal(item.id as int))];
    lemma_entry_under(prefix, "_LOGIN"@, item.login@);
    lemma_under_concat(prefix, acc, seq![entry(prefix, "_LOGIN"@, item.login@)]);
    let acc = acc + seq![entry(prefix, "_LOGIN"@, item.login@)];
    lemma_entry_under(prefix, "_FULL_NAME"@, item.full_name@);
    lemma_under_concat(prefix, acc, seq![entry(prefix, "_FULL_NAME"@, item.full_name@)]);
    let acc = acc + seq![entry(prefix, "_FULL_NAME"@, item.full_name@)];
    lemma_entry_under(prefix, "_EMAIL"@, item.email@);
    lemma_under_concat(prefix, acc, seq![entry(prefix, "_EMAIL"@, item.email@)]);
    let acc = acc + seq![entry(prefix, "_EMAIL"@, item.email@)];
    lemma_entry_under(prefix, "_AVATAR_URL"@, item.avatar_url@);
    lemma_under_concat(prefix, acc, seq![entry(prefix, "_AVATAR_URL"@, item.avatar_url@)]);
    let acc = acc + seq![entry(prefix, "_AVATAR_URL"@, item.avatar_url@)];
    lemma_entry_under(prefix, "_USERNAME"@, item.username@);
    lemma_under_concat(prefix, acc, seq![entry(prefix, "_USERNAME"@, item.username@)]);
    let acc = acc + seq![entry(prefix, "_USERNAME"@, item.username@)];
    lemma_entry_under(prefix, "_LANGUAGE"@, item.language@);
    lemma_under_concat(prefix, acc, seq![entry(prefix, "_LANGUAGE"@, item.language@)]);
    let acc = acc + seq![entry(prefix, "_LANGUAGE"@, item.language@)];
    lemma_entry_under(prefix, "_IS_ADMIN"@, bool_text(item.is_admin));
    lemma_under_concat(prefix, acc, seq![entry(prefix, "_IS_ADMIN"@, bool_text(item.is_admin))]);
    let acc = acc + seq![entry(prefix, "_IS_ADMIN"@, bool_text(item.is_admin))];
    lemma_entry_under(prefix, "_LAST_LOGIN"@, item.last_login@);
    lemma_under_concat(prefix, acc, seq![entry(prefix, "_LAST_LOGIN"@, item.last_login@)]);
    let acc = acc + seq![entry(prefix, "_LAST_LOGIN"@, item.last_login@)];
    lemma_entry_under(prefix, "_CREATED"@, item.created@);
    lemma_under_concat(prefix, acc, seq![entry(prefix, "_CREATED"@, item.created@)]);
}

/// Every name that the environment of a commit assigns starts with `prefix`.
pub proof fn lemma_commit_env_under(prefix: Seq<char>, item: Commit)
    ensures
        all_under(prefix, commit_env(prefix, item)),
{
    lemma_entry_under(prefix, "_ID"@, item.id@);
    let acc = seq![entry(prefix, "_ID"@, item.id@)];
    lemma_entry_under(prefix, "_MESSAGE"@, item.message@);
    lemma_under_concat(prefix, acc, seq![entry(prefix, "_MESSAGE"@, item.message@)]);
    let acc = acc + seq![entry(prefix, "_MESSAGE"@, item.message@)];
    lemma_entry_under(prefix, "_URL"@, item.url@);
    lemma_under_concat(prefix, acc, seq![entry(prefix, "_URL"@, item.url@)]);
    let acc = acc + seq![entry(prefix, "_URL"@, item.url@)];
    lemma_git_user_env_under(prefix + "_AUTHOR"@, item.author);
    lemma_under_longer(prefix, "_AUTHOR"@, git_user_env(prefix + "_AUTHOR"@, item.author));
    lemma_under_concat(prefix, acc, git_user_env(prefix + "_AUTHOR"@, item.author));
    let acc = acc + git_user_env(prefix + "_AUTHOR"@, item.author);
    lemma_git_user_env_under(prefix + "_COMMITTER"@, item.committer);
    lemma_under_longer(prefix, "_COMMITTER"@, git_user_env(prefix + "_COMMITTER"@, item.committer));
    lemma_under_concat(prefix, acc, git_user_env(prefix + "_COMMITTER"@, item.committer));
    let acc = acc + git_user_env(prefix + "_COMMITTER"@, item.committer);
    lemma_entry_under(prefix, "_TIMESTAMP"@, item.timestamp@);
    lemma_under_concat(prefix, acc, seq![entry(prefix, "_TIMESTAMP"@, item.timestamp@)]);
}

/// Every name that the environment of a milestone assigns starts with `prefix`.
pub proof fn lemma_milestone_env_under(prefix: Seq<char>, item: Milestone)
    ensures
        all_under(prefix, milestone_env(prefix, item)),
{
    lemma_entry_under(prefix, "_ID"@, signed_decimal(item.id as int));
    let acc = seq![entry(prefix, "_ID"@, signed_decimal(item.id as int))];
    lemma_entry_under(prefix, "_TITLE"@, item.title@);
    lemma_under_concat(prefix, acc, seq![entry(prefix, "_TITLE"@, item.title@)]);
    let acc = acc + seq![entry(prefix, "_TITLE"@, item.title@)];
    lemma_entry_under(prefix, "_DESCRIPTION"@, item.description@);
    lemma_under_concat(prefix, acc, seq![entry(prefix, "_DESCRIPTION"@, item.description@)]);
    let acc = acc + seq![entry(prefix, "_DESCRIPTION"@, item.description@)];
    lemma_entry_under(prefix, "_STATE"@, item.state@);
    lemma_under_concat(prefix, acc, seq![entry(prefix, "_STATE"@, item.state@)]);
    let acc = acc + seq![entry(prefix, "_STATE"@, item.state@)];
    lemma_entry_under(prefix, "_OPEN_ISSUES"@, signed_decimal(item.open_issues as int));
    lemma_under_concat(prefix, acc, seq![entry(prefix, "_OPEN_ISSUES"@, signed_decimal(item.open_issues as int))]);
    let acc = acc + seq![entry(prefix, "_OPEN_ISSUES"@, signed_decimal(item.open_issues as int))];
    lemma_entry_under(prefix, "_CLOSED_ISSUES"@, signed_decimal(item.closed_issues as int));
    lemma_under_concat(prefix, acc, seq![entry(prefix, "_CLOSED_ISSUES"@, signed_decimal(item.closed_issues as int))]);
    let acc = acc + seq![entry(prefix, "_CLOSED_ISSUES"@, signed_decimal(item.closed_issues as int))];
    lemma_entry_under(prefix, "_CREATED_AT"@, item.created_at@);
    lemma_under_concat(prefix, acc, seq![entry(prefix, "_CREATED_AT"@, item.created_at@)]);
    let acc = acc + seq![entry(prefix, "_CREATED_AT"@, item.created_at@)];
    lemma_entry_under(prefix, "_UPDATED_AT"@, item.updated_at@);
    lemma_under_concat(prefix, acc, seq![entry(prefix, "_UPDATED_AT"@, item.updated_at@)]);
    let acc = acc + seq![entry(prefix, "_UPDATED_AT"@, item.updated_at@)];
    lemma_entry_under(prefix, "_CLOSED_AT"@, item.closed_at@);
    lemma_under_concat(prefix, acc, seq![entry(prefix, "_CLOSED_AT"@, item.closed_at@)]);
    let acc = acc + seq![entry(prefix, "_CLOSED_AT"@, item.closed_at@)];
    lemma_entry_under(prefix, "_DUE_ON"@, item.due_on@);
    lemma_under_concat(prefix, acc, seq![entry(prefix, "_DUE_ON"@, item.due_on@)]);
}

/// Every name that the environment of what the sender may do with a repository assigns starts with `prefix`.
pub proof fn lemma_permissions_env_under(prefix: Seq<char>, item: Permissions)
    ensures
        all_under(prefix, permissions_env(prefix, item)),
{
    lemma_entry_under(prefix, "_ADMIN"@, bool_text(item.has_admin));
    let acc = seq![entry(prefix, "_ADMIN"@, bool_text(item.has_admin))];
    lemma_entry_under(prefix, "_PUSH"@, bool_text(item.has_push));
    lemma_under_concat(prefix, acc, seq![entry(prefix, "_PUSH"@, bool_text(item.has_push))]);
    let acc = acc + seq![entry(prefix, "_PUSH"@, bool_text(item.has_push))];
    lemma_entry_under(prefix, "_PULL"@, bool_text(item.has_pull));
    lemma_under_concat(prefix, acc, seq![entry(prefix, "_PULL"@, bool_text(item.has_pull))]);
}

/// Every name that the environment of the settings of a repository's own issue tracker assigns starts with `prefix`.
pub proof fn lemma_internal_tracker_env_under(prefix: Seq<char>, item: InternalTracker)
    ensures
        all_under(prefix, internal_tracker_env(prefix, item)),
{
    lemma_entry_under(prefix, "_ENABLE_TIME_TRACKER"@, bool_text(item.is_enabled));
    let acc = seq![entry(prefix, "_ENABLE_TIME_TRACKER"@, bool_text(item.is_enabled))];
    lemma_entry_under(prefix, "_ALLOW_ONLY_CONTRIBUTORS_TO_TRACK_TIME"@, bool_text(item.is_contributor_only_time_tracking_enabled));
    lemma_under_concat(prefix, acc, seq![entry(prefix, "_ALLOW_ONLY_CONTRIBUTORS_TO_TRACK_TIME"@, bool_text(item.is_contributor_only_time_tracking_enabled))]);
    let acc = acc + seq![entry(prefix, "_ALLOW_ONLY_CONTRIBUTORS_TO_TRACK_TIME"@, bool_text(item.is_contributor_only_time_tracking_enabled))];
    lemma_entry_under(prefix, "_ENABLE_ISSUE_DEPENDENCIES"@, bool_text(item.is_issue_dependencies_enabled));
    lemma_under_concat(prefix, acc, seq![entry(prefix, "_ENABLE_ISSUE_DEPENDENCIES"@, bool_text(item.is_issue_dependencies_enabled))]);
}

/// Every name that the environment of an issue tracker outside Gitea assigns starts with `prefix`.
pub proof fn lemma_external_tracker_env_under(prefix: Seq<char>, item: ExternalTracker)
    ensures
        all_under(prefix, external_tracker_env(prefix, item)),
{
    lemma_entry_under(prefix, "_EXTERNAL_TRACKER_URL"@, item.external_tracker_url@);
    let acc = seq![entry(prefix, "_EXTERNAL_TRACKER_URL"@, item.external_tracker_url@)];
    lemma_entry_under(prefix, "_EXTERNAL_TRACKER_FORMAT"@, item.external_tracker_format@);
    lemma_under_concat(prefix, acc, seq![entry(prefix, "_EXTERNAL_TRACKER_FORMAT"@, item.external_tracker_format@)]);
    let acc = acc + seq![entry(prefix, "_EXTERNAL_TRACKER_FORMAT"@, item.external_tracker_format@)];
    lemma_entry_under(prefix, "_EXTERNAL_TRACKER_STYLE"@, item.external_tracker_style@);
    lemma_under_concat(prefix, acc, seq![entry(prefix, "_EXTERNAL_TRACKER_STYLE"@, item.external_tracker_style@)]);
}

/// Every name that the environment of a wiki outside Gitea assigns starts with `prefix`.
pub proof fn lemma_external_wiki_env_under(prefix: Seq<char>, item: ExternalWiki)
    ensures
        all_under(prefix, external_wiki_env(prefix, item)),
{
    lemma_entry_under(prefix, "_EXTERNAL_WIKI_URL"@, item.url@);
}

/// Every name that a part of the environment of a repository assigns starts with `prefix`.
pub proof fn lemma_repository_env_part1_under(prefix: Seq<char>, item: Repository)
    ensures
        all_under(prefix, repository_env_part1(prefix, item)),
    decreases item, 0nat,
{
    lemma_entry_under(prefix, "_ID"@, signed_decimal(item.id as int));
    let acc = seq![entry(prefix, "_ID"@, signed_decimal(item.id as int))];
    lemma_user_env_under(prefix + "_OWNER"@, item.owner);
    lemma_under_longer(prefix, "_OWNER"@, user_env(prefix + "_OWNER"@, item.owner));
    lemma_under_concat(prefix, acc, user_env(prefix + "_OWNER"@, item.owner));
    let acc = acc + user_env(prefix + "_OWNER"@, item.owner);
    lemma_entry_under(prefix, "_NAME"@, item.name@);
    lemma_under_concat(prefix, acc, seq![entry(prefix, "_NAME"@, item.name@)]);
    let acc = acc + seq![entry(prefix, "_NAME"@, item.name@)];
    lemma_entry_under(prefix, "_FULL_NAME"@, item.full_name@);
    lemma_under_concat(prefix, acc, seq![entry(prefix, "_FULL_NAME"@, item.full_name@)]);
    let acc = acc + seq![entry(prefix, "_FULL_NAME"@, item.full_name@)];
    lemma_entry_under(prefix, "_DESCRIPTION"@, item.description@);
    lemma_under_concat(prefix, acc, seq![entry(prefix, "_DESCRIPTION"@, item.description@)]);
    let acc = acc + seq![entry(prefix, "_DESCRIPTION"@, item.description@)];
    lemma_entry_under(prefix, "_EMPTY"@, bool_text(item.is_empty));
    lemma_under_concat(prefix, acc, seq![entry(prefix, "_EMPTY"@, bool_text(item.is_empty))]);
    let acc = acc + seq![entry(prefix, "_EMPTY"@, bool_text(item.is_empty))];
    lemma_entry_under(prefix, "_PRIVATE"@, bool_text(item.is_private));
    lemma_under_concat(prefix, acc, seq![entry(prefix, "_PRIVATE"@, bool_text(item.is_private))]);
    let acc = acc + seq![entry(prefix, "_PRIVATE"@, bool_text(item.is_private))];
    lemma_entry_under(prefix, "_FORK"@, bool_text(item.is_fork));
    lemma_under_concat(prefix, acc, seq![entry(prefix, "_FORK"@, bool_text(item.is_fork))]);
    let acc = acc + seq![entry(prefix, "_FORK"@, bool_text(item.is_fork))];
    lemma_entry_under(prefix, "_TEMPLATE"@, bool_text(item.is_template));
    lemma_under_concat(prefix, acc, seq![entry(prefix, "_TEMPLATE"@, bool_text(item.is_template))]);
    let acc = acc + seq![entry(prefix, "_TEMPLATE"@, bool_text(item.is_template))];
    match &item.parent {
        Some(v) => {
            lemma_repository_env_under(prefix + "_PARENT"@, **v);
            lemma_under_longer(prefix, "_PARENT"@, repository_env(prefix + "_PARENT"@, **v));
        },
        None => {},
    }
    lemma_under_concat(prefix, acc, (match &item.parent { Some(v) => repository_env(prefix + "_PARENT"@, **v), None => seq![] }));
}

/// Every name that a part of the environment of a repository assigns starts with `prefix`.
pub proof fn lemma_repository_env_part2_under(prefix: Seq<char>, item: Repository)
    ensures
        all_under(prefix, repository_env_part2(prefix, item)),
{
    lemma_entry_under(prefix, "_MIRROR"@, bool_text(item.is_mirror));
    let acc = seq![entry(prefix, "_MIRROR"@, bool_text(item.is_mirror))];
    lemma_entry_under(prefix, "_SIZE"@, signed_decimal(item.size_mib as int));
    lemma_under_concat(prefix, acc, seq![entry(prefix, "_SIZE"@, signed_decimal(item.size_mib as int))]);
    let acc = acc + seq![entry(prefix, "_SIZE"@, signed_decimal(item.size_mib as int))];
    lemma_entry_under(prefix, "_HTML_URL"@, item.html_url@);
    lemma_under_concat(prefix, acc, seq![entry(prefix, "_HTML_URL"@, item.html_url@)]);
    let acc = acc + seq![entry(prefix, "_HTML_URL"@, item.html_url@)];
    lemma_entry_under(prefix, "_SSH_URL"@, item.ssh_url@);
    lemma_under_concat(prefix, acc, seq![entry(prefix, "_SSH_URL"@, item.ssh_url@)]);
    let acc = acc + seq![entry(prefix, "_SSH_URL"@, item.ssh_url@)];
    lemma_entry_under(prefix, "_CLONE_URL"@, item.clone_url@);
    lemma_under_concat(prefix, acc, seq![entry(prefix, "_CLONE_URL"@, item.clone_url@)]);
    let acc = acc + seq![entry(prefix, "_CLONE_URL"@, item.clone_url@)];
    lemma_entry_under(prefix, "_ORIGINAL_URL"@, item.original_url@);
    lemma_under_concat(prefix, acc, seq![entry(prefix, "_ORIGINAL_URL"@, item.original_url@)]);
    let acc = acc + seq![entry(prefix, "_ORIGINAL_URL"@, item.original_url@)];
    lemma_entry_under(prefix, "_WEBSITE"@, item.website@);
    lemma_under_concat(prefix, acc, seq![entry(prefix, "_WEBSITE"@, item.website@)]);
    let acc = acc + seq![entry(prefix, "_WEBSITE"@, item.website@)];
    lemma_entry_under(prefix, "_STARS_COUNT"@, signed_decimal(item.stars_count as int));
    lemma_under_concat(prefix, acc, seq![entry(prefix, "_STARS_COUNT"@, signed_decimal(item.stars_count as int))]);
    let acc = acc + seq![entry(prefix, "_STARS_COUNT"@, signed_decimal(item.stars_count as int))];
    lemma_entry_under(prefix, "_FORKS_COUNT"@, signed_decimal(item.forks_count as int));
    lemma_under_concat(prefix, acc, seq![entry(prefix, "_FORKS_COUNT"@, signed_decimal(item.forks_count as int))]);
    let acc = acc + seq![entry(prefix, "_FORKS_COUNT"@, signed_decimal(item.forks_count as int))];
    lemma_entry_under(prefix, "_WATCHERS_COUNT"@, signed_decimal(item.watchers_count as int));
    lemma_under_concat(prefix, acc, seq![entry(prefix, "_WATCHERS_COUNT"@, signed_decimal(item.watchers_count as int))]);
}

/// Every name that a part of the environment of a repository assigns starts with `prefix`.
pub proof fn lemma_repository_env_part3_under(prefix: Seq<char>, item: Repository)
    ensures
        all_under(prefix, repository_env_part3(prefix, item)),
{
    lemma_entry_under(prefix, "_OPEN_ISSUES_COUNT"@, signed_decimal(item.open_issues_count as int));
    let acc = seq![entry(prefix, "_OPEN_ISSUES_COUNT"@, signed_decimal(item.open_issues_count as int))];
    lemma_entry_under(prefix, "_OPEN_PR_COUNTER"@, signed_decimal(item.open_pr_counter as int));
    lemma_under_concat(prefix, acc, seq![entry(prefix, "_OPEN_PR_COUNTER"@, signed_decimal(item.open_pr_counter as int))]);
    let acc = acc + seq![entry(prefix, "_OPEN_PR_COUNTER"@, signed_decimal(item.open_pr_counter as int))];
    lemma_entry_under(prefix, "_RELEASE_COUNTER"@, signed_decimal(item.release_counter as int));
    lemma_under_concat(prefix, acc, seq![entry(prefix, "_RELEASE_COUNTER"@, signed_decimal(item.release_counter as int))]);
    let acc = acc + seq![entry(prefix, "_RELEASE_COUNTER"@, signed_decimal(item.release_counter as int))];
    lemma_entry_under(prefix, "_DEFAULT_BRANCH"@, item.default_branch@);
    lemma_under_concat(prefix, acc, seq![entry(prefix, "_DEFAULT_BRANCH"@, item.default_branch@)]);
    let acc = acc + seq![entry(prefix, "_DEFAULT_BRANCH"@, item.default_branch@)];
    lemma_entry_under(prefix, "_ARCHIVED"@, bool_text(item.is_archived));
    lemma_under_concat(prefix, acc, seq![entry(prefix, "_ARCHIVED"@, bool_text(item.is_archived))]);
    let acc = acc + seq![entry(prefix, "_ARCHIVED"@, bool_text(item.is_archived))];
    lemma_entry_under(prefix, "_CREATED_AT"@, item.created_at@);
    lemma_under_concat(prefix, acc, seq![entry(prefix, "_CREATED_AT"@, item.created_at@)]);
    let acc = acc + seq![entry(prefix, "_CREATED_AT"@, item.created_at@)];
    lemma_entry_under(prefix, "_UPDATED_AT"@, item.updated_at@);
    lemma_under_concat(prefix, acc, seq![entry(prefix, "_UPDATED_AT"@, item.updated_at@)]);
    let acc = acc + seq![entry(prefix, "_UPDATED_AT"@, item.updated_at@)];
    match &item.permissions {
        Some(v) => {
            lemma_permissions_env_under(prefix + "_PERMISSIONS"@, *v);
            lemma_under_longer(prefix, "_PERMISSIONS"@, permissions_env(prefix + "_PERMISSIONS"@, *v));
        },
        None => {},
    }
    lemma_under_concat(prefix, acc, (match &item.permissions { Some(v) => permissions_env(prefix + "_PERMISSIONS"@, *v), None => seq![] }));
    let acc = acc + (match &item.permissions { Some(v) => permissions_env(prefix + "_PERMISSIONS"@, *v), None => seq![] });
    lemma_entry_under(prefix, "_HAS_ISSUES"@, bool_text(item.has_issues));
    lemma_under_concat(prefix, acc, seq![entry(prefix, "_HAS_ISSUES"@, bool_text(item.has_issues))]);
    let acc = acc + seq![entry(prefix, "_HAS_ISSUES"@, bool_text(item.has_issues))];
    match &item.internal_tracker {
        Some(v) => {
            lemma_internal_tracker_env_under(prefix + "_INTERNAL_TRACKER"@, *v);
            lemma_under_longer(prefix, "_INTERNAL_TRACKER"@, internal_tracker_env(prefix + "_INTERNAL_TRACKER"@, *v));
        },
        None => {},
    }
    lemma_under_concat(prefix, acc, (match &item.internal_tracker { Some(v) => internal_tracker_env(prefix + "_INTERNAL_TRACKER"@, *v), None => seq![] }));
}

/// Every name that a part of the environment of a repository assigns starts with `prefix`.
pub proof fn lemma_repository_env_part4_under(prefix: Seq<char>, item: Repository)
    ensures
        all_under(prefix, repository_env_part4(prefix, item)),
{
    match &item.external_tracker {
        Some(v) => {
            lemma_external_tracker_env_under(prefix + "_EXTERNAL_TRACKER"@, *v);
            lemma_under_longer(prefix, "_EXTERNAL_TRACKER"@, external_tracker_env(prefix + "_EXTERNAL_TRACKER"@, *v));
        },
        None => {},
    }
    let acc = (match &item.external_tracker { Some(v) => external_tracker_env(prefix + "_EXTERNAL_TRACKER"@, *v), None => seq![] });
    lemma_entry_under(prefix, "_HAS_WIKI"@, bool_text(item.has_wiki));
    lemma_under_concat(prefix, acc, seq![entry(prefix, "_HAS_WIKI"@, bool_text(item.has_wiki))]);
    let acc = acc + seq![entry(prefix, "_HAS_WIKI"@, bool_text(item.has_wiki))];
    match &item.external_wiki {
        Some(v) => {
            lemma_external_wiki_env_under(prefix + "_EXTERNAL_WIKI"@, *v);
            lemma_under_longer(prefix, "_EXTERNAL_WIKI"@, external_wiki_env(prefix + "_EXTERNAL_WIKI"@, *v));
        },
        None => {},
    }
    lemma_under_concat(prefix, acc, (match &item.external_wiki { Some(v) => external_wiki_env(prefix + "_EXTERNAL_WIKI"@, *v), None => seq![] }));
    let acc = acc + (match &item.external_wiki { Some(v) => external_wiki_env(prefix + "_EXTERNAL_WIKI"@, *v), None => seq![] });
    lemma_entry_under(prefix, "_HAS_PULL_REQUESTS"@, bool_text(item.has_pull_requests));
    lemma_under_concat(prefix, acc, seq![entry(prefix, "_HAS_PULL_REQUESTS"@, bool_text(item.has_pull_requests))]);
    let acc = acc + seq![entry(prefix, "_HAS_PULL_REQUESTS"@, bool_text(item.has_pull_requests))];
    lemma_entry_under(prefix, "_HAS_PROJECTS"@, bool_text(item.has_projects));
    lemma_under_concat(prefix, acc, seq![entry(prefix, "_HAS_PROJECTS"@, bool_text(item.has_projects))]);
    let acc = acc + seq![entry(prefix, "_HAS_PROJECTS"@, bool_text(item.has_projects))];
    lemma_entry_under(prefix, "_IGNORE_WHITESPACE_CONFLICTS"@, bool_text(item.is_whitespace_conflict_ignored));
    lemma_under_concat(prefix, acc, seq![entry(prefix, "_IGNORE_WHITESPACE_CONFLICTS"@, bool_text(item.is_whitespace_conflict_ignored))]);
    let acc = acc + seq![entry(prefix, "_IGNORE_WHITESPACE_CONFLICTS"@, bool_text(item.is_whitespace_conflict_ignored))];
    lemma_entry_under(prefix, "_ALLOW_MERGE_COMMITS"@, bool_text(item.allow_merge_commits));
    lemma_under_concat(prefix, acc, seq![entry(prefix, "_ALLOW_MERGE_COMMITS"@, bool_text(item.allow_merge_commits))]);
    let acc = acc + seq![entry(prefix, "_ALLOW_MERGE_COMMITS"@, bool_text(item.allow_merge_commits))];
    lemma_entry_under(prefix, "_ALLOW_REBASE"@, bool_text(item.allow_rebase));
    lemma_under_concat(prefix, acc, seq![entry(prefix, "_ALLOW_REBASE"@, bool_text(item.allow_rebase))]);
    let acc = acc + seq![entry(prefix, "_ALLOW_REBASE"@, bool_text(item.allow_rebase))];
    lemma_entry_under(prefix, "_ALLOW_REBASE_EXPLICIT"@, bool_text(item.allow_rebase_explicit));
    lemma_under_concat(prefix, acc, seq![entry(prefix, "_ALLOW_REBASE_EXPLICIT"@, bool_text(item.allow_rebase_explicit))]);
    let acc = acc + seq![entry(prefix, "_ALLOW_REBASE_EXPLICIT"@, bool_text(item.allow_rebase_explicit))];
    lemma_entry_under(prefix, "_ALLOW_SQUASH_MERGE"@, bool_text(item.allow_squash_merge));
    lemma_under_concat(prefix, acc, seq![entry(prefix, "_ALLOW_SQUASH_MERGE"@, bool_text(item.allow_squash_merge))]);
}

/// Every name that a part of the environment of a repository assigns starts with `prefix`.
pub proof fn lemma_repository_env_part5_under(prefix: Seq<char>, item: Repository)
    ensures
        all_under(prefix, repository_env_part5(prefix, item)),
{
    lemma_entry_under(prefix, "_AVATAR_URL"@, item.avatar_url@);
    let acc = seq![entry(prefix, "_AVATAR_URL"@, item.avatar_url@)];
    lemma_entry_under(prefix, "_INTERNAL"@, bool_text(item.is_internal));
    lemma_under_concat(prefix, acc, seq![entry(prefix, "_INTERNAL"@, bool_text(item.is_internal))]);
}

/// Every name that the environment of a repository assigns starts with `prefix`.
pub proof fn lemma_repository_env_under(prefix: Seq<char>, item: Repository)
    ensures
        all_under(prefix, repository_env(prefix, item)),
    decreases item, 1nat,
{
    lemma_repository_env_part1_under(prefix, item);
    let acc = repository_env_part1(prefix, item);
    lemma_repository_env_part2_under(prefix, item);
    lemma_under_concat(prefix, acc, repository_env_part2(prefix, item));
    let acc = acc + repository_env_part2(prefix, item);
    lemma_repository_env_part3_under(prefix, item);
    lemma_under_concat(prefix, acc, repository_env_part3(prefix, item));
    let acc = acc + repository_env_part3(prefix, item);
    lemma_repository_env_part4_under(prefix, item);
    lemma_under_concat(prefix, acc, repository_env_part4(prefix, item));
    let acc = acc + repository_env_part4(prefix, item);
    lemma_repository_env_part5_under(prefix, item);
    lemma_under_concat(prefix, acc, repository_env_part5(prefix, item));
}

/// Every name that the environment of the pull request side of an issue assigns starts with `prefix`.
pub proof fn lemma_pull_request_meta_env_under(prefix: Seq<char>, item: PullRequestMeta)
    ensures
        all_under(prefix, pull_request_meta_env(prefix, item)),
{
    lemma_entry_under(prefix, "_MERGED"@, bool_text(item.is_merged));
    let acc = seq![entry(prefix, "_MERGED"@, bool_text(item.is_merged))];
    lemma_entry_under(prefix, "_MERGED_AT"@, item.time_merged@);
    lemma_under_concat(prefix, acc, seq![entry(prefix, "_MERGED_AT"@, item.time_merged@)]);
}

/// Every name that the environment of the repository an issue belongs to assigns starts with `prefix`.
pub proof fn lemma_repository_meta_env_under(prefix: Seq<char>, item: RepositoryMeta)
    ensures
        all_under(prefix, repository_meta_env(prefix, item)),
{
    lemma_entry_under(prefix, "_ID"@, signed_decimal(item.id as int));
    let acc = seq![entry(prefix, "_ID"@, signed_decimal(item.id as int))];
    lemma_entry_under(prefix, "_NAME"@, item.name@);
    lemma_under_concat(prefix, acc, seq![entry(prefix, "_NAME"@, item.name@)]);
    let acc = acc + seq![entry(prefix, "_NAME"@, item.name@)];
    lemma_entry_under(prefix, "_OWNER"@, item.owner@);
    lemma_under_concat(prefix, acc, seq![entry(prefix, "_OWNER"@, item.owner@)]);
    let acc = acc + seq![entry(prefix, "_OWNER"@, item.owner@)];
    lemma_entry_under(prefix, "_FULL_NAME"@, item.full_name@);
    lemma_under_concat(prefix, acc, seq![entry(prefix, "_FULL_NAME"@, item.full_name@)]);
}

/// Every name that a part of the environment of an issue assigns starts with `prefix`.
pub proof fn lemma_issue_env_part1_under(prefix: Seq<char>, item: Issue)
    ensures
        all_under(prefix, issue_env_part1(prefix, item)),
{
    lemma_entry_under(prefix, "_ID"@, signed_decimal(item.id as int));
    let acc = seq![entry(prefix, "_ID"@, signed_decimal(item.id as int))];
    lemma_entry_under(prefix, "_URL"@, item.api_url@);
    lemma_under_concat(prefix, acc, seq![entry(prefix, "_URL"@, item.api_url@)]);
    let acc = acc + seq![entry(prefix, "_URL"@, item.api_url@)];
    lemma_entry_under(prefix, "_HTML_URL"@, item.html_url@);
    lemma_under_concat(prefix, acc, seq![entry(prefix, "_HTML_URL"@, item.html_url@)]);
    let acc = acc + seq![entry(prefix, "_HTML_URL"@, item.html_url@)];
    lemma_entry_under(prefix, "_NUMBER"@, signed_decimal(item.number as int));
    lemma_under_concat(prefix, acc, seq![entry(prefix, "_NUMBER"@, signed_decimal(item.number as int))]);
    let acc = acc + seq![entry(prefix, "_NUMBER"@, signed_decimal(item.number as int))];
    lemma_user_env_under(prefix + "_USER"@, item.user);
    lemma_under_longer(prefix, "_USER"@, user_env(prefix + "_USER"@, item.user));
    lemma_under_concat(prefix, acc, user_env(prefix + "_USER"@, item.user));
    let acc = acc + user_env(prefix + "_USER"@, item.user);
    lemma_entry_under(prefix, "_ORIGINAL_AUTHOR"@, item.original_author@);
    lemma_under_concat(prefix, acc, seq![entry(prefix, "_ORIGINAL_AUTHOR"@, item.original_author@)]);
    let acc = acc + seq![entry(prefix, "_ORIGINAL_AUTHOR"@, item.original_author@)];
    lemma_entry_under(prefix, "_ORIGINAL_AUTHOR_ID"@, signed_decimal(item.original_author_id as int));
    lemma_under_concat(prefix, acc, seq![entry(prefix, "_ORIGINAL_AUTHOR_ID"@, signed_decimal(item.original_author_id as int))]);
    let acc = acc + seq![entry(prefix, "_ORIGINAL_AUTHOR_ID"@, signed_decimal(item.original_author_id as int))];
    lemma_entry_under(prefix, "_TITLE"@, item.title@);
    lemma_under_concat(prefix, acc, seq![entry(prefix, "_TITLE"@, item.title@)]);
    let acc = acc + seq![entry(prefix, "_TITLE"@, item.title@)];
    lemma_entry_under(prefix, "_BODY"@, item.body@);
    lemma_under_concat(prefix, acc, seq![entry(prefix, "_BODY"@, item.body@)]);
    let acc = acc + seq![entry(prefix, "_BODY"@, item.body@)];
    lemma_labels_env_under(prefix + "_LABELS_"@, item.labels@);
    lemma_under_longer(prefix, "_LABELS_"@, labels_env(prefix + "_LABELS_"@, item.labels@));
    lemma_under_concat(prefix, acc, labels_env(prefix + "_LABELS_"@, item.labels@));
}

/// Every name that a part of the environment of an issue assigns starts with `prefix`.
pub proof fn lemma_issue_env_part2_under(prefix: Seq<char>, item: Issue)
    ensures
        all_under(prefix, issue_env_part2(prefix, item)),
{
    match &item.milestone {
        Some(v) => {
            lemma_milestone_env_under(prefix + "_MILESTONE"@, *v);
            lemma_under_longer(prefix, "_MILESTONE"@, milestone_env(prefix + "_MILESTONE"@, *v));
        },
        None => {},
    }
    let acc = (match &item.milestone { Some(v) => milestone_env(prefix + "_MILESTONE"@, *v), None => seq![] });
    match &item.assignee {
        Some(v) => {
            lemma_user_env_under(prefix + "_ASSIGNEE"@, *v);
            lemma_under_longer(prefix, "_ASSIGNEE"@, user_env(prefix + "_ASSIGNEE"@, *v));
        },
        None => {},
    }
    lemma_under_concat(prefix, acc, (match &item.assignee { Some(v) => user_env(prefix + "_ASSIGNEE"@, *v), None => seq![] }));
    let acc = acc + (match &item.assignee { Some(v) => user_env(prefix + "_ASSIGNEE"@, *v), None => seq![] });
    match &item.assignees {
        Some(v) => {
            lemma_users_env_under(prefix + "_ASSIGNEES_"@, v@);
            lemma_under_longer(prefix, "_ASSIGNEES_"@, users_env(prefix + "_ASSIGNEES_"@, v@));
        },
        None => {},
    }
    lemma_under_concat(prefix, acc, (match &item.assignees { Some(v) => users_env(prefix + "_ASSIGNEES_"@, v@), None => seq![] }));
    let acc = acc + (match &item.assignees { Some(v) => users_env(prefix + "_ASSIGNEES_"@, v@), None => seq![] });
    lemma_entry_under(prefix, "_STATE"@, item.state@);
    lemma_under_concat(prefix, acc, seq![entry(prefix, "_STATE"@, item.state@)]);
    let acc = acc + seq![entry(prefix, "_STATE"@, item.state@)];
    lemma_entry_under(prefix, "_IS_LOCKED"@, bool_text(item.is_locked));
    lemma_under_concat(prefix, acc, seq![entry(prefix, "_IS_LOCKED"@, bool_text(item.is_locked))]);
    let acc = acc + seq![entry(prefix, "_IS_LOCKED"@, bool_text(item.is_locked))];
    lemma_entry_under(prefix, "_COMMENTS"@, signed_decimal(item.comment_count as int));
    lemma_under_concat(prefix, acc, seq![entry(prefix, "_COMMENTS"@, signed_decimal(item.comment_count as int))]);
    let acc = acc + seq![entry(prefix, "_COMMENTS"@, signed_decimal(item.comment_count as int))];
    lemma_entry_under(prefix, "_CREATED_AT"@, item.created_at@);
    lemma_under_concat(prefix, acc, seq![entry(prefix, "_CREATED_AT"@, item.created_at@)]);
    let acc = acc + seq![entry(prefix, "_CREATED_AT"@, item.created_at@)];
    lemma_entry_under(prefix, "_UPDATED_AT"@, item.updated_at@);
    lemma_under_concat(prefix, acc, seq![entry(prefix, "_UPDATED_AT"@, item.updated_at@)]);
    let acc = acc + seq![entry(prefix, "_UPDATED_AT"@, item.updated_at@)];
    match &item.closed_at {
        Some(v) => lemma_entry_under(prefix, "_CLOSED_AT"@, v@),
        None => {},
    }
    lemma_under_concat(prefix, acc, (match &item.closed_at { Some(v) => seq![entry(prefix, "_CLOSED_AT"@, v@)], None => seq![] }));
    let acc = acc + (match &item.closed_at { Some(v) => seq![entry(prefix, "_CLOSED_AT"@, v@)], None => seq![] });
    match &item.due_date {
        Some(v) => lemma_entry_under(prefix, "_DUE_DATE"@, v@),
        None => {},
    }
    lemma_under_concat(prefix, acc, (match &item.due_date { Some(v) => seq![entry(prefix, "_DUE_DATE"@, v@)], None => seq![] }));
}

/// Every name that a part of the environment of an issue assigns starts with `prefix`.
pub proof fn lemma_issue_env_part3_under(prefix: Seq<char>, item: Issue)
    ensures
        all_under(prefix, issue_env_part3(prefix, item)),
{
    match &item.pull_request_meta {
        Some(v) => {
            lemma_pull_request_meta_env_under(prefix + "_PULL_REQUEST"@, *v);
            lemma_under_longer(prefix, "_PULL_REQUEST"@, pull_request_meta_env(prefix + "_PULL_REQUEST"@, *v));
        },
        None => {},
    }
    let acc = (match &item.pull_request_meta { Some(v) => pull_request_meta_env(prefix + "_PULL_REQUEST"@, *v), None => seq![] });
    match &item.repository_meta {
        Some(v) => {
            lemma_repository_meta_env_under(prefix + "_REPOSITORY"@, *v);
            lemma_under_longer(prefix, "_REPOSITORY"@, repository_meta_env(prefix + "_REPOSITORY"@, *v));
        },
        None => {},
    }
    lemma_under_concat(prefix, acc, (match &item.repository_meta { Some(v) => repository_meta_env(prefix + "_REPOSITORY"@, *v), None => seq![] }));
}

/// Every name that the environment of an issue assigns starts with `prefix`.
pub proof fn lemma_issue_env_under(prefix: Seq<char>, item: Issue)
    ensures
        all_under(prefix, issue_env(prefix, item)),
{
    lemma_issue_env_part1_under(prefix, item);
    let acc = issue_env_part1(prefix, item);
    lemma_issue_env_part2_under(prefix, item);
    lemma_under_concat(prefix, acc, issue_env_part2(prefix, item));
    let acc = acc + issue_env_part2(prefix, item);
    lemma_issue_env_part3_under(prefix, item);
    lemma_under_concat(prefix, acc, issue_env_part3(prefix, item));
}

/// Every name that the environment of a comment assigns starts with `prefix`.
pub proof fn lemma_comment_env_under(prefix: Seq<char>, item: Comment)
    ensures
        all_under(prefix, comment_env(prefix, item)),
{
    lemma_entry_under(prefix, "_ID"@, signed_decimal(item.id as int));
    let acc = seq![entry(prefix, "_ID"@, signed_decimal(item.id as int))];
    lemma_entry_under(prefix, "_HTML_URL"@, item.html_url@);
    lemma_under_concat(prefix, acc, seq![entry(prefix, "_HTML_URL"@, item.html_url@)]);
    let acc = acc + seq![entry(prefix, "_HTML_URL"@, item.html_url@)];
    lemma_entry_under(prefix, "_PULL_REQUEST_URL"@, item.pull_request_url@);
    lemma_under_concat(prefix, acc, seq![entry(prefix, "_PULL_REQUEST_URL"@, item.pull_request_url@)]);
    let acc = acc + seq![entry(prefix, "_PULL_REQUEST_URL"@, item.pull_request_url@)];
    lemma_entry_under(prefix, "_ISSUE_URL"@, item.issue_url@);
    lemma_under_concat(prefix, acc, seq![entry(prefix, "_ISSUE_URL"@, item.issue_url@)]);
    let acc = acc + seq![entry(prefix, "_ISSUE_URL"@, item.issue_url@)];
    lemma_user_env_under(prefix + "_USER"@, item.user);
    lemma_under_longer(prefix, "_USER"@, user_env(prefix + "_USER"@, item.user));
    lemma_under_concat(prefix, acc, user_env(prefix + "_USER"@, item.user));
    let acc = acc + user_env(prefix + "_USER"@, item.user);
    lemma_entry_under(prefix, "_ORIGINAL_AUTHOR"@, item.original_author@);
    lemma_under_concat(prefix, acc, seq![entry(prefix, "_ORIGINAL_AUTHOR"@, item.original_author@)]);
    let acc = acc + seq![entry(prefix, "_ORIGINAL_AUTHOR"@, item.original_author@)];
    lemma_entry_under(prefix, "_ORIGINAL_AUTHOR_ID"@, signed_decimal(item.original_author_id as int));
    lemma_under_concat(prefix, acc, seq![entry(prefix, "_ORIGINAL_AUTHOR_ID"@, signed_decimal(item.original_author_id as int))]);
    let acc = acc + seq![entry(prefix, "_ORIGINAL_AUTHOR_ID"@, signed_decimal(item.original_author_id as int))];
    lemma_entry_under(prefix, "_BODY"@, item.comment_text@);
    lemma_under_concat(prefix, acc, seq![entry(prefix, "_BODY"@, item.comment_text@)]);
    let acc = acc + seq![entry(prefix, "_BODY"@, item.comment_text@)];
    lemma_entry_under(prefix, "_CREATED_AT"@, item.created_at@);
    lemma_under_concat(prefix, acc, seq![entry(prefix, "_CREATED_AT"@, item.created_at@)]);
    let acc = acc + seq![entry(prefix, "_CREATED_AT"@, item.created_at@)];
    lemma_entry_under(prefix, "_UPDATED_AT"@, item.updated_at@);
    lemma_under_concat(prefix, acc, seq![entry(prefix, "_UPDATED_AT"@, item.updated_at@)]);
}

/// Every name that the environment of an earlier value assigns starts with `prefix`.
pub proof fn lemma_earlier_value_env_under(prefix: Seq<char>, item: ChangesFromPayload)
    ensures
        all_under(prefix, earlier_value_env(prefix, item)),
{
    lemma_entry_under(prefix, "_FROM"@, item.from@);
}

/// Every name that the environment of what an edit changed assigns starts with `prefix`.
pub proof fn lemma_changes_env_under(prefix: Seq<char>, item: Changes)
    ensures
        all_under(prefix, changes_env(prefix, item)),
{
    match &item.title {
        Some(v) => {
            lemma_earlier_value_env_under(prefix + "_TITLE"@, *v);
            lemma_under_longer(prefix, "_TITLE"@, earlier_value_env(prefix + "_TITLE"@, *v));
        },
        None => {},
    }
    let acc = (match &item.title { Some(v) => earlier_value_env(prefix + "_TITLE"@, *v), None => seq![] });
    match &item.body {
        Some(v) => {
            lemma_earlier_value_env_under(prefix + "_BODY"@, *v);
            lemma_under_longer(prefix, "_BODY"@, earlier_value_env(prefix + "_BODY"@, *v));
        },
        None => {},
    }
    lemma_under_concat(prefix, acc, (match &item.body { Some(v) => earlier_value_env(prefix + "_BODY"@, *v), None => seq![] }));
    let acc = acc + (match &item.body { Some(v) => earlier_value_env(prefix + "_BODY"@, *v), None => seq![] });
    match &item.ref_path {
        Some(v) => {
            lemma_earlier_value_env_under(prefix + "_REF"@, *v);
            lemma_under_longer(prefix, "_REF"@, earlier_value_env(prefix + "_REF"@, *v));
        },
        None => {},
    }
    lemma_under_concat(prefix, acc, (match &item.ref_path { Some(v) => earlier_value_env(prefix + "_REF"@, *v), None => seq![] }));
}

/// Every name that the environment of a file attached to a release assigns starts with `prefix`.
pub proof fn lemma_attachment_env_under(prefix: Seq<char>, item: Attachment)
    ensures
        all_under(prefix, attachment_env(prefix, item)),
{
    lemma_entry_under(prefix, "_ID"@, signed_decimal(item.id as int));
    let acc = seq![entry(prefix, "_ID"@, signed_decimal(item.id as int))];
    lemma_entry_under(prefix, "_NAME"@, item.name@);
    lemma_under_concat(prefix, acc, seq![entry(prefix, "_NAME"@, item.name@)]);
    let acc = acc + seq![entry(prefix, "_NAME"@, item.name@)];
    lemma_entry_under(prefix, "_SIZE"@, signed_decimal(item.size as int));
    lemma_under_concat(prefix, acc, seq![entry(prefix, "_SIZE"@, signed_decimal(item.size as int))]);
    let acc = acc + seq![entry(prefix, "_SIZE"@, signed_decimal(item.size as int))];
    lemma_entry_under(prefix, "_DOWNLOAD_COUNT"@, signed_decimal(item.download_count as int));
    lemma_under_concat(prefix, acc, seq![entry(prefix, "_DOWNLOAD_COUNT"@, signed_decimal(item.download_count as int))]);
    let acc = acc + seq![entry(prefix, "_DOWNLOAD_COUNT"@, signed_decimal(item.download_count as int))];
    lemma_entry_under(prefix, "_CREATED_AT"@, item.created_at@);
    lemma_under_concat(prefix, acc, seq![entry(prefix, "_CREATED_AT"@, item.created_at@)]);
    let acc = acc + seq![entry(prefix, "_CREATED_AT"@, item.created_at@)];
    lemma_entry_under(prefix, "_UUID"@, item.uuid@);
    lemma_under_concat(prefix, acc, seq![entry(prefix, "_UUID"@, item.uuid@)]);
    let acc = acc + seq![entry(prefix, "_UUID"@, item.uuid@)];
    lemma_entry_under(prefix, "_BROWSER_DOWNLOAD_URL"@, item.browser_download_url@);
    lemma_under_concat(prefix, acc, seq![entry(prefix, "_BROWSER_DOWNLOAD_URL"@, item.browser_download_url@)]);
}

/// Every name that a part of the environment of a release assigns starts with `prefix`.
pub proof fn lemma_release_env_part1_under(prefix: Seq<char>, item: Release)
    ensures
        all_under(prefix, release_env_part1(prefix, item)),
{
    lemma_entry_under(prefix, "_ID"@, signed_decimal(item.id as int));
    let acc = seq![entry(prefix, "_ID"@, signed_decimal(item.id as int))];
    lemma_entry_under(prefix, "_TAG_NAME"@, item.tag_name@);
    lemma_under_concat(prefix, acc, seq![entry(prefix, "_TAG_NAME"@, item.tag_name@)]);
    let acc = acc + seq![entry(prefix, "_TAG_NAME"@, item.tag_name@)];
    lemma_entry_under(prefix, "_TARGET_COMMITISH"@, item.target_commitish@);
    lemma_under_concat(prefix, acc, seq![entry(prefix, "_TARGET_COMMITISH"@, item.target_commitish@)]);
    let acc = acc + seq![entry(prefix, "_TARGET_COMMITISH"@, item.target_commitish@)];
    lemma_entry_under(prefix, "_NAME"@, item.name@);
    lemma_under_concat(prefix, acc, seq![entry(prefix, "_NAME"@, item.name@)]);
    let acc = acc + seq![entry(prefix, "_NAME"@, item.name@)];
    lemma_entry_under(prefix, "_BODY"@, item.body@);
    lemma_under_concat(prefix, acc, seq![entry(prefix, "_BODY"@, item.body@)]);
    let acc = acc + seq![entry(prefix, "_BODY"@, item.body@)];
    lemma_entry_under(prefix, "_URL"@, item.api_url@);
    lemma_under_concat(prefix, acc, seq![entry(prefix, "_URL"@, item.api_url@)]);
    let acc = acc + seq![entry(prefix, "_URL"@, item.api_url@)];
    lemma_entry_under(prefix, "_HTML_URL"@, item.html_url@);
    lemma_under_concat(prefix, acc, seq![entry(prefix, "_HTML_URL"@, item.html_url@)]);
    let acc = acc + seq![entry(prefix, "_HTML_URL"@, item.html_url@)];
    lemma_entry_under(prefix, "_TARBALL_URL"@, item.tarball_url@);
    lemma_under_concat(prefix, acc, seq![entry(prefix, "_TARBALL_URL"@, item.tarball_url@)]);
    let acc = acc + seq![entry(prefix, "_TARBALL_URL"@, item.tarball_url@)];
    lemma_entry_under(prefix, "_ZIPBALL_URL"@, item.zipball_url@);
    lemma_under_concat(prefix, acc, seq![entry(prefix, "_ZIPBALL_URL"@, item.zipball_url@)]);
    let acc = acc + seq![entry(prefix, "_ZIPBALL_URL"@, item.zipball_url@)];
    lemma_entry_under(prefix, "_DRAFT"@, bool_text(item.is_draft));
    lemma_under_concat(prefix, acc, seq![entry(prefix, "_DRAFT"@, bool_text(item.is_draft))]);
}

/// Every name that a part of the environment of a release assigns starts with `prefix`.
pub proof fn lemma_release_env_part2_under(prefix: Seq<char>, item: Release)
    ensures
        all_under(prefix, release_env_part2(prefix, item)),
{
    lemma_entry_under(prefix, "_PRELEASE"@, bool_text(item.is_prerelease));
    let acc = seq![entry(prefix, "_PRELEASE"@, bool_text(item.is_prerelease))];
    lemma_entry_under(prefix, "_CREATED_AT"@, item.created_at@);
    lemma_under_concat(prefix, acc, seq![entry(prefix, "_CREATED_AT"@, item.created_at@)]);
    let acc = acc + seq![entry(prefix, "_CREATED_AT"@, item.created_at@)];
    lemma_entry_under(prefix, "_PUBLISHED_AT"@, item.published_at@);
    lemma_under_concat(prefix, acc, seq![entry(prefix, "_PUBLISHED_AT"@, item.published_at@)]);
    let acc = acc + seq![entry(prefix, "_PUBLISHED_AT"@, item.published_at@)];
    lemma_user_env_under(prefix + "_AUTHOR"@, item.author);
    lemma_under_longer(prefix, "_AUTHOR"@, user_env(prefix + "_AUTHOR"@, item.author));
    lemma_under_concat(prefix, acc, user_env(prefix + "_AUTHOR"@, item.author));
    let acc = acc + user_env(prefix + "_AUTHOR"@, item.author);
    lemma_attachments_env_under(prefix + "_ASSETS_"@, item.assets@);
    lemma_under_longer(prefix, "_ASSETS_"@, attachments_env(prefix + "_ASSETS_"@, item.assets@));
    lemma_under_concat(prefix, acc, attachments_env(prefix + "_ASSETS_"@, item.assets@));
}

/// Every name that the environment of a release assigns starts with `prefix`.
pub proof fn lemma_release_env_under(prefix: Seq<char>, item: Release)
    ensures
        all_under(prefix, release_env(prefix, item)),
{
    lemma_release_env_part1_under(prefix, item);
    let acc = release_env_part1(prefix, item);
    lemma_release_env_part2_under(prefix, item);
    lemma_under_concat(prefix, acc, release_env_part2(prefix, item));
}

/// Every name that the environment of one side of a pull request assigns starts with `prefix`.
pub proof fn lemma_branch_env_under(prefix: Seq<char>, item: PRBranchInfo)
    ensures
        all_under(prefix, branch_env(prefix, item)),
{
    lemma_entry_under(prefix, "_LABEL"@, item.label@);
    let acc = seq![entry(prefix, "_LABEL"@, item.label@)];
    lemma_entry_under(prefix, "_REF"@, item.ref_path@);
    lemma_under_concat(prefix, acc, seq![entry(prefix, "_REF"@, item.ref_path@)]);
    let acc = acc + seq![entry(prefix, "_REF"@, item.ref_path@)];
    lemma_entry_under(prefix, "_SHA"@, item.sha@);
    lemma_under_concat(prefix, acc, seq![entry(prefix, "_SHA"@, item.sha@)]);
    let acc = acc + seq![entry(prefix, "_SHA"@, item.sha@)];
    lemma_entry_under(prefix, "_REPO_ID"@, signed_decimal(item.repo_id as int));
    lemma_under_concat(prefix, acc, seq![entry(prefix, "_REPO_ID"@, signed_decimal(item.repo_id as int))]);
    let acc = acc + seq![entry(prefix, "_REPO_ID"@, signed_decimal(item.repo_id as int))];
    lemma_repository_env_under(prefix + "_REPO"@, item.repository);
    lemma_under_longer(prefix, "_REPO"@, repository_env(prefix + "_REPO"@, item.repository));
    lemma_under_concat(prefix, acc, repository_env(prefix + "_REPO"@, item.repository));
}

/// Every name that a part of the environment of a pull request assigns starts with `prefix`.
pub proof fn lemma_pull_request_env_part1_under(prefix: Seq<char>, item: PullRequest)
    ensures
        all_under(prefix, pull_request_env_part1(prefix, item)),
{
    lemma_entry_under(prefix, "_ID"@, signed_decimal(item.id as int));
    let acc = seq![entry(prefix, "_ID"@, signed_decimal(item.id as int))];
    lemma_entry_under(prefix, "_URL"@, item.url@);
    lemma_under_concat(prefix, acc, seq![entry(prefix, "_URL"@, item.url@)]);
    let acc = acc + seq![entry(prefix, "_URL"@, item.url@)];
    lemma_entry_under(prefix, "_NUMBER"@, signed_decimal(item.number as int));
    lemma_under_concat(prefix, acc, seq![entry(prefix, "_NUMBER"@, signed_decimal(item.number as int))]);
    let acc = acc + seq![entry(prefix, "_NUMBER"@, signed_decimal(item.number as int))];
    lemma_user_env_under(prefix + "_USER"@, item.user);
    lemma_under_longer(prefix, "_USER"@, user_env(prefix + "_USER"@, item.user));
    lemma_under_concat(prefix, acc, user_env(prefix + "_USER"@, item.user));
    let acc = acc + user_env(prefix + "_USER"@, item.user);
    lemma_entry_under(prefix, "_TITLE"@, item.title@);
    lemma_under_concat(prefix, acc, seq![entry(prefix, "_TITLE"@, item.title@)]);
    let acc = acc + seq![entry(prefix, "_TITLE"@, item.title@)];
    lemma_entry_under(prefix, "_BODY"@, item.body@);
    lemma_under_concat(prefix, acc, seq![entry(prefix, "_BODY"@, item.body@)]);
    let acc = acc + seq![entry(prefix, "_BODY"@, item.body@)];
    match &item.milestone {
        Some(v) => {
            lemma_milestone_env_under(prefix + "_MILESTONE"@, *v);
            lemma_under_longer(prefix, "_MILESTONE"@, milestone_env(prefix + "_MILESTONE"@, *v));
        },
        None => {},
    }
    lemma_under_concat(prefix, acc, (match &item.milestone { Some(v) => milestone_env(prefix + "_MILESTONE"@, *v), None => seq![] }));
    let acc = acc + (match &item.milestone { Some(v) => milestone_env(prefix + "_MILESTONE"@, *v), None => seq![] });
    match &item.assignee {
        Some(v) => {
            lemma_user_env_under(prefix + "_ASSIGNEE"@, *v);
            lemma_under_longer(prefix, "_ASSIGNEE"@, user_env(prefix + "_ASSIGNEE"@, *v));
        },
        None => {},
    }
    lemma_under_concat(prefix, acc, (match &item.assignee { Some(v) => user_env(prefix + "_ASSIGNEE"@, *v), None => seq![] }));
    let acc = acc + (match &item.assignee { Some(v) => user_env(prefix + "_ASSIGNEE"@, *v), None => seq![] });
    match &item.assignees {
        Some(v) => {
            lemma_users_env_under(prefix + "_ASSIGNEES_"@, v@);
            lemma_under_longer(prefix, "_ASSIGNEES_"@, users_env(prefix + "_ASSIGNEES_"@, v@));
        },
        None => {},
    }
    lemma_under_concat(prefix, acc, (match &item.assignees { Some(v) => users_env(prefix + "_ASSIGNEES_"@, v@), None => seq![] }));
    let acc = acc + (match &item.assignees { Some(v) => users_env(prefix + "_ASSIGNEES_"@, v@), None => seq![] });
    lemma_entry_under(prefix, "_STATE"@, item.state@);
    lemma_under_concat(prefix, acc, seq![entry(prefix, "_STATE"@, item.state@)]);
}

/// Every name that a part of the environment of a pull request assigns starts with `prefix`.
pub proof fn lemma_pull_request_env_part2_under(prefix: Seq<char>, item: PullRequest)
    ensures
        all_under(prefix, pull_request_env_part2(prefix, item)),
{
    lemma_entry_under(prefix, "_IS_LOCKED"@, bool_text(item.is_locked));
    let acc = seq![entry(prefix, "_IS_LOCKED"@, bool_text(item.is_locked))];
    lemma_entry_under(prefix, "_COMMENTS"@, signed_decimal(item.comment_count as int));
    lemma_under_concat(prefix, acc, seq![entry(prefix, "_COMMENTS"@, signed_decimal(item.comment_count as int))]);
    let acc = acc + seq![entry(prefix, "_COMMENTS"@, signed_decimal(item.comment_count as int))];
    lemma_entry_under(prefix, "_HTML_URL"@, item.html_url@);
    lemma_under_concat(prefix, acc, seq![entry(prefix, "_HTML_URL"@, item.html_url@)]);
    let acc = acc + seq![entry(prefix, "_HTML_URL"@, item.html_url@)];
    lemma_entry_under(prefix, "_DIFF_URL"@, item.diff_url@);
    lemma_under_concat(prefix, acc, seq![entry(prefix, "_DIFF_URL"@, item.diff_url@)]);
    let acc = acc + seq![entry(prefix, "_DIFF_URL"@, item.diff_url@)];
    lemma_entry_under(prefix, "_PATCH_URL"@, item.patch_url@);
    lemma_under_concat(prefix, acc, seq![entry(prefix, "_PATCH_URL"@, item.patch_url@)]);
    let acc = acc + seq![entry(prefix, "_PATCH_URL"@, item.patch_url@)];
    lemma_entry_under(prefix, "_MERGEABLE"@, bool_text(item.is_mergeable));
    lemma_under_concat(prefix, acc, seq![entry(prefix, "_MERGEABLE"@, bool_text(item.is_mergeable))]);
    let acc = acc + seq![entry(prefix, "_MERGEABLE"@, bool_text(item.is_mergeable))];
    lemma_entry_under(prefix, "_MERGED"@, bool_text(item.is_merged));
    lemma_under_concat(prefix, acc, seq![entry(prefix, "_MERGED"@, bool_text(item.is_merged))]);
    let acc = acc + seq![entry(prefix, "_MERGED"@, bool_text(item.is_merged))];
    match &item.merged_at {
        Some(v) => lemma_entry_under(prefix, "_MERGED_AT"@, v@),
        None => {},
    }
    lemma_under_concat(prefix, acc, (match &item.merged_at { Some(v) => seq![entry(prefix, "_MERGED_AT"@, v@)], None => seq![] }));
    let acc = acc + (match &item.merged_at { Some(v) => seq![entry(prefix, "_MERGED_AT"@, v@)], None => seq![] });
    match &item.merge_commit_sha {
        Some(v) => lemma_entry_under(prefix, "_MERGE_COMMIT_SHA"@, v@),
        None => {},
    }
    lemma_under_concat(prefix, acc, (match &item.merge_commit_sha { Some(v) => seq![entry(prefix, "_MERGE_COMMIT_SHA"@, v@)], None => seq![] }));
    let acc = acc + (match &item.merge_commit_sha { Some(v) => seq![entry(prefix, "_MERGE_COMMIT_SHA"@, v@)], None => seq![] });
    match &item.merged_by {
        Some(v) => {
            lemma_user_env_under(prefix + "_MERGED_BY"@, *v);
            lemma_under_longer(prefix, "_MERGED_BY"@, user_env(prefix + "_MERGED_BY"@, *v));
        },
        None => {},
    }
    lemma_under_concat(prefix, acc, (match &item.merged_by { Some(v) => user_env(prefix + "_MERGED_BY"@, *v), None => seq![] }));
}

/// Every name that a part of the environment of a pull request assigns starts with `prefix`.
pub proof fn lemma_pull_request_env_part3_under(prefix: Seq<char>, item: PullRequest)
    ensures
        all_under(prefix, pull_request_env_part3(prefix, item)),
{
    match &item.base {
        Some(v) => {
            lemma_branch_env_under(prefix + "_BASE"@, *v);
            lemma_under_longer(prefix, "_BASE"@, branch_env(prefix + "_BASE"@, *v));
        },
        None => {},
    }
    let acc = (match &item.base { Some(v) => branch_env(prefix + "_BASE"@, *v), None => seq![] });
    match &item.head {
        Some(v) => {
            lemma_branch_env_under(prefix + "_HEAD"@, *v);
            lemma_under_longer(prefix, "_HEAD"@, branch_env(prefix + "_HEAD"@, *v));
        },
        None => {},
    }
    lemma_under_concat(prefix, acc, (match &item.head { Some(v) => branch_env(prefix + "_HEAD"@, *v), None => seq![] }));
    let acc = acc + (match &item.head { Some(v) => branch_env(prefix + "_HEAD"@, *v), None => seq![] });
    lemma_entry_under(prefix, "_MERGE_BASE"@, item.merge_base@);
    lemma_under_concat(prefix, acc, seq![entry(prefix, "_MERGE_BASE"@, item.merge_base@)]);
    let acc = acc + seq![entry(prefix, "_MERGE_BASE"@, item.merge_base@)];
    match &item.due_date {
        Some(v) => lemma_entry_under(prefix, "_DUE_DATE"@, v@),
        None => {},
    }
    lemma_under_concat(prefix, acc, (match &item.due_date { Some(v) => seq![entry(prefix, "_DUE_DATE"@, v@)], None => seq![] }));
    let acc = acc + (match &item.due_date { Some(v) => seq![entry(prefix, "_DUE_DATE"@, v@)], None => seq![] });
    match &item.created_at {
        Some(v) => lemma_entry_under(prefix, "_CREATED_AT"@, v@),
        None => {},
    }
    lemma_under_concat(prefix, acc, (match &item.created_at { Some(v) => seq![entry(prefix, "_CREATED_AT"@, v@)], None => seq![] }));
    let acc = acc + (match &item.created_at { Some(v) => seq![entry(prefix, "_CREATED_AT"@, v@)], None => seq![] });
    match &item.updated_at {
        Some(v) => lemma_entry_under(prefix, "_UPDATED_AT"@, v@),
        None => {},
    }
    lemma_under_concat(prefix, acc, (match &item.updated_at { Some(v) => seq![entry(prefix, "_UPDATED_AT"@, v@)], None => seq![] }));
    let acc = acc + (match &item.updated_at { Some(v) => seq![entry(prefix, "_UPDATED_AT"@, v@)], None => seq![] });
    match &item.closed_at {
        Some(v) => lemma_entry_under(prefix, "_CLOSED_AT"@, v@),
        None => {},
    }
    lemma_under_concat(prefix, acc, (match &item.closed_at { Some(v) => seq![entry(prefix, "_CLOSED_AT"@, v@)], None => seq![] }));
}

/// Every name that the environment of a pull request assigns starts with `prefix`.
pub proof fn lemma_pull_request_env_under(prefix: Seq<char>, item: PullRequest)
    ensures
        all_under(prefix, pull_request_env(prefix, item)),
{
    lemma_pull_request_env_part1_under(prefix, item);
    let acc = pull_request_env_part1(prefix, item);
    lemma_pull_request_env_part2_under(prefix, item);
    lemma_under_concat(prefix, acc, pull_request_env_part2(prefix, item));
    let acc = acc + pull_request_env_part2(prefix, item);
    lemma_pull_request_env_part3_under(prefix, item);
    lemma_under_concat(prefix, acc, pull_request_env_part3(prefix, item));
}

/// Every name that the environment of a list assigns starts with `prefix`.
pub proof fn lemma_labels_env_under(prefix: Seq<char>, items: Seq<String>)
    ensures
        all_under(prefix, labels_env(prefix, items)),
    decreases items.len(),
{
    if items.len() > 0 {
        let q = prefix + decimal((items.len() - 1) as nat);
        lemma_labels_env_under(prefix, items.drop_last());
        lemma_entry_under(prefix, decimal((items.len() - 1) as nat), items.last()@);
        lemma_under_concat(prefix, labels_env(prefix, items.drop_last()), seq![(q, items.last()@)]);
    }
}

/// Every name that the environment of a list assigns starts with `prefix`.
pub proof fn lemma_users_env_under(prefix: Seq<char>, items: Seq<GiteaUser>)
    ensures
        all_under(prefix, users_env(prefix, items)),
    decreases items.len(),
{
    if items.len() > 0 {
        let q = prefix + decimal((items.len() - 1) as nat);
        lemma_users_env_under(prefix, items.drop_last());
        lemma_user_env_under(q, items.last());
        lemma_under_longer(prefix, decimal((items.len() - 1) as nat), user_env(q, items.last()));
        lemma_under_concat(prefix, users_env(prefix, items.drop_last()), user_env(q, items.last()));
    }
}

/// Every name that the environment of a list assigns starts with `prefix`.
pub proof fn lemma_attachments_env_under(prefix: Seq<char>, items: Seq<Attachment>)
    ensures
        all_under(prefix, attachments_env(prefix, items)),
    decreases items.len(),
{
    if items.len() > 0 {
        let q = prefix + decimal((items.len() - 1) as nat);
        lemma_attachments_env_under(prefix, items.drop_last());
        lemma_attachment_env_under(q, items.last());
        lemma_under_longer(prefix, decimal((items.len() - 1) as nat), attachment_env(q, items.last()));
        lemma_under_concat(prefix, attachments_env(prefix, items.drop_last()), attachment_env(q, items.last()));
    }
}

/// Every name that the environment of a list assigns starts with `prefix`.
pub proof fn lemma_commits_env_under(prefix: Seq<char>, items: Seq<Commit>)
    ensures
        all_under(prefix, commits_env(prefix, items)),
    decreases items.len(),
{
    if items.len() > 0 {
        let q = prefix + decimal((items.len() - 1) as nat);
        lemma_commits_env_under(prefix, items.drop_last());
        lemma_commit_env_under(q, items.last());
        lemma_under_longer(prefix, decimal((items.len() - 1) as nat), commit_env(q, items.last()));
        lemma_under_concat(prefix, commits_env(prefix, items.drop_last()), commit_env(q, items.last()));
    }
}


/// The texts of the keys in the environment of a repository.
proof fn lemma_repository_keys()
    ensures
        "_ALLOW_MERGE_COMMITS"@ == seq!['_', 'A', 'L', 'L', 'O', 'W', '_', 'M', 'E', 'R', 'G', 'E', '_', 'C', 'O', 'M', 'M', 'I', 'T', 'S'],
        "_ALLOW_REBASE"@ == seq!['_', 'A', 'L', 'L', 'O', 'W', '_', 'R', 'E', 'B', 'A', 'S', 'E'],
        "_ALLOW_REBASE_EXPLICIT"@ == seq!['_', 'A', 'L', 'L', 'O', 'W', '_', 'R', 'E', 'B', 'A', 'S', 'E', '_', 'E', 'X', 'P', 'L', 'I', 'C', 'I', 'T'],
        "_ALLOW_SQUASH_MERGE"@ == seq!['_', 'A', 'L', 'L', 'O', 'W', '_', 'S', 'Q', 'U', 'A', 'S', 'H', '_', 'M', 'E', 'R', 'G', 'E'],
        "_ARCHIVED"@ == seq!['_', 'A', 'R', 'C', 'H', 'I', 'V', 'E', 'D'],
        "_AVATAR_URL"@ == seq!['_', 'A', 'V', 'A', 'T', 'A', 'R', '_', 'U', 'R', 'L'],
        "_CLONE_URL"@ == seq!['_', 'C', 'L', 'O', 'N', 'E', '_', 'U', 'R', 'L'],
        "_CREATED_AT"@ == seq!['_', 'C', 'R', 'E', 'A', 'T', 'E', 'D', '_', 'A', 'T'],
        "_DEFAULT_BRANCH"@ == seq!['_', 'D', 'E', 'F', 'A', 'U', 'L', 'T', '_', 'B', 'R', 'A', 'N', 'C', 'H'],
        "_DESCRIPTION"@ == seq!['_', 'D', 'E', 'S', 'C', 'R', 'I', 'P', 'T', 'I', 'O', 'N'],
        "_EMPTY"@ == seq!['_', 'E', 'M', 'P', 'T', 'Y'],
        "_EXTERNAL_TRACKER"@ == seq!['_', 'E', 'X', 'T', 'E', 'R', 'N', 'A', 'L', '_', 'T', 'R', 'A', 'C', 'K', 'E', 'R'],
        "_EXTERNAL_WIKI"@ == seq!['_', 'E', 'X', 'T', 'E', 'R', 'N', 'A', 'L', '_', 'W', 'I', 'K', 'I'],
        "_FORK"@ == seq!['_', 'F', 'O', 'R', 'K'],
        "_FORKS_COUNT"@ == seq!['_', 'F', 'O', 'R', 'K', 'S', '_', 'C', 'O', 'U', 'N', 'T'],
        "_FULL_NAME"@ == seq!['_', 'F', 'U', 'L', 'L', '_', 'N', 'A', 'M', 'E'],
        "_HAS_ISSUES"@ == seq!['_', 'H', 'A', 'S', '_', 'I', 'S', 'S', 'U', 'E', 'S'],
        "_HAS_PROJECTS"@ == seq!['_', 'H', 'A', 'S', '_', 'P', 'R', 'O', 'J', 'E', 'C', 'T', 'S'],
        "_HAS_PULL_REQUESTS"@ == seq!['_', 'H', 'A', 'S', '_', 'P', 'U', 'L', 'L', '_', 'R', 'E', 'Q', 'U', 'E', 'S', 'T', 'S'],
        "_HAS_WIKI"@ == seq!['_', 'H', 'A', 'S', '_', 'W', 'I', 'K', 'I'],
        "_HTML_URL"@ == seq!['_', 'H', 'T', 'M', 'L', '_', 'U', 'R', 'L'],
        "_ID"@ == seq!['_', 'I', 'D'],
        "_IGNORE_WHITESPACE_CONFLICTS"@ == seq!['_', 'I', 'G', 'N', 'O', 'R', 'E', '_', 'W', 'H', 'I', 'T', 'E', 'S', 'P', 'A', 'C', 'E', '_', 'C', 'O', 'N', 'F', 'L', 'I', 'C', 'T', 'S'],
        "_INTERNAL"@ == seq!['_', 'I', 'N', 'T', 'E', 'R', 'N', 'A', 'L'],
        "_INTERNAL_TRACKER"@ == seq!['_', 'I', 'N', 'T', 'E', 'R', 'N', 'A', 'L', '_', 'T', 'R', 'A', 'C', 'K', 'E', 'R'],
        "_MIRROR"@ == seq!['_', 'M', 'I', 'R', 'R', 'O', 'R'],
        "_NAME"@ == seq!['_', 'N', 'A', 'M', 'E'],
        "_OPEN_ISSUES_COUNT"@ == seq!['_', 'O', 'P', 'E', 'N', '_', 'I', 'S', 'S', 'U', 'E', 'S', '_', 'C', 'O', 'U', 'N', 'T'],
        "_OPEN_PR_COUNTER"@ == seq!['_', 'O', 'P', 'E', 'N', '_', 'P', 'R', '_', 'C', 'O', 'U', 'N', 'T', 'E', 'R'],
        "_ORIGINAL_URL"@ == seq!['_', 'O', 'R', 'I', 'G', 'I', 'N', 'A', 'L', '_', 'U', 'R', 'L'],
        "_OWNER"@ == seq!['_', 'O', 'W', 'N', 'E', 'R'],
        "_PARENT"@ == seq!['_', 'P', 'A', 'R', 'E', 'N', 'T'],
        "_PERMISSIONS"@ == seq!['_', 'P', 'E', 'R', 'M', 'I', 'S', 'S', 'I', 'O', 'N', 'S'],
        "_PRIVATE"@ == seq!['_', 'P', 'R', 'I', 'V', 'A', 'T', 'E'],
        "_RELEASE_COUNTER"@ == seq!['_', 'R', 'E', 'L', 'E', 'A', 'S', 'E', '_', 'C', 'O', 'U', 'N', 'T', 'E', 'R'],
        "_SIZE"@ == seq!['_', 'S', 'I', 'Z', 'E'],
        "_SSH_URL"@ == seq!['_', 'S', 'S', 'H', '_', 'U', 'R', 'L'],
        "_STARS_COUNT"@ == seq!['_', 'S', 'T', 'A', 'R', 'S', '_', 'C', 'O', 'U', 'N', 'T'],
        "_TEMPLATE"@ == seq!['_', 'T', 'E', 'M', 'P', 'L', 'A', 'T', 'E'],
        "_UPDATED_AT"@ == seq!['_', 'U', 'P', 'D', 'A', 'T', 'E', 'D', '_', 'A', 'T'],
        "_WATCHERS_COUNT"@ == seq!['_', 'W', 'A', 'T', 'C', 'H', 'E', 'R', 'S', '_', 'C', 'O', 'U', 'N', 'T'],
        "_WEBSITE"@ == seq!['_', 'W', 'E', 'B', 'S', 'I', 'T', 'E'],
{
    reveal_strlit("_ALLOW_MERGE_COMMITS");
    assert("_ALLOW_MERGE_COMMITS"@ =~= seq!['_', 'A', 'L', 'L', 'O', 'W', '_', 'M', 'E', 'R', 'G', 'E', '_', 'C', 'O', 'M', 'M', 'I', 'T', 'S']);
    reveal_strlit("_ALLOW_REBASE");
    assert("_ALLOW_REBASE"@ =~= seq!['_', 'A', 'L', 'L', 'O', 'W', '_', 'R', 'E', 'B', 'A', 'S', 'E']);
    reveal_strlit("_ALLOW_REBASE_EXPLICIT");
    assert("_ALLOW_REBASE_EXPLICIT"@ =~= seq!['_', 'A', 'L', 'L', 'O', 'W', '_', 'R', 'E', 'B', 'A', 'S', 'E', '_', 'E', 'X', 'P', 'L', 'I', 'C', 'I', 'T']);
    reveal_strlit("_ALLOW_SQUASH_MERGE");
    assert("_ALLOW_SQUASH_MERGE"@ =~= seq!['_', 'A', 'L', 'L', 'O', 'W', '_', 'S', 'Q', 'U', 'A', 'S', 'H', '_', 'M', 'E', 'R', 'G', 'E']);
    reveal_strlit("_ARCHIVED");
    assert("_ARCHIVED"@ =~= seq!['_', 'A', 'R', 'C', 'H', 'I', 'V', 'E', 'D']);
    reveal_strlit("_AVATAR_URL");
    assert("_AVATAR_URL"@ =~= seq!['_', 'A', 'V', 'A', 'T', 'A', 'R', '_', 'U', 'R', 'L']);
    reveal_strlit("_CLONE_URL");
    assert("_CLONE_URL"@ =~= seq!['_', 'C', 'L', 'O', 'N', 'E', '_', 'U', 'R', 'L']);
    reveal_strlit("_CREATED_AT");
    assert("_CREATED_AT"@ =~= seq!['_', 'C', 'R', 'E', 'A', 'T', 'E', 'D', '_', 'A', 'T']);
    reveal_strlit("_DEFAULT_BRANCH");
    assert("_DEFAULT_BRANCH"@ =~= seq!['_', 'D', 'E', 'F', 'A', 'U', 'L', 'T', '_', 'B', 'R', 'A', 'N', 'C', 'H']);
    reveal_strlit("_DESCRIPTION");
    assert("_DESCRIPTION"@ =~= seq!['_', 'D', 'E', 'S', 'C', 'R', 'I', 'P', 'T', 'I', 'O', 'N']);
    reveal_strlit("_EMPTY");
    assert("_EMPTY"@ =~= seq!['_', 'E', 'M', 'P', 'T', 'Y']);
    reveal_strlit("_EXTERNAL_TRACKER");
    assert("_EXTERNAL_TRACKER"@ =~= seq!['_', 'E', 'X', 'T', 'E', 'R', 'N', 'A', 'L', '_', 'T', 'R', 'A', 'C', 'K', 'E', 'R']);
    reveal_strlit("_EXTERNAL_WIKI");
    assert("_EXTERNAL_WIKI"@ =~= seq!['_', 'E', 'X', 'T', 'E', 'R', 'N', 'A', 'L', '_', 'W', 'I', 'K', 'I']);
    reveal_strlit("_FORK");
    assert("_FORK"@ =~= seq!['_', 'F', 'O', 'R', 'K']);
    reveal_strlit("_FORKS_COUNT");
    assert("_FORKS_COUNT"@ =~= seq!['_', 'F', 'O', 'R', 'K', 'S', '_', 'C', 'O', 'U', 'N', 'T']);
    reveal_strlit("_FULL_NAME");
    assert("_FULL_NAME"@ =~= seq!['_', 'F', 'U', 'L', 'L', '_', 'N', 'A', 'M', 'E']);
    reveal_strlit("_HAS_ISSUES");
    assert("_HAS_ISSUES"@ =~= seq!['_', 'H', 'A', 'S', '_', 'I', 'S', 'S', 'U', 'E', 'S']);
    reveal_strlit("_HAS_PROJECTS");
    assert("_HAS_PROJECTS"@ =~= seq!['_', 'H', 'A', 'S', '_', 'P', 'R', 'O', 'J', 'E', 'C', 'T', 'S']);
    reveal_strlit("_HAS_PULL_REQUESTS");
    assert("_HAS_PULL_REQUESTS"@ =~= seq!['_', 'H', 'A', 'S', '_', 'P', 'U', 'L', 'L', '_', 'R', 'E', 'Q', 'U', 'E', 'S', 'T', 'S']);
    reveal_strlit("_HAS_WIKI");
    assert("_HAS_WIKI"@ =~= seq!['_', 'H', 'A', 'S', '_', 'W', 'I', 'K', 'I']);
    reveal_strlit("_HTML_URL");
    assert("_HTML_URL"@ =~= seq!['_', 'H', 'T', 'M', 'L', '_', 'U', 'R', 'L']);
    reveal_strlit("_ID");
    assert("_ID"@ =~= seq!['_', 'I', 'D']);
    reveal_strlit("_IGNORE_WHITESPACE_CONFLICTS");
    assert("_IGNORE_WHITESPACE_CONFLICTS"@ =~= seq!['_', 'I', 'G', 'N', 'O', 'R', 'E', '_', 'W', 'H', 'I', 'T', 'E', 'S', 'P', 'A', 'C', 'E', '_', 'C', 'O', 'N', 'F', 'L', 'I', 'C', 'T', 'S']);
    reveal_strlit("_INTERNAL");
    assert("_INTERNAL"@ =~= seq!['_', 'I', 'N', 'T', 'E', 'R', 'N', 'A', 'L']);
    reveal_strlit("_INTERNAL_TRACKER");
    assert("_INTERNAL_TRACKER"@ =~= seq!['_', 'I', 'N', 'T', 'E', 'R', 'N', 'A', 'L', '_', 'T', 'R', 'A', 'C', 'K', 'E', 'R']);
    reveal_strlit("_MIRROR");
    assert("_MIRROR"@ =~= seq!['_', 'M', 'I', 'R', 'R', 'O', 'R']);
    reveal_strlit("_NAME");
    assert("_NAME"@ =~= seq!['_', 'N', 'A', 'M', 'E']);
    reveal_strlit("_OPEN_ISSUES_COUNT");
    assert("_OPEN_ISSUES_COUNT"@ =~= seq!['_', 'O', 'P', 'E', 'N', '_', 'I', 'S', 'S', 'U', 'E', 'S', '_', 'C', 'O', 'U', 'N', 'T']);
    reveal_strlit("_OPEN_PR_COUNTER");
    assert("_OPEN_PR_COUNTER"@ =~= seq!['_', 'O', 'P', 'E', 'N', '_', 'P', 'R', '_', 'C', 'O', 'U', 'N', 'T', 'E', 'R']);
    reveal_strlit("_ORIGINAL_URL");
    assert("_ORIGINAL_URL"@ =~= seq!['_', 'O', 'R', 'I', 'G', 'I', 'N', 'A', 'L', '_', 'U', 'R', 'L']);
    reveal_strlit("_OWNER");
    assert("_OWNER"@ =~= seq!['_', 'O', 'W', 'N', 'E', 'R']);
    reveal_strlit("_PARENT");
    assert("_PARENT"@ =~= seq!['_', 'P', 'A', 'R', 'E', 'N', 'T']);
    reveal_strlit("_PERMISSIONS");
    assert("_PERMISSIONS"@ =~= seq!['_', 'P', 'E', 'R', 'M', 'I', 'S', 'S', 'I', 'O', 'N', 'S']);
    reveal_strlit("_PRIVATE");
    assert("_PRIVATE"@ =~= seq!['_', 'P', 'R', 'I', 'V', 'A', 'T', 'E']);
    reveal_strlit("_RELEASE_COUNTER");
    assert("_RELEASE_COUNTER"@ =~= seq!['_', 'R', 'E', 'L', 'E', 'A', 'S', 'E', '_', 'C', 'O', 'U', 'N', 'T', 'E', 'R']);
    reveal_strlit("_SIZE");
    assert("_SIZE"@ =~= seq!['_', 'S', 'I', 'Z', 'E']);
    reveal_strlit("_SSH_URL");
    assert("_SSH_URL"@ =~= seq!['_', 'S', 'S', 'H', '_', 'U', 'R', 'L']);
    reveal_strlit("_STARS_COUNT");
    assert("_STARS_COUNT"@ =~= seq!['_', 'S', 'T', 'A', 'R', 'S', '_', 'C', 'O', 'U', 'N', 'T']);
    reveal_strlit("_TEMPLATE");
    assert("_TEMPLATE"@ =~= seq!['_', 'T', 'E', 'M', 'P', 'L', 'A', 'T', 'E']);
    reveal_strlit("_UPDATED_AT");
    assert("_UPDATED_AT"@ =~= seq!['_', 'U', 'P', 'D', 'A', 'T', 'E', 'D', '_', 'A', 'T']);
    reveal_strlit("_WATCHERS_COUNT");
    assert("_WATCHERS_COUNT"@ =~= seq!['_', 'W', 'A', 'T', 'C', 'H', 'E', 'R', 'S', '_', 'C', 'O', 'U', 'N', 'T']);
    reveal_strlit("_WEBSITE");
    assert("_WEBSITE"@ =~= seq!['_', 'W', 'E', 'B', 'S', 'I', 'T', 'E']);
}

/// A variable holds what the last part of the environment of a repository that
/// assigns it leaves in it.
#[verifier::rlimit(100)]
proof fn lemma_repository_env_lookup(prefix: Seq<char>, item: Repository, name: Seq<char>)
    ensures
        last_value(repository_env(prefix, item), name) == or_else(last_value(seq![entry(prefix, "_INTERNAL"@, bool_text(item.is_internal))], name), or_else(last_value(seq![entry(prefix, "_AVATAR_URL"@, item.avatar_url@)], name), or_else(last_value(seq![entry(prefix, "_ALLOW_SQUASH_MERGE"@, bool_text(item.allow_squash_merge))], name), or_else(last_value(seq![entry(prefix, "_ALLOW_REBASE_EXPLICIT"@, bool_text(item.allow_rebase_explicit))], name), or_else(last_value(seq![entry(prefix, "_ALLOW_REBASE"@, bool_text(item.allow_rebase))], name), or_else(last_value(seq![entry(prefix, "_ALLOW_MERGE_COMMITS"@, bool_text(item.allow_merge_commits))], name), or_else(last_value(seq![entry(prefix, "_IGNORE_WHITESPACE_CONFLICTS"@, bool_text(item.is_whitespace_conflict_ignored))], name), or_else(last_value(seq![entry(prefix, "_HAS_PROJECTS"@, bool_text(item.has_projects))], name), or_else(last_value(seq![entry(prefix, "_HAS_PULL_REQUESTS"@, bool_text(item.has_pull_requests))], name), or_else(last_value((match &item.external_wiki { Some(v) => external_wiki_env(prefix + "_EXTERNAL_WIKI"@, *v), None => seq![] }), name), or_else(last_value(seq![entry(prefix, "_HAS_WIKI"@, bool_text(item.has_wiki))], name), or_else(last_value((match &item.external_tracker { Some(v) => external_tracker_env(prefix + "_EXTERNAL_TRACKER"@, *v), None => seq![] }), name), or_else(last_value((match &item.internal_tracker { Some(v) => internal_tracker_env(prefix + "_INTERNAL_TRACKER"@, *v), None => seq![] }), name), or_else(last_value(seq![entry(prefix, "_HAS_ISSUES"@, bool_text(item.has_issues))], name), or_else(last_value((match &item.permissions { Some(v) => permissions_env(prefix + "_PERMISSIONS"@, *v), None => seq![] }), name), or_else(last_value(seq![entry(prefix, "_UPDATED_AT"@, item.updated_at@)], name), or_else(last_value(seq![entry(prefix, "_CREATED_AT"@, item.created_at@)], name), or_else(last_value(seq![entry(prefix, "_ARCHIVED"@, bool_text(item.is_archived))], name), or_else(last_value(seq![entry(prefix, "_DEFAULT_BRANCH"@, item.default_branch@)], name), or_else(last_value(seq![entry(prefix, "_RELEASE_COUNTER"@, signed_decimal(item.release_counter as int))], name), or_else(last_value(seq![entry(prefix, "_OPEN_PR_COUNTER"@, signed_decimal(item.open_pr_counter as int))], name), or_else(last_value(seq![entry(prefix, "_OPEN_ISSUES_COUNT"@, signed_decimal(item.open_issues_count as int))], name), or_else(last_value(seq![entry(prefix, "_WATCHERS_COUNT"@, signed_decimal(item.watchers_count as int))], name), or_else(last_value(seq![entry(prefix, "_FORKS_COUNT"@, signed_decimal(item.forks_count as int))], name), or_else(last_value(seq![entry(prefix, "_STARS_COUNT"@, signed_decimal(item.stars_count as int))], name), or_else(last_value(seq![entry(prefix, "_WEBSITE"@, item.website@)], name), or_else(last_value(seq![entry(prefix, "_ORIGINAL_URL"@, item.original_url@)], name), or_else(last_value(seq![entry(prefix, "_CLONE_URL"@, item.clone_url@)], name), or_else(last_value(seq![entry(prefix, "_SSH_URL"@, item.ssh_url@)], name), or_else(last_value(seq![entry(prefix, "_HTML_URL"@, item.html_url@)], name), or_else(last_value(seq![entry(prefix, "_SIZE"@, signed_decimal(item.size_mib as int))], name), or_else(last_value(seq![entry(prefix, "_MIRROR"@, bool_text(item.is_mirror))], name), or_else(last_value((match &item.parent { Some(v) => repository_env(prefix + "_PARENT"@, **v), None => seq![] }), name), or_else(last_value(seq![entry(prefix, "_TEMPLATE"@, bool_text(item.is_template))], name), or_else(last_value(seq![entry(prefix, "_FORK"@, bool_text(item.is_fork))], name), or_else(last_value(seq![entry(prefix, "_PRIVATE"@, bool_text(item.is_private))], name), or_else(last_value(seq![entry(prefix, "_EMPTY"@, bool_text(item.is_empty))], name), or_else(last_value(seq![entry(prefix, "_DESCRIPTION"@, item.description@)], name), or_else(last_value(seq![entry(prefix, "_FULL_NAME"@, item.full_name@)], name), or_else(last_value(seq![entry(prefix, "_NAME"@, item.name@)], name), or_else(last_value(user_env(prefix + "_OWNER"@, item.owner), name), or_else(last_value(seq![entry(prefix, "_ID"@, signed_decimal(item.id as int))], name), None)))))))))))))))))))))))))))))))))))))))))),
{
    let whole0 = repository_env_part1(prefix, item);
    let whole1 = whole0 + repository_env_part2(prefix, item);
    let whole2 = whole1 + repository_env_part3(prefix, item);
    let whole3 = whole2 + repository_env_part4(prefix, item);
    let whole4 = whole3 + repository_env_part5(prefix, item);
    lemma_last_value_concat(whole3, repository_env_part5(prefix, item), name);
    lemma_last_value_concat(whole2, repository_env_part4(prefix, item), name);
    lemma_last_value_concat(whole1, repository_env_part3(prefix, item), name);
    lemma_last_value_concat(whole0, repository_env_part2(prefix, item), name);
    let sum0_0 = seq![entry(prefix, "_ID"@, signed_decimal(item.id as int))];
    let sum0_1 = sum0_0 + user_env(prefix + "_OWNER"@, item.owner);
    let sum0_2 = sum0_1 + seq![entry(prefix, "_NAME"@, item.name@)];
    let sum0_3 = sum0_2 + seq![entry(prefix, "_FULL_NAME"@, item.full_name@)];
    let sum0_4 = sum0_3 + seq![entry(prefix, "_DESCRIPTION"@, item.description@)];
    let sum0_5 = sum0_4 + seq![entry(prefix, "_EMPTY"@, bool_text(item.is_empty))];
    let sum0_6 = sum0_5 + seq![entry(prefix, "_PRIVATE"@, bool_text(item.is_private))];
    let sum0_7 = sum0_6 + seq![entry(prefix, "_FORK"@, bool_text(item.is_fork))];
    let sum0_8 = sum0_7 + seq![entry(prefix, "_TEMPLATE"@, bool_text(item.is_template))];
    let sum0_9 = sum0_8 + (match &item.parent { Some(v) => repository_env(prefix + "_PARENT"@, **v), None => seq![] });
    lemma_last_value_concat(sum0_8, (match &item.parent { Some(v) => repository_env(prefix + "_PARENT"@, **v), None => seq![] }), name);
    lemma_last_value_concat(sum0_7, seq![entry(prefix, "_TEMPLATE"@, bool_text(item.is_template))], name);
    lemma_last_value_concat(sum0_6, seq![entry(prefix, "_FORK"@, bool_text(item.is_fork))], name);
    lemma_last_value_concat(sum0_5, seq![entry(prefix, "_PRIVATE"@, bool_text(item.is_private))], name);
    lemma_last_value_concat(sum0_4, seq![entry(prefix, "_EMPTY"@, bool_text(item.is_empty))], name);
    lemma_last_value_concat(sum0_3, seq![entry(prefix, "_DESCRIPTION"@, item.description@)], name);
    lemma_last_value_concat(sum0_2, seq![entry(prefix, "_FULL_NAME"@, item.full_name@)], name);
    lemma_last_value_concat(sum0_1, seq![entry(prefix, "_NAME"@, item.name@)], name);
    lemma_last_value_concat(sum0_0, user_env(prefix + "_OWNER"@, item.owner), name);
    let sum1_0 = seq![entry(prefix, "_MIRROR"@, bool_text(item.is_mirror))];
    let sum1_1 = sum1_0 + seq![entry(prefix, "_SIZE"@, signed_decimal(item.size_mib as int))];
    let sum1_2 = sum1_1 + seq![entry(prefix, "_HTML_URL"@, item.html_url@)];
    let sum1_3 = sum1_2 + seq![entry(prefix, "_SSH_URL"@, item.ssh_url@)];
    let sum1_4 = sum1_3 + seq![entry(prefix, "_CLONE_URL"@, item.clone_url@)];
    let sum1_5 = sum1_4 + seq![entry(prefix, "_ORIGINAL_URL"@, item.original_url@)];
    let sum1_6 = sum1_5 + seq![entry(prefix, "_WEBSITE"@, item.website@)];
    let sum1_7 = sum1_6 + seq![entry(prefix, "_STARS_COUNT"@, signed_decimal(item.stars_count as int))];
    let sum1_8 = sum1_7 + seq![entry(prefix, "_FORKS_COUNT"@, signed_decimal(item.forks_count as int))];
    let sum1_9 = sum1_8 + seq![entry(prefix, "_WATCHERS_COUNT"@, signed_decimal(item.watchers_count as int))];
    lemma_last_value_concat(sum1_8, seq![entry(prefix, "_WATCHERS_COUNT"@, signed_decimal(item.watchers_count as int))], name);
    lemma_last_value_concat(sum1_7, seq![entry(prefix, "_FORKS_COUNT"@, signed_decimal(item.forks_count as int))], name);
    lemma_last_value_concat(sum1_6, seq![entry(prefix, "_STARS_COUNT"@, signed_decimal(item.stars_count as int))], name);
    lemma_last_value_concat(sum1_5, seq![entry(prefix, "_WEBSITE"@, item.website@)], name);
    lemma_last_value_concat(sum1_4, seq![entry(prefix, "_ORIGINAL_URL"@, item.original_url@)], name);
    lemma_last_value_concat(sum1_3, seq![entry(prefix, "_CLONE_URL"@, item.clone_url@)], name);
    lemma_last_value_concat(sum1_2, seq![entry(prefix, "_SSH_URL"@, item.ssh_url@)], name);
    lemma_last_value_concat(sum1_1, seq![entry(prefix, "_HTML_URL"@, item.html_url@)], name);
    lemma_last_value_concat(sum1_0, seq![entry(prefix, "_SIZE"@, signed_decimal(item.size_mib as int))], name);
    let sum2_0 = seq![entry(prefix, "_OPEN_ISSUES_COUNT"@, signed_decimal(item.open_issues_count as int))];
    let sum2_1 = sum2_0 + seq![entry(prefix, "_OPEN_PR_COUNTER"@, signed_decimal(item.open_pr_counter as int))];
    let sum2_2 = sum2_1 + seq![entry(prefix, "_RELEASE_COUNTER"@, signed_decimal(item.release_counter as int))];
    let sum2_3 = sum2_2 + seq![entry(prefix, "_DEFAULT_BRANCH"@, item.default_branch@)];
    let sum2_4 = sum2_3 + seq![entry(prefix, "_ARCHIVED"@, bool_text(item.is_archived))];
    let sum2_5 = sum2_4 + seq![entry(prefix, "_CREATED_AT"@, item.created_at@)];
    let sum2_6 = sum2_5 + seq![entry(prefix, "_UPDATED_AT"@, item.updated_at@)];
    let sum2_7 = sum2_6 + (match &item.permissions { Some(v) => permissions_env(prefix + "_PERMISSIONS"@, *v), None => seq![] });
    let sum2_8 = sum2_7 + seq![entry(prefix, "_HAS_ISSUES"@, bool_text(item.has_issues))];
    let sum2_9 = sum2_8 + (match &item.internal_tracker { Some(v) => internal_tracker_env(prefix + "_INTERNAL_TRACKER"@, *v), None => seq![] });
    lemma_last_value_concat(sum2_8, (match &item.internal_tracker { Some(v) => internal_tracker_env(prefix + "_INTERNAL_TRACKER"@, *v), None => seq![] }), name);
    lemma_last_value_concat(sum2_7, seq![entry(prefix, "_HAS_ISSUES"@, bool_text(item.has_issues))], name);
    lemma_last_value_concat(sum2_6, (match &item.permissions { Some(v) => permissions_env(prefix + "_PERMISSIONS"@, *v), None => seq![] }), name);
    lemma_last_value_concat(sum2_5, seq![entry(prefix, "_UPDATED_AT"@, item.updated_at@)], name);
    lemma_last_value_concat(sum2_4, seq![entry(prefix, "_CREATED_AT"@, item.created_at@)], name);
    lemma_last_value_concat(sum2_3, seq![entry(prefix, "_ARCHIVED"@, bool_text(item.is_archived))], name);
    lemma_last_value_concat(sum2_2, seq![entry(prefix, "_DEFAULT_BRANCH"@, item.default_branch@)], name);
    lemma_last_value_concat(sum2_1, seq![entry(prefix, "_RELEASE_COUNTER"@, signed_decimal(item.release_counter as int))], name);
    lemma_last_value_concat(sum2_0, seq![entry(prefix, "_OPEN_PR_COUNTER"@, signed_decimal(item.open_pr_counter as int))], name);
    let sum3_0 = (match &item.external_tracker { Some(v) => external_tracker_env(prefix + "_EXTERNAL_TRACKER"@, *v), None => seq![] });
    let sum3_1 = sum3_0 + seq![entry(prefix, "_HAS_WIKI"@, bool_text(item.has_wiki))];
    let sum3_2 = sum3_1 + (match &item.external_wiki { Some(v) => external_wiki_env(prefix + "_EXTERNAL_WIKI"@, *v), None => seq![] });
    let sum3_3 = sum3_2 + seq![entry(prefix, "_HAS_PULL_REQUESTS"@, bool_text(item.has_pull_requests))];
    let sum3_4 = sum3_3 + seq![entry(prefix, "_HAS_PROJECTS"@, bool_text(item.has_projects))];
    let sum3_5 = sum3_4 + seq![entry(prefix, "_IGNORE_WHITESPACE_CONFLICTS"@, bool_text(item.is_whitespace_conflict_ignored))];
    let sum3_6 = sum3_5 + seq![entry(prefix, "_ALLOW_MERGE_COMMITS"@, bool_text(item.allow_merge_commits))];
    let sum3_7 = sum3_6 + seq![entry(prefix, "_ALLOW_REBASE"@, bool_text(item.allow_rebase))];
    let sum3_8 = sum3_7 + seq![entry(prefix, "_ALLOW_REBASE_EXPLICIT"@, bool_text(item.allow_rebase_explicit))];
    let sum3_9 = sum3_8 + seq![entry(prefix, "_ALLOW_SQUASH_MERGE"@, bool_text(item.allow_squash_merge))];
    lemma_last_value_concat(sum3_8, seq![entry(prefix, "_ALLOW_SQUASH_MERGE"@, bool_text(item.allow_squash_merge))], name);
    lemma_last_value_concat(sum3_7, seq![entry(prefix, "_ALLOW_REBASE_EXPLICIT"@, bool_text(item.allow_rebase_explicit))], name);
    lemma_last_value_concat(sum3_6, seq![entry(prefix, "_ALLOW_REBASE"@, bool_text(item.allow_rebase))], name);
    lemma_last_value_concat(sum3_5, seq![entry(prefix, "_ALLOW_MERGE_COMMITS"@, bool_text(item.allow_merge_commits))], name);
    lemma_last_value_concat(sum3_4, seq![entry(prefix, "_IGNORE_WHITESPACE_CONFLICTS"@, bool_text(item.is_whitespace_conflict_ignored))], name);
    lemma_last_value_concat(sum3_3, seq![entry(prefix, "_HAS_PROJECTS"@, bool_text(item.has_projects))], name);
    lemma_last_value_concat(sum3_2, seq![entry(prefix, "_HAS_PULL_REQUESTS"@, bool_text(item.has_pull_requests))], name);
    lemma_last_value_concat(sum3_1, (match &item.external_wiki { Some(v) => external_wiki_env(prefix + "_EXTERNAL_WIKI"@, *v), None => seq![] }), name);
    lemma_last_value_concat(sum3_0, seq![entry(prefix, "_HAS_WIKI"@, bool_text(item.has_wiki))], name);
    let sum4_0 = seq![entry(prefix, "_AVATAR_URL"@, item.avatar_url@)];
    let sum4_1 = sum4_0 + seq![entry(prefix, "_INTERNAL"@, bool_text(item.is_internal))];
    lemma_last_value_concat(sum4_0, seq![entry(prefix, "_INTERNAL"@, bool_text(item.is_internal))], name);
}

/// In the environment of a repository, the variable of the field `id` holds it.
#[verifier::rlimit(100)]
pub proof fn lemma_repository_env_id(prefix: Seq<char>, item: Repository)
    ensures
        last_value(repository_env(prefix, item), (prefix + "_ID"@)) == Some(signed_decimal(item.id as int)),
{
    lemma_repository_keys();
    lemma_repository_env_lookup(prefix, item, (prefix + "_ID"@));
    lemma_user_env_under(prefix + "_OWNER"@, item.owner);
    lemma_no_value_apart(prefix + "_OWNER"@, user_env(prefix + "_OWNER"@, item.owner), (prefix + "_ID"@), prefix.len() as int + 1);
    lemma_single_apart_len(prefix, "_NAME"@, item.name@, (prefix + "_ID"@));
    lemma_single_apart_len(prefix, "_FULL_NAME"@, item.full_name@, (prefix + "_ID"@));
    lemma_single_apart_len(prefix, "_DESCRIPTION"@, item.description@, (prefix + "_ID"@));
    lemma_single_apart_len(prefix, "_EMPTY"@, bool_text(item.is_empty), (prefix + "_ID"@));
    lemma_single_apart_len(prefix, "_PRIVATE"@, bool_text(item.is_private), (prefix + "_ID"@));
    lemma_single_apart_len(prefix, "_FORK"@, bool_text(item.is_fork), (prefix + "_ID"@));
    lemma_single_apart_len(prefix, "_TEMPLATE"@, bool_text(item.is_template), (prefix + "_ID"@));
    match &item.parent {
        Some(v) => {
            lemma_repository_env_under(prefix + "_PARENT"@, **v);
            lemma_no_value_apart(prefix + "_PARENT"@, repository_env(prefix + "_PARENT"@, **v), (prefix + "_ID"@), prefix.len() as int + 1);
        },
        None => {},
    }
    lemma_single_apart_len(prefix, "_MIRROR"@, bool_text(item.is_mirror), (prefix + "_ID"@));
    lemma_single_apart_len(prefix, "_SIZE"@, signed_decimal(item.size_mib as int), (prefix + "_ID"@));
    lemma_single_apart_len(prefix, "_HTML_URL"@, item.html_url@, (prefix + "_ID"@));
    lemma_single_apart_len(prefix, "_SSH_URL"@, item.ssh_url@, (prefix + "_ID"@));
    lemma_single_apart_len(prefix, "_CLONE_URL"@, item.clone_url@, (prefix + "_ID"@));
    lemma_single_apart_len(prefix, "_ORIGINAL_URL"@, item.original_url@, (prefix + "_ID"@));
    lemma_single_apart_len(prefix, "_WEBSITE"@, item.website@, (prefix + "_ID"@));
    lemma_single_apart_len(prefix, "_STARS_COUNT"@, signed_decimal(item.stars_count as int), (prefix + "_ID"@));
    lemma_single_apart_len(prefix, "_FORKS_COUNT"@, signed_decimal(item.forks_count as int), (prefix + "_ID"@));
    lemma_single_apart_len(prefix, "_WATCHERS_COUNT"@, signed_decimal(item.watchers_count as int), (prefix + "_ID"@));
    lemma_single_apart_len(prefix, "_OPEN_ISSUES_COUNT"@, signed_decimal(item.open_issues_count as int), (prefix + "_ID"@));
    lemma_single_apart_len(prefix, "_OPEN_PR_COUNTER"@, signed_decimal(item.open_pr_counter as int), (prefix + "_ID"@));
    lemma_single_apart_len(prefix, "_RELEASE_COUNTER"@, signed_decimal(item.release_counter as int), (prefix + "_ID"@));
    lemma_single_apart_len(prefix, "_DEFAULT_BRANCH"@, item.default_branch@, (prefix + "_ID"@));
    lemma_single_apart_len(prefix, "_ARCHIVED"@, bool_text(item.is_archived), (prefix + "_ID"@));
    lemma_single_apart_len(prefix, "_CREATED_AT"@, item.created_at@, (prefix + "_ID"@));
    lemma_single_apart_len(prefix, "_UPDATED_AT"@, item.updated_at@, (prefix + "_ID"@));
    match &item.permissions {
        Some(v) => {
            lemma_permissions_env_under(prefix + "_PERMISSIONS"@, *v);
            lemma_no_value_apart(prefix + "_PERMISSIONS"@, permissions_env(prefix + "_PERMISSIONS"@, *v), (prefix + "_ID"@), prefix.len() as int + 1);
        },
        None => {},
    }
    lemma_single_apart_len(prefix, "_HAS_ISSUES"@, bool_text(item.has_issues), (prefix + "_ID"@));
    match &item.internal_tracker {
        Some(v) => {
            lemma_internal_tracker_env_under(prefix + "_INTERNAL_TRACKER"@, *v);
            lemma_no_value_apart(prefix + "_INTERNAL_TRACKER"@, internal_tracker_env(prefix + "_INTERNAL_TRACKER"@, *v), (prefix + "_ID"@), prefix.len() as int + 2);
        },
        None => {},
    }
    match &item.external_tracker {
        Some(v) => {
            lemma_external_tracker_env_under(prefix + "_EXTERNAL_TRACKER"@, *v);
            lemma_no_value_apart(prefix + "_EXTERNAL_TRACKER"@, external_tracker_env(prefix + "_EXTERNAL_TRACKER"@, *v), (prefix + "_ID"@), prefix.len() as int + 1);
        },
        None => {},
    }
    lemma_single_apart_len(prefix, "_HAS_WIKI"@, bool_text(item.has_wiki), (prefix + "_ID"@));
    match &item.external_wiki {
        Some(v) => {
            lemma_external_wiki_env_under(prefix + "_EXTERNAL_WIKI"@, *v);
            lemma_no_value_apart(prefix + "_EXTERNAL_WIKI"@, external_wiki_env(prefix + "_EXTERNAL_WIKI"@, *v), (prefix + "_ID"@), prefix.len() as int + 1);
        },
        None => {},
    }
    lemma_single_apart_len(prefix, "_HAS_PULL_REQUESTS"@, bool_text(item.has_pull_requests), (prefix + "_ID"@));
    lemma_single_apart_len(prefix, "_HAS_PROJECTS"@, bool_text(item.has_projects), (prefix + "_ID"@));
    lemma_single_apart_len(prefix, "_IGNORE_WHITESPACE_CONFLICTS"@, bool_text(item.is_whitespace_conflict_ignored), (prefix + "_ID"@));
    lemma_single_apart_len(prefix, "_ALLOW_MERGE_COMMITS"@, bool_text(item.allow_merge_commits), (prefix + "_ID"@));
    lemma_single_apart_len(prefix, "_ALLOW_REBASE"@, bool_text(item.allow_rebase), (prefix + "_ID"@));
    lemma_single_apart_len(prefix, "_ALLOW_REBASE_EXPLICIT"@, bool_text(item.allow_rebase_explicit), (prefix + "_ID"@));
    lemma_single_apart_len(prefix, "_ALLOW_SQUASH_MERGE"@, bool_text(item.allow_squash_merge), (prefix + "_ID"@));
    lemma_single_apart_len(prefix, "_AVATAR_URL"@, item.avatar_url@, (prefix + "_ID"@));
    lemma_single_apart_len(prefix, "_INTERNAL"@, bool_text(item.is_internal), (prefix + "_ID"@));
    lemma_last_value_single((prefix + "_ID"@), signed_decimal(item.id as int), (prefix + "_ID"@));
}

/// In the environment of a repository, the variable of the field `full_name` holds it.
#[verifier::rlimit(100)]
pub proof fn lemma_repository_env_full_name(prefix: Seq<char>, item: Repository)
    ensures
        last_value(repository_env(prefix, item), (prefix + "_FULL_NAME"@)) == Some(item.full_name@),
{
    lemma_repository_keys();
    lemma_repository_env_lookup(prefix, item, (prefix + "_FULL_NAME"@));
    lemma_single_apart_len(prefix, "_DESCRIPTION"@, item.description@, (prefix + "_FULL_NAME"@));
    lemma_single_apart_len(prefix, "_EMPTY"@, bool_text(item.is_empty), (prefix + "_FULL_NAME"@));
    lemma_single_apart_len(prefix, "_PRIVATE"@, bool_text(item.is_private), (prefix + "_FULL_NAME"@));
    lemma_single_apart_len(prefix, "_FORK"@, bool_text(item.is_fork), (prefix + "_FULL_NAME"@));
    lemma_single_apart_len(prefix, "_TEMPLATE"@, bool_text(item.is_template), (prefix + "_FULL_NAME"@));
    match &item.parent {
        Some(v) => {
            lemma_repository_env_under(prefix + "_PARENT"@, **v);
            lemma_no_value_apart(prefix + "_PARENT"@, repository_env(prefix + "_PARENT"@, **v), (prefix + "_FULL_NAME"@), prefix.len() as int + 1);
        },
        None => {},
    }
    lemma_single_apart_len(prefix, "_MIRROR"@, bool_text(item.is_mirror), (prefix + "_FULL_NAME"@));
    lemma_single_apart_len(prefix, "_SIZE"@, signed_decimal(item.size_mib as int), (prefix + "_FULL_NAME"@));
    lemma_single_apart_len(prefix, "_HTML_URL"@, item.html_url@, (prefix + "_FULL_NAME"@));
    lemma_single_apart_len(prefix, "_SSH_URL"@, item.ssh_url@, (prefix + "_FULL_NAME"@));
    lemma_single_apart(prefix, "_CLONE_URL"@, item.clone_url@, (prefix + "_FULL_NAME"@), 1);
    lemma_single_apart_len(prefix, "_ORIGINAL_URL"@, item.original_url@, (prefix + "_FULL_NAME"@));
    lemma_single_apart_len(prefix, "_WEBSITE"@, item.website@, (prefix + "_FULL_NAME"@));
    lemma_single_apart_len(prefix, "_STARS_COUNT"@, signed_decimal(item.stars_count as int), (prefix + "_FULL_NAME"@));
    lemma_single_apart_len(prefix, "_FORKS_COUNT"@, signed_decimal(item.forks_count as int), (prefix + "_FULL_NAME"@));
    lemma_single_apart_len(prefix, "_WATCHERS_COUNT"@, signed_decimal(item.watchers_count as int), (prefix + "_FULL_NAME"@));
    lemma_single_apart_len(prefix, "_OPEN_ISSUES_COUNT"@, signed_decimal(item.open_issues_count as int), (prefix + "_FULL_NAME"@));
    lemma_single_apart_len(prefix, "_OPEN_PR_COUNTER"@, signed_decimal(item.open_pr_counter as int), (prefix + "_FULL_NAME"@));
    lemma_single_apart_len(prefix, "_RELEASE_COUNTER"@, signed_decimal(item.release_counter as int), (prefix + "_FULL_NAME"@));
    lemma_single_apart_len(prefix, "_DEFAULT_BRANCH"@, item.default_branch@, (prefix + "_FULL_NAME"@));
    lemma_single_apart_len(prefix, "_ARCHIVED"@, bool_text(item.is_archived), (prefix + "_FULL_NAME"@));
    lemma_single_apart_len(prefix, "_CREATED_AT"@, item.created_at@, (prefix + "_FULL_NAME"@));
    lemma_single_apart_len(prefix, "_UPDATED_AT"@, item.updated_at@, (prefix + "_FULL_NAME"@));
    match &item.permissions {
        Some(v) => {
            lemma_permissions_env_under(prefix + "_PERMISSIONS"@, *v);
            lemma_no_value_apart(prefix + "_PERMISSIONS"@, permissions_env(prefix + "_PERMISSIONS"@, *v), (prefix + "_FULL_NAME"@), prefix.len() as int + 1);
        },
        None => {},
    }
    lemma_single_apart_len(prefix, "_HAS_ISSUES"@, bool_text(item.has_issues), (prefix + "_FULL_NAME"@));
    match &item.internal_tracker {
        Some(v) => {
            lemma_internal_tracker_env_under(prefix + "_INTERNAL_TRACKER"@, *v);
            lemma_no_value_apart(prefix + "_INTERNAL_TRACKER"@, internal_tracker_env(prefix + "_INTERNAL_TRACKER"@, *v), (prefix + "_FULL_NAME"@), prefix.len() as int + 1);
        },
        None => {},
    }
    match &item.external_tracker {
        Some(v) => {
            lemma_external_tracker_env_under(prefix + "_EXTERNAL_TRACKER"@, *v);
            lemma_no_value_apart(prefix + "_EXTERNAL_TRACKER"@, external_tracker_env(prefix + "_EXTERNAL_TRACKER"@, *v), (prefix + "_FULL_NAME"@), prefix.len() as int + 1);
        },
        None => {},
    }
    lemma_single_apart_len(prefix, "_HAS_WIKI"@, bool_text(item.has_wiki), (prefix + "_FULL_NAME"@));
    match &item.external_wiki {
        Some(v) => {
            lemma_external_wiki_env_under(prefix + "_EXTERNAL_WIKI"@, *v);
            lemma_no_value_apart(prefix + "_EXTERNAL_WIKI"@, external_wiki_env(prefix + "_EXTERNAL_WIKI"@, *v), (prefix + "_FULL_NAME"@), prefix.len() as int + 1);
        },
        None => {},
    }
    lemma_single_apart_len(prefix, "_HAS_PULL_REQUESTS"@, bool_text(item.has_pull_requests), (prefix + "_FULL_NAME"@));
    lemma_single_apart_len(prefix, "_HAS_PROJECTS"@, bool_text(item.has_projects), (prefix + "_FULL_NAME"@));
    lemma_single_apart_len(prefix, "_IGNORE_WHITESPACE_CONFLICTS"@, bool_text(item.is_whitespace_conflict_ignored), (prefix + "_FULL_NAME"@));
    lemma_single_apart_len(prefix, "_ALLOW_MERGE_COMMITS"@, bool_text(item.allow_merge_commits), (prefix + "_FULL_NAME"@));
    lemma_single_apart_len(prefix, "_ALLOW_REBASE"@, bool_text(item.allow_rebase), (prefix + "_FULL_NAME"@));
    lemma_single_apart_len(prefix, "_ALLOW_REBASE_EXPLICIT"@, bool_text(item.allow_rebase_explicit), (prefix + "_FULL_NAME"@));
    lemma_single_apart_len(prefix, "_ALLOW_SQUASH_MERGE"@, bool_text(item.allow_squash_merge), (prefix + "_FULL_NAME"@));
    lemma_single_apart_len(prefix, "_AVATAR_URL"@, item.avatar_url@, (prefix + "_FULL_NAME"@));
    lemma_single_apart_len(prefix, "_INTERNAL"@, bool_text(item.is_internal), (prefix + "_FULL_NAME"@));
    lemma_last_value_single((prefix + "_FULL_NAME"@), item.full_name@, (prefix + "_FULL_NAME"@));
}

/// The texts of the keys in the environment of what an edit changed.
proof fn lemma_changes_keys()
    ensures
        "_BODY"@ == seq!['_', 'B', 'O', 'D', 'Y'],
        "_REF"@ == seq!['_', 'R', 'E', 'F'],
        "_TITLE"@ == seq!['_', 'T', 'I', 'T', 'L', 'E'],
{
    reveal_strlit("_BODY");
    assert("_BODY"@ =~= seq!['_', 'B', 'O', 'D', 'Y']);
    reveal_strlit("_REF");
    assert("_REF"@ =~= seq!['_', 'R', 'E', 'F']);
    reveal_strlit("_TITLE");
    assert("_TITLE"@ =~= seq!['_', 'T', 'I', 'T', 'L', 'E']);
}

/// A variable holds what the last part of the environment of what an edit changed that
/// assigns it leaves in it.
proof fn lemma_changes_env_lookup(prefix: Seq<char>, item: Changes, name: Seq<char>)
    ensures
        last_value(changes_env(prefix, item), name) == or_else(last_value((match &item.ref_path { Some(v) => earlier_value_env(prefix + "_REF"@, *v), None => seq![] }), name), or_else(last_value((match &item.body { Some(v) => earlier_value_env(prefix + "_BODY"@, *v), None => seq![] }), name), or_else(last_value((match &item.title { Some(v) => earlier_value_env(prefix + "_TITLE"@, *v), None => seq![] }), name), None))),
{
    let sum0_0 = (match &item.title { Some(v) => earlier_value_env(prefix + "_TITLE"@, *v), None => seq![] });
    let sum0_1 = sum0_0 + (match &item.body { Some(v) => earlier_value_env(prefix + "_BODY"@, *v), None => seq![] });
    let sum0_2 = sum0_1 + (match &item.ref_path { Some(v) => earlier_value_env(prefix + "_REF"@, *v), None => seq![] });
    lemma_last_value_concat(sum0_1, (match &item.ref_path { Some(v) => earlier_value_env(prefix + "_REF"@, *v), None => seq![] }), name);
    lemma_last_value_concat(sum0_0, (match &item.body { Some(v) => earlier_value_env(prefix + "_BODY"@, *v), None => seq![] }), name);
}

/// In the environment of what an edit changed, the variables whose names start with the
/// prefix and _TITLE describe the field `title`, and nothing else does.
pub proof fn lemma_changes_env_title(prefix: Seq<char>, item: Changes, name: Seq<char>)
    requires
        starts_with(name, prefix + "_TITLE"@),
    ensures
        last_value(changes_env(prefix, item), name) == last_value((match &item.title { Some(v) => earlier_value_env(prefix + "_TITLE"@, *v), None => seq![] }), name),
{
    lemma_changes_keys();
    lemma_changes_env_lookup(prefix, item, name);
    lemma_starts_with_char(name, prefix + "_TITLE"@, prefix.len() as int + 1);
    match &item.body {
        Some(v) => {
            lemma_earlier_value_env_under(prefix + "_BODY"@, *v);
            lemma_no_value_apart(prefix + "_BODY"@, earlier_value_env(prefix + "_BODY"@, *v), name, prefix.len() as int + 1);
        },
        None => {},
    }
    lemma_starts_with_char(name, prefix + "_TITLE"@, prefix.len() as int + 1);
    match &item.ref_path {
        Some(v) => {
            lemma_earlier_value_env_under(prefix + "_REF"@, *v);
            lemma_no_value_apart(prefix + "_REF"@, earlier_value_env(prefix + "_REF"@, *v), name, prefix.len() as int + 1);
        },
        None => {},
    }
}

/// In the environment of what an edit changed, the variables whose names start with the
/// prefix and _BODY describe the field `body`, and nothing else does.
pub proof fn lemma_changes_env_body(prefix: Seq<char>, item: Changes, name: Seq<char>)
    requires
        starts_with(name, prefix + "_BODY"@),
    ensures
        last_value(changes_env(prefix, item), name) == last_value((match &item.body { Some(v) => earlier_value_env(prefix + "_BODY"@, *v), None => seq![] }), name),
{
    lemma_changes_keys();
    lemma_changes_env_lookup(prefix, item, name);
    lemma_starts_with_char(name, prefix + "_BODY"@, prefix.len() as int + 1);
    match &item.title {
        Some(v) => {
            lemma_earlier_value_env_under(prefix + "_TITLE"@, *v);
            lemma_no_value_apart(prefix + "_TITLE"@, earlier_value_env(prefix + "_TITLE"@, *v), name, prefix.len() as int + 1);
        },
        None => {},
    }
    lemma_starts_with_char(name, prefix + "_BODY"@, prefix.len() as int + 1);
    match &item.ref_path {
        Some(v) => {
            lemma_earlier_value_env_under(prefix + "_REF"@, *v);
            lemma_no_value_apart(prefix + "_REF"@, earlier_value_env(prefix + "_REF"@, *v), name, prefix.len() as int + 1);
        },
        None => {},
    }
}

/// In the environment of what an edit changed, the variables whose names start with the
/// prefix and _REF describe the field `ref_path`, and nothing else does.
pub proof fn lemma_changes_env_ref(prefix: Seq<char>, item: Changes, name: Seq<char>)
    requires
        starts_with(name, prefix + "_REF"@),
    ensures
        last_value(changes_env(prefix, item), name) == last_value((match &item.ref_path { Some(v) => earlier_value_env(prefix + "_REF"@, *v), None => seq![] }), name),
{
    lemma_changes_keys();
    lemma_changes_env_lookup(prefix, item, name);
    lemma_starts_with_char(name, prefix + "_REF"@, prefix.len() as int + 1);
    match &item.title {
        Some(v) => {
            lemma_earlier_value_env_under(prefix + "_TITLE"@, *v);
            lemma_no_value_apart(prefix + "_TITLE"@, earlier_value_env(prefix + "_TITLE"@, *v), name, prefix.len() as int + 1);
        },
        None => {},
    }
    lemma_starts_with_char(name, prefix + "_REF"@, prefix.len() as int + 1);
    match &item.body {
        Some(v) => {
            lemma_earlier_value_env_under(prefix + "_BODY"@, *v);
            lemma_no_value_apart(prefix + "_BODY"@, earlier_value_env(prefix + "_BODY"@, *v), name, prefix.len() as int + 1);
        },
        None => {},
    }
}


/// The texts of the keys in the environment of the author or committer of a commit.
proof fn lemma_git_user_keys()
    ensures
        "_EMAIL"@ == seq!['_', 'E', 'M', 'A', 'I', 'L'],
        "_NAME"@ == seq!['_', 'N', 'A', 'M', 'E'],
        "_USERNAME"@ == seq!['_', 'U', 'S', 'E', 'R', 'N', 'A', 'M', 'E'],
{
    reveal_strlit("_EMAIL");
    assert("_EMAIL"@ =~= seq!['_', 'E', 'M', 'A', 'I', 'L']);
    reveal_strlit("_NAME");
    assert("_NAME"@ =~= seq!['_', 'N', 'A', 'M', 'E']);
    reveal_strlit("_USERNAME");
    assert("_USERNAME"@ =~= seq!['_', 'U', 'S', 'E', 'R', 'N', 'A', 'M', 'E']);
}

/// A variable holds what the last part of the environment of the author or committer of a commit that
/// assigns it leaves in it.
proof fn lemma_git_user_env_lookup(prefix: Seq<char>, item: GitUser, name: Seq<char>)
    ensures
        last_value(git_user_env(prefix, item), name) == or_else(last_value(seq![entry(prefix, "_USERNAME"@, item.username@)], name), or_else(last_value(seq![entry(prefix, "_EMAIL"@, item.email@)], name), or_else(last_value(seq![entry(prefix, "_NAME"@, item.name@)], name), None))),
{
    let sum0_0 = seq![entry(prefix, "_NAME"@, item.name@)];
    let sum0_1 = sum0_0 + seq![entry(prefix, "_EMAIL"@, item.email@)];
    let sum0_2 = sum0_1 + seq![entry(prefix, "_USERNAME"@, item.username@)];
    lemma_last_value_concat(sum0_1, seq![entry(prefix, "_USERNAME"@, item.username@)], name);
    lemma_last_value_concat(sum0_0, seq![entry(prefix, "_EMAIL"@, item.email@)], name);
}

/// In the environment of the author or committer of a commit, the variable of the field `name` holds it.
pub proof fn lemma_git_user_env_name(prefix: Seq<char>, item: GitUser)
    ensures
        last_value(git_user_env(prefix, item), (prefix + "_NAME"@)) == Some(item.name@),
{
    lemma_git_user_keys();
    lemma_git_user_env_lookup(prefix, item, (prefix + "_NAME"@));
    lemma_single_apart_len(prefix, "_EMAIL"@, item.email@, (prefix + "_NAME"@));
    lemma_single_apart_len(prefix, "_USERNAME"@, item.username@, (prefix + "_NAME"@));
    lemma_last_value_single((prefix + "_NAME"@), item.name@, (prefix + "_NAME"@));
}

/// In the environment of the author or committer of a commit, the variable of the field `email` holds it.
pub proof fn lemma_git_user_env_email(prefix: Seq<char>, item: GitUser)
    ensures
        last_value(git_user_env(prefix, item), (prefix + "_EMAIL"@)) == Some(item.email@),
{
    lemma_git_user_keys();
    lemma_git_user_env_lookup(prefix, item, (prefix + "_EMAIL"@));
    lemma_single_apart_len(prefix, "_USERNAME"@, item.username@, (prefix + "_EMAIL"@));
    lemma_last_value_single((prefix + "_EMAIL"@), item.email@, (prefix + "_EMAIL"@));
}

/// In the environment of the author or committer of a commit, the variable of the field `username` holds it.
pub proof fn lemma_git_user_env_username(prefix: Seq<char>, item: GitUser)
    ensures
        last_value(git_user_env(prefix, item), (prefix + "_USERNAME"@)) == Some(item.username@),
{
    lemma_git_user_keys();
    lemma_git_user_env_lookup(prefix, item, (prefix + "_USERNAME"@));
    lemma_last_value_single((prefix + "_USERNAME"@), item.username@, (prefix + "_USERNAME"@));
}

/// The texts of the keys in the environment of a Gitea account.
proof fn lemma_user_keys()
    ensures
        "_AVATAR_URL"@ == seq!['_', 'A', 'V', 'A', 'T', 'A', 'R', '_', 'U', 'R', 'L'],
        "_CREATED"@ == seq!['_', 'C', 'R', 'E', 'A', 'T', 'E', 'D'],
        "_EMAIL"@ == seq!['_', 'E', 'M', 'A', 'I', 'L'],
        "_FULL_NAME"@ == seq!['_', 'F', 'U', 'L', 'L', '_', 'N', 'A', 'M', 'E'],
        "_ID"@ == seq!['_', 'I', 'D'],
        "_IS_ADMIN"@ == seq!['_', 'I', 'S', '_', 'A', 'D', 'M', 'I', 'N'],
        "_LANGUAGE"@ == seq!['_', 'L', 'A', 'N', 'G', 'U', 'A', 'G', 'E'],
        "_LAST_LOGIN"@ == seq!['_', 'L', 'A', 'S', 'T', '_', 'L', 'O', 'G', 'I', 'N'],
        "_LOGIN"@ == seq!['_', 'L', 'O', 'G', 'I', 'N'],
        "_USERNAME"@ == seq!['_', 'U', 'S', 'E', 'R', 'N', 'A', 'M', 'E'],
{
    reveal_strlit("_AVATAR_URL");
    assert("_AVATAR_URL"@ =~= seq!['_', 'A', 'V', 'A', 'T', 'A', 'R', '_', 'U', 'R', 'L']);
    reveal_strlit("_CREATED");
    assert("_CREATED"@ =~= seq!['_', 'C', 'R', 'E', 'A', 'T', 'E', 'D']);
    reveal_strlit("_EMAIL");
    assert("_EMAIL"@ =~= seq!['_', 'E', 'M', 'A', 'I', 'L']);
    reveal_strlit("_FULL_NAME");
    assert("_FULL_NAME"@ =~= seq!['_', 'F', 'U', 'L', 'L', '_', 'N', 'A', 'M', 'E']);
    reveal_strlit("_ID");
    assert("_ID"@ =~= seq!['_', 'I', 'D']);
    reveal_strlit("_IS_ADMIN");
    assert("_IS_ADMIN"@ =~= seq!['_', 'I', 'S', '_', 'A', 'D', 'M', 'I', 'N']);
    reveal_strlit("_LANGUAGE");
    assert("_LANGUAGE"@ =~= seq!['_', 'L', 'A', 'N', 'G', 'U', 'A', 'G', 'E']);
    reveal_strlit("_LAST_LOGIN");
    assert("_LAST_LOGIN"@ =~= seq!['_', 'L', 'A', 'S', 'T', '_', 'L', 'O', 'G', 'I', 'N']);
    reveal_strlit("_LOGIN");
    assert("_LOGIN"@ =~= seq!['_', 'L', 'O', 'G', 'I', 'N']);
    reveal_strlit("_USERNAME");
    assert("_USERNAME"@ =~= seq!['_', 'U', 'S', 'E', 'R', 'N', 'A', 'M', 'E']);
}

/// A variable holds what the last part of the environment of a Gitea account that
/// assigns it leaves in it.
#[verifier::rlimit(100)]
proof fn lemma_user_env_lookup(prefix: Seq<char>, item: GiteaUser, name: Seq<char>)
    ensures
        last_value(user_env(prefix, item), name) == or_else(last_value(seq![entry(prefix, "_CREATED"@, item.created@)], name), or_else(last_value(seq![entry(prefix, "_LAST_LOGIN"@, item.last_login@)], name), or_else(last_value(seq![entry(prefix, "_IS_ADMIN"@, bool_text(item.is_admin))], name), or_else(last_value(seq![entry(prefix, "_LANGUAGE"@, item.language@)], name), or_else(last_value(seq![entry(prefix, "_USERNAME"@, item.username@)], name), or_else(last_value(seq![entry(prefix, "_AVATAR_URL"@, item.avatar_url@)], name), or_else(last_value(seq![entry(prefix, "_EMAIL"@, item.email@)], name), or_else(last_value(seq![entry(prefix, "_FULL_NAME"@, item.full_name@)], name), or_else(last_value(seq![entry(prefix, "_LOGIN"@, item.login@)], name), or_else(last_value(seq![entry(prefix, "_ID"@, signed_decimal(item.id as int))], name), None)))))))))),
{
    let sum0_0 = seq![entry(prefix, "_ID"@, signed_decimal(item.id as int))];
    let sum0_1 = sum0_0 + seq![entry(prefix, "_LOGIN"@, item.login@)];
    let sum0_2 = sum0_1 + seq![entry(prefix, "_FULL_NAME"@, item.full_name@)];
    let sum0_3 = sum0_2 + seq![entry(prefix, "_EMAIL"@, item.email@)];
    let sum0_4 = sum0_3 + seq![entry(prefix, "_AVATAR_URL"@, item.avatar_url@)];
    let sum0_5 = sum0_4 + seq![entry(prefix, "_USERNAME"@, item.username@)];
    let sum0_6 = sum0_5 + seq![entry(prefix, "_LANGUAGE"@, item.language@)];
    let sum0_7 = sum0_6 + seq![entry(prefix, "_IS_ADMIN"@, bool_text(item.is_admin))];
    let sum0_8 = sum0_7 + seq![entry(prefix, "_LAST_LOGIN"@, item.last_login@)];
    let sum0_9 = sum0_8 + seq![entry(prefix, "_CREATED"@, item.created@)];
    lemma_last_value_concat(sum0_8, seq![entry(prefix, "_CREATED"@, item.created@)], name);
    lemma_last_value_concat(sum0_7, seq![entry(prefix, "_LAST_LOGIN"@, item.last_login@)], name);
    lemma_last_value_concat(sum0_6, seq![entry(prefix, "_IS_ADMIN"@, bool_text(item.is_admin))], name);
    lemma_last_value_concat(sum0_5, seq![entry(prefix, "_LANGUAGE"@, item.language@)], name);
    lemma_last_value_concat(sum0_4, seq![entry(prefix, "_USERNAME"@, item.username@)], name);
    lemma_last_value_concat(sum0_3, seq![entry(prefix, "_AVATAR_URL"@, item.avatar_url@)], name);
    lemma_last_value_concat(sum0_2, seq![entry(prefix, "_EMAIL"@, item.email@)], name);
    lemma_last_value_concat(sum0_1, seq![entry(prefix, "_FULL_NAME"@, item.full_name@)], name);
    lemma_last_value_concat(sum0_0, seq![entry(prefix, "_LOGIN"@, item.login@)], name);
}

/// In the environment of a Gitea account, the variable of the field `id` holds it.
#[verifier::rlimit(100)]
pub proof fn lemma_user_env_id(prefix: Seq<char>, item: GiteaUser)
    ensures
        last_value(user_env(prefix, item), (prefix + "_ID"@)) == Some(signed_decimal(item.id as int)),
{
    lemma_user_keys();
    lemma_user_env_lookup(prefix, item, (prefix + "_ID"@));
    lemma_single_apart_len(prefix, "_LOGIN"@, item.login@, (prefix + "_ID"@));
    lemma_single_apart_len(prefix, "_FULL_NAME"@, item.full_name@, (prefix + "_ID"@));
    lemma_single_apart_len(prefix, "_EMAIL"@, item.email@, (prefix + "_ID"@));
    lemma_single_apart_len(prefix, "_AVATAR_URL"@, item.avatar_url@, (prefix + "_ID"@));
    lemma_single_apart_len(prefix, "_USERNAME"@, item.username@, (prefix + "_ID"@));
    lemma_single_apart_len(prefix, "_LANGUAGE"@, item.language@, (prefix + "_ID"@));
    lemma_single_apart_len(prefix, "_IS_ADMIN"@, bool_text(item.is_admin), (prefix + "_ID"@));
    lemma_single_apart_len(prefix, "_LAST_LOGIN"@, item.last_login@, (prefix + "_ID"@));
    lemma_single_apart_len(prefix, "_CREATED"@, item.created@, (prefix + "_ID"@));
    lemma_last_value_single((prefix + "_ID"@), signed_decimal(item.id as int), (prefix + "_ID"@));
}

/// In the environment of a Gitea account, the variable of the field `login` holds it.
#[verifier::rlimit(100)]
pub proof fn lemma_user_env_login(prefix: Seq<char>, item: GiteaUser)
    ensures
        last_value(user_env(prefix, item), (prefix + "_LOGIN"@)) == Some(item.login@),
{
    lemma_user_keys();
    lemma_user_env_lookup(prefix, item, (prefix + "_LOGIN"@));
    lemma_single_apart_len(prefix, "_FULL_NAME"@, item.full_name@, (prefix + "_LOGIN"@));
    lemma_single_apart(prefix, "_EMAIL"@, item.email@, (prefix + "_LOGIN"@), 1);
    lemma_single_apart_len(prefix, "_AVATAR_URL"@, item.avatar_url@, (prefix + "_LOGIN"@));
    lemma_single_apart_len(prefix, "_USERNAME"@, item.username@, (prefix + "_LOGIN"@));
    lemma_single_apart_len(prefix, "_LANGUAGE"@, item.language@, (prefix + "_LOGIN"@));
    lemma_single_apart_len(prefix, "_IS_ADMIN"@, bool_text(item.is_admin), (prefix + "_LOGIN"@));
    lemma_single_apart_len(prefix, "_LAST_LOGIN"@, item.last_login@, (prefix + "_LOGIN"@));
    lemma_single_apart_len(prefix, "_CREATED"@, item.created@, (prefix + "_LOGIN"@));
    lemma_last_value_single((prefix + "_LOGIN"@), item.login@, (prefix + "_LOGIN"@));
}

/// In the environment of a Gitea account, the variable of the field `full_name` holds it.
#[verifier::rlimit(100)]
pub proof fn lemma_user_env_full_name(prefix: Seq<char>, item: GiteaUser)
    ensures
        last_value(user_env(prefix, item), (prefix + "_FULL_NAME"@)) == Some(item.full_name@),
{
    lemma_user_keys();
    lemma_user_env_lookup(prefix, item, (prefix + "_FULL_NAME"@));
    lemma_single_apart_len(prefix, "_EMAIL"@, item.email@, (prefix + "_FULL_NAME"@));
    lemma_single_apart_len(prefix, "_AVATAR_URL"@, item.avatar_url@, (prefix + "_FULL_NAME"@));
    lemma_single_apart_len(prefix, "_USERNAME"@, item.username@, (prefix + "_FULL_NAME"@));
    lemma_single_apart_len(prefix, "_LANGUAGE"@, item.language@, (prefix + "_FULL_NAME"@));
    lemma_single_apart_len(prefix, "_IS_ADMIN"@, bool_text(item.is_admin), (prefix + "_FULL_NAME"@));
    lemma_single_apart_len(prefix, "_LAST_LOGIN"@, item.last_login@, (prefix + "_FULL_NAME"@));
    lemma_single_apart_len(prefix, "_CREATED"@, item.created@, (prefix + "_FULL_NAME"@));
    lemma_last_value_single((prefix + "_FULL_NAME"@), item.full_name@, (prefix + "_FULL_NAME"@));
}

/// In the environment of a Gitea account, the variable of the field `email` holds it.
#[verifier::rlimit(100)]
pub proof fn lemma_user_env_email(prefix: Seq<char>, item: GiteaUser)
    ensures
        last_value(user_env(prefix, item), (prefix + "_EMAIL"@)) == Some(item.email@),
{
    lemma_user_keys();
    lemma_user_env_lookup(prefix, item, (prefix + "_EMAIL"@));
    lemma_single_apart_len(prefix, "_AVATAR_URL"@, item.avatar_url@, (prefix + "_EMAIL"@));
    lemma_single_apart_len(prefix, "_USERNAME"@, item.username@, (prefix + "_EMAIL"@));
    lemma_single_apart_len(prefix, "_LANGUAGE"@, item.language@, (prefix + "_EMAIL"@));
    lemma_single_apart_len(prefix, "_IS_ADMIN"@, bool_text(item.is_admin), (prefix + "_EMAIL"@));
    lemma_single_apart_len(prefix, "_LAST_LOGIN"@, item.last_login@, (prefix + "_EMAIL"@));
    lemma_single_apart_len(prefix, "_CREATED"@, item.created@, (prefix + "_EMAIL"@));
    lemma_last_value_single((prefix + "_EMAIL"@), item.email@, (prefix + "_EMAIL"@));
}

/// In the environment of a Gitea account, the variable of the field `avatar_url` holds it.
#[verifier::rlimit(100)]
pub proof fn lemma_user_env_avatar_url(prefix: Seq<char>, item: GiteaUser)
    ensures
        last_value(user_env(prefix, item), (prefix + "_AVATAR_URL"@)) == Some(item.avatar_url@),
{
    lemma_user_keys();
    lemma_user_env_lookup(prefix, item, (prefix + "_AVATAR_URL"@));
    lemma_single_apart_len(prefix, "_USERNAME"@, item.username@, (prefix + "_AVATAR_URL"@));
    lemma_single_apart_len(prefix, "_LANGUAGE"@, item.language@, (prefix + "_AVATAR_URL"@));
    lemma_single_apart_len(prefix, "_IS_ADMIN"@, bool_text(item.is_admin), (prefix + "_AVATAR_URL"@));
    lemma_single_apart(prefix, "_LAST_LOGIN"@, item.last_login@, (prefix + "_AVATAR_URL"@), 1);
    lemma_single_apart_len(prefix, "_CREATED"@, item.created@, (prefix + "_AVATAR_URL"@));
    lemma_last_value_single((prefix + "_AVATAR_URL"@), item.avatar_url@, (prefix + "_AVATAR_URL"@));
}

/// In the environment of a Gitea account, the variable of the field `username` holds it.
#[verifier::rlimit(100)]
pub proof fn lemma_user_env_username(prefix: Seq<char>, item: GiteaUser)
    ensures
        last_value(user_env(prefix, item), (prefix + "_USERNAME"@)) == Some(item.username@),
{
    lemma_user_keys();
    lemma_user_env_lookup(prefix, item, (prefix + "_USERNAME"@));
    lemma_single_apart(prefix, "_LANGUAGE"@, item.language@, (prefix + "_USERNAME"@), 1);
    lemma_single_apart(prefix, "_IS_ADMIN"@, bool_text(item.is_admin), (prefix + "_USERNAME"@), 1);
    lemma_single_apart_len(prefix, "_LAST_LOGIN"@, item.last_login@, (prefix + "_USERNAME"@));
    lemma_single_apart_len(prefix, "_CREATED"@, item.created@, (prefix + "_USERNAME"@));
    lemma_last_value_single((prefix + "_USERNAME"@), item.username@, (prefix + "_USERNAME"@));
}

/// In the environment of a Gitea account, the variable of the field `language` holds it.
#[verifier::rlimit(100)]
pub proof fn lemma_user_env_language(prefix: Seq<char>, item: GiteaUser)
    ensures
        last_value(user_env(prefix, item), (prefix + "_LANGUAGE"@)) == Some(item.language@),
{
    lemma_user_keys();
    lemma_user_env_lookup(prefix, item, (prefix + "_LANGUAGE"@));
    lemma_single_apart(prefix, "_IS_ADMIN"@, bool_text(item.is_admin), (prefix + "_LANGUAGE"@), 1);
    lemma_single_apart_len(prefix, "_LAST_LOGIN"@, item.last_login@, (prefix + "_LANGUAGE"@));
    lemma_single_apart_len(prefix, "_CREATED"@, item.created@, (prefix + "_LANGUAGE"@));
    lemma_last_value_single((prefix + "_LANGUAGE"@), item.language@, (prefix + "_LANGUAGE"@));
}

/// In the environment of a Gitea account, the variable of the field `is_admin` holds it.
#[verifier::rlimit(100)]
pub proof fn lemma_user_env_is_admin(prefix: Seq<char>, item: GiteaUser)
    ensures
        last_value(user_env(prefix, item), (prefix + "_IS_ADMIN"@)) == Some(bool_text(item.is_admin)),
{
    lemma_user_keys();
    lemma_user_env_lookup(prefix, item, (prefix + "_IS_ADMIN"@));
    lemma_single_apart_len(prefix, "_LAST_LOGIN"@, item.last_login@, (prefix + "_IS_ADMIN"@));
    lemma_single_apart_len(prefix, "_CREATED"@, item.created@, (prefix + "_IS_ADMIN"@));
    lemma_last_value_single((prefix + "_IS_ADMIN"@), bool_text(item.is_admin), (prefix + "_IS_ADMIN"@));
}

/// In the environment of a Gitea account, the variable of the field `last_login` holds it.
#[verifier::rlimit(100)]
pub proof fn lemma_user_env_last_login(prefix: Seq<char>, item: GiteaUser)
    ensures
        last_value(user_env(prefix, item), (prefix + "_LAST_LOGIN"@)) == Some(item.last_login@),
{
    lemma_user_keys();
    lemma_user_env_lookup(prefix, item, (prefix + "_LAST_LOGIN"@));
    lemma_single_apart_len(prefix, "_CREATED"@, item.created@, (prefix + "_LAST_LOGIN"@));
    lemma_last_value_single((prefix + "_LAST_LOGIN"@), item.last_login@, (prefix + "_LAST_LOGIN"@));
}

/// In the environment of a Gitea account, the variable of the field `created` holds it.
#[verifier::rlimit(100)]
pub proof fn lemma_user_env_created(prefix: Seq<char>, item: GiteaUser)
    ensures
        last_value(user_env(prefix, item), (prefix + "_CREATED"@)) == Some(item.created@),
{
    lemma_user_keys();
    lemma_user_env_lookup(prefix, item, (prefix + "_CREATED"@));
    lemma_last_value_single((prefix + "_CREATED"@), item.created@, (prefix + "_CREATED"@));
}

/// The texts of the keys in the environment of a commit.
proof fn lemma_commit_keys()
    ensures
        "_AUTHOR"@ == seq!['_', 'A', 'U', 'T', 'H', 'O', 'R'],
        "_COMMITTER"@ == seq!['_', 'C', 'O', 'M', 'M', 'I', 'T', 'T', 'E', 'R'],
        "_ID"@ == seq!['_', 'I', 'D'],
        "_MESSAGE"@ == seq!['_', 'M', 'E', 'S', 'S', 'A', 'G', 'E'],
        "_TIMESTAMP"@ == seq!['_', 'T', 'I', 'M', 'E', 'S', 'T', 'A', 'M', 'P'],
        "_URL"@ == seq!['_', 'U', 'R', 'L'],
{
    reveal_strlit("_AUTHOR");
    assert("_AUTHOR"@ =~= seq!['_', 'A', 'U', 'T', 'H', 'O', 'R']);
    reveal_strlit("_COMMITTER");
    assert("_COMMITTER"@ =~= seq!['_', 'C', 'O', 'M', 'M', 'I', 'T', 'T', 'E', 'R']);
    reveal_strlit("_ID");
    assert("_ID"@ =~= seq!['_', 'I', 'D']);
    reveal_strlit("_MESSAGE");
    assert("_MESSAGE"@ =~= seq!['_', 'M', 'E', 'S', 'S', 'A', 'G', 'E']);
    reveal_strlit("_TIMESTAMP");
    assert("_TIMESTAMP"@ =~= seq!['_', 'T', 'I', 'M', 'E', 'S', 'T', 'A', 'M', 'P']);
    reveal_strlit("_URL");
    assert("_URL"@ =~= seq!['_', 'U', 'R', 'L']);
}

/// A variable holds what the last part of the environment of a commit that
/// assigns it leaves in it.
#[verifier::rlimit(100)]
proof fn lemma_commit_env_lookup(prefix: Seq<char>, item: Commit, name: Seq<char>)
    ensures
        last_value(commit_env(prefix, item), name) == or_else(last_value(seq![entry(prefix, "_TIMESTAMP"@, item.timestamp@)], name), or_else(last_value(git_user_env(prefix + "_COMMITTER"@, item.committer), name), or_else(last_value(git_user_env(prefix + "_AUTHOR"@, item.author), name), or_else(last_value(seq![entry(prefix, "_URL"@, item.url@)], name), or_else(last_value(seq![entry(prefix, "_MESSAGE"@, item.message@)], name), or_else(last_value(seq![entry(prefix, "_ID"@, item.id@)], name), None)))))),
{
    let sum0_0 = seq![entry(prefix, "_ID"@, item.id@)];
    let sum0_1 = sum0_0 + seq![entry(prefix, "_MESSAGE"@, item.message@)];
    let sum0_2 = sum0_1 + seq![entry(prefix, "_URL"@, item.url@)];
    let sum0_3 = sum0_2 + git_user_env(prefix + "_AUTHOR"@, item.author);
    let sum0_4 = sum0_3 + git_user_env(prefix + "_COMMITTER"@, item.committer);
    let sum0_5 = sum0_4 + seq![entry(prefix, "_TIMESTAMP"@, item.timestamp@)];
    lemma_last_value_concat(sum0_4, seq![entry(prefix, "_TIMESTAMP"@, item.timestamp@)], name);
    lemma_last_value_concat(sum0_3, git_user_env(prefix + "_COMMITTER"@, item.committer), name);
    lemma_last_value_concat(sum0_2, git_user_env(prefix + "_AUTHOR"@, item.author), name);
    lemma_last_value_concat(sum0_1, seq![entry(prefix, "_URL"@, item.url@)], name);
    lemma_last_value_concat(sum0_0, seq![entry(prefix, "_MESSAGE"@, item.message@)], name);
}

/// In the environment of a commit, the variable of the field `id` holds it.
#[verifier::rlimit(100)]
pub proof fn lemma_commit_env_id(prefix: Seq<char>, item: Commit)
    ensures
        last_value(commit_env(prefix, item), (prefix + "_ID"@)) == Some(item.id@),
{
    lemma_commit_keys();
    lemma_commit_env_lookup(prefix, item, (prefix + "_ID"@));
    lemma_single_apart_len(prefix, "_MESSAGE"@, item.message@, (prefix + "_ID"@));
    lemma_single_apart_len(prefix, "_URL"@, item.url@, (prefix + "_ID"@));
    lemma_git_user_env_under(prefix + "_AUTHOR"@, item.author);
    lemma_no_value_apart(prefix + "_AUTHOR"@, git_user_env(prefix + "_AUTHOR"@, item.author), (prefix + "_ID"@), prefix.len() as int + 1);
    lemma_git_user_env_under(prefix + "_COMMITTER"@, item.committer);
    lemma_no_value_apart(prefix + "_COMMITTER"@, git_user_env(prefix + "_COMMITTER"@, item.committer), (prefix + "_ID"@), prefix.len() as int + 1);
    lemma_single_apart_len(prefix, "_TIMESTAMP"@, item.timestamp@, (prefix + "_ID"@));
    lemma_last_value_single((prefix + "_ID"@), item.id@, (prefix + "_ID"@));
}

/// In the environment of a commit, the variable of the field `message` holds it.
#[verifier::rlimit(100)]
pub proof fn lemma_commit_env_message(prefix: Seq<char>, item: Commit)
    ensures
        last_value(commit_env(prefix, item), (prefix + "_MESSAGE"@)) == Some(item.message@),
{
    lemma_commit_keys();
    lemma_commit_env_lookup(prefix, item, (prefix + "_MESSAGE"@));
    lemma_single_apart_len(prefix, "_URL"@, item.url@, (prefix + "_MESSAGE"@));
    lemma_git_user_env_under(prefix + "_AUTHOR"@, item.author);
    lemma_no_value_apart(prefix + "_AUTHOR"@, git_user_env(prefix + "_AUTHOR"@, item.author), (prefix + "_MESSAGE"@), prefix.len() as int + 1);
    lemma_git_user_env_under(prefix + "_COMMITTER"@, item.committer);
    lemma_no_value_apart(prefix + "_COMMITTER"@, git_user_env(prefix + "_COMMITTER"@, item.committer), (prefix + "_MESSAGE"@), prefix.len() as int + 1);
    lemma_single_apart_len(prefix, "_TIMESTAMP"@, item.timestamp@, (prefix + "_MESSAGE"@));
    lemma_last_value_single((prefix + "_MESSAGE"@), item.message@, (prefix + "_MESSAGE"@));
}

/// In the environment of a commit, the variable of the field `url` holds it.
#[verifier::rlimit(100)]
pub proof fn lemma_commit_env_url(prefix: Seq<char>, item: Commit)
    ensures
        last_value(commit_env(prefix, item), (prefix + "_URL"@)) == Some(item.url@),
{
    lemma_commit_keys();
    lemma_commit_env_lookup(prefix, item, (prefix + "_URL"@));
    lemma_git_user_env_under(prefix + "_AUTHOR"@, item.author);
    lemma_no_value_apart(prefix + "_AUTHOR"@, git_user_env(prefix + "_AUTHOR"@, item.author), (prefix + "_URL"@), prefix.len() as int + 1);
    lemma_git_user_env_under(prefix + "_COMMITTER"@, item.committer);
    lemma_no_value_apart(prefix + "_COMMITTER"@, git_user_env(prefix + "_COMMITTER"@, item.committer), (prefix + "_URL"@), prefix.len() as int + 1);
    lemma_single_apart_len(prefix, "_TIMESTAMP"@, item.timestamp@, (prefix + "_URL"@));
    lemma_last_value_single((prefix + "_URL"@), item.url@, (prefix + "_URL"@));
}

/// In the environment of a commit, the variables whose names start with the
/// prefix and _AUTHOR describe the field `author`, and nothing else does.
#[verifier::rlimit(100)]
pub proof fn lemma_commit_env_author(prefix: Seq<char>, item: Commit, name: Seq<char>)
    requires
        starts_with(name, prefix + "_AUTHOR"@),
    ensures
        last_value(commit_env(prefix, item), name) == last_value(git_user_env(prefix + "_AUTHOR"@, item.author), name),
{
    lemma_commit_keys();
    lemma_commit_env_lookup(prefix, item, name);
    lemma_starts_with_char(name, prefix + "_AUTHOR"@, prefix.len() as int + 1);
    lemma_single_apart(prefix, "_ID"@, item.id@, name, 1);
    lemma_starts_with_char(name, prefix + "_AUTHOR"@, prefix.len() as int + 1);
    lemma_single_apart(prefix, "_MESSAGE"@, item.message@, name, 1);
    lemma_starts_with_char(name, prefix + "_AUTHOR"@, prefix.len() as int + 1);
    lemma_single_apart(prefix, "_URL"@, item.url@, name, 1);
    lemma_starts_with_char(name, prefix + "_AUTHOR"@, prefix.len() as int + 1);
    lemma_git_user_env_under(prefix + "_COMMITTER"@, item.committer);
    lemma_no_value_apart(prefix + "_COMMITTER"@, git_user_env(prefix + "_COMMITTER"@, item.committer), name, prefix.len() as int + 1);
    lemma_starts_with_char(name, prefix + "_AUTHOR"@, prefix.len() as int + 1);
    lemma_single_apart(prefix, "_TIMESTAMP"@, item.timestamp@, name, 1);
}

/// In the environment of a commit, the variables whose names start with the
/// prefix and _COMMITTER describe the field `committer`, and nothing else does.
#[verifier::rlimit(100)]
pub proof fn lemma_commit_env_committer(prefix: Seq<char>, item: Commit, name: Seq<char>)
    requires
        starts_with(name, prefix + "_COMMITTER"@),
    ensures
        last_value(commit_env(prefix, item), name) == last_value(git_user_env(prefix + "_COMMITTER"@, item.committer), name),
{
    lemma_commit_keys();
    lemma_commit_env_lookup(prefix, item, name);
    lemma_starts_with_char(name, prefix + "_COMMITTER"@, prefix.len() as int + 1);
    lemma_single_apart(prefix, "_ID"@, item.id@, name, 1);
    lemma_starts_with_char(name, prefix + "_COMMITTER"@, prefix.len() as int + 1);
    lemma_single_apart(prefix, "_MESSAGE"@, item.message@, name, 1);
    lemma_starts_with_char(name, prefix + "_COMMITTER"@, prefix.len() as int + 1);
    lemma_single_apart(prefix, "_URL"@, item.url@, name, 1);
    lemma_starts_with_char(name, prefix + "_COMMITTER"@, prefix.len() as int + 1);
    lemma_git_user_env_under(prefix + "_AUTHOR"@, item.author);
    lemma_no_value_apart(prefix + "_AUTHOR"@, git_user_env(prefix + "_AUTHOR"@, item.author), name, prefix.len() as int + 1);
    lemma_starts_with_char(name, prefix + "_COMMITTER"@, prefix.len() as int + 1);
    lemma_single_apart(prefix, "_TIMESTAMP"@, item.timestamp@, name, 1);
}

/// In the environment of a commit, the variable of the field `timestamp` holds it.
#[verifier::rlimit(100)]
pub proof fn lemma_commit_env_timestamp(prefix: Seq<char>, item: Commit)
    ensures
        last_value(commit_env(prefix, item), (prefix + "_TIMESTAMP"@)) == Some(item.timestamp@),
{
    lemma_commit_keys();
    lemma_commit_env_lookup(prefix, item, (prefix + "_TIMESTAMP"@));
    lemma_last_value_single((prefix + "_TIMESTAMP"@), item.timestamp@, (prefix + "_TIMESTAMP"@));
}

/// The texts of the keys in the environment of a milestone.
proof fn lemma_milestone_keys()
    ensures
        "_CLOSED_AT"@ == seq!['_', 'C', 'L', 'O', 'S', 'E', 'D', '_', 'A', 'T'],
        "_CLOSED_ISSUES"@ == seq!['_', 'C', 'L', 'O', 'S', 'E', 'D', '_', 'I', 'S', 'S', 'U', 'E', 'S'],
        "_CREATED_AT"@ == seq!['_', 'C', 'R', 'E', 'A', 'T', 'E', 'D', '_', 'A', 'T'],
        "_DESCRIPTION"@ == seq!['_', 'D', 'E', 'S', 'C', 'R', 'I', 'P', 'T', 'I', 'O', 'N'],
        "_DUE_ON"@ == seq!['_', 'D', 'U', 'E', '_', 'O', 'N'],
        "_ID"@ == seq!['_', 'I', 'D'],
        "_OPEN_ISSUES"@ == seq!['_', 'O', 'P', 'E', 'N', '_', 'I', 'S', 'S', 'U', 'E', 'S'],
        "_STATE"@ == seq!['_', 'S', 'T', 'A', 'T', 'E'],
        "_TITLE"@ == seq!['_', 'T', 'I', 'T', 'L', 'E'],
        "_UPDATED_AT"@ == seq!['_', 'U', 'P', 'D', 'A', 'T', 'E', 'D', '_', 'A', 'T'],
{
    reveal_strlit("_CLOSED_AT");
    assert("_CLOSED_AT"@ =~= seq!['_', 'C', 'L', 'O', 'S', 'E', 'D', '_', 'A', 'T']);
    reveal_strlit("_CLOSED_ISSUES");
    assert("_CLOSED_ISSUES"@ =~= seq!['_', 'C', 'L', 'O', 'S', 'E', 'D', '_', 'I', 'S', 'S', 'U', 'E', 'S']);
    reveal_strlit("_CREATED_AT");
    assert("_CREATED_AT"@ =~= seq!['_', 'C', 'R', 'E', 'A', 'T', 'E', 'D', '_', 'A', 'T']);
    reveal_strlit("_DESCRIPTION");
    assert("_DESCRIPTION"@ =~= seq!['_', 'D', 'E', 'S', 'C', 'R', 'I', 'P', 'T', 'I', 'O', 'N']);
    reveal_strlit("_DUE_ON");
    assert("_DUE_ON"@ =~= seq!['_', 'D', 'U', 'E', '_', 'O', 'N']);
    reveal_strlit("_ID");
    assert("_ID"@ =~= seq!['_', 'I', 'D']);
    reveal_strlit("_OPEN_ISSUES");
    assert("_OPEN_ISSUES"@ =~= seq!['_', 'O', 'P', 'E', 'N', '_', 'I', 'S', 'S', 'U', 'E', 'S']);
    reveal_strlit("_STATE");
    assert("_STATE"@ =~= seq!['_', 'S', 'T', 'A', 'T', 'E']);
    reveal_strlit("_TITLE");
    assert("_TITLE"@ =~= seq!['_', 'T', 'I', 'T', 'L', 'E']);
    reveal_strlit("_UPDATED_AT");
    assert("_UPDATED_AT"@ =~= seq!['_', 'U', 'P', 'D', 'A', 'T', 'E', 'D', '_', 'A', 'T']);
}

/// A variable holds what the last part of the environment of a milestone that
/// assigns it leaves in it.
proof fn lemma_milestone_env_lookup(prefix: Seq<char>, item: Milestone, name: Seq<char>)
    ensures
        last_value(milestone_env(prefix, item), name) == or_else(last_value(seq![entry(prefix, "_DUE_ON"@, item.due_on@)], name), or_else(last_value(seq![entry(prefix, "_CLOSED_AT"@, item.closed_at@)], name), or_else(last_value(seq![entry(prefix, "_UPDATED_AT"@, item.updated_at@)], name), or_else(last_value(seq![entry(prefix, "_CREATED_AT"@, item.created_at@)], name), or_else(last_value(seq![entry(prefix, "_CLOSED_ISSUES"@, signed_decimal(item.closed_issues as int))], name), or_else(last_value(seq![entry(prefix, "_OPEN_ISSUES"@, signed_decimal(item.open_issues as int))], name), or_else(last_value(seq![entry(prefix, "_STATE"@, item.state@)], name), or_else(last_value(seq![entry(prefix, "_DESCRIPTION"@, item.description@)], name), or_else(last_value(seq![entry(prefix, "_TITLE"@, item.title@)], name), or_else(last_value(seq![entry(prefix, "_ID"@, signed_decimal(item.id as int))], name), None)))))))))),
{
    let sum0_0 = seq![entry(prefix, "_ID"@, signed_decimal(item.id as int))];
    let sum0_1 = sum0_0 + seq![entry(prefix, "_TITLE"@, item.title@)];
    let sum0_2 = sum0_1 + seq![entry(prefix, "_DESCRIPTION"@, item.description@)];
    let sum0_3 = sum0_2 + seq![entry(prefix, "_STATE"@, item.state@)];
    let sum0_4 = sum0_3 + seq![entry(prefix, "_OPEN_ISSUES"@, signed_decimal(item.open_issues as int))];
    let sum0_5 = sum0_4 + seq![entry(prefix, "_CLOSED_ISSUES"@, signed_decimal(item.closed_issues as int))];
    let sum0_6 = sum0_5 + seq![entry(prefix, "_CREATED_AT"@, item.created_at@)];
    let sum0_7 = sum0_6 + seq![entry(prefix, "_UPDATED_AT"@, item.updated_at@)];
    let sum0_8 = sum0_7 + seq![entry(prefix, "_CLOSED_AT"@, item.closed_at@)];
    let sum0_9 = sum0_8 + seq![entry(prefix, "_DUE_ON"@, item.due_on@)];
    lemma_last_value_concat(sum0_8, seq![entry(prefix, "_DUE_ON"@, item.due_on@)], name);
    lemma_last_value_concat(sum0_7, seq![entry(prefix, "_CLOSED_AT"@, item.closed_at@)], name);
    lemma_last_value_concat(sum0_6, seq![entry(prefix, "_UPDATED_AT"@, item.updated_at@)], name);
    lemma_last_value_concat(sum0_5, seq![entry(prefix, "_CREATED_AT"@, item.created_at@)], name);
    lemma_last_value_concat(sum0_4, seq![entry(prefix, "_CLOSED_ISSUES"@, signed_decimal(item.closed_issues as int))], name);
    lemma_last_value_concat(sum0_3, seq![entry(prefix, "_OPEN_ISSUES"@, signed_decimal(item.open_issues as int))], name);
    lemma_last_value_concat(sum0_2, seq![entry(prefix, "_STATE"@, item.state@)], name);
    lemma_last_value_concat(sum0_1, seq![entry(prefix, "_DESCRIPTION"@, item.description@)], name);
    lemma_last_value_concat(sum0_0, seq![entry(prefix, "_TITLE"@, item.title@)], name);
}

/// In the environment of a milestone, the variable of the field `id` holds it.
pub proof fn lemma_milestone_env_id(prefix: Seq<char>, item: Milestone)
    ensures
        last_value(milestone_env(prefix, item), (prefix + "_ID"@)) == Some(signed_decimal(item.id as int)),
{
    lemma_milestone_keys();
    lemma_milestone_env_lookup(prefix, item, (prefix + "_ID"@));
    lemma_single_apart_len(prefix, "_TITLE"@, item.title@, (prefix + "_ID"@));
    lemma_single_apart_len(prefix, "_DESCRIPTION"@, item.description@, (prefix + "_ID"@));
    lemma_single_apart_len(prefix, "_STATE"@, item.state@, (prefix + "_ID"@));
    lemma_single_apart_len(prefix, "_OPEN_ISSUES"@, signed_decimal(item.open_issues as int), (prefix + "_ID"@));
    lemma_single_apart_len(prefix, "_CLOSED_ISSUES"@, signed_decimal(item.closed_issues as int), (prefix + "_ID"@));
    lemma_single_apart_len(prefix, "_CREATED_AT"@, item.created_at@, (prefix + "_ID"@));
    lemma_single_apart_len(prefix, "_UPDATED_AT"@, item.updated_at@, (prefix + "_ID"@));
    lemma_single_apart_len(prefix, "_CLOSED_AT"@, item.closed_at@, (prefix + "_ID"@));
    lemma_single_apart_len(prefix, "_DUE_ON"@, item.due_on@, (prefix + "_ID"@));
    lemma_last_value_single((prefix + "_ID"@), signed_decimal(item.id as int), (prefix + "_ID"@));
}

/// In the environment of a milestone, the variable of the field `title` holds it.
pub proof fn lemma_milestone_env_title(prefix: Seq<char>, item: Milestone)
    ensures
        last_value(milestone_env(prefix, item), (prefix + "_TITLE"@)) == Some(item.title@),
{
    lemma_milestone_keys();
    lemma_milestone_env_lookup(prefix, item, (prefix + "_TITLE"@));
    lemma_single_apart_len(prefix, "_DESCRIPTION"@, item.description@, (prefix + "_TITLE"@));
    lemma_single_apart(prefix, "_STATE"@, item.state@, (prefix + "_TITLE"@), 1);
    lemma_single_apart_len(prefix, "_OPEN_ISSUES"@, signed_decimal(item.open_issues as int), (prefix + "_TITLE"@));
    lemma_single_apart_len(prefix, "_CLOSED_ISSUES"@, signed_decimal(item.closed_issues as int), (prefix + "_TITLE"@));
    lemma_single_apart_len(prefix, "_CREATED_AT"@, item.created_at@, (prefix + "_TITLE"@));
    lemma_single_apart_len(prefix, "_UPDATED_AT"@, item.updated_at@, (prefix + "_TITLE"@));
    lemma_single_apart_len(prefix, "_CLOSED_AT"@, item.closed_at@, (prefix + "_TITLE"@));
    lemma_single_apart_len(prefix, "_DUE_ON"@, item.due_on@, (prefix + "_TITLE"@));
    lemma_last_value_single((prefix + "_TITLE"@), item.title@, (prefix + "_TITLE"@));
}

/// In the environment of a milestone, the variable of the field `description` holds it.
pub proof fn lemma_milestone_env_description(prefix: Seq<char>, item: Milestone)
    ensures
        last_value(milestone_env(prefix, item), (prefix + "_DESCRIPTION"@)) == Some(item.description@),
{
    lemma_milestone_keys();
    lemma_milestone_env_lookup(prefix, item, (prefix + "_DESCRIPTION"@));
    lemma_single_apart_len(prefix, "_STATE"@, item.state@, (prefix + "_DESCRIPTION"@));
    lemma_single_apart(prefix, "_OPEN_ISSUES"@, signed_decimal(item.open_issues as int), (prefix + "_DESCRIPTION"@), 1);
    lemma_single_apart_len(prefix, "_CLOSED_ISSUES"@, signed_decimal(item.closed_issues as int), (prefix + "_DESCRIPTION"@));
    lemma_single_apart_len(prefix, "_CREATED_AT"@, item.created_at@, (prefix + "_DESCRIPTION"@));
    lemma_single_apart_len(prefix, "_UPDATED_AT"@, item.updated_at@, (prefix + "_DESCRIPTION"@));
    lemma_single_apart_len(prefix, "_CLOSED_AT"@, item.closed_at@, (prefix + "_DESCRIPTION"@));
    lemma_single_apart_len(prefix, "_DUE_ON"@, item.due_on@, (prefix + "_DESCRIPTION"@));
    lemma_last_value_single((prefix + "_DESCRIPTION"@), item.description@, (prefix + "_DESCRIPTION"@));
}

/// In the environment of a milestone, the variable of the field `state` holds it.
pub proof fn lemma_milestone_env_state(prefix: Seq<char>, item: Milestone)
    ensures
        last_value(milestone_env(prefix, item), (prefix + "_STATE"@)) == Some(item.state@),
{
    lemma_milestone_keys();
    lemma_milestone_env_lookup(prefix, item, (prefix + "_STATE"@));
    lemma_single_apart_len(prefix, "_OPEN_ISSUES"@, signed_decimal(item.open_issues as int), (prefix + "_STATE"@));
    lemma_single_apart_len(prefix, "_CLOSED_ISSUES"@, signed_decimal(item.closed_issues as int), (prefix + "_STATE"@));
    lemma_single_apart_len(prefix, "_CREATED_AT"@, item.created_at@, (prefix + "_STATE"@));
    lemma_single_apart_len(prefix, "_UPDATED_AT"@, item.updated_at@, (prefix + "_STATE"@));
    lemma_single_apart_len(prefix, "_CLOSED_AT"@, item.closed_at@, (prefix + "_STATE"@));
    lemma_single_apart_len(prefix, "_DUE_ON"@, item.due_on@, (prefix + "_STATE"@));
    lemma_last_value_single((prefix + "_STATE"@), item.state@, (prefix + "_STATE"@));
}

/// In the environment of a milestone, the variable of the field `open_issues` holds it.
pub proof fn lemma_milestone_env_open_issues(prefix: Seq<char>, item: Milestone)
    ensures
        last_value(milestone_env(prefix, item), (prefix + "_OPEN_ISSUES"@)) == Some(signed_decimal(item.open_issues as int)),
{
    lemma_milestone_keys();
    lemma_milestone_env_lookup(prefix, item, (prefix + "_OPEN_ISSUES"@));
    lemma_single_apart_len(prefix, "_CLOSED_ISSUES"@, signed_decimal(item.closed_issues as int), (prefix + "_OPEN_ISSUES"@));
    lemma_single_apart_len(prefix, "_CREATED_AT"@, item.created_at@, (prefix + "_OPEN_ISSUES"@));
    lemma_single_apart_len(prefix, "_UPDATED_AT"@, item.updated_at@, (prefix + "_OPEN_ISSUES"@));
    lemma_single_apart_len(prefix, "_CLOSED_AT"@, item.closed_at@, (prefix + "_OPEN_ISSUES"@));
    lemma_single_apart_len(prefix, "_DUE_ON"@, item.due_on@, (prefix + "_OPEN_ISSUES"@));
    lemma_last_value_single((prefix + "_OPEN_ISSUES"@), signed_decimal(item.open_issues as int), (prefix + "_OPEN_ISSUES"@));
}

/// In the environment of a milestone, the variable of the field `closed_issues` holds it.
pub proof fn lemma_milestone_env_closed_issues(prefix: Seq<char>, item: Milestone)
    ensures
        last_value(milestone_env(prefix, item), (prefix + "_CLOSED_ISSUES"@)) == Some(signed_decimal(item.closed_issues as int)),
{
    lemma_milestone_keys();
    lemma_milestone_env_lookup(prefix, item, (prefix + "_CLOSED_ISSUES"@));
    lemma_single_apart_len(prefix, "_CREATED_AT"@, item.created_at@, (prefix + "_CLOSED_ISSUES"@));
    lemma_single_apart_len(prefix, "_UPDATED_AT"@, item.updated_at@, (prefix + "_CLOSED_ISSUES"@));
    lemma_single_apart_len(prefix, "_CLOSED_AT"@, item.closed_at@, (prefix + "_CLOSED_ISSUES"@));
    lemma_single_apart_len(prefix, "_DUE_ON"@, item.due_on@, (prefix + "_CLOSED_ISSUES"@));
    lemma_last_value_single((prefix + "_CLOSED_ISSUES"@), signed_decimal(item.closed_issues as int), (prefix + "_CLOSED_ISSUES"@));
}

/// In the environment of a milestone, the variable of the field `created_at` holds it.
pub proof fn lemma_milestone_env_created_at(prefix: Seq<char>, item: Milestone)
    ensures
        last_value(milestone_env(prefix, item), (prefix + "_CREATED_AT"@)) == Some(item.created_at@),
{
    lemma_milestone_keys();
    lemma_milestone_env_lookup(prefix, item, (prefix + "_CREATED_AT"@));
    lemma_single_apart(prefix, "_UPDATED_AT"@, item.updated_at@, (prefix + "_CREATED_AT"@), 1);
    lemma_single_apart_len(prefix, "_CLOSED_AT"@, item.closed_at@, (prefix + "_CREATED_AT"@));
    lemma_single_apart_len(prefix, "_DUE_ON"@, item.due_on@, (prefix + "_CREATED_AT"@));
    lemma_last_value_single((prefix + "_CREATED_AT"@), item.created_at@, (prefix + "_CREATED_AT"@));
}

/// In the environment of a milestone, the variable of the field `updated_at` holds it.
pub proof fn lemma_milestone_env_updated_at(prefix: Seq<char>, item: Milestone)
    ensures
        last_value(milestone_env(prefix, item), (prefix + "_UPDATED_AT"@)) == Some(item.updated_at@),
{
    lemma_milestone_keys();
    lemma_milestone_env_lookup(prefix, item, (prefix + "_UPDATED_AT"@));
    lemma_single_apart_len(prefix, "_CLOSED_AT"@, item.closed_at@, (prefix + "_UPDATED_AT"@));
    lemma_single_apart_len(prefix, "_DUE_ON"@, item.due_on@, (prefix + "_UPDATED_AT"@));
    lemma_last_value_single((prefix + "_UPDATED_AT"@), item.updated_at@, (prefix + "_UPDATED_AT"@));
}

/// In the environment of a milestone, the variable of the field `closed_at` holds it.
pub proof fn lemma_milestone_env_closed_at(prefix: Seq<char>, item: Milestone)
    ensures
        last_value(milestone_env(prefix, item), (prefix + "_CLOSED_AT"@)) == Some(item.closed_at@),
{
    lemma_milestone_keys();
    lemma_milestone_env_lookup(prefix, item, (prefix + "_CLOSED_AT"@));
    lemma_single_apart_len(prefix, "_DUE_ON"@, item.due_on@, (prefix + "_CLOSED_AT"@));
    lemma_last_value_single((prefix + "_CLOSED_AT"@), item.closed_at@, (prefix + "_CLOSED_AT"@));
}

/// In the environment of a milestone, the variable of the field `due_on` holds it.
pub proof fn lemma_milestone_env_due_on(prefix: Seq<char>, item: Milestone)
    ensures
        last_value(milestone_env(prefix, item), (prefix + "_DUE_ON"@)) == Some(item.due_on@),
{
    lemma_milestone_keys();
    lemma_milestone_env_lookup(prefix, item, (prefix + "_DUE_ON"@));
    lemma_last_value_single((prefix + "_DUE_ON"@), item.due_on@, (prefix + "_DUE_ON"@));
}

/// The texts of the keys in the environment of what the sender may do with a repository.
proof fn lemma_permissions_keys()
    ensures
        "_ADMIN"@ == seq!['_', 'A', 'D', 'M', 'I', 'N'],
        "_PULL"@ == seq!['_', 'P', 'U', 'L', 'L'],
        "_PUSH"@ == seq!['_', 'P', 'U', 'S', 'H'],
{
    reveal_strlit("_ADMIN");
    assert("_ADMIN"@ =~= seq!['_', 'A', 'D', 'M', 'I', 'N']);
    reveal_strlit("_PULL");
    assert("_PULL"@ =~= seq!['_', 'P', 'U', 'L', 'L']);
    reveal_strlit("_PUSH");
    assert("_PUSH"@ =~= seq!['_', 'P', 'U', 'S', 'H']);
}

/// A variable holds what the last part of the environment of what the sender may do with a repository that
/// assigns it leaves in it.
proof fn lemma_permissions_env_lookup(prefix: Seq<char>, item: Permissions, name: Seq<char>)
    ensures
        last_value(permissions_env(prefix, item), name) == or_else(last_value(seq![entry(prefix, "_PULL"@, bool_text(item.has_pull))], name), or_else(last_value(seq![entry(prefix, "_PUSH"@, bool_text(item.has_push))], name), or_else(last_value(seq![entry(prefix, "_ADMIN"@, bool_text(item.has_admin))], name), None))),
{
    let sum0_0 = seq![entry(prefix, "_ADMIN"@, bool_text(item.has_admin))];
    let sum0_1 = sum0_0 + seq![entry(prefix, "_PUSH"@, bool_text(item.has_push))];
    let sum0_2 = sum0_1 + seq![entry(prefix, "_PULL"@, bool_text(item.has_pull))];
    lemma_last_value_concat(sum0_1, seq![entry(prefix, "_PULL"@, bool_text(item.has_pull))], name);
    lemma_last_value_concat(sum0_0, seq![entry(prefix, "_PUSH"@, bool_text(item.has_push))], name);
}

/// In the environment of what the sender may do with a repository, the variable of the field `has_admin` holds it.
pub proof fn lemma_permissions_env_admin(prefix: Seq<char>, item: Permissions)
    ensures
        last_value(permissions_env(prefix, item), (prefix + "_ADMIN"@)) == Some(bool_text(item.has_admin)),
{
    lemma_permissions_keys();
    lemma_permissions_env_lookup(prefix, item, (prefix + "_ADMIN"@));
    lemma_single_apart_len(prefix, "_PUSH"@, bool_text(item.has_push), (prefix + "_ADMIN"@));
    lemma_single_apart_len(prefix, "_PULL"@, bool_text(item.has_pull), (prefix + "_ADMIN"@));
    lemma_last_value_single((prefix + "_ADMIN"@), bool_text(item.has_admin), (prefix + "_ADMIN"@));
}

/// In the environment of what the sender may do with a repository, the variable of the field `has_push` holds it.
pub proof fn lemma_permissions_env_push(prefix: Seq<char>, item: Permissions)
    ensures
        last_value(permissions_env(prefix, item), (prefix + "_PUSH"@)) == Some(bool_text(item.has_push)),
{
    lemma_permissions_keys();
    lemma_permissions_env_lookup(prefix, item, (prefix + "_PUSH"@));
    lemma_single_apart(prefix, "_PULL"@, bool_text(item.has_pull), (prefix + "_PUSH"@), 3);
    lemma_last_value_single((prefix + "_PUSH"@), bool_text(item.has_push), (prefix + "_PUSH"@));
}

/// In the environment of what the sender may do with a repository, the variable of the field `has_pull` holds it.
pub proof fn lemma_permissions_env_pull(prefix: Seq<char>, item: Permissions)
    ensures
        last_value(permissions_env(prefix, item), (prefix + "_PULL"@)) == Some(bool_text(item.has_pull)),
{
    lemma_permissions_keys();
    lemma_permissions_env_lookup(prefix, item, (prefix + "_PULL"@));
    lemma_last_value_single((prefix + "_PULL"@), bool_text(item.has_pull), (prefix + "_PULL"@));
}

/// The texts of the keys in the environment of the settings of a repository's own issue tracker.
proof fn lemma_internal_tracker_keys()
    ensures
        "_ALLOW_ONLY_CONTRIBUTORS_TO_TRACK_TIME"@ == seq!['_', 'A', 'L', 'L', 'O', 'W', '_', 'O', 'N', 'L', 'Y', '_', 'C', 'O', 'N', 'T', 'R', 'I', 'B', 'U', 'T', 'O', 'R', 'S', '_', 'T', 'O', '_', 'T', 'R', 'A', 'C', 'K', '_', 'T', 'I', 'M', 'E'],
        "_ENABLE_ISSUE_DEPENDENCIES"@ == seq!['_', 'E', 'N', 'A', 'B', 'L', 'E', '_', 'I', 'S', 'S', 'U', 'E', '_', 'D', 'E', 'P', 'E', 'N', 'D', 'E', 'N', 'C', 'I', 'E', 'S'],
        "_ENABLE_TIME_TRACKER"@ == seq!['_', 'E', 'N', 'A', 'B', 'L', 'E', '_', 'T', 'I', 'M', 'E', '_', 'T', 'R', 'A', 'C', 'K', 'E', 'R'],
{
    reveal_strlit("_ALLOW_ONLY_CONTRIBUTORS_TO_TRACK_TIME");
    assert("_ALLOW_ONLY_CONTRIBUTORS_TO_TRACK_TIME"@ =~= seq!['_', 'A', 'L', 'L', 'O', 'W', '_', 'O', 'N', 'L', 'Y', '_', 'C', 'O', 'N', 'T', 'R', 'I', 'B', 'U', 'T', 'O', 'R', 'S', '_', 'T', 'O', '_', 'T', 'R', 'A', 'C', 'K', '_', 'T', 'I', 'M', 'E']);
    reveal_strlit("_ENABLE_ISSUE_DEPENDENCIES");
    assert("_ENABLE_ISSUE_DEPENDENCIES"@ =~= seq!['_', 'E', 'N', 'A', 'B', 'L', 'E', '_', 'I', 'S', 'S', 'U', 'E', '_', 'D', 'E', 'P', 'E', 'N', 'D', 'E', 'N', 'C', 'I', 'E', 'S']);
    reveal_strlit("_ENABLE_TIME_TRACKER");
    assert("_ENABLE_TIME_TRACKER"@ =~= seq!['_', 'E', 'N', 'A', 'B', 'L', 'E', '_', 'T', 'I', 'M', 'E', '_', 'T', 'R', 'A', 'C', 'K', 'E', 'R']);
}

/// A variable holds what the last part of the environment of the settings of a repository's own issue tracker that
/// assigns it leaves in it.
proof fn lemma_internal_tracker_env_lookup(prefix: Seq<char>, item: InternalTracker, name: Seq<char>)
    ensures
        last_value(internal_tracker_env(prefix, item), name) == or_else(last_value(seq![entry(prefix, "_ENABLE_ISSUE_DEPENDENCIES"@, bool_text(item.is_issue_dependencies_enabled))], name), or_else(last_value(seq![entry(prefix, "_ALLOW_ONLY_CONTRIBUTORS_TO_TRACK_TIME"@, bool_text(item.is_contributor_only_time_tracking_enabled))], name), or_else(last_value(seq![entry(prefix, "_ENABLE_TIME_TRACKER"@, bool_text(item.is_enabled))], name), None))),
{
    let sum0_0 = seq![entry(prefix, "_ENABLE_TIME_TRACKER"@, bool_text(item.is_enabled))];
    let sum0_1 = sum0_0 + seq![entry(prefix, "_ALLOW_ONLY_CONTRIBUTORS_TO_TRACK_TIME"@, bool_text(item.is_contributor_only_time_tracking_enabled))];
    let sum0_2 = sum0_1 + seq![entry(prefix, "_ENABLE_ISSUE_DEPENDENCIES"@, bool_text(item.is_issue_dependencies_enabled))];
    lemma_last_value_concat(sum0_1, seq![entry(prefix, "_ENABLE_ISSUE_DEPENDENCIES"@, bool_text(item.is_issue_dependencies_enabled))], name);
    lemma_last_value_concat(sum0_0, seq![entry(prefix, "_ALLOW_ONLY_CONTRIBUTORS_TO_TRACK_TIME"@, bool_text(item.is_contributor_only_time_tracking_enabled))], name);
}

/// In the environment of the settings of a repository's own issue tracker, the variable of the field `is_enabled` holds it.
pub proof fn lemma_internal_tracker_env_enable_time_tracker(prefix: Seq<char>, item: InternalTracker)
    ensures
        last_value(internal_tracker_env(prefix, item), (prefix + "_ENABLE_TIME_TRACKER"@)) == Some(bool_text(item.is_enabled)),
{
    lemma_internal_tracker_keys();
    lemma_internal_tracker_env_lookup(prefix, item, (prefix + "_ENABLE_TIME_TRACKER"@));
    lemma_single_apart_len(prefix, "_ALLOW_ONLY_CONTRIBUTORS_TO_TRACK_TIME"@, bool_text(item.is_contributor_only_time_tracking_enabled), (prefix + "_ENABLE_TIME_TRACKER"@));
    lemma_single_apart_len(prefix, "_ENABLE_ISSUE_DEPENDENCIES"@, bool_text(item.is_issue_dependencies_enabled), (prefix + "_ENABLE_TIME_TRACKER"@));
    lemma_last_value_single((prefix + "_ENABLE_TIME_TRACKER"@), bool_text(item.is_enabled), (prefix + "_ENABLE_TIME_TRACKER"@));
}

/// In the environment of the settings of a repository's own issue tracker, the variable of the field `is_contributor_only_time_tracking_enabled` holds it.
pub proof fn lemma_internal_tracker_env_allow_only_contributors_to_track_time(prefix: Seq<char>, item: InternalTracker)
    ensures
        last_value(internal_tracker_env(prefix, item), (prefix + "_ALLOW_ONLY_CONTRIBUTORS_TO_TRACK_TIME"@)) == Some(bool_text(item.is_contributor_only_time_tracking_enabled)),
{
    lemma_internal_tracker_keys();
    lemma_internal_tracker_env_lookup(prefix, item, (prefix + "_ALLOW_ONLY_CONTRIBUTORS_TO_TRACK_TIME"@));
    lemma_single_apart_len(prefix, "_ENABLE_ISSUE_DEPENDENCIES"@, bool_text(item.is_issue_dependencies_enabled), (prefix + "_ALLOW_ONLY_CONTRIBUTORS_TO_TRACK_TIME"@));
    lemma_last_value_single((prefix + "_ALLOW_ONLY_CONTRIBUTORS_TO_TRACK_TIME"@), bool_text(item.is_contributor_only_time_tracking_enabled), (prefix + "_ALLOW_ONLY_CONTRIBUTORS_TO_TRACK_TIME"@));
}

/// In the environment of the settings of a repository's own issue tracker, the variable of the field `is_issue_dependencies_enabled` holds it.
pub proof fn lemma_internal_tracker_env_enable_issue_dependencies(prefix: Seq<char>, item: InternalTracker)
    ensures
        last_value(internal_tracker_env(prefix, item), (prefix + "_ENABLE_ISSUE_DEPENDENCIES"@)) == Some(bool_text(item.is_issue_dependencies_enabled)),
{
    lemma_internal_tracker_keys();
    lemma_internal_tracker_env_lookup(prefix, item, (prefix + "_ENABLE_ISSUE_DEPENDENCIES"@));
    lemma_last_value_single((prefix + "_ENABLE_ISSUE_DEPENDENCIES"@), bool_text(item.is_issue_dependencies_enabled), (prefix + "_ENABLE_ISSUE_DEPENDENCIES"@));
}

/// The texts of the keys in the environment of an issue tracker outside Gitea.
proof fn lemma_external_tracker_keys()
    ensures
        "_EXTERNAL_TRACKER_FORMAT"@ == seq!['_', 'E', 'X', 'T', 'E', 'R', 'N', 'A', 'L', '_', 'T', 'R', 'A', 'C', 'K', 'E', 'R', '_', 'F', 'O', 'R', 'M', 'A', 'T'],
        "_EXTERNAL_TRACKER_STYLE"@ == seq!['_', 'E', 'X', 'T', 'E', 'R', 'N', 'A', 'L', '_', 'T', 'R', 'A', 'C', 'K', 'E', 'R', '_', 'S', 'T', 'Y', 'L', 'E'],
        "_EXTERNAL_TRACKER_URL"@ == seq!['_', 'E', 'X', 'T', 'E', 'R', 'N', 'A', 'L', '_', 'T', 'R', 'A', 'C', 'K', 'E', 'R', '_', 'U', 'R', 'L'],
{
    reveal_strlit("_EXTERNAL_TRACKER_FORMAT");
    assert("_EXTERNAL_TRACKER_FORMAT"@ =~= seq!['_', 'E', 'X', 'T', 'E', 'R', 'N', 'A', 'L', '_', 'T', 'R', 'A', 'C', 'K', 'E', 'R', '_', 'F', 'O', 'R', 'M', 'A', 'T']);
    reveal_strlit("_EXTERNAL_TRACKER_STYLE");
    assert("_EXTERNAL_TRACKER_STYLE"@ =~= seq!['_', 'E', 'X', 'T', 'E', 'R', 'N', 'A', 'L', '_', 'T', 'R', 'A', 'C', 'K', 'E', 'R', '_', 'S', 'T', 'Y', 'L', 'E']);
    reveal_strlit("_EXTERNAL_TRACKER_URL");
    assert("_EXTERNAL_TRACKER_URL"@ =~= seq!['_', 'E', 'X', 'T', 'E', 'R', 'N', 'A', 'L', '_', 'T', 'R', 'A', 'C', 'K', 'E', 'R', '_', 'U', 'R', 'L']);
}

/// A variable holds what the last part of the environment of an issue tracker outside Gitea that
/// assigns it leaves in it.
proof fn lemma_external_tracker_env_lookup(prefix: Seq<char>, item: ExternalTracker, name: Seq<char>)
    ensures
        last_value(external_tracker_env(prefix, item), name) == or_else(last_value(seq![entry(prefix, "_EXTERNAL_TRACKER_STYLE"@, item.external_tracker_style@)], name), or_else(last_value(seq![entry(prefix, "_EXTERNAL_TRACKER_FORMAT"@, item.external_tracker_format@)], name), or_else(last_value(seq![entry(prefix, "_EXTERNAL_TRACKER_URL"@, item.external_tracker_url@)], name), None))),
{
    let sum0_0 = seq![entry(prefix, "_EXTERNAL_TRACKER_URL"@, item.external_tracker_url@)];
    let sum0_1 = sum0_0 + seq![entry(prefix, "_EXTERNAL_TRACKER_FORMAT"@, item.external_tracker_format@)];
    let sum0_2 = sum0_1 + seq![entry(prefix, "_EXTERNAL_TRACKER_STYLE"@, item.external_tracker_style@)];
    lemma_last_value_concat(sum0_1, seq![entry(prefix, "_EXTERNAL_TRACKER_STYLE"@, item.external_tracker_style@)], name);
    lemma_last_value_concat(sum0_0, seq![entry(prefix, "_EXTERNAL_TRACKER_FORMAT"@, item.external_tracker_format@)], name);
}

/// In the environment of an issue tracker outside Gitea, the variable of the field `external_tracker_url` holds it.
pub proof fn lemma_external_tracker_env_external_tracker_url(prefix: Seq<char>, item: ExternalTracker)
    ensures
        last_value(external_tracker_env(prefix, item), (prefix + "_EXTERNAL_TRACKER_URL"@)) == Some(item.external_tracker_url@),
{
    lemma_external_tracker_keys();
    lemma_external_tracker_env_lookup(prefix, item, (prefix + "_EXTERNAL_TRACKER_URL"@));
    lemma_single_apart_len(prefix, "_EXTERNAL_TRACKER_FORMAT"@, item.external_tracker_format@, (prefix + "_EXTERNAL_TRACKER_URL"@));
    lemma_single_apart_len(prefix, "_EXTERNAL_TRACKER_STYLE"@, item.external_tracker_style@, (prefix + "_EXTERNAL_TRACKER_URL"@));
    lemma_last_value_single((prefix + "_EXTERNAL_TRACKER_URL"@), item.external_tracker_url@, (prefix + "_EXTERNAL_TRACKER_URL"@));
}

/// In the environment of an issue tracker outside Gitea, the variable of the field `external_tracker_format` holds it.
pub proof fn lemma_external_tracker_env_external_tracker_format(prefix: Seq<char>, item: ExternalTracker)
    ensures
        last_value(external_tracker_env(prefix, item), (prefix + "_EXTERNAL_TRACKER_FORMAT"@)) == Some(item.external_tracker_format@),
{
    lemma_external_tracker_keys();
    lemma_external_tracker_env_lookup(prefix, item, (prefix + "_EXTERNAL_TRACKER_FORMAT"@));
    lemma_single_apart_len(prefix, "_EXTERNAL_TRACKER_STYLE"@, item.external_tracker_style@, (prefix + "_EXTERNAL_TRACKER_FORMAT"@));
    lemma_last_value_single((prefix + "_EXTERNAL_TRACKER_FORMAT"@), item.external_tracker_format@, (prefix + "_EXTERNAL_TRACKER_FORMAT"@));
}

/// In the environment of an issue tracker outside Gitea, the variable of the field `external_tracker_style` holds it.
pub proof fn lemma_external_tracker_env_external_tracker_style(prefix: Seq<char>, item: ExternalTracker)
    ensures
        last_value(external_tracker_env(prefix, item), (prefix + "_EXTERNAL_TRACKER_STYLE"@)) == Some(item.external_tracker_style@),
{
    lemma_external_tracker_keys();
    lemma_external_tracker_env_lookup(prefix, item, (prefix + "_EXTERNAL_TRACKER_STYLE"@));
    lemma_last_value_single((prefix + "_EXTERNAL_TRACKER_STYLE"@), item.external_tracker_style@, (prefix + "_EXTERNAL_TRACKER_STYLE"@));
}

/// The texts of the keys in the environment of the pull request side of an issue.
proof fn lemma_pull_request_meta_keys()
    ensures
        "_MERGED"@ == seq!['_', 'M', 'E', 'R', 'G', 'E', 'D'],
        "_MERGED_AT"@ == seq!['_', 'M', 'E', 'R', 'G', 'E', 'D', '_', 'A', 'T'],
{
    reveal_strlit("_MERGED");
    assert("_MERGED"@ =~= seq!['_', 'M', 'E', 'R', 'G', 'E', 'D']);
    reveal_strlit("_MERGED_AT");
    assert("_MERGED_AT"@ =~= seq!['_', 'M', 'E', 'R', 'G', 'E', 'D', '_', 'A', 'T']);
}

/// A variable holds what the last part of the environment of the pull request side of an issue that
/// assigns it leaves in it.
proof fn lemma_pull_request_meta_env_lookup(prefix: Seq<char>, item: PullRequestMeta, name: Seq<char>)
    ensures
        last_value(pull_request_meta_env(prefix, item), name) == or_else(last_value(seq![entry(prefix, "_MERGED_AT"@, item.time_merged@)], name), or_else(last_value(seq![entry(prefix, "_MERGED"@, bool_text(item.is_merged))], name), None)),
{
    let sum0_0 = seq![entry(prefix, "_MERGED"@, bool_text(item.is_merged))];
    let sum0_1 = sum0_0 + seq![entry(prefix, "_MERGED_AT"@, item.time_merged@)];
    lemma_last_value_concat(sum0_0, seq![entry(prefix, "_MERGED_AT"@, item.time_merged@)], name);
}

/// In the environment of the pull request side of an issue, the variable of the field `is_merged` holds it.
pub proof fn lemma_pull_request_meta_env_merged(prefix: Seq<char>, item: PullRequestMeta)
    ensures
        last_value(pull_request_meta_env(prefix, item), (prefix + "_MERGED"@)) == Some(bool_text(item.is_merged)),
{
    lemma_pull_request_meta_keys();
    lemma_pull_request_meta_env_lookup(prefix, item, (prefix + "_MERGED"@));
    lemma_single_apart_len(prefix, "_MERGED_AT"@, item.time_merged@, (prefix + "_MERGED"@));
    lemma_last_value_single((prefix + "_MERGED"@), bool_text(item.is_merged), (prefix + "_MERGED"@));
}

/// In the environment of the pull request side of an issue, the variable of the field `time_merged` holds it.
pub proof fn lemma_pull_request_meta_env_merged_at(prefix: Seq<char>, item: PullRequestMeta)
    ensures
        last_value(pull_request_meta_env(prefix, item), (prefix + "_MERGED_AT"@)) == Some(item.time_merged@),
{
    lemma_pull_request_meta_keys();
    lemma_pull_request_meta_env_lookup(prefix, item, (prefix + "_MERGED_AT"@));
    lemma_last_value_single((prefix + "_MERGED_AT"@), item.time_merged@, (prefix + "_MERGED_AT"@));
}

/// The texts of the keys in the environment of the repository an issue belongs to.
proof fn lemma_repository_meta_keys()
    ensures
        "_FULL_NAME"@ == seq!['_', 'F', 'U', 'L', 'L', '_', 'N', 'A', 'M', 'E'],
        "_ID"@ == seq!['_', 'I', 'D'],
        "_NAME"@ == seq!['_', 'N', 'A', 'M', 'E'],
        "_OWNER"@ == seq!['_', 'O', 'W', 'N', 'E', 'R'],
{
    reveal_strlit("_FULL_NAME");
    assert("_FULL_NAME"@ =~= seq!['_', 'F', 'U', 'L', 'L', '_', 'N', 'A', 'M', 'E']);
    reveal_strlit("_ID");
    assert("_ID"@ =~= seq!['_', 'I', 'D']);
    reveal_strlit("_NAME");
    assert("_NAME"@ =~= seq!['_', 'N', 'A', 'M', 'E']);
    reveal_strlit("_OWNER");
    assert("_OWNER"@ =~= seq!['_', 'O', 'W', 'N', 'E', 'R']);
}

/// A variable holds what the last part of the environment of the repository an issue belongs to that
/// assigns it leaves in it.
proof fn lemma_repository_meta_env_lookup(prefix: Seq<char>, item: RepositoryMeta, name: Seq<char>)
    ensures
        last_value(repository_meta_env(prefix, item), name) == or_else(last_value(seq![entry(prefix, "_FULL_NAME"@, item.full_name@)], name), or_else(last_value(seq![entry(prefix, "_OWNER"@, item.owner@)], name), or_else(last_value(seq![entry(prefix, "_NAME"@, item.name@)], name), or_else(last_value(seq![entry(prefix, "_ID"@, signed_decimal(item.id as int))], name), None)))),
{
    let sum0_0 = seq![entry(prefix, "_ID"@, signed_decimal(item.id as int))];
    let sum0_1 = sum0_0 + seq![entry(prefix, "_NAME"@, item.name@)];
    let sum0_2 = sum0_1 + seq![entry(prefix, "_OWNER"@, item.owner@)];
    let sum0_3 = sum0_2 + seq![entry(prefix, "_FULL_NAME"@, item.full_name@)];
    lemma_last_value_concat(sum0_2, seq![entry(prefix, "_FULL_NAME"@, item.full_name@)], name);
    lemma_last_value_concat(sum0_1, seq![entry(prefix, "_OWNER"@, item.owner@)], name);
    lemma_last_value_concat(sum0_0, seq![entry(prefix, "_NAME"@, item.name@)], name);
}

/// In the environment of the repository an issue belongs to, the variable of the field `id` holds it.
pub proof fn lemma_repository_meta_env_id(prefix: Seq<char>, item: RepositoryMeta)
    ensures
        last_value(repository_meta_env(prefix, item), (prefix + "_ID"@)) == Some(signed_decimal(item.id as int)),
{
    lemma_repository_meta_keys();
    lemma_repository_meta_env_lookup(prefix, item, (prefix + "_ID"@));
    lemma_single_apart_len(prefix, "_NAME"@, item.name@, (prefix + "_ID"@));
    lemma_single_apart_len(prefix, "_OWNER"@, item.owner@, (prefix + "_ID"@));
    lemma_single_apart_len(prefix, "_FULL_NAME"@, item.full_name@, (prefix + "_ID"@));
    lemma_last_value_single((prefix + "_ID"@), signed_decimal(item.id as int), (prefix + "_ID"@));
}

/// In the environment of the repository an issue belongs to, the variable of the field `name` holds it.
pub proof fn lemma_repository_meta_env_name(prefix: Seq<char>, item: RepositoryMeta)
    ensures
        last_value(repository_meta_env(prefix, item), (prefix + "_NAME"@)) == Some(item.name@),
{
    lemma_repository_meta_keys();
    lemma_repository_meta_env_lookup(prefix, item, (prefix + "_NAME"@));
    lemma_single_apart_len(prefix, "_OWNER"@, item.owner@, (prefix + "_NAME"@));
    lemma_single_apart_len(prefix, "_FULL_NAME"@, item.full_name@, (prefix + "_NAME"@));
    lemma_last_value_single((prefix + "_NAME"@), item.name@, (prefix + "_NAME"@));
}

/// In the environment of the repository an issue belongs to, the variable of the field `owner` holds it.
pub proof fn lemma_repository_meta_env_owner(prefix: Seq<char>, item: RepositoryMeta)
    ensures
        last_value(repository_meta_env(prefix, item), (prefix + "_OWNER"@)) == Some(item.owner@),
{
    lemma_repository_meta_keys();
    lemma_repository_meta_env_lookup(prefix, item, (prefix + "_OWNER"@));
    lemma_single_apart_len(prefix, "_FULL_NAME"@, item.full_name@, (prefix + "_OWNER"@));
    lemma_last_value_single((prefix + "_OWNER"@), item.owner@, (prefix + "_OWNER"@));
}

/// In the environment of the repository an issue belongs to, the variable of the field `full_name` holds it.
pub proof fn lemma_repository_meta_env_full_name(prefix: Seq<char>, item: RepositoryMeta)
    ensures
        last_value(repository_meta_env(prefix, item), (prefix + "_FULL_NAME"@)) == Some(item.full_name@),
{
    lemma_repository_meta_keys();
    lemma_repository_meta_env_lookup(prefix, item, (prefix + "_FULL_NAME"@));
    lemma_last_value_single((prefix + "_FULL_NAME"@), item.full_name@, (prefix + "_FULL_NAME"@));
}

/// The texts of the keys in the environment of a comment.
proof fn lemma_comment_keys()
    ensures
        "_BODY"@ == seq!['_', 'B', 'O', 'D', 'Y'],
        "_CREATED_AT"@ == seq!['_', 'C', 'R', 'E', 'A', 'T', 'E', 'D', '_', 'A', 'T'],
        "_HTML_URL"@ == seq!['_', 'H', 'T', 'M', 'L', '_', 'U', 'R', 'L'],
        "_ID"@ == seq!['_', 'I', 'D'],
        "_ISSUE_URL"@ == seq!['_', 'I', 'S', 'S', 'U', 'E', '_', 'U', 'R', 'L'],
        "_ORIGINAL_AUTHOR"@ == seq!['_', 'O', 'R', 'I', 'G', 'I', 'N', 'A', 'L', '_', 'A', 'U', 'T', 'H', 'O', 'R'],
        "_ORIGINAL_AUTHOR_ID"@ == seq!['_', 'O', 'R', 'I', 'G', 'I', 'N', 'A', 'L', '_', 'A', 'U', 'T', 'H', 'O', 'R', '_', 'I', 'D'],
        "_PULL_REQUEST_URL"@ == seq!['_', 'P', 'U', 'L', 'L', '_', 'R', 'E', 'Q', 'U', 'E', 'S', 'T', '_', 'U', 'R', 'L'],
        "_UPDATED_AT"@ == seq!['_', 'U', 'P', 'D', 'A', 'T', 'E', 'D', '_', 'A', 'T'],
        "_USER"@ == seq!['_', 'U', 'S', 'E', 'R'],
{
    reveal_strlit("_BODY");
    assert("_BODY"@ =~= seq!['_', 'B', 'O', 'D', 'Y']);
    reveal_strlit("_CREATED_AT");
    assert("_CREATED_AT"@ =~= seq!['_', 'C', 'R', 'E', 'A', 'T', 'E', 'D', '_', 'A', 'T']);
    reveal_strlit("_HTML_URL");
    assert("_HTML_URL"@ =~= seq!['_', 'H', 'T', 'M', 'L', '_', 'U', 'R', 'L']);
    reveal_strlit("_ID");
    assert("_ID"@ =~= seq!['_', 'I', 'D']);
    reveal_strlit("_ISSUE_URL");
    assert("_ISSUE_URL"@ =~= seq!['_', 'I', 'S', 'S', 'U', 'E', '_', 'U', 'R', 'L']);
    reveal_strlit("_ORIGINAL_AUTHOR");
    assert("_ORIGINAL_AUTHOR"@ =~= seq!['_', 'O', 'R', 'I', 'G', 'I', 'N', 'A', 'L', '_', 'A', 'U', 'T', 'H', 'O', 'R']);
    reveal_strlit("_ORIGINAL_AUTHOR_ID");
    assert("_ORIGINAL_AUTHOR_ID"@ =~= seq!['_', 'O', 'R', 'I', 'G', 'I', 'N', 'A', 'L', '_', 'A', 'U', 'T', 'H', 'O', 'R', '_', 'I', 'D']);
    reveal_strlit("_PULL_REQUEST_URL");
    assert("_PULL_REQUEST_URL"@ =~= seq!['_', 'P', 'U', 'L', 'L', '_', 'R', 'E', 'Q', 'U', 'E', 'S', 'T', '_', 'U', 'R', 'L']);
    reveal_strlit("_UPDATED_AT");
    assert("_UPDATED_AT"@ =~= seq!['_', 'U', 'P', 'D', 'A', 'T', 'E', 'D', '_', 'A', 'T']);
    reveal_strlit("_USER");
    assert("_USER"@ =~= seq!['_', 'U', 'S', 'E', 'R']);
}

/// A variable holds what the last part of the environment of a comment that
/// assigns it leaves in it.
#[verifier::rlimit(100)]
proof fn lemma_comment_env_lookup(prefix: Seq<char>, item: Comment, name: Seq<char>)
    ensures
        last_value(comment_env(prefix, item), name) == or_else(last_value(seq![entry(prefix, "_UPDATED_AT"@, item.updated_at@)], name), or_else(last_value(seq![entry(prefix, "_CREATED_AT"@, item.created_at@)], name), or_else(last_value(seq![entry(prefix, "_BODY"@, item.comment_text@)], name), or_else(last_value(seq![entry(prefix, "_ORIGINAL_AUTHOR_ID"@, signed_decimal(item.original_author_id as int))], name), or_else(last_value(seq![entry(prefix, "_ORIGINAL_AUTHOR"@, item.original_author@)], name), or_else(last_value(user_env(prefix + "_USER"@, item.user), name), or_else(last_value(seq![entry(prefix, "_ISSUE_URL"@, item.issue_url@)], name), or_else(last_value(seq![entry(prefix, "_PULL_REQUEST_URL"@, item.pull_request_url@)], name), or_else(last_value(seq![entry(prefix, "_HTML_URL"@, item.html_url@)], name), or_else(last_value(seq![entry(prefix, "_ID"@, signed_decimal(item.id as int))], name), None)))))))))),
{
    let sum0_0 = seq![entry(prefix, "_ID"@, signed_decimal(item.id as int))];
    let sum0_1 = sum0_0 + seq![entry(prefix, "_HTML_URL"@, item.html_url@)];
    let sum0_2 = sum0_1 + seq![entry(prefix, "_PULL_REQUEST_URL"@, item.pull_request_url@)];
    let sum0_3 = sum0_2 + seq![entry(prefix, "_ISSUE_URL"@, item.issue_url@)];
    let sum0_4 = sum0_3 + user_env(prefix + "_USER"@, item.user);
    let sum0_5 = sum0_4 + seq![entry(prefix, "_ORIGINAL_AUTHOR"@, item.original_author@)];
    let sum0_6 = sum0_5 + seq![entry(prefix, "_ORIGINAL_AUTHOR_ID"@, signed_decimal(item.original_author_id as int))];
    let sum0_7 = sum0_6 + seq![entry(prefix, "_BODY"@, item.comment_text@)];
    let sum0_8 = sum0_7 + seq![entry(prefix, "_CREATED_AT"@, item.created_at@)];
    let sum0_9 = sum0_8 + seq![entry(prefix, "_UPDATED_AT"@, item.updated_at@)];
    lemma_last_value_concat(sum0_8, seq![entry(prefix, "_UPDATED_AT"@, item.updated_at@)], name);
    lemma_last_value_concat(sum0_7, seq![entry(prefix, "_CREATED_AT"@, item.created_at@)], name);
    lemma_last_value_concat(sum0_6, seq![entry(prefix, "_BODY"@, item.comment_text@)], name);
    lemma_last_value_concat(sum0_5, seq![entry(prefix, "_ORIGINAL_AUTHOR_ID"@, signed_decimal(item.original_author_id as int))], name);
    lemma_last_value_concat(sum0_4, seq![entry(prefix, "_ORIGINAL_AUTHOR"@, item.original_author@)], name);
    lemma_last_value_concat(sum0_3, user_env(prefix + "_USER"@, item.user), name);
    lemma_last_value_concat(sum0_2, seq![entry(prefix, "_ISSUE_URL"@, item.issue_url@)], name);
    lemma_last_value_concat(sum0_1, seq![entry(prefix, "_PULL_REQUEST_URL"@, item.pull_request_url@)], name);
    lemma_last_value_concat(sum0_0, seq![entry(prefix, "_HTML_URL"@, item.html_url@)], name);
}

/// In the environment of a comment, the variable of the field `id` holds it.
#[verifier::rlimit(100)]
pub proof fn lemma_comment_env_id(prefix: Seq<char>, item: Comment)
    ensures
        last_value(comment_env(prefix, item), (prefix + "_ID"@)) == Some(signed_decimal(item.id as int)),
{
    lemma_comment_keys();
    lemma_comment_env_lookup(prefix, item, (prefix + "_ID"@));
    lemma_single_apart_len(prefix, "_HTML_URL"@, item.html_url@, (prefix + "_ID"@));
    lemma_single_apart_len(prefix, "_PULL_REQUEST_URL"@, item.pull_request_url@, (prefix + "_ID"@));
    lemma_single_apart_len(prefix, "_ISSUE_URL"@, item.issue_url@, (prefix + "_ID"@));
    lemma_user_env_under(prefix + "_USER"@, item.user);
    lemma_no_value_apart(prefix + "_USER"@, user_env(prefix + "_USER"@, item.user), (prefix + "_ID"@), prefix.len() as int + 1);
    lemma_single_apart_len(prefix, "_ORIGINAL_AUTHOR"@, item.original_author@, (prefix + "_ID"@));
    lemma_single_apart_len(prefix, "_ORIGINAL_AUTHOR_ID"@, signed_decimal(item.original_author_id as int), (prefix + "_ID"@));
    lemma_single_apart_len(prefix, "_BODY"@, item.comment_text@, (prefix + "_ID"@));
    lemma_single_apart_len(prefix, "_CREATED_AT"@, item.created_at@, (prefix + "_ID"@));
    lemma_single_apart_len(prefix, "_UPDATED_AT"@, item.updated_at@, (prefix + "_ID"@));
    lemma_last_value_single((prefix + "_ID"@), signed_decimal(item.id as int), (prefix + "_ID"@));
}

/// In the environment of a comment, the variable of the field `html_url` holds it.
#[verifier::rlimit(100)]
pub proof fn lemma_comment_env_html_url(prefix: Seq<char>, item: Comment)
    ensures
        last_value(comment_env(prefix, item), (prefix + "_HTML_URL"@)) == Some(item.html_url@),
{
    lemma_comment_keys();
    lemma_comment_env_lookup(prefix, item, (prefix + "_HTML_URL"@));
    lemma_single_apart_len(prefix, "_PULL_REQUEST_URL"@, item.pull_request_url@, (prefix + "_HTML_URL"@));
    lemma_single_apart_len(prefix, "_ISSUE_URL"@, item.issue_url@, (prefix + "_HTML_URL"@));
    lemma_user_env_under(prefix + "_USER"@, item.user);
    lemma_no_value_apart(prefix + "_USER"@, user_env(prefix + "_USER"@, item.user), (prefix + "_HTML_URL"@), prefix.len() as int + 1);
    lemma_single_apart_len(prefix, "_ORIGINAL_AUTHOR"@, item.original_author@, (prefix + "_HTML_URL"@));
    lemma_single_apart_len(prefix, "_ORIGINAL_AUTHOR_ID"@, signed_decimal(item.original_author_id as int), (prefix + "_HTML_URL"@));
    lemma_single_apart_len(prefix, "_BODY"@, item.comment_text@, (prefix + "_HTML_URL"@));
    lemma_single_apart_len(prefix, "_CREATED_AT"@, item.created_at@, (prefix + "_HTML_URL"@));
    lemma_single_apart_len(prefix, "_UPDATED_AT"@, item.updated_at@, (prefix + "_HTML_URL"@));
    lemma_last_value_single((prefix + "_HTML_URL"@), item.html_url@, (prefix + "_HTML_URL"@));
}

/// In the environment of a comment, the variable of the field `pull_request_url` holds it.
#[verifier::rlimit(100)]
pub proof fn lemma_comment_env_pull_request_url(prefix: Seq<char>, item: Comment)
    ensures
        last_value(comment_env(prefix, item), (prefix + "_PULL_REQUEST_URL"@)) == Some(item.pull_request_url@),
{
    lemma_comment_keys();
    lemma_comment_env_lookup(prefix, item, (prefix + "_PULL_REQUEST_URL"@));
    lemma_single_apart_len(prefix, "_ISSUE_URL"@, item.issue_url@, (prefix + "_PULL_REQUEST_URL"@));
    lemma_user_env_under(prefix + "_USER"@, item.user);
    lemma_no_value_apart(prefix + "_USER"@, user_env(prefix + "_USER"@, item.user), (prefix + "_PULL_REQUEST_URL"@), prefix.len() as int + 1);
    lemma_single_apart_len(prefix, "_ORIGINAL_AUTHOR"@, item.original_author@, (prefix + "_PULL_REQUEST_URL"@));
    lemma_single_apart_len(prefix, "_ORIGINAL_AUTHOR_ID"@, signed_decimal(item.original_author_id as int), (prefix + "_PULL_REQUEST_URL"@));
    lemma_single_apart_len(prefix, "_BODY"@, item.comment_text@, (prefix + "_PULL_REQUEST_URL"@));
    lemma_single_apart_len(prefix, "_CREATED_AT"@, item.created_at@, (prefix + "_PULL_REQUEST_URL"@));
    lemma_single_apart_len(prefix, "_UPDATED_AT"@, item.updated_at@, (prefix + "_PULL_REQUEST_URL"@));
    lemma_last_value_single((prefix + "_PULL_REQUEST_URL"@), item.pull_request_url@, (prefix + "_PULL_REQUEST_URL"@));
}

/// In the environment of a comment, the variable of the field `issue_url` holds it.
#[verifier::rlimit(100)]
pub proof fn lemma_comment_env_issue_url(prefix: Seq<char>, item: Comment)
    ensures
        last_value(comment_env(prefix, item), (prefix + "_ISSUE_URL"@)) == Some(item.issue_url@),
{
    lemma_comment_keys();
    lemma_comment_env_lookup(prefix, item, (prefix + "_ISSUE_URL"@));
    lemma_user_env_under(prefix + "_USER"@, item.user);
    lemma_no_value_apart(prefix + "_USER"@, user_env(prefix + "_USER"@, item.user), (prefix + "_ISSUE_URL"@), prefix.len() as int + 1);
    lemma_single_apart_len(prefix, "_ORIGINAL_AUTHOR"@, item.original_author@, (prefix + "_ISSUE_URL"@));
    lemma_single_apart_len(prefix, "_ORIGINAL_AUTHOR_ID"@, signed_decimal(item.original_author_id as int), (prefix + "_ISSUE_URL"@));
    lemma_single_apart_len(prefix, "_BODY"@, item.comment_text@, (prefix + "_ISSUE_URL"@));
    lemma_single_apart_len(prefix, "_CREATED_AT"@, item.created_at@, (prefix + "_ISSUE_URL"@));
    lemma_single_apart_len(prefix, "_UPDATED_AT"@, item.updated_at@, (prefix + "_ISSUE_URL"@));
    lemma_last_value_single((prefix + "_ISSUE_URL"@), item.issue_url@, (prefix + "_ISSUE_URL"@));
}

/// In the environment of a comment, the variables whose names start with the
/// prefix and _USER describe the field `user`, and nothing else does.
#[verifier::rlimit(100)]
pub proof fn lemma_comment_env_user(prefix: Seq<char>, item: Comment, name: Seq<char>)
    requires
        starts_with(name, prefix + "_USER"@),
    ensures
        last_value(comment_env(prefix, item), name) == last_value(user_env(prefix + "_USER"@, item.user), name),
{
    lemma_comment_keys();
    lemma_comment_env_lookup(prefix, item, name);
    lemma_starts_with_char(name, prefix + "_USER"@, prefix.len() as int + 1);
    lemma_single_apart(prefix, "_ID"@, signed_decimal(item.id as int), name, 1);
    lemma_starts_with_char(name, prefix + "_USER"@, prefix.len() as int + 1);
    lemma_single_apart(prefix, "_HTML_URL"@, item.html_url@, name, 1);
    lemma_starts_with_char(name, prefix + "_USER"@, prefix.len() as int + 1);
    lemma_single_apart(prefix, "_PULL_REQUEST_URL"@, item.pull_request_url@, name, 1);
    lemma_starts_with_char(name, prefix + "_USER"@, prefix.len() as int + 1);
    lemma_single_apart(prefix, "_ISSUE_URL"@, item.issue_url@, name, 1);
    lemma_starts_with_char(name, prefix + "_USER"@, prefix.len() as int + 1);
    lemma_single_apart(prefix, "_ORIGINAL_AUTHOR"@, item.original_author@, name, 1);
    lemma_starts_with_char(name, prefix + "_USER"@, prefix.len() as int + 1);
    lemma_single_apart(prefix, "_ORIGINAL_AUTHOR_ID"@, signed_decimal(item.original_author_id as int), name, 1);
    lemma_starts_with_char(name, prefix + "_USER"@, prefix.len() as int + 1);
    lemma_single_apart(prefix, "_BODY"@, item.comment_text@, name, 1);
    lemma_starts_with_char(name, prefix + "_USER"@, prefix.len() as int + 1);
    lemma_single_apart(prefix, "_CREATED_AT"@, item.created_at@, name, 1);
    lemma_starts_with_char(name, prefix + "_USER"@, prefix.len() as int + 2);
    lemma_single_apart(prefix, "_UPDATED_AT"@, item.updated_at@, name, 2);
}

/// In the environment of a comment, the variable of the field `original_author` holds it.
#[verifier::rlimit(100)]
pub proof fn lemma_comment_env_original_author(prefix: Seq<char>, item: Comment)
    ensures
        last_value(comment_env(prefix, item), (prefix + "_ORIGINAL_AUTHOR"@)) == Some(item.original_author@),
{
    lemma_comment_keys();
    lemma_comment_env_lookup(prefix, item, (prefix + "_ORIGINAL_AUTHOR"@));
    lemma_single_apart_len(prefix, "_ORIGINAL_AUTHOR_ID"@, signed_decimal(item.original_author_id as int), (prefix + "_ORIGINAL_AUTHOR"@));
    lemma_single_apart_len(prefix, "_BODY"@, item.comment_text@, (prefix + "_ORIGINAL_AUTHOR"@));
    lemma_single_apart_len(prefix, "_CREATED_AT"@, item.created_at@, (prefix + "_ORIGINAL_AUTHOR"@));
    lemma_single_apart_len(prefix, "_UPDATED_AT"@, item.updated_at@, (prefix + "_ORIGINAL_AUTHOR"@));
    lemma_last_value_single((prefix + "_ORIGINAL_AUTHOR"@), item.original_author@, (prefix + "_ORIGINAL_AUTHOR"@));
}

/// In the environment of a comment, the variable of the field `original_author_id` holds it.
#[verifier::rlimit(100)]
pub proof fn lemma_comment_env_original_author_id(prefix: Seq<char>, item: Comment)
    ensures
        last_value(comment_env(prefix, item), (prefix + "_ORIGINAL_AUTHOR_ID"@)) == Some(signed_decimal(item.original_author_id as int)),
{
    lemma_comment_keys();
    lemma_comment_env_lookup(prefix, item, (prefix + "_ORIGINAL_AUTHOR_ID"@));
    lemma_single_apart_len(prefix, "_BODY"@, item.comment_text@, (prefix + "_ORIGINAL_AUTHOR_ID"@));
    lemma_single_apart_len(prefix, "_CREATED_AT"@, item.created_at@, (prefix + "_ORIGINAL_AUTHOR_ID"@));
    lemma_single_apart_len(prefix, "_UPDATED_AT"@, item.updated_at@, (prefix + "_ORIGINAL_AUTHOR_ID"@));
    lemma_last_value_single((prefix + "_ORIGINAL_AUTHOR_ID"@), signed_decimal(item.original_author_id as int), (prefix + "_ORIGINAL_AUTHOR_ID"@));
}

/// In the environment of a comment, the variable of the field `comment_text` holds it.
#[verifier::rlimit(100)]
pub proof fn lemma_comment_env_body(prefix: Seq<char>, item: Comment)
    ensures
        last_value(comment_env(prefix, item), (prefix + "_BODY"@)) == Some(item.comment_text@),
{
    lemma_comment_keys();
    lemma_comment_env_lookup(prefix, item, (prefix + "_BODY"@));
    lemma_single_apart_len(prefix, "_CREATED_AT"@, item.created_at@, (prefix + "_BODY"@));
    lemma_single_apart_len(prefix, "_UPDATED_AT"@, item.updated_at@, (prefix + "_BODY"@));
    lemma_last_value_single((prefix + "_BODY"@), item.comment_text@, (prefix + "_BODY"@));
}

/// In the environment of a comment, the variable of the field `created_at` holds it.
#[verifier::rlimit(100)]
pub proof fn lemma_comment_env_created_at(prefix: Seq<char>, item: Comment)
    ensures
        last_value(comment_env(prefix, item), (prefix + "_CREATED_AT"@)) == Some(item.created_at@),
{
    lemma_comment_keys();
    lemma_comment_env_lookup(prefix, item, (prefix + "_CREATED_AT"@));
    lemma_single_apart(prefix, "_UPDATED_AT"@, item.updated_at@, (prefix + "_CREATED_AT"@), 1);
    lemma_last_value_single((prefix + "_CREATED_AT"@), item.created_at@, (prefix + "_CREATED_AT"@));
}

/// In the environment of a comment, the variable of the field `updated_at` holds it.
#[verifier::rlimit(100)]
pub proof fn lemma_comment_env_updated_at(prefix: Seq<char>, item: Comment)
    ensures
        last_value(comment_env(prefix, item), (prefix + "_UPDATED_AT"@)) == Some(item.updated_at@),
{
    lemma_comment_keys();
    lemma_comment_env_lookup(prefix, item, (prefix + "_UPDATED_AT"@));
    lemma_last_value_single((prefix + "_UPDATED_AT"@), item.updated_at@, (prefix + "_UPDATED_AT"@));
}

/// The texts of the keys in the environment of a file attached to a release.
proof fn lemma_attachment_keys()
    ensures
        "_BROWSER_DOWNLOAD_URL"@ == seq!['_', 'B', 'R', 'O', 'W', 'S', 'E', 'R', '_', 'D', 'O', 'W', 'N', 'L', 'O', 'A', 'D', '_', 'U', 'R', 'L'],
        "_CREATED_AT"@ == seq!['_', 'C', 'R', 'E', 'A', 'T', 'E', 'D', '_', 'A', 'T'],
        "_DOWNLOAD_COUNT"@ == seq!['_', 'D', 'O', 'W', 'N', 'L', 'O', 'A', 'D', '_', 'C', 'O', 'U', 'N', 'T'],
        "_ID"@ == seq!['_', 'I', 'D'],
        "_NAME"@ == seq!['_', 'N', 'A', 'M', 'E'],
        "_SIZE"@ == seq!['_', 'S', 'I', 'Z', 'E'],
        "_UUID"@ == seq!['_', 'U', 'U', 'I', 'D'],
{
    reveal_strlit("_BROWSER_DOWNLOAD_URL");
    assert("_BROWSER_DOWNLOAD_URL"@ =~= seq!['_', 'B', 'R', 'O', 'W', 'S', 'E', 'R', '_', 'D', 'O', 'W', 'N', 'L', 'O', 'A', 'D', '_', 'U', 'R', 'L']);
    reveal_strlit("_CREATED_AT");
    assert("_CREATED_AT"@ =~= seq!['_', 'C', 'R', 'E', 'A', 'T', 'E', 'D', '_', 'A', 'T']);
    reveal_strlit("_DOWNLOAD_COUNT");
    assert("_DOWNLOAD_COUNT"@ =~= seq!['_', 'D', 'O', 'W', 'N', 'L', 'O', 'A', 'D', '_', 'C', 'O', 'U', 'N', 'T']);
    reveal_strlit("_ID");
    assert("_ID"@ =~= seq!['_', 'I', 'D']);
    reveal_strlit("_NAME");
    assert("_NAME"@ =~= seq!['_', 'N', 'A', 'M', 'E']);
    reveal_strlit("_SIZE");
    assert("_SIZE"@ =~= seq!['_', 'S', 'I', 'Z', 'E']);
    reveal_strlit("_UUID");
    assert("_UUID"@ =~= seq!['_', 'U', 'U', 'I', 'D']);
}

/// A variable holds what the last part of the environment of a file attached to a release that
/// assigns it leaves in it.
proof fn lemma_attachment_env_lookup(prefix: Seq<char>, item: Attachment, name: Seq<char>)
    ensures
        last_value(attachment_env(prefix, item), name) == or_else(last_value(seq![entry(prefix, "_BROWSER_DOWNLOAD_URL"@, item.browser_download_url@)], name), or_else(last_value(seq![entry(prefix, "_UUID"@, item.uuid@)], name), or_else(last_value(seq![entry(prefix, "_CREATED_AT"@, item.created_at@)], name), or_else(last_value(seq![entry(prefix, "_DOWNLOAD_COUNT"@, signed_decimal(item.download_count as int))], name), or_else(last_value(seq![entry(prefix, "_SIZE"@, signed_decimal(item.size as int))], name), or_else(last_value(seq![entry(prefix, "_NAME"@, item.name@)], name), or_else(last_value(seq![entry(prefix, "_ID"@, signed_decimal(item.id as int))], name), None))))))),
{
    let sum0_0 = seq![entry(prefix, "_ID"@, signed_decimal(item.id as int))];
    let sum0_1 = sum0_0 + seq![entry(prefix, "_NAME"@, item.name@)];
    let sum0_2 = sum0_1 + seq![entry(prefix, "_SIZE"@, signed_decimal(item.size as int))];
    let sum0_3 = sum0_2 + seq![entry(prefix, "_DOWNLOAD_COUNT"@, signed_decimal(item.download_count as int))];
    let sum0_4 = sum0_3 + seq![entry(prefix, "_CREATED_AT"@, item.created_at@)];
    let sum0_5 = sum0_4 + seq![entry(prefix, "_UUID"@, item.uuid@)];
    let sum0_6 = sum0_5 + seq![entry(prefix, "_BROWSER_DOWNLOAD_URL"@, item.browser_download_url@)];
    lemma_last_value_concat(sum0_5, seq![entry(prefix, "_BROWSER_DOWNLOAD_URL"@, item.browser_download_url@)], name);
    lemma_last_value_concat(sum0_4, seq![entry(prefix, "_UUID"@, item.uuid@)], name);
    lemma_last_value_concat(sum0_3, seq![entry(prefix, "_CREATED_AT"@, item.created_at@)], name);
    lemma_last_value_concat(sum0_2, seq![entry(prefix, "_DOWNLOAD_COUNT"@, signed_decimal(item.download_count as int))], name);
    lemma_last_value_concat(sum0_1, seq![entry(prefix, "_SIZE"@, signed_decimal(item.size as int))], name);
    lemma_last_value_concat(sum0_0, seq![entry(prefix, "_NAME"@, item.name@)], name);
}

/// In the environment of a file attached to a release, the variable of the field `id` holds it.
pub proof fn lemma_attachment_env_id(prefix: Seq<char>, item: Attachment)
    ensures
        last_value(attachment_env(prefix, item), (prefix + "_ID"@)) == Some(signed_decimal(item.id as int)),
{
    lemma_attachment_keys();
    lemma_attachment_env_lookup(prefix, item, (prefix + "_ID"@));
    lemma_single_apart_len(prefix, "_NAME"@, item.name@, (prefix + "_ID"@));
    lemma_single_apart_len(prefix, "_SIZE"@, signed_decimal(item.size as int), (prefix + "_ID"@));
    lemma_single_apart_len(prefix, "_DOWNLOAD_COUNT"@, signed_decimal(item.download_count as int), (prefix + "_ID"@));
    lemma_single_apart_len(prefix, "_CREATED_AT"@, item.created_at@, (prefix + "_ID"@));
    lemma_single_apart_len(prefix, "_UUID"@, item.uuid@, (prefix + "_ID"@));
    lemma_single_apart_len(prefix, "_BROWSER_DOWNLOAD_URL"@, item.browser_download_url@, (prefix + "_ID"@));
    lemma_last_value_single((prefix + "_ID"@), signed_decimal(item.id as int), (prefix + "_ID"@));
}

/// In the environment of a file attached to a release, the variable of the field `name` holds it.
pub proof fn lemma_attachment_env_name(prefix: Seq<char>, item: Attachment)
    ensures
        last_value(attachment_env(prefix, item), (prefix + "_NAME"@)) == Some(item.name@),
{
    lemma_attachment_keys();
    lemma_attachment_env_lookup(prefix, item, (prefix + "_NAME"@));
    lemma_single_apart(prefix, "_SIZE"@, signed_decimal(item.size as int), (prefix + "_NAME"@), 1);
    lemma_single_apart_len(prefix, "_DOWNLOAD_COUNT"@, signed_decimal(item.download_count as int), (prefix + "_NAME"@));
    lemma_single_apart_len(prefix, "_CREATED_AT"@, item.created_at@, (prefix + "_NAME"@));
    lemma_single_apart(prefix, "_UUID"@, item.uuid@, (prefix + "_NAME"@), 1);
    lemma_single_apart_len(prefix, "_BROWSER_DOWNLOAD_URL"@, item.browser_download_url@, (prefix + "_NAME"@));
    lemma_last_value_single((prefix + "_NAME"@), item.name@, (prefix + "_NAME"@));
}

/// In the environment of a file attached to a release, the variable of the field `size` holds it.
pub proof fn lemma_attachment_env_size(prefix: Seq<char>, item: Attachment)
    ensures
        last_value(attachment_env(prefix, item), (prefix + "_SIZE"@)) == Some(signed_decimal(item.size as int)),
{
    lemma_attachment_keys();
    lemma_attachment_env_lookup(prefix, item, (prefix + "_SIZE"@));
    lemma_single_apart_len(prefix, "_DOWNLOAD_COUNT"@, signed_decimal(item.download_count as int), (prefix + "_SIZE"@));
    lemma_single_apart_len(prefix, "_CREATED_AT"@, item.created_at@, (prefix + "_SIZE"@));
    lemma_single_apart(prefix, "_UUID"@, item.uuid@, (prefix + "_SIZE"@), 1);
    lemma_single_apart_len(prefix, "_BROWSER_DOWNLOAD_URL"@, item.browser_download_url@, (prefix + "_SIZE"@));
    lemma_last_value_single((prefix + "_SIZE"@), signed_decimal(item.size as int), (prefix + "_SIZE"@));
}

/// In the environment of a file attached to a release, the variable of the field `download_count` holds it.
pub proof fn lemma_attachment_env_download_count(prefix: Seq<char>, item: Attachment)
    ensures
        last_value(attachment_env(prefix, item), (prefix + "_DOWNLOAD_COUNT"@)) == Some(signed_decimal(item.download_count as int)),
{
    lemma_attachment_keys();
    lemma_attachment_env_lookup(prefix, item, (prefix + "_DOWNLOAD_COUNT"@));
    lemma_single_apart_len(prefix, "_CREATED_AT"@, item.created_at@, (prefix + "_DOWNLOAD_COUNT"@));
    lemma_single_apart_len(prefix, "_UUID"@, item.uuid@, (prefix + "_DOWNLOAD_COUNT"@));
    lemma_single_apart_len(prefix, "_BROWSER_DOWNLOAD_URL"@, item.browser_download_url@, (prefix + "_DOWNLOAD_COUNT"@));
    lemma_last_value_single((prefix + "_DOWNLOAD_COUNT"@), signed_decimal(item.download_count as int), (prefix + "_DOWNLOAD_COUNT"@));
}

/// In the environment of a file attached to a release, the variable of the field `created_at` holds it.
pub proof fn lemma_attachment_env_created_at(prefix: Seq<char>, item: Attachment)
    ensures
        last_value(attachment_env(prefix, item), (prefix + "_CREATED_AT"@)) == Some(item.created_at@),
{
    lemma_attachment_keys();
    lemma_attachment_env_lookup(prefix, item, (prefix + "_CREATED_AT"@));
    lemma_single_apart_len(prefix, "_UUID"@, item.uuid@, (prefix + "_CREATED_AT"@));
    lemma_single_apart_len(prefix, "_BROWSER_DOWNLOAD_URL"@, item.browser_download_url@, (prefix + "_CREATED_AT"@));
    lemma_last_value_single((prefix + "_CREATED_AT"@), item.created_at@, (prefix + "_CREATED_AT"@));
}

/// In the environment of a file attached to a release, the variable of the field `uuid` holds it.
pub proof fn lemma_attachment_env_uuid(prefix: Seq<char>, item: Attachment)
    ensures
        last_value(attachment_env(prefix, item), (prefix + "_UUID"@)) == Some(item.uuid@),
{
    lemma_attachment_keys();
    lemma_attachment_env_lookup(prefix, item, (prefix + "_UUID"@));
    lemma_single_apart_len(prefix, "_BROWSER_DOWNLOAD_URL"@, item.browser_download_url@, (prefix + "_UUID"@));
    lemma_last_value_single((prefix + "_UUID"@), item.uuid@, (prefix + "_UUID"@));
}

/// In the environment of a file attached to a release, the variable of the field `browser_download_url` holds it.
pub proof fn lemma_attachment_env_browser_download_url(prefix: Seq<char>, item: Attachment)
    ensures
        last_value(attachment_env(prefix, item), (prefix + "_BROWSER_DOWNLOAD_URL"@)) == Some(item.browser_download_url@),
{
    lemma_attachment_keys();
    lemma_attachment_env_lookup(prefix, item, (prefix + "_BROWSER_DOWNLOAD_URL"@));
    lemma_last_value_single((prefix + "_BROWSER_DOWNLOAD_URL"@), item.browser_download_url@, (prefix + "_BROWSER_DOWNLOAD_URL"@));
}

/// The texts of the keys in the environment of a release.
proof fn lemma_release_keys()
    ensures
        "_ASSETS_"@ == seq!['_', 'A', 'S', 'S', 'E', 'T', 'S', '_'],
        "_AUTHOR"@ == seq!['_', 'A', 'U', 'T', 'H', 'O', 'R'],
        "_BODY"@ == seq!['_', 'B', 'O', 'D', 'Y'],
        "_CREATED_AT"@ == seq!['_', 'C', 'R', 'E', 'A', 'T', 'E', 'D', '_', 'A', 'T'],
        "_DRAFT"@ == seq!['_', 'D', 'R', 'A', 'F', 'T'],
        "_HTML_URL"@ == seq!['_', 'H', 'T', 'M', 'L', '_', 'U', 'R', 'L'],
        "_ID"@ == seq!['_', 'I', 'D'],
        "_NAME"@ == seq!['_', 'N', 'A', 'M', 'E'],
        "_PRELEASE"@ == seq!['_', 'P', 'R', 'E', 'L', 'E', 'A', 'S', 'E'],
        "_PUBLISHED_AT"@ == seq!['_', 'P', 'U', 'B', 'L', 'I', 'S', 'H', 'E', 'D', '_', 'A', 'T'],
        "_TAG_NAME"@ == seq!['_', 'T', 'A', 'G', '_', 'N', 'A', 'M', 'E'],
        "_TARBALL_URL"@ == seq!['_', 'T', 'A', 'R', 'B', 'A', 'L', 'L', '_', 'U', 'R', 'L'],
        "_TARGET_COMMITISH"@ == seq!['_', 'T', 'A', 'R', 'G', 'E', 'T', '_', 'C', 'O', 'M', 'M', 'I', 'T', 'I', 'S', 'H'],
        "_URL"@ == seq!['_', 'U', 'R', 'L'],
        "_ZIPBALL_URL"@ == seq!['_', 'Z', 'I', 'P', 'B', 'A', 'L', 'L', '_', 'U', 'R', 'L'],
{
    reveal_strlit("_ASSETS_");
    assert("_ASSETS_"@ =~= seq!['_', 'A', 'S', 'S', 'E', 'T', 'S', '_']);
    reveal_strlit("_AUTHOR");
    assert("_AUTHOR"@ =~= seq!['_', 'A', 'U', 'T', 'H', 'O', 'R']);
    reveal_strlit("_BODY");
    assert("_BODY"@ =~= seq!['_', 'B', 'O', 'D', 'Y']);
    reveal_strlit("_CREATED_AT");
    assert("_CREATED_AT"@ =~= seq!['_', 'C', 'R', 'E', 'A', 'T', 'E', 'D', '_', 'A', 'T']);
    reveal_strlit("_DRAFT");
    assert("_DRAFT"@ =~= seq!['_', 'D', 'R', 'A', 'F', 'T']);
    reveal_strlit("_HTML_URL");
    assert("_HTML_URL"@ =~= seq!['_', 'H', 'T', 'M', 'L', '_', 'U', 'R', 'L']);
    reveal_strlit("_ID");
    assert("_ID"@ =~= seq!['_', 'I', 'D']);
    reveal_strlit("_NAME");
    assert("_NAME"@ =~= seq!['_', 'N', 'A', 'M', 'E']);
    reveal_strlit("_PRELEASE");
    assert("_PRELEASE"@ =~= seq!['_', 'P', 'R', 'E', 'L', 'E', 'A', 'S', 'E']);
    reveal_strlit("_PUBLISHED_AT");
    assert("_PUBLISHED_AT"@ =~= seq!['_', 'P', 'U', 'B', 'L', 'I', 'S', 'H', 'E', 'D', '_', 'A', 'T']);
    reveal_strlit("_TAG_NAME");
    assert("_TAG_NAME"@ =~= seq!['_', 'T', 'A', 'G', '_', 'N', 'A', 'M', 'E']);
    reveal_strlit("_TARBALL_URL");
    assert("_TARBALL_URL"@ =~= seq!['_', 'T', 'A', 'R', 'B', 'A', 'L', 'L', '_', 'U', 'R', 'L']);
    reveal_strlit("_TARGET_COMMITISH");
    assert("_TARGET_COMMITISH"@ =~= seq!['_', 'T', 'A', 'R', 'G', 'E', 'T', '_', 'C', 'O', 'M', 'M', 'I', 'T', 'I', 'S', 'H']);
    reveal_strlit("_URL");
    assert("_URL"@ =~= seq!['_', 'U', 'R', 'L']);
    reveal_strlit("_ZIPBALL_URL");
    assert("_ZIPBALL_URL"@ =~= seq!['_', 'Z', 'I', 'P', 'B', 'A', 'L', 'L', '_', 'U', 'R', 'L']);
}

/// A variable holds what the last part of the environment of a release that
/// assigns it leaves in it.
#[verifier::rlimit(100)]
proof fn lemma_release_env_lookup(prefix: Seq<char>, item: Release, name: Seq<char>)
    ensures
        last_value(release_env(prefix, item), name) == or_else(last_value(attachments_env(prefix + "_ASSETS_"@, item.assets@), name), or_else(last_value(user_env(prefix + "_AUTHOR"@, item.author), name), or_else(last_value(seq![entry(prefix, "_PUBLISHED_AT"@, item.published_at@)], name), or_else(last_value(seq![entry(prefix, "_CREATED_AT"@, item.created_at@)], name), or_else(last_value(seq![entry(prefix, "_PRELEASE"@, bool_text(item.is_prerelease))], name), or_else(last_value(seq![entry(prefix, "_DRAFT"@, bool_text(item.is_draft))], name), or_else(last_value(seq![entry(prefix, "_ZIPBALL_URL"@, item.zipball_url@)], name), or_else(last_value(seq![entry(prefix, "_TARBALL_URL"@, item.tarball_url@)], name), or_else(last_value(seq![entry(prefix, "_HTML_URL"@, item.html_url@)], name), or_else(last_value(seq![entry(prefix, "_URL"@, item.api_url@)], name), or_else(last_value(seq![entry(prefix, "_BODY"@, item.body@)], name), or_else(last_value(seq![entry(prefix, "_NAME"@, item.name@)], name), or_else(last_value(seq![entry(prefix, "_TARGET_COMMITISH"@, item.target_commitish@)], name), or_else(last_value(seq![entry(prefix, "_TAG_NAME"@, item.tag_name@)], name), or_else(last_value(seq![entry(prefix, "_ID"@, signed_decimal(item.id as int))], name), None))))))))))))))),
{
    let whole0 = release_env_part1(prefix, item);
    let whole1 = whole0 + release_env_part2(prefix, item);
    lemma_last_value_concat(whole0, release_env_part2(prefix, item), name);
    let sum0_0 = seq![entry(prefix, "_ID"@, signed_decimal(item.id as int))];
    let sum0_1 = sum0_0 + seq![entry(prefix, "_TAG_NAME"@, item.tag_name@)];
    let sum0_2 = sum0_1 + seq![entry(prefix, "_TARGET_COMMITISH"@, item.target_commitish@)];
    let sum0_3 = sum0_2 + seq![entry(prefix, "_NAME"@, item.name@)];
    let sum0_4 = sum0_3 + seq![entry(prefix, "_BODY"@, item.body@)];
    let sum0_5 = sum0_4 + seq![entry(prefix, "_URL"@, item.api_url@)];
    let sum0_6 = sum0_5 + seq![entry(prefix, "_HTML_URL"@, item.html_url@)];
    let sum0_7 = sum0_6 + seq![entry(prefix, "_TARBALL_URL"@, item.tarball_url@)];
    let sum0_8 = sum0_7 + seq![entry(prefix, "_ZIPBALL_URL"@, item.zipball_url@)];
    let sum0_9 = sum0_8 + seq![entry(prefix, "_DRAFT"@, bool_text(item.is_draft))];
    lemma_last_value_concat(sum0_8, seq![entry(prefix, "_DRAFT"@, bool_text(item.is_draft))], name);
    lemma_last_value_concat(sum0_7, seq![entry(prefix, "_ZIPBALL_URL"@, item.zipball_url@)], name);
    lemma_last_value_concat(sum0_6, seq![entry(prefix, "_TARBALL_URL"@, item.tarball_url@)], name);
    lemma_last_value_concat(sum0_5, seq![entry(prefix, "_HTML_URL"@, item.html_url@)], name);
    lemma_last_value_concat(sum0_4, seq![entry(prefix, "_URL"@, item.api_url@)], name);
    lemma_last_value_concat(sum0_3, seq![entry(prefix, "_BODY"@, item.body@)], name);
    lemma_last_value_concat(sum0_2, seq![entry(prefix, "_NAME"@, item.name@)], name);
    lemma_last_value_concat(sum0_1, seq![entry(prefix, "_TARGET_COMMITISH"@, item.target_commitish@)], name);
    lemma_last_value_concat(sum0_0, seq![entry(prefix, "_TAG_NAME"@, item.tag_name@)], name);
    let sum1_0 = seq![entry(prefix, "_PRELEASE"@, bool_text(item.is_prerelease))];
    let sum1_1 = sum1_0 + seq![entry(prefix, "_CREATED_AT"@, item.created_at@)];
    let sum1_2 = sum1_1 + seq![entry(prefix, "_PUBLISHED_AT"@, item.published_at@)];
    let sum1_3 = sum1_2 + user_env(prefix + "_AUTHOR"@, item.author);
    let sum1_4 = sum1_3 + attachments_env(prefix + "_ASSETS_"@, item.assets@);
    lemma_last_value_concat(sum1_3, attachments_env(prefix + "_ASSETS_"@, item.assets@), name);
    lemma_last_value_concat(sum1_2, user_env(prefix + "_AUTHOR"@, item.author), name);
    lemma_last_value_concat(sum1_1, seq![entry(prefix, "_PUBLISHED_AT"@, item.published_at@)], name);
    lemma_last_value_concat(sum1_0, seq![entry(prefix, "_CREATED_AT"@, item.created_at@)], name);
}

/// In the environment of a release, the variable of the field `id` holds it.
#[verifier::rlimit(100)]
pub proof fn lemma_release_env_id(prefix: Seq<char>, item: Release)
    ensures
        last_value(release_env(prefix, item), (prefix + "_ID"@)) == Some(signed_decimal(item.id as int)),
{
    lemma_release_keys();
    lemma_release_env_lookup(prefix, item, (prefix + "_ID"@));
    lemma_single_apart_len(prefix, "_TAG_NAME"@, item.tag_name@, (prefix + "_ID"@));
    lemma_single_apart_len(prefix, "_TARGET_COMMITISH"@, item.target_commitish@, (prefix + "_ID"@));
    lemma_single_apart_len(prefix, "_NAME"@, item.name@, (prefix + "_ID"@));
    lemma_single_apart_len(prefix, "_BODY"@, item.body@, (prefix + "_ID"@));
    lemma_single_apart_len(prefix, "_URL"@, item.api_url@, (prefix + "_ID"@));
    lemma_single_apart_len(prefix, "_HTML_URL"@, item.html_url@, (prefix + "_ID"@));
    lemma_single_apart_len(prefix, "_TARBALL_URL"@, item.tarball_url@, (prefix + "_ID"@));
    lemma_single_apart_len(prefix, "_ZIPBALL_URL"@, item.zipball_url@, (prefix + "_ID"@));
    lemma_single_apart_len(prefix, "_DRAFT"@, bool_text(item.is_draft), (prefix + "_ID"@));
    lemma_single_apart_len(prefix, "_PRELEASE"@, bool_text(item.is_prerelease), (prefix + "_ID"@));
    lemma_single_apart_len(prefix, "_CREATED_AT"@, item.created_at@, (prefix + "_ID"@));
    lemma_single_apart_len(prefix, "_PUBLISHED_AT"@, item.published_at@, (prefix + "_ID"@));
    lemma_user_env_under(prefix + "_AUTHOR"@, item.author);
    lemma_no_value_apart(prefix + "_AUTHOR"@, user_env(prefix + "_AUTHOR"@, item.author), (prefix + "_ID"@), prefix.len() as int + 1);
    lemma_attachments_env_under(prefix + "_ASSETS_"@, item.assets@);
    lemma_no_value_apart(prefix + "_ASSETS_"@, attachments_env(prefix + "_ASSETS_"@, item.assets@), (prefix + "_ID"@), prefix.len() as int + 1);
    lemma_last_value_single((prefix + "_ID"@), signed_decimal(item.id as int), (prefix + "_ID"@));
}

/// In the environment of a release, the variable of the field `tag_name` holds it.
#[verifier::rlimit(100)]
pub proof fn lemma_release_env_tag_name(prefix: Seq<char>, item: Release)
    ensures
        last_value(release_env(prefix, item), (prefix + "_TAG_NAME"@)) == Some(item.tag_name@),
{
    lemma_release_keys();
    lemma_release_env_lookup(prefix, item, (prefix + "_TAG_NAME"@));
    lemma_single_apart_len(prefix, "_TARGET_COMMITISH"@, item.target_commitish@, (prefix + "_TAG_NAME"@));
    lemma_single_apart_len(prefix, "_NAME"@, item.name@, (prefix + "_TAG_NAME"@));
    lemma_single_apart_len(prefix, "_BODY"@, item.body@, (prefix + "_TAG_NAME"@));
    lemma_single_apart_len(prefix, "_URL"@, item.api_url@, (prefix + "_TAG_NAME"@));
    lemma_single_apart(prefix, "_HTML_URL"@, item.html_url@, (prefix + "_TAG_NAME"@), 1);
    lemma_single_apart_len(prefix, "_TARBALL_URL"@, item.tarball_url@, (prefix + "_TAG_NAME"@));
    lemma_single_apart_len(prefix, "_ZIPBALL_URL"@, item.zipball_url@, (prefix + "_TAG_NAME"@));
    lemma_single_apart_len(prefix, "_DRAFT"@, bool_text(item.is_draft), (prefix + "_TAG_NAME"@));
    lemma_single_apart(prefix, "_PRELEASE"@, bool_text(item.is_prerelease), (prefix + "_TAG_NAME"@), 1);
    lemma_single_apart_len(prefix, "_CREATED_AT"@, item.created_at@, (prefix + "_TAG_NAME"@));
    lemma_single_apart_len(prefix, "_PUBLISHED_AT"@, item.published_at@, (prefix + "_TAG_NAME"@));
    lemma_user_env_under(prefix + "_AUTHOR"@, item.author);
    lemma_no_value_apart(prefix + "_AUTHOR"@, user_env(prefix + "_AUTHOR"@, item.author), (prefix + "_TAG_NAME"@), prefix.len() as int + 1);
    lemma_attachments_env_under(prefix + "_ASSETS_"@, item.assets@);
    lemma_no_value_apart(prefix + "_ASSETS_"@, attachments_env(prefix + "_ASSETS_"@, item.assets@), (prefix + "_TAG_NAME"@), prefix.len() as int + 1);
    lemma_last_value_single((prefix + "_TAG_NAME"@), item.tag_name@, (prefix + "_TAG_NAME"@));
}

/// In the environment of a release, the variable of the field `target_commitish` holds it.
#[verifier::rlimit(100)]
pub proof fn lemma_release_env_target_commitish(prefix: Seq<char>, item: Release)
    ensures
        last_value(release_env(prefix, item), (prefix + "_TARGET_COMMITISH"@)) == Some(item.target_commitish@),
{
    lemma_release_keys();
    lemma_release_env_lookup(prefix, item, (prefix + "_TARGET_COMMITISH"@));
    lemma_single_apart_len(prefix, "_NAME"@, item.name@, (prefix + "_TARGET_COMMITISH"@));
    lemma_single_apart_len(prefix, "_BODY"@, item.body@, (prefix + "_TARGET_COMMITISH"@));
    lemma_single_apart_len(prefix, "_URL"@, item.api_url@, (prefix + "_TARGET_COMMITISH"@));
    lemma_single_apart_len(prefix, "_HTML_URL"@, item.html_url@, (prefix + "_TARGET_COMMITISH"@));
    lemma_single_apart_len(prefix, "_TARBALL_URL"@, item.tarball_url@, (prefix + "_TARGET_COMMITISH"@));
    lemma_single_apart_len(prefix, "_ZIPBALL_URL"@, item.zipball_url@, (prefix + "_TARGET_COMMITISH"@));
    lemma_single_apart_len(prefix, "_DRAFT"@, bool_text(item.is_draft), (prefix + "_TARGET_COMMITISH"@));
    lemma_single_apart_len(prefix, "_PRELEASE"@, bool_text(item.is_prerelease), (prefix + "_TARGET_COMMITISH"@));
    lemma_single_apart_len(prefix, "_CREATED_AT"@, item.created_at@, (prefix + "_TARGET_COMMITISH"@));
    lemma_single_apart_len(prefix, "_PUBLISHED_AT"@, item.published_at@, (prefix + "_TARGET_COMMITISH"@));
    lemma_user_env_under(prefix + "_AUTHOR"@, item.author);
    lemma_no_value_apart(prefix + "_AUTHOR"@, user_env(prefix + "_AUTHOR"@, item.author), (prefix + "_TARGET_COMMITISH"@), prefix.len() as int + 1);
    lemma_attachments_env_under(prefix + "_ASSETS_"@, item.assets@);
    lemma_no_value_apart(prefix + "_ASSETS_"@, attachments_env(prefix + "_ASSETS_"@, item.assets@), (prefix + "_TARGET_COMMITISH"@), prefix.len() as int + 1);
    lemma_last_value_single((prefix + "_TARGET_COMMITISH"@), item.target_commitish@, (prefix + "_TARGET_COMMITISH"@));
}

/// In the environment of a release, the variable of the field `name` holds it.
#[verifier::rlimit(100)]
pub proof fn lemma_release_env_name(prefix: Seq<char>, item: Release)
    ensures
        last_value(release_env(prefix, item), (prefix + "_NAME"@)) == Some(item.name@),
{
    lemma_release_keys();
    lemma_release_env_lookup(prefix, item, (prefix + "_NAME"@));
    lemma_single_apart(prefix, "_BODY"@, item.body@, (prefix + "_NAME"@), 1);
    lemma_single_apart_len(prefix, "_URL"@, item.api_url@, (prefix + "_NAME"@));
    lemma_single_apart_len(prefix, "_HTML_URL"@, item.html_url@, (prefix + "_NAME"@));
    lemma_single_apart_len(prefix, "_TARBALL_URL"@, item.tarball_url@, (prefix + "_NAME"@));
    lemma_single_apart_len(prefix, "_ZIPBALL_URL"@, item.zipball_url@, (prefix + "_NAME"@));
    lemma_single_apart_len(prefix, "_DRAFT"@, bool_text(item.is_draft), (prefix + "_NAME"@));
    lemma_single_apart_len(prefix, "_PRELEASE"@, bool_text(item.is_prerelease), (prefix + "_NAME"@));
    lemma_single_apart_len(prefix, "_CREATED_AT"@, item.created_at@, (prefix + "_NAME"@));
    lemma_single_apart_len(prefix, "_PUBLISHED_AT"@, item.published_at@, (prefix + "_NAME"@));
    lemma_user_env_under(prefix + "_AUTHOR"@, item.author);
    lemma_no_value_apart(prefix + "_AUTHOR"@, user_env(prefix + "_AUTHOR"@, item.author), (prefix + "_NAME"@), prefix.len() as int + 1);
    lemma_attachments_env_under(prefix + "_ASSETS_"@, item.assets@);
    lemma_no_value_apart(prefix + "_ASSETS_"@, attachments_env(prefix + "_ASSETS_"@, item.assets@), (prefix + "_NAME"@), prefix.len() as int + 1);
    lemma_last_value_single((prefix + "_NAME"@), item.name@, (prefix + "_NAME"@));
}

/// In the environment of a release, the variable of the field `body` holds it.
#[verifier::rlimit(100)]
pub proof fn lemma_release_env_body(prefix: Seq<char>, item: Release)
    ensures
        last_value(release_env(prefix, item), (prefix + "_BODY"@)) == Some(item.body@),
{
    lemma_release_keys();
    lemma_release_env_lookup(prefix, item, (prefix + "_BODY"@));
    lemma_single_apart_len(prefix, "_URL"@, item.api_url@, (prefix + "_BODY"@));
    lemma_single_apart_len(prefix, "_HTML_URL"@, item.html_url@, (prefix + "_BODY"@));
    lemma_single_apart_len(prefix, "_TARBALL_URL"@, item.tarball_url@, (prefix + "_BODY"@));
    lemma_single_apart_len(prefix, "_ZIPBALL_URL"@, item.zipball_url@, (prefix + "_BODY"@));
    lemma_single_apart_len(prefix, "_DRAFT"@, bool_text(item.is_draft), (prefix + "_BODY"@));
    lemma_single_apart_len(prefix, "_PRELEASE"@, bool_text(item.is_prerelease), (prefix + "_BODY"@));
    lemma_single_apart_len(prefix, "_CREATED_AT"@, item.created_at@, (prefix + "_BODY"@));
    lemma_single_apart_len(prefix, "_PUBLISHED_AT"@, item.published_at@, (prefix + "_BODY"@));
    lemma_user_env_under(prefix + "_AUTHOR"@, item.author);
    lemma_no_value_apart(prefix + "_AUTHOR"@, user_env(prefix + "_AUTHOR"@, item.author), (prefix + "_BODY"@), prefix.len() as int + 1);
    lemma_attachments_env_under(prefix + "_ASSETS_"@, item.assets@);
    lemma_no_value_apart(prefix + "_ASSETS_"@, attachments_env(prefix + "_ASSETS_"@, item.assets@), (prefix + "_BODY"@), prefix.len() as int + 1);
    lemma_last_value_single((prefix + "_BODY"@), item.body@, (prefix + "_BODY"@));
}

/// In the environment of a release, the variable of the field `api_url` holds it.
#[verifier::rlimit(100)]
pub proof fn lemma_release_env_url(prefix: Seq<char>, item: Release)
    ensures
        last_value(release_env(prefix, item), (prefix + "_URL"@)) == Some(item.api_url@),
{
    lemma_release_keys();
    lemma_release_env_lookup(prefix, item, (prefix + "_URL"@));
    lemma_single_apart_len(prefix, "_HTML_URL"@, item.html_url@, (prefix + "_URL"@));
    lemma_single_apart_len(prefix, "_TARBALL_URL"@, item.tarball_url@, (prefix + "_URL"@));
    lemma_single_apart_len(prefix, "_ZIPBALL_URL"@, item.zipball_url@, (prefix + "_URL"@));
    lemma_single_apart_len(prefix, "_DRAFT"@, bool_text(item.is_draft), (prefix + "_URL"@));
    lemma_single_apart_len(prefix, "_PRELEASE"@, bool_text(item.is_prerelease), (prefix + "_URL"@));
    lemma_single_apart_len(prefix, "_CREATED_AT"@, item.created_at@, (prefix + "_URL"@));
    lemma_single_apart_len(prefix, "_PUBLISHED_AT"@, item.published_at@, (prefix + "_URL"@));
    lemma_user_env_under(prefix + "_AUTHOR"@, item.author);
    lemma_no_value_apart(prefix + "_AUTHOR"@, user_env(prefix + "_AUTHOR"@, item.author), (prefix + "_URL"@), prefix.len() as int + 1);
    lemma_attachments_env_under(prefix + "_ASSETS_"@, item.assets@);
    lemma_no_value_apart(prefix + "_ASSETS_"@, attachments_env(prefix + "_ASSETS_"@, item.assets@), (prefix + "_URL"@), prefix.len() as int + 1);
    lemma_last_value_single((prefix + "_URL"@), item.api_url@, (prefix + "_URL"@));
}

/// In the environment of a release, the variable of the field `html_url` holds it.
#[verifier::rlimit(100)]
pub proof fn lemma_release_env_html_url(prefix: Seq<char>, item: Release)
    ensures
        last_value(release_env(prefix, item), (prefix + "_HTML_URL"@)) == Some(item.html_url@),
{
    lemma_release_keys();
    lemma_release_env_lookup(prefix, item, (prefix + "_HTML_URL"@));
    lemma_single_apart_len(prefix, "_TARBALL_URL"@, item.tarball_url@, (prefix + "_HTML_URL"@));
    lemma_single_apart_len(prefix, "_ZIPBALL_URL"@, item.zipball_url@, (prefix + "_HTML_URL"@));
    lemma_single_apart_len(prefix, "_DRAFT"@, bool_text(item.is_draft), (prefix + "_HTML_URL"@));
    lemma_single_apart(prefix, "_PRELEASE"@, bool_text(item.is_prerelease), (prefix + "_HTML_URL"@), 1);
    lemma_single_apart_len(prefix, "_CREATED_AT"@, item.created_at@, (prefix + "_HTML_URL"@));
    lemma_single_apart_len(prefix, "_PUBLISHED_AT"@, item.published_at@, (prefix + "_HTML_URL"@));
    lemma_user_env_under(prefix + "_AUTHOR"@, item.author);
    lemma_no_value_apart(prefix + "_AUTHOR"@, user_env(prefix + "_AUTHOR"@, item.author), (prefix + "_HTML_URL"@), prefix.len() as int + 1);
    lemma_attachments_env_under(prefix + "_ASSETS_"@, item.assets@);
    lemma_no_value_apart(prefix + "_ASSETS_"@, attachments_env(prefix + "_ASSETS_"@, item.assets@), (prefix + "_HTML_URL"@), prefix.len() as int + 1);
    lemma_last_value_single((prefix + "_HTML_URL"@), item.html_url@, (prefix + "_HTML_URL"@));
}

/// In the environment of a release, the variable of the field `tarball_url` holds it.
#[verifier::rlimit(100)]
pub proof fn lemma_release_env_tarball_url(prefix: Seq<char>, item: Release)
    ensures
        last_value(release_env(prefix, item), (prefix + "_TARBALL_URL"@)) == Some(item.tarball_url@),
{
    lemma_release_keys();
    lemma_release_env_lookup(prefix, item, (prefix + "_TARBALL_URL"@));
    lemma_single_apart(prefix, "_ZIPBALL_URL"@, item.zipball_url@, (prefix + "_TARBALL_URL"@), 1);
    lemma_single_apart_len(prefix, "_DRAFT"@, bool_text(item.is_draft), (prefix + "_TARBALL_URL"@));
    lemma_single_apart_len(prefix, "_PRELEASE"@, bool_text(item.is_prerelease), (prefix + "_TARBALL_URL"@));
    lemma_single_apart_len(prefix, "_CREATED_AT"@, item.created_at@, (prefix + "_TARBALL_URL"@));
    lemma_single_apart_len(prefix, "_PUBLISHED_AT"@, item.published_at@, (prefix + "_TARBALL_URL"@));
    lemma_user_env_under(prefix + "_AUTHOR"@, item.author);
    lemma_no_value_apart(prefix + "_AUTHOR"@, user_env(prefix + "_AUTHOR"@, item.author), (prefix + "_TARBALL_URL"@), prefix.len() as int + 1);
    lemma_attachments_env_under(prefix + "_ASSETS_"@, item.assets@);
    lemma_no_value_apart(prefix + "_ASSETS_"@, attachments_env(prefix + "_ASSETS_"@, item.assets@), (prefix + "_TARBALL_URL"@), prefix.len() as int + 1);
    lemma_last_value_single((prefix + "_TARBALL_URL"@), item.tarball_url@, (prefix + "_TARBALL_URL"@));
}

/// In the environment of a release, the variable of the field `zipball_url` holds it.
#[verifier::rlimit(100)]
pub proof fn lemma_release_env_zipball_url(prefix: Seq<char>, item: Release)
    ensures
        last_value(release_env(prefix, item), (prefix + "_ZIPBALL_URL"@)) == Some(item.zipball_url@),
{
    lemma_release_keys();
    lemma_release_env_lookup(prefix, item, (prefix + "_ZIPBALL_URL"@));
    lemma_single_apart_len(prefix, "_DRAFT"@, bool_text(item.is_draft), (prefix + "_ZIPBALL_URL"@));
    lemma_single_apart_len(prefix, "_PRELEASE"@, bool_text(item.is_prerelease), (prefix + "_ZIPBALL_URL"@));
    lemma_single_apart_len(prefix, "_CREATED_AT"@, item.created_at@, (prefix + "_ZIPBALL_URL"@));
    lemma_single_apart_len(prefix, "_PUBLISHED_AT"@, item.published_at@, (prefix + "_ZIPBALL_URL"@));
    lemma_user_env_under(prefix + "_AUTHOR"@, item.author);
    lemma_no_value_apart(prefix + "_AUTHOR"@, user_env(prefix + "_AUTHOR"@, item.author), (prefix + "_ZIPBALL_URL"@), prefix.len() as int + 1);
    lemma_attachments_env_under(prefix + "_ASSETS_"@, item.assets@);
    lemma_no_value_apart(prefix + "_ASSETS_"@, attachments_env(prefix + "_ASSETS_"@, item.assets@), (prefix + "_ZIPBALL_URL"@), prefix.len() as int + 1);
    lemma_last_value_single((prefix + "_ZIPBALL_URL"@), item.zipball_url@, (prefix + "_ZIPBALL_URL"@));
}

/// In the environment of a release, the variable of the field `is_draft` holds it.
#[verifier::rlimit(100)]
pub proof fn lemma_release_env_draft(prefix: Seq<char>, item: Release)
    ensures
        last_value(release_env(prefix, item), (prefix + "_DRAFT"@)) == Some(bool_text(item.is_draft)),
{
    lemma_release_keys();
    lemma_release_env_lookup(prefix, item, (prefix + "_DRAFT"@));
    lemma_single_apart_len(prefix, "_PRELEASE"@, bool_text(item.is_prerelease), (prefix + "_DRAFT"@));
    lemma_single_apart_len(prefix, "_CREATED_AT"@, item.created_at@, (prefix + "_DRAFT"@));
    lemma_single_apart_len(prefix, "_PUBLISHED_AT"@, item.published_at@, (prefix + "_DRAFT"@));
    lemma_user_env_under(prefix + "_AUTHOR"@, item.author);
    lemma_no_value_apart(prefix + "_AUTHOR"@, user_env(prefix + "_AUTHOR"@, item.author), (prefix + "_DRAFT"@), prefix.len() as int + 1);
    lemma_attachments_env_under(prefix + "_ASSETS_"@, item.assets@);
    lemma_no_value_apart(prefix + "_ASSETS_"@, attachments_env(prefix + "_ASSETS_"@, item.assets@), (prefix + "_DRAFT"@), prefix.len() as int + 1);
    lemma_last_value_single((prefix + "_DRAFT"@), bool_text(item.is_draft), (prefix + "_DRAFT"@));
}

/// In the environment of a release, the variable of the field `is_prerelease` holds it.
#[verifier::rlimit(100)]
pub proof fn lemma_release_env_prelease(prefix: Seq<char>, item: Release)
    ensures
        last_value(release_env(prefix, item), (prefix + "_PRELEASE"@)) == Some(bool_text(item.is_prerelease)),
{
    lemma_release_keys();
    lemma_release_env_lookup(prefix, item, (prefix + "_PRELEASE"@));
    lemma_single_apart_len(prefix, "_CREATED_AT"@, item.created_at@, (prefix + "_PRELEASE"@));
    lemma_single_apart_len(prefix, "_PUBLISHED_AT"@, item.published_at@, (prefix + "_PRELEASE"@));
    lemma_user_env_under(prefix + "_AUTHOR"@, item.author);
    lemma_no_value_apart(prefix + "_AUTHOR"@, user_env(prefix + "_AUTHOR"@, item.author), (prefix + "_PRELEASE"@), prefix.len() as int + 1);
    lemma_attachments_env_under(prefix + "_ASSETS_"@, item.assets@);
    lemma_no_value_apart(prefix + "_ASSETS_"@, attachments_env(prefix + "_ASSETS_"@, item.assets@), (prefix + "_PRELEASE"@), prefix.len() as int + 1);
    lemma_last_value_single((prefix + "_PRELEASE"@), bool_text(item.is_prerelease), (prefix + "_PRELEASE"@));
}

/// In the environment of a release, the variable of the field `created_at` holds it.
#[verifier::rlimit(100)]
pub proof fn lemma_release_env_created_at(prefix: Seq<char>, item: Release)
    ensures
        last_value(release_env(prefix, item), (prefix + "_CREATED_AT"@)) == Some(item.created_at@),
{
    lemma_release_keys();
    lemma_release_env_lookup(prefix, item, (prefix + "_CREATED_AT"@));
    lemma_single_apart_len(prefix, "_PUBLISHED_AT"@, item.published_at@, (prefix + "_CREATED_AT"@));
    lemma_user_env_under(prefix + "_AUTHOR"@, item.author);
    lemma_no_value_apart(prefix + "_AUTHOR"@, user_env(prefix + "_AUTHOR"@, item.author), (prefix + "_CREATED_AT"@), prefix.len() as int + 1);
    lemma_attachments_env_under(prefix + "_ASSETS_"@, item.assets@);
    lemma_no_value_apart(prefix + "_ASSETS_"@, attachments_env(prefix + "_ASSETS_"@, item.assets@), (prefix + "_CREATED_AT"@), prefix.len() as int + 1);
    lemma_last_value_single((prefix + "_CREATED_AT"@), item.created_at@, (prefix + "_CREATED_AT"@));
}

/// In the environment of a release, the variable of the field `published_at` holds it.
#[verifier::rlimit(100)]
pub proof fn lemma_release_env_published_at(prefix: Seq<char>, item: Release)
    ensures
        last_value(release_env(prefix, item), (prefix + "_PUBLISHED_AT"@)) == Some(item.published_at@),
{
    lemma_release_keys();
    lemma_release_env_lookup(prefix, item, (prefix + "_PUBLISHED_AT"@));
    lemma_user_env_under(prefix + "_AUTHOR"@, item.author);
    lemma_no_value_apart(prefix + "_AUTHOR"@, user_env(prefix + "_AUTHOR"@, item.author), (prefix + "_PUBLISHED_AT"@), prefix.len() as int + 1);
    lemma_attachments_env_under(prefix + "_ASSETS_"@, item.assets@);
    lemma_no_value_apart(prefix + "_ASSETS_"@, attachments_env(prefix + "_ASSETS_"@, item.assets@), (prefix + "_PUBLISHED_AT"@), prefix.len() as int + 1);
    lemma_last_value_single((prefix + "_PUBLISHED_AT"@), item.published_at@, (prefix + "_PUBLISHED_AT"@));
}

/// In the environment of a release, the variables whose names start with the
/// prefix and _AUTHOR describe the field `author`, and nothing else does.
#[verifier::rlimit(100)]
pub proof fn lemma_release_env_author(prefix: Seq<char>, item: Release, name: Seq<char>)
    requires
        starts_with(name, prefix + "_AUTHOR"@),
    ensures
        last_value(release_env(prefix, item), name) == last_value(user_env(prefix + "_AUTHOR"@, item.author), name),
{
    lemma_release_keys();
    lemma_release_env_lookup(prefix, item, name);
    lemma_starts_with_char(name, prefix + "_AUTHOR"@, prefix.len() as int + 1);
    lemma_single_apart(prefix, "_ID"@, signed_decimal(item.id as int), name, 1);
    lemma_starts_with_char(name, prefix + "_AUTHOR"@, prefix.len() as int + 1);
    lemma_single_apart(prefix, "_TAG_NAME"@, item.tag_name@, name, 1);
    lemma_starts_with_char(name, prefix + "_AUTHOR"@, prefix.len() as int + 1);
    lemma_single_apart(prefix, "_TARGET_COMMITISH"@, item.target_commitish@, name, 1);
    lemma_starts_with_char(name, prefix + "_AUTHOR"@, prefix.len() as int + 1);
    lemma_single_apart(prefix, "_NAME"@, item.name@, name, 1);
    lemma_starts_with_char(name, prefix + "_AUTHOR"@, prefix.len() as int + 1);
    lemma_single_apart(prefix, "_BODY"@, item.body@, name, 1);
    lemma_starts_with_char(name, prefix + "_AUTHOR"@, prefix.len() as int + 1);
    lemma_single_apart(prefix, "_URL"@, item.api_url@, name, 1);
    lemma_starts_with_char(name, prefix + "_AUTHOR"@, prefix.len() as int + 1);
    lemma_single_apart(prefix, "_HTML_URL"@, item.html_url@, name, 1);
    lemma_starts_with_char(name, prefix + "_AUTHOR"@, prefix.len() as int + 1);
    lemma_single_apart(prefix, "_TARBALL_URL"@, item.tarball_url@, name, 1);
    lemma_starts_with_char(name, prefix + "_AUTHOR"@, prefix.len() as int + 1);
    lemma_single_apart(prefix, "_ZIPBALL_URL"@, item.zipball_url@, name, 1);
    lemma_starts_with_char(name, prefix + "_AUTHOR"@, prefix.len() as int + 1);
    lemma_single_apart(prefix, "_DRAFT"@, bool_text(item.is_draft), name, 1);
    lemma_starts_with_char(name, prefix + "_AUTHOR"@, prefix.len() as int + 1);
    lemma_single_apart(prefix, "_PRELEASE"@, bool_text(item.is_prerelease), name, 1);
    lemma_starts_with_char(name, prefix + "_AUTHOR"@, prefix.len() as int + 1);
    lemma_single_apart(prefix, "_CREATED_AT"@, item.created_at@, name, 1);
    lemma_starts_with_char(name, prefix + "_AUTHOR"@, prefix.len() as int + 1);
    lemma_single_apart(prefix, "_PUBLISHED_AT"@, item.published_at@, name, 1);
    lemma_starts_with_char(name, prefix + "_AUTHOR"@, prefix.len() as int + 2);
    lemma_attachments_env_under(prefix + "_ASSETS_"@, item.assets@);
    lemma_no_value_apart(prefix + "_ASSETS_"@, attachments_env(prefix + "_ASSETS_"@, item.assets@), name, prefix.len() as int + 2);
}

/// In the environment of a release, the variables whose names start with the
/// prefix and _ASSETS describe the field `assets`, and nothing else does.
#[verifier::rlimit(100)]
pub proof fn lemma_release_env_assets(prefix: Seq<char>, item: Release, name: Seq<char>)
    requires
        starts_with(name, prefix + "_ASSETS_"@),
    ensures
        last_value(release_env(prefix, item), name) == last_value(attachments_env(prefix + "_ASSETS_"@, item.assets@), name),
{
    lemma_release_keys();
    lemma_release_env_lookup(prefix, item, name);
    lemma_starts_with_char(name, prefix + "_ASSETS_"@, prefix.len() as int + 1);
    lemma_single_apart(prefix, "_ID"@, signed_decimal(item.id as int), name, 1);
    lemma_starts_with_char(name, prefix + "_ASSETS_"@, prefix.len() as int + 1);
    lemma_single_apart(prefix, "_TAG_NAME"@, item.tag_name@, name, 1);
    lemma_starts_with_char(name, prefix + "_ASSETS_"@, prefix.len() as int + 1);
    lemma_single_apart(prefix, "_TARGET_COMMITISH"@, item.target_commitish@, name, 1);
    lemma_starts_with_char(name, prefix + "_ASSETS_"@, prefix.len() as int + 1);
    lemma_single_apart(prefix, "_NAME"@, item.name@, name, 1);
    lemma_starts_with_char(name, prefix + "_ASSETS_"@, prefix.len() as int + 1);
    lemma_single_apart(prefix, "_BODY"@, item.body@, name, 1);
    lemma_starts_with_char(name, prefix + "_ASSETS_"@, prefix.len() as int + 1);
    lemma_single_apart(prefix, "_URL"@, item.api_url@, name, 1);
    lemma_starts_with_char(name, prefix + "_ASSETS_"@, prefix.len() as int + 1);
    lemma_single_apart(prefix, "_HTML_URL"@, item.html_url@, name, 1);
    lemma_starts_with_char(name, prefix + "_ASSETS_"@, prefix.len() as int + 1);
    lemma_single_apart(prefix, "_TARBALL_URL"@, item.tarball_url@, name, 1);
    lemma_starts_with_char(name, prefix + "_ASSETS_"@, prefix.len() as int + 1);
    lemma_single_apart(prefix, "_ZIPBALL_URL"@, item.zipball_url@, name, 1);
    lemma_starts_with_char(name, prefix + "_ASSETS_"@, prefix.len() as int + 1);
    lemma_single_apart(prefix, "_DRAFT"@, bool_text(item.is_draft), name, 1);
    lemma_starts_with_char(name, prefix + "_ASSETS_"@, prefix.len() as int + 1);
    lemma_single_apart(prefix, "_PRELEASE"@, bool_text(item.is_prerelease), name, 1);
    lemma_starts_with_char(name, prefix + "_ASSETS_"@, prefix.len() as int + 1);
    lemma_single_apart(prefix, "_CREATED_AT"@, item.created_at@, name, 1);
    lemma_starts_with_char(name, prefix + "_ASSETS_"@, prefix.len() as int + 1);
    lemma_single_apart(prefix, "_PUBLISHED_AT"@, item.published_at@, name, 1);
    lemma_starts_with_char(name, prefix + "_ASSETS_"@, prefix.len() as int + 2);
    lemma_user_env_under(prefix + "_AUTHOR"@, item.author);
    lemma_no_value_apart(prefix + "_AUTHOR"@, user_env(prefix + "_AUTHOR"@, item.author), name, prefix.len() as int + 2);
}

/// The texts of the keys in the environment of one side of a pull request.
proof fn lemma_branch_keys()
    ensures
        "_LABEL"@ == seq!['_', 'L', 'A', 'B', 'E', 'L'],
        "_REF"@ == seq!['_', 'R', 'E', 'F'],
        "_REPO"@ == seq!['_', 'R', 'E', 'P', 'O'],
        "_REPO_ID"@ == seq!['_', 'R', 'E', 'P', 'O', '_', 'I', 'D'],
        "_SHA"@ == seq!['_', 'S', 'H', 'A'],
{
    reveal_strlit("_LABEL");
    assert("_LABEL"@ =~= seq!['_', 'L', 'A', 'B', 'E', 'L']);
    reveal_strlit("_REF");
    assert("_REF"@ =~= seq!['_', 'R', 'E', 'F']);
    reveal_strlit("_REPO");
    assert("_REPO"@ =~= seq!['_', 'R', 'E', 'P', 'O']);
    reveal_strlit("_REPO_ID");
    assert("_REPO_ID"@ =~= seq!['_', 'R', 'E', 'P', 'O', '_', 'I', 'D']);
    reveal_strlit("_SHA");
    assert("_SHA"@ =~= seq!['_', 'S', 'H', 'A']);
}

/// A variable holds what the last part of the environment of one side of a pull request that
/// assigns it leaves in it.
proof fn lemma_branch_env_lookup(prefix: Seq<char>, item: PRBranchInfo, name: Seq<char>)
    ensures
        last_value(branch_env(prefix, item), name) == or_else(last_value(repository_env(prefix + "_REPO"@, item.repository), name), or_else(last_value(seq![entry(prefix, "_REPO_ID"@, signed_decimal(item.repo_id as int))], name), or_else(last_value(seq![entry(prefix, "_SHA"@, item.sha@)], name), or_else(last_value(seq![entry(prefix, "_REF"@, item.ref_path@)], name), or_else(last_value(seq![entry(prefix, "_LABEL"@, item.label@)], name), None))))),
{
    let sum0_0 = seq![entry(prefix, "_LABEL"@, item.label@)];
    let sum0_1 = sum0_0 + seq![entry(prefix, "_REF"@, item.ref_path@)];
    let sum0_2 = sum0_1 + seq![entry(prefix, "_SHA"@, item.sha@)];
    let sum0_3 = sum0_2 + seq![entry(prefix, "_REPO_ID"@, signed_decimal(item.repo_id as int))];
    let sum0_4 = sum0_3 + repository_env(prefix + "_REPO"@, item.repository);
    lemma_last_value_concat(sum0_3, repository_env(prefix + "_REPO"@, item.repository), name);
    lemma_last_value_concat(sum0_2, seq![entry(prefix, "_REPO_ID"@, signed_decimal(item.repo_id as int))], name);
    lemma_last_value_concat(sum0_1, seq![entry(prefix, "_SHA"@, item.sha@)], name);
    lemma_last_value_concat(sum0_0, seq![entry(prefix, "_REF"@, item.ref_path@)], name);
}

/// In the environment of one side of a pull request, the variable of the field `label` holds it.
pub proof fn lemma_branch_env_label(prefix: Seq<char>, item: PRBranchInfo)
    ensures
        last_value(branch_env(prefix, item), (prefix + "_LABEL"@)) == Some(item.label@),
{
    lemma_branch_keys();
    lemma_branch_env_lookup(prefix, item, (prefix + "_LABEL"@));
    lemma_single_apart_len(prefix, "_REF"@, item.ref_path@, (prefix + "_LABEL"@));
    lemma_single_apart_len(prefix, "_SHA"@, item.sha@, (prefix + "_LABEL"@));
    lemma_single_apart_len(prefix, "_REPO_ID"@, signed_decimal(item.repo_id as int), (prefix + "_LABEL"@));
    lemma_repository_env_under(prefix + "_REPO"@, item.repository);
    lemma_no_value_apart(prefix + "_REPO"@, repository_env(prefix + "_REPO"@, item.repository), (prefix + "_LABEL"@), prefix.len() as int + 1);
    lemma_last_value_single((prefix + "_LABEL"@), item.label@, (prefix + "_LABEL"@));
}

/// In the environment of one side of a pull request, the variable of the field `ref_path` holds it.
pub proof fn lemma_branch_env_ref(prefix: Seq<char>, item: PRBranchInfo)
    ensures
        last_value(branch_env(prefix, item), (prefix + "_REF"@)) == Some(item.ref_path@),
{
    lemma_branch_keys();
    lemma_branch_env_lookup(prefix, item, (prefix + "_REF"@));
    lemma_single_apart(prefix, "_SHA"@, item.sha@, (prefix + "_REF"@), 1);
    lemma_single_apart_len(prefix, "_REPO_ID"@, signed_decimal(item.repo_id as int), (prefix + "_REF"@));
    lemma_repository_env_under(prefix + "_REPO"@, item.repository);
    lemma_no_value_apart(prefix + "_REPO"@, repository_env(prefix + "_REPO"@, item.repository), (prefix + "_REF"@), prefix.len() as int + 3);
    lemma_last_value_single((prefix + "_REF"@), item.ref_path@, (prefix + "_REF"@));
}

/// In the environment of one side of a pull request, the variable of the field `sha` holds it.
pub proof fn lemma_branch_env_sha(prefix: Seq<char>, item: PRBranchInfo)
    ensures
        last_value(branch_env(prefix, item), (prefix + "_SHA"@)) == Some(item.sha@),
{
    lemma_branch_keys();
    lemma_branch_env_lookup(prefix, item, (prefix + "_SHA"@));
    lemma_single_apart_len(prefix, "_REPO_ID"@, signed_decimal(item.repo_id as int), (prefix + "_SHA"@));
    lemma_repository_env_under(prefix + "_REPO"@, item.repository);
    lemma_no_value_apart(prefix + "_REPO"@, repository_env(prefix + "_REPO"@, item.repository), (prefix + "_SHA"@), prefix.len() as int + 1);
    lemma_last_value_single((prefix + "_SHA"@), item.sha@, (prefix + "_SHA"@));
}


/// The texts of the keys in the environment of an issue.
proof fn lemma_issue_keys()
    ensures
        "_ASSIGNEE"@ == seq!['_', 'A', 'S', 'S', 'I', 'G', 'N', 'E', 'E'],
        "_ASSIGNEES_"@ == seq!['_', 'A', 'S', 'S', 'I', 'G', 'N', 'E', 'E', 'S', '_'],
        "_BODY"@ == seq!['_', 'B', 'O', 'D', 'Y'],
        "_CLOSED_AT"@ == seq!['_', 'C', 'L', 'O', 'S', 'E', 'D', '_', 'A', 'T'],
        "_COMMENTS"@ == seq!['_', 'C', 'O', 'M', 'M', 'E', 'N', 'T', 'S'],
        "_CREATED_AT"@ == seq!['_', 'C', 'R', 'E', 'A', 'T', 'E', 'D', '_', 'A', 'T'],
        "_DUE_DATE"@ == seq!['_', 'D', 'U', 'E', '_', 'D', 'A', 'T', 'E'],
        "_HTML_URL"@ == seq!['_', 'H', 'T', 'M', 'L', '_', 'U', 'R', 'L'],
        "_ID"@ == seq!['_', 'I', 'D'],
        "_IS_LOCKED"@ == seq!['_', 'I', 'S', '_', 'L', 'O', 'C', 'K', 'E', 'D'],
        "_LABELS_"@ == seq!['_', 'L', 'A', 'B', 'E', 'L', 'S', '_'],
        "_MILESTONE"@ == seq!['_', 'M', 'I', 'L', 'E', 'S', 'T', 'O', 'N', 'E'],
        "_NUMBER"@ == seq!['_', 'N', 'U', 'M', 'B', 'E', 'R'],
        "_ORIGINAL_AUTHOR"@ == seq!['_', 'O', 'R', 'I', 'G', 'I', 'N', 'A', 'L', '_', 'A', 'U', 'T', 'H', 'O', 'R'],
        "_ORIGINAL_AUTHOR_ID"@ == seq!['_', 'O', 'R', 'I', 'G', 'I', 'N', 'A', 'L', '_', 'A', 'U', 'T', 'H', 'O', 'R', '_', 'I', 'D'],
        "_PULL_REQUEST"@ == seq!['_', 'P', 'U', 'L', 'L', '_', 'R', 'E', 'Q', 'U', 'E', 'S', 'T'],
        "_REPOSITORY"@ == seq!['_', 'R', 'E', 'P', 'O', 'S', 'I', 'T', 'O', 'R', 'Y'],
        "_STATE"@ == seq!['_', 'S', 'T', 'A', 'T', 'E'],
        "_TITLE"@ == seq!['_', 'T', 'I', 'T', 'L', 'E'],
        "_UPDATED_AT"@ == seq!['_', 'U', 'P', 'D', 'A', 'T', 'E', 'D', '_', 'A', 'T'],
        "_URL"@ == seq!['_', 'U', 'R', 'L'],
        "_USER"@ == seq!['_', 'U', 'S', 'E', 'R'],
{
    reveal_strlit("_ASSIGNEE");
    assert("_ASSIGNEE"@ =~= seq!['_', 'A', 'S', 'S', 'I', 'G', 'N', 'E', 'E']);
    reveal_strlit("_ASSIGNEES_");
    assert("_ASSIGNEES_"@ =~= seq!['_', 'A', 'S', 'S', 'I', 'G', 'N', 'E', 'E', 'S', '_']);
    reveal_strlit("_BODY");
    assert("_BODY"@ =~= seq!['_', 'B', 'O', 'D', 'Y']);
    reveal_strlit("_CLOSED_AT");
    assert("_CLOSED_AT"@ =~= seq!['_', 'C', 'L', 'O', 'S', 'E', 'D', '_', 'A', 'T']);
    reveal_strlit("_COMMENTS");
    assert("_COMMENTS"@ =~= seq!['_', 'C', 'O', 'M', 'M', 'E', 'N', 'T', 'S']);
    reveal_strlit("_CREATED_AT");
    assert("_CREATED_AT"@ =~= seq!['_', 'C', 'R', 'E', 'A', 'T', 'E', 'D', '_', 'A', 'T']);
    reveal_strlit("_DUE_DATE");
    assert("_DUE_DATE"@ =~= seq!['_', 'D', 'U', 'E', '_', 'D', 'A', 'T', 'E']);
    reveal_strlit("_HTML_URL");
    assert("_HTML_URL"@ =~= seq!['_', 'H', 'T', 'M', 'L', '_', 'U', 'R', 'L']);
    reveal_strlit("_ID");
    assert("_ID"@ =~= seq!['_', 'I', 'D']);
    reveal_strlit("_IS_LOCKED");
    assert("_IS_LOCKED"@ =~= seq!['_', 'I', 'S', '_', 'L', 'O', 'C', 'K', 'E', 'D']);
    reveal_strlit("_LABELS_");
    assert("_LABELS_"@ =~= seq!['_', 'L', 'A', 'B', 'E', 'L', 'S', '_']);
    reveal_strlit("_MILESTONE");
    assert("_MILESTONE"@ =~= seq!['_', 'M', 'I', 'L', 'E', 'S', 'T', 'O', 'N', 'E']);
    reveal_strlit("_NUMBER");
    assert("_NUMBER"@ =~= seq!['_', 'N', 'U', 'M', 'B', 'E', 'R']);
    reveal_strlit("_ORIGINAL_AUTHOR");
    assert("_ORIGINAL_AUTHOR"@ =~= seq!['_', 'O', 'R', 'I', 'G', 'I', 'N', 'A', 'L', '_', 'A', 'U', 'T', 'H', 'O', 'R']);
    reveal_strlit("_ORIGINAL_AUTHOR_ID");
    assert("_ORIGINAL_AUTHOR_ID"@ =~= seq!['_', 'O', 'R', 'I', 'G', 'I', 'N', 'A', 'L', '_', 'A', 'U', 'T', 'H', 'O', 'R', '_', 'I', 'D']);
    reveal_strlit("_PULL_REQUEST");
    assert("_PULL_REQUEST"@ =~= seq!['_', 'P', 'U', 'L', 'L', '_', 'R', 'E', 'Q', 'U', 'E', 'S', 'T']);
    reveal_strlit("_REPOSITORY");
    assert("_REPOSITORY"@ =~= seq!['_', 'R', 'E', 'P', 'O', 'S', 'I', 'T', 'O', 'R', 'Y']);
    reveal_strlit("_STATE");
    assert("_STATE"@ =~= seq!['_', 'S', 'T', 'A', 'T', 'E']);
    reveal_strlit("_TITLE");
    assert("_TITLE"@ =~= seq!['_', 'T', 'I', 'T', 'L', 'E']);
    reveal_strlit("_UPDATED_AT");
    assert("_UPDATED_AT"@ =~= seq!['_', 'U', 'P', 'D', 'A', 'T', 'E', 'D', '_', 'A', 'T']);
    reveal_strlit("_URL");
    assert("_URL"@ =~= seq!['_', 'U', 'R', 'L']);
    reveal_strlit("_USER");
    assert("_USER"@ =~= seq!['_', 'U', 'S', 'E', 'R']);
}

/// A variable holds what the last part of the environment of an issue that
/// assigns it leaves in it.
#[verifier::rlimit(100)]
proof fn lemma_issue_env_lookup(prefix: Seq<char>, item: Issue, name: Seq<char>)
    ensures
        last_value(issue_env(prefix, item), name) == or_else(last_value((match &item.repository_meta { Some(v) => repository_meta_env(prefix + "_REPOSITORY"@, *v), None => seq![] }), name), or_else(last_value((match &item.pull_request_meta { Some(v) => pull_request_meta_env(prefix + "_PULL_REQUEST"@, *v), None => seq![] }), name), or_else(last_value((match &item.due_date { Some(v) => seq![entry(prefix, "_DUE_DATE"@, v@)], None => seq![] }), name), or_else(last_value((match &item.closed_at { Some(v) => seq![entry(prefix, "_CLOSED_AT"@, v@)], None => seq![] }), name), or_else(last_value(seq![entry(prefix, "_UPDATED_AT"@, item.updated_at@)], name), or_else(last_value(seq![entry(prefix, "_CREATED_AT"@, item.created_at@)], name), or_else(last_value(seq![entry(prefix, "_COMMENTS"@, signed_decimal(item.comment_count as int))], name), or_else(last_value(seq![entry(prefix, "_IS_LOCKED"@, bool_text(item.is_locked))], name), or_else(last_value(seq![entry(prefix, "_STATE"@, item.state@)], name), or_else(last_value((match &item.assignees { Some(v) => users_env(prefix + "_ASSIGNEES_"@, v@), None => seq![] }), name), or_else(last_value((match &item.assignee { Some(v) => user_env(prefix + "_ASSIGNEE"@, *v), None => seq![] }), name), or_else(last_value((match &item.milestone { Some(v) => milestone_env(prefix + "_MILESTONE"@, *v), None => seq![] }), name), or_else(last_value(labels_env(prefix + "_LABELS_"@, item.labels@), name), or_else(last_value(seq![entry(prefix, "_BODY"@, item.body@)], name), or_else(last_value(seq![entry(prefix, "_TITLE"@, item.title@)], name), or_else(last_value(seq![entry(prefix, "_ORIGINAL_AUTHOR_ID"@, signed_decimal(item.original_author_id as int))], name), or_else(last_value(seq![entry(prefix, "_ORIGINAL_AUTHOR"@, item.original_author@)], name), or_else(last_value(user_env(prefix + "_USER"@, item.user), name), or_else(last_value(seq![entry(prefix, "_NUMBER"@, signed_decimal(item.number as int))], name), or_else(last_value(seq![entry(prefix, "_HTML_URL"@, item.html_url@)], name), or_else(last_value(seq![entry(prefix, "_URL"@, item.api_url@)], name), or_else(last_value(seq![entry(prefix, "_ID"@, signed_decimal(item.id as int))], name), None)))))))))))))))))))))),
{
    let whole0 = issue_env_part1(prefix, item);
    let whole1 = whole0 + issue_env_part2(prefix, item);
    let whole2 = whole1 + issue_env_part3(prefix, item);
    lemma_last_value_concat(whole1, issue_env_part3(prefix, item), name);
    lemma_last_value_concat(whole0, issue_env_part2(prefix, item), name);
    let sum0_0 = seq![entry(prefix, "_ID"@, signed_decimal(item.id as int))];
    let sum0_1 = sum0_0 + seq![entry(prefix, "_URL"@, item.api_url@)];
    let sum0_2 = sum0_1 + seq![entry(prefix, "_HTML_URL"@, item.html_url@)];
    let sum0_3 = sum0_2 + seq![entry(prefix, "_NUMBER"@, signed_decimal(item.number as int))];
    let sum0_4 = sum0_3 + user_env(prefix + "_USER"@, item.user);
    let sum0_5 = sum0_4 + seq![entry(prefix, "_ORIGINAL_AUTHOR"@, item.original_author@)];
    let sum0_6 = sum0_5 + seq![entry(prefix, "_ORIGINAL_AUTHOR_ID"@, signed_decimal(item.original_author_id as int))];
    let sum0_7 = sum0_6 + seq![entry(prefix, "_TITLE"@, item.title@)];
    let sum0_8 = sum0_7 + seq![entry(prefix, "_BODY"@, item.body@)];
    let sum0_9 = sum0_8 + labels_env(prefix + "_LABELS_"@, item.labels@);
    lemma_last_value_concat(sum0_8, labels_env(prefix + "_LABELS_"@, item.labels@), name);
    lemma_last_value_concat(sum0_7, seq![entry(prefix, "_BODY"@, item.body@)], name);
    lemma_last_value_concat(sum0_6, seq![entry(prefix, "_TITLE"@, item.title@)], name);
    lemma_last_value_concat(sum0_5, seq![entry(prefix, "_ORIGINAL_AUTHOR_ID"@, signed_decimal(item.original_author_id as int))], name);
    lemma_last_value_concat(sum0_4, seq![entry(prefix, "_ORIGINAL_AUTHOR"@, item.original_author@)], name);
    lemma_last_value_concat(sum0_3, user_env(prefix + "_USER"@, item.user), name);
    lemma_last_value_concat(sum0_2, seq![entry(prefix, "_NUMBER"@, signed_decimal(item.number as int))], name);
    lemma_last_value_concat(sum0_1, seq![entry(prefix, "_HTML_URL"@, item.html_url@)], name);
    lemma_last_value_concat(sum0_0, seq![entry(prefix, "_URL"@, item.api_url@)], name);
    let sum1_0 = (match &item.milestone { Some(v) => milestone_env(prefix + "_MILESTONE"@, *v), None => seq![] });
    let sum1_1 = sum1_0 + (match &item.assignee { Some(v) => user_env(prefix + "_ASSIGNEE"@, *v), None => seq![] });
    let sum1_2 = sum1_1 + (match &item.assignees { Some(v) => users_env(prefix + "_ASSIGNEES_"@, v@), None => seq![] });
    let sum1_3 = sum1_2 + seq![entry(prefix, "_STATE"@, item.state@)];
    let sum1_4 = sum1_3 + seq![entry(prefix, "_IS_LOCKED"@, bool_text(item.is_locked))];
    let sum1_5 = sum1_4 + seq![entry(prefix, "_COMMENTS"@, signed_decimal(item.comment_count as int))];
    let sum1_6 = sum1_5 + seq![entry(prefix, "_CREATED_AT"@, item.created_at@)];
    let sum1_7 = sum1_6 + seq![entry(prefix, "_UPDATED_AT"@, item.updated_at@)];
    let sum1_8 = sum1_7 + (match &item.closed_at { Some(v) => seq![entry(prefix, "_CLOSED_AT"@, v@)], None => seq![] });
    let sum1_9 = sum1_8 + (match &item.due_date { Some(v) => seq![entry(prefix, "_DUE_DATE"@, v@)], None => seq![] });
    lemma_last_value_concat(sum1_8, (match &item.due_date { Some(v) => seq![entry(prefix, "_DUE_DATE"@, v@)], None => seq![] }), name);
    lemma_last_value_concat(sum1_7, (match &item.closed_at { Some(v) => seq![entry(prefix, "_CLOSED_AT"@, v@)], None => seq![] }), name);
    lemma_last_value_concat(sum1_6, seq![entry(prefix, "_UPDATED_AT"@, item.updated_at@)], name);
    lemma_last_value_concat(sum1_5, seq![entry(prefix, "_CREATED_AT"@, item.created_at@)], name);
    lemma_last_value_concat(sum1_4, seq![entry(prefix, "_COMMENTS"@, signed_decimal(item.comment_count as int))], name);
    lemma_last_value_concat(sum1_3, seq![entry(prefix, "_IS_LOCKED"@, bool_text(item.is_locked))], name);
    lemma_last_value_concat(sum1_2, seq![entry(prefix, "_STATE"@, item.state@)], name);
    lemma_last_value_concat(sum1_1, (match &item.assignees { Some(v) => users_env(prefix + "_ASSIGNEES_"@, v@), None => seq![] }), name);
    lemma_last_value_concat(sum1_0, (match &item.assignee { Some(v) => user_env(prefix + "_ASSIGNEE"@, *v), None => seq![] }), name);
    let sum2_0 = (match &item.pull_request_meta { Some(v) => pull_request_meta_env(prefix + "_PULL_REQUEST"@, *v), None => seq![] });
    let sum2_1 = sum2_0 + (match &item.repository_meta { Some(v) => repository_meta_env(prefix + "_REPOSITORY"@, *v), None => seq![] });
    lemma_last_value_concat(sum2_0, (match &item.repository_meta { Some(v) => repository_meta_env(prefix + "_REPOSITORY"@, *v), None => seq![] }), name);
}

/// In the environment of an issue, the variable of the field `id` holds it.
#[verifier::rlimit(100)]
pub proof fn lemma_issue_env_id(prefix: Seq<char>, item: Issue)
    ensures
        last_value(issue_env(prefix, item), (prefix + "_ID"@)) == Some(signed_decimal(item.id as int)),
{
    lemma_issue_keys();
    lemma_issue_env_lookup(prefix, item, (prefix + "_ID"@));
    lemma_single_apart_len(prefix, "_URL"@, item.api_url@, (prefix + "_ID"@));
    lemma_single_apart_len(prefix, "_HTML_URL"@, item.html_url@, (prefix + "_ID"@));
    lemma_single_apart_len(prefix, "_NUMBER"@, signed_decimal(item.number as int), (prefix + "_ID"@));
    lemma_user_env_under(prefix + "_USER"@, item.user);
    lemma_no_value_apart(prefix + "_USER"@, user_env(prefix + "_USER"@, item.user), (prefix + "_ID"@), prefix.len() as int + 1);
    lemma_single_apart_len(prefix, "_ORIGINAL_AUTHOR"@, item.original_author@, (prefix + "_ID"@));
    lemma_single_apart_len(prefix, "_ORIGINAL_AUTHOR_ID"@, signed_decimal(item.original_author_id as int), (prefix + "_ID"@));
    lemma_single_apart_len(prefix, "_TITLE"@, item.title@, (prefix + "_ID"@));
    lemma_single_apart_len(prefix, "_BODY"@, item.body@, (prefix + "_ID"@));
    lemma_labels_env_under(prefix + "_LABELS_"@, item.labels@);
    lemma_no_value_apart(prefix + "_LABELS_"@, labels_env(prefix + "_LABELS_"@, item.labels@), (prefix + "_ID"@), prefix.len() as int + 1);
    match &item.milestone {
        Some(v) => {
            lemma_milestone_env_under(prefix + "_MILESTONE"@, *v);
            lemma_no_value_apart(prefix + "_MILESTONE"@, milestone_env(prefix + "_MILESTONE"@, *v), (prefix + "_ID"@), prefix.len() as int + 1);
        },
        None => {},
    }
    match &item.assignee {
        Some(v) => {
            lemma_user_env_under(prefix + "_ASSIGNEE"@, *v);
            lemma_no_value_apart(prefix + "_ASSIGNEE"@, user_env(prefix + "_ASSIGNEE"@, *v), (prefix + "_ID"@), prefix.len() as int + 1);
        },
        None => {},
    }
    match &item.assignees {
        Some(v) => {
            lemma_users_env_under(prefix + "_ASSIGNEES_"@, v@);
            lemma_no_value_apart(prefix + "_ASSIGNEES_"@, users_env(prefix + "_ASSIGNEES_"@, v@), (prefix + "_ID"@), prefix.len() as int + 1);
        },
        None => {},
    }
    lemma_single_apart_len(prefix, "_STATE"@, item.state@, (prefix + "_ID"@));
    lemma_single_apart_len(prefix, "_IS_LOCKED"@, bool_text(item.is_locked), (prefix + "_ID"@));
    lemma_single_apart_len(prefix, "_COMMENTS"@, signed_decimal(item.comment_count as int), (prefix + "_ID"@));
    lemma_single_apart_len(prefix, "_CREATED_AT"@, item.created_at@, (prefix + "_ID"@));
    lemma_single_apart_len(prefix, "_UPDATED_AT"@, item.updated_at@, (prefix + "_ID"@));
    match &item.closed_at {
        Some(v) => lemma_single_apart_len(prefix, "_CLOSED_AT"@, v@, (prefix + "_ID"@)),
        None => {},
    }
    match &item.due_date {
        Some(v) => lemma_single_apart_len(prefix, "_DUE_DATE"@, v@, (prefix + "_ID"@)),
        None => {},
    }
    match &item.pull_request_meta {
        Some(v) => {
            lemma_pull_request_meta_env_under(prefix + "_PULL_REQUEST"@, *v);
            lemma_no_value_apart(prefix + "_PULL_REQUEST"@, pull_request_meta_env(prefix + "_PULL_REQUEST"@, *v), (prefix + "_ID"@), prefix.len() as int + 1);
        },
        None => {},
    }
    match &item.repository_meta {
        Some(v) => {
            lemma_repository_meta_env_under(prefix + "_REPOSITORY"@, *v);
            lemma_no_value_apart(prefix + "_REPOSITORY"@, repository_meta_env(prefix + "_REPOSITORY"@, *v), (prefix + "_ID"@), prefix.len() as int + 1);
        },
        None => {},
    }
    lemma_last_value_single((prefix + "_ID"@), signed_decimal(item.id as int), (prefix + "_ID"@));
}

/// In the environment of an issue, the variable of the field `api_url` holds it.
#[verifier::rlimit(100)]
pub proof fn lemma_issue_env_url(prefix: Seq<char>, item: Issue)
    ensures
        last_value(issue_env(prefix, item), (prefix + "_URL"@)) == Some(item.api_url@),
{
    lemma_issue_keys();
    lemma_issue_env_lookup(prefix, item, (prefix + "_URL"@));
    lemma_single_apart_len(prefix, "_HTML_URL"@, item.html_url@, (prefix + "_URL"@));
    lemma_single_apart_len(prefix, "_NUMBER"@, signed_decimal(item.number as int), (prefix + "_URL"@));
    lemma_user_env_under(prefix + "_USER"@, item.user);
    lemma_no_value_apart(prefix + "_USER"@, user_env(prefix + "_USER"@, item.user), (prefix + "_URL"@), prefix.len() as int + 2);
    lemma_single_apart_len(prefix, "_ORIGINAL_AUTHOR"@, item.original_author@, (prefix + "_URL"@));
    lemma_single_apart_len(prefix, "_ORIGINAL_AUTHOR_ID"@, signed_decimal(item.original_author_id as int), (prefix + "_URL"@));
    lemma_single_apart_len(prefix, "_TITLE"@, item.title@, (prefix + "_URL"@));
    lemma_single_apart_len(prefix, "_BODY"@, item.body@, (prefix + "_URL"@));
    lemma_labels_env_under(prefix + "_LABELS_"@, item.labels@);
    lemma_no_value_apart(prefix + "_LABELS_"@, labels_env(prefix + "_LABELS_"@, item.labels@), (prefix + "_URL"@), prefix.len() as int + 1);
    match &item.milestone {
        Some(v) => {
            lemma_milestone_env_under(prefix + "_MILESTONE"@, *v);
            lemma_no_value_apart(prefix + "_MILESTONE"@, milestone_env(prefix + "_MILESTONE"@, *v), (prefix + "_URL"@), prefix.len() as int + 1);
        },
        None => {},
    }
    match &item.assignee {
        Some(v) => {
            lemma_user_env_under(prefix + "_ASSIGNEE"@, *v);
            lemma_no_value_apart(prefix + "_ASSIGNEE"@, user_env(prefix + "_ASSIGNEE"@, *v), (prefix + "_URL"@), prefix.len() as int + 1);
        },
        None => {},
    }
    match &item.assignees {
        Some(v) => {
            lemma_users_env_under(prefix + "_ASSIGNEES_"@, v@);
            lemma_no_value_apart(prefix + "_ASSIGNEES_"@, users_env(prefix + "_ASSIGNEES_"@, v@), (prefix + "_URL"@), prefix.len() as int + 1);
        },
        None => {},
    }
    lemma_single_apart_len(prefix, "_STATE"@, item.state@, (prefix + "_URL"@));
    lemma_single_apart_len(prefix, "_IS_LOCKED"@, bool_text(item.is_locked), (prefix + "_URL"@));
    lemma_single_apart_len(prefix, "_COMMENTS"@, signed_decimal(item.comment_count as int), (prefix + "_URL"@));
    lemma_single_apart_len(prefix, "_CREATED_AT"@, item.created_at@, (prefix + "_URL"@));
    lemma_single_apart_len(prefix, "_UPDATED_AT"@, item.updated_at@, (prefix + "_URL"@));
    match &item.closed_at {
        Some(v) => lemma_single_apart_len(prefix, "_CLOSED_AT"@, v@, (prefix + "_URL"@)),
        None => {},
    }
    match &item.due_date {
        Some(v) => lemma_single_apart_len(prefix, "_DUE_DATE"@, v@, (prefix + "_URL"@)),
        None => {},
    }
    match &item.pull_request_meta {
        Some(v) => {
            lemma_pull_request_meta_env_under(prefix + "_PULL_REQUEST"@, *v);
            lemma_no_value_apart(prefix + "_PULL_REQUEST"@, pull_request_meta_env(prefix + "_PULL_REQUEST"@, *v), (prefix + "_URL"@), prefix.len() as int + 1);
        },
        None => {},
    }
    match &item.repository_meta {
        Some(v) => {
            lemma_repository_meta_env_under(prefix + "_REPOSITORY"@, *v);
            lemma_no_value_apart(prefix + "_REPOSITORY"@, repository_meta_env(prefix + "_REPOSITORY"@, *v), (prefix + "_URL"@), prefix.len() as int + 1);
        },
        None => {},
    }
    lemma_last_value_single((prefix + "_URL"@), item.api_url@, (prefix + "_URL"@));
}

/// In the environment of an issue, the variable of the field `html_url` holds it.
#[verifier::rlimit(100)]
pub proof fn lemma_issue_env_html_url(prefix: Seq<char>, item: Issue)
    ensures
        last_value(issue_env(prefix, item), (prefix + "_HTML_URL"@)) == Some(item.html_url@),
{
    lemma_issue_keys();
    lemma_issue_env_lookup(prefix, item, (prefix + "_HTML_URL"@));
    lemma_single_apart_len(prefix, "_NUMBER"@, signed_decimal(item.number as int), (prefix + "_HTML_URL"@));
    lemma_user_env_under(prefix + "_USER"@, item.user);
    lemma_no_value_apart(prefix + "_USER"@, user_env(prefix + "_USER"@, item.user), (prefix + "_HTML_URL"@), prefix.len() as int + 1);
    lemma_single_apart_len(prefix, "_ORIGINAL_AUTHOR"@, item.original_author@, (prefix + "_HTML_URL"@));
    lemma_single_apart_len(prefix, "_ORIGINAL_AUTHOR_ID"@, signed_decimal(item.original_author_id as int), (prefix + "_HTML_URL"@));
    lemma_single_apart_len(prefix, "_TITLE"@, item.title@, (prefix + "_HTML_URL"@));
    lemma_single_apart_len(prefix, "_BODY"@, item.body@, (prefix + "_HTML_URL"@));
    lemma_labels_env_under(prefix + "_LABELS_"@, item.labels@);
    lemma_no_value_apart(prefix + "_LABELS_"@, labels_env(prefix + "_LABELS_"@, item.labels@), (prefix + "_HTML_URL"@), prefix.len() as int + 1);
    match &item.milestone {
        Some(v) => {
            lemma_milestone_env_under(prefix + "_MILESTONE"@, *v);
            lemma_no_value_apart(prefix + "_MILESTONE"@, milestone_env(prefix + "_MILESTONE"@, *v), (prefix + "_HTML_URL"@), prefix.len() as int + 1);
        },
        None => {},
    }
    match &item.assignee {
        Some(v) => {
            lemma_user_env_under(prefix + "_ASSIGNEE"@, *v);
            lemma_no_value_apart(prefix + "_ASSIGNEE"@, user_env(prefix + "_ASSIGNEE"@, *v), (prefix + "_HTML_URL"@), prefix.len() as int + 1);
        },
        None => {},
    }
    match &item.assignees {
        Some(v) => {
            lemma_users_env_under(prefix + "_ASSIGNEES_"@, v@);
            lemma_no_value_apart(prefix + "_ASSIGNEES_"@, users_env(prefix + "_ASSIGNEES_"@, v@), (prefix + "_HTML_URL"@), prefix.len() as int + 1);
        },
        None => {},
    }
    lemma_single_apart_len(prefix, "_STATE"@, item.state@, (prefix + "_HTML_URL"@));
    lemma_single_apart_len(prefix, "_IS_LOCKED"@, bool_text(item.is_locked), (prefix + "_HTML_URL"@));
    lemma_single_apart(prefix, "_COMMENTS"@, signed_decimal(item.comment_count as int), (prefix + "_HTML_URL"@), 1);
    lemma_single_apart_len(prefix, "_CREATED_AT"@, item.created_at@, (prefix + "_HTML_URL"@));
    lemma_single_apart_len(prefix, "_UPDATED_AT"@, item.updated_at@, (prefix + "_HTML_URL"@));
    match &item.closed_at {
        Some(v) => lemma_single_apart_len(prefix, "_CLOSED_AT"@, v@, (prefix + "_HTML_URL"@)),
        None => {},
    }
    match &item.due_date {
        Some(v) => lemma_single_apart(prefix, "_DUE_DATE"@, v@, (prefix + "_HTML_URL"@), 1),
        None => {},
    }
    match &item.pull_request_meta {
        Some(v) => {
            lemma_pull_request_meta_env_under(prefix + "_PULL_REQUEST"@, *v);
            lemma_no_value_apart(prefix + "_PULL_REQUEST"@, pull_request_meta_env(prefix + "_PULL_REQUEST"@, *v), (prefix + "_HTML_URL"@), prefix.len() as int + 1);
        },
        None => {},
    }
    match &item.repository_meta {
        Some(v) => {
            lemma_repository_meta_env_under(prefix + "_REPOSITORY"@, *v);
            lemma_no_value_apart(prefix + "_REPOSITORY"@, repository_meta_env(prefix + "_REPOSITORY"@, *v), (prefix + "_HTML_URL"@), prefix.len() as int + 1);
        },
        None => {},
    }
    lemma_last_value_single((prefix + "_HTML_URL"@), item.html_url@, (prefix + "_HTML_URL"@));
}

/// In the environment of an issue, the variable of the field `number` holds it.
#[verifier::rlimit(100)]
pub proof fn lemma_issue_env_number(prefix: Seq<char>, item: Issue)
    ensures
        last_value(issue_env(prefix, item), (prefix + "_NUMBER"@)) == Some(signed_decimal(item.number as int)),
{
    lemma_issue_keys();
    lemma_issue_env_lookup(prefix, item, (prefix + "_NUMBER"@));
    lemma_user_env_under(prefix + "_USER"@, item.user);
    lemma_no_value_apart(prefix + "_USER"@, user_env(prefix + "_USER"@, item.user), (prefix + "_NUMBER"@), prefix.len() as int + 1);
    lemma_single_apart_len(prefix, "_ORIGINAL_AUTHOR"@, item.original_author@, (prefix + "_NUMBER"@));
    lemma_single_apart_len(prefix, "_ORIGINAL_AUTHOR_ID"@, signed_decimal(item.original_author_id as int), (prefix + "_NUMBER"@));
    lemma_single_apart_len(prefix, "_TITLE"@, item.title@, (prefix + "_NUMBER"@));
    lemma_single_apart_len(prefix, "_BODY"@, item.body@, (prefix + "_NUMBER"@));
    lemma_labels_env_under(prefix + "_LABELS_"@, item.labels@);
    lemma_no_value_apart(prefix + "_LABELS_"@, labels_env(prefix + "_LABELS_"@, item.labels@), (prefix + "_NUMBER"@), prefix.len() as int + 1);
    match &item.milestone {
        Some(v) => {
            lemma_milestone_env_under(prefix + "_MILESTONE"@, *v);
            lemma_no_value_apart(prefix + "_MILESTONE"@, milestone_env(prefix + "_MILESTONE"@, *v), (prefix + "_NUMBER"@), prefix.len() as int + 1);
        },
        None => {},
    }
    match &item.assignee {
        Some(v) => {
            lemma_user_env_under(prefix + "_ASSIGNEE"@, *v);
            lemma_no_value_apart(prefix + "_ASSIGNEE"@, user_env(prefix + "_ASSIGNEE"@, *v), (prefix + "_NUMBER"@), prefix.len() as int + 1);
        },
        None => {},
    }
    match &item.assignees {
        Some(v) => {
            lemma_users_env_under(prefix + "_ASSIGNEES_"@, v@);
            lemma_no_value_apart(prefix + "_ASSIGNEES_"@, users_env(prefix + "_ASSIGNEES_"@, v@), (prefix + "_NUMBER"@), prefix.len() as int + 1);
        },
        None => {},
    }
    lemma_single_apart_len(prefix, "_STATE"@, item.state@, (prefix + "_NUMBER"@));
    lemma_single_apart_len(prefix, "_IS_LOCKED"@, bool_text(item.is_locked), (prefix + "_NUMBER"@));
    lemma_single_apart_len(prefix, "_COMMENTS"@, signed_decimal(item.comment_count as int), (prefix + "_NUMBER"@));
    lemma_single_apart_len(prefix, "_CREATED_AT"@, item.created_at@, (prefix + "_NUMBER"@));
    lemma_single_apart_len(prefix, "_UPDATED_AT"@, item.updated_at@, (prefix + "_NUMBER"@));
    match &item.closed_at {
        Some(v) => lemma_single_apart_len(prefix, "_CLOSED_AT"@, v@, (prefix + "_NUMBER"@)),
        None => {},
    }
    match &item.due_date {
        Some(v) => lemma_single_apart_len(prefix, "_DUE_DATE"@, v@, (prefix + "_NUMBER"@)),
        None => {},
    }
    match &item.pull_request_meta {
        Some(v) => {
            lemma_pull_request_meta_env_under(prefix + "_PULL_REQUEST"@, *v);
            lemma_no_value_apart(prefix + "_PULL_REQUEST"@, pull_request_meta_env(prefix + "_PULL_REQUEST"@, *v), (prefix + "_NUMBER"@), prefix.len() as int + 1);
        },
        None => {},
    }
    match &item.repository_meta {
        Some(v) => {
            lemma_repository_meta_env_under(prefix + "_REPOSITORY"@, *v);
            lemma_no_value_apart(prefix + "_REPOSITORY"@, repository_meta_env(prefix + "_REPOSITORY"@, *v), (prefix + "_NUMBER"@), prefix.len() as int + 1);
        },
        None => {},
    }
    lemma_last_value_single((prefix + "_NUMBER"@), signed_decimal(item.number as int), (prefix + "_NUMBER"@));
}

/// In the environment of an issue, the variables whose names start with the
/// prefix and _USER describe the field `user`, and nothing else does.
#[verifier::rlimit(100)]
pub proof fn lemma_issue_env_user(prefix: Seq<char>, item: Issue, name: Seq<char>)
    requires
        starts_with(name, prefix + "_USER"@),
    ensures
        last_value(issue_env(prefix, item), name) == last_value(user_env(prefix + "_USER"@, item.user), name),
{
    lemma_issue_keys();
    lemma_issue_env_lookup(prefix, item, name);
    lemma_starts_with_char(name, prefix + "_USER"@, prefix.len() as int + 1);
    lemma_single_apart(prefix, "_ID"@, signed_decimal(item.id as int), name, 1);
    lemma_starts_with_char(name, prefix + "_USER"@, prefix.len() as int + 2);
    lemma_single_apart(prefix, "_URL"@, item.api_url@, name, 2);
    lemma_starts_with_char(name, prefix + "_USER"@, prefix.len() as int + 1);
    lemma_single_apart(prefix, "_HTML_URL"@, item.html_url@, name, 1);
    lemma_starts_with_char(name, prefix + "_USER"@, prefix.len() as int + 1);
    lemma_single_apart(prefix, "_NUMBER"@, signed_decimal(item.number as int), name, 1);
    lemma_starts_with_char(name, prefix + "_USER"@, prefix.len() as int + 1);
    lemma_single_apart(prefix, "_ORIGINAL_AUTHOR"@, item.original_author@, name, 1);
    lemma_starts_with_char(name, prefix + "_USER"@, prefix.len() as int + 1);
    lemma_single_apart(prefix, "_ORIGINAL_AUTHOR_ID"@, signed_decimal(item.original_author_id as int), name, 1);
    lemma_starts_with_char(name, prefix + "_USER"@, prefix.len() as int + 1);
    lemma_single_apart(prefix, "_TITLE"@, item.title@, name, 1);
    lemma_starts_with_char(name, prefix + "_USER"@, prefix.len() as int + 1);
    lemma_single_apart(prefix, "_BODY"@, item.body@, name, 1);
    lemma_starts_with_char(name, prefix + "_USER"@, prefix.len() as int + 1);
    lemma_labels_env_under(prefix + "_LABELS_"@, item.labels@);
    lemma_no_value_apart(prefix + "_LABELS_"@, labels_env(prefix + "_LABELS_"@, item.labels@), name, prefix.len() as int + 1);
    lemma_starts_with_char(name, prefix + "_USER"@, prefix.len() as int + 1);
    match &item.milestone {
        Some(v) => {
            lemma_milestone_env_under(prefix + "_MILESTONE"@, *v);
            lemma_no_value_apart(prefix + "_MILESTONE"@, milestone_env(prefix + "_MILESTONE"@, *v), name, prefix.len() as int + 1);
        },
        None => {},
    }
    lemma_starts_with_char(name, prefix + "_USER"@, prefix.len() as int + 1);
    match &item.assignee {
        Some(v) => {
            lemma_user_env_under(prefix + "_ASSIGNEE"@, *v);
            lemma_no_value_apart(prefix + "_ASSIGNEE"@, user_env(prefix + "_ASSIGNEE"@, *v), name, prefix.len() as int + 1);
        },
        None => {},
    }
    lemma_starts_with_char(name, prefix + "_USER"@, prefix.len() as int + 1);
    match &item.assignees {
        Some(v) => {
            lemma_users_env_under(prefix + "_ASSIGNEES_"@, v@);
            lemma_no_value_apart(prefix + "_ASSIGNEES_"@, users_env(prefix + "_ASSIGNEES_"@, v@), name, prefix.len() as int + 1);
        },
        None => {},
    }
    lemma_starts_with_char(name, prefix + "_USER"@, prefix.len() as int + 1);
    lemma_single_apart(prefix, "_STATE"@, item.state@, name, 1);
    lemma_starts_with_char(name, prefix + "_USER"@, prefix.len() as int + 1);
    lemma_single_apart(prefix, "_IS_LOCKED"@, bool_text(item.is_locked), name, 1);
    lemma_starts_with_char(name, prefix + "_USER"@, prefix.len() as int + 1);
    lemma_single_apart(prefix, "_COMMENTS"@, signed_decimal(item.comment_count as int), name, 1);
    lemma_starts_with_char(name, prefix + "_USER"@, prefix.len() as int + 1);
    lemma_single_apart(prefix, "_CREATED_AT"@, item.created_at@, name, 1);
    lemma_starts_with_char(name, prefix + "_USER"@, prefix.len() as int + 2);
    lemma_single_apart(prefix, "_UPDATED_AT"@, item.updated_at@, name, 2);
    lemma_starts_with_char(name, prefix + "_USER"@, prefix.len() as int + 1);
    match &item.closed_at {
        Some(v) => lemma_single_apart(prefix, "_CLOSED_AT"@, v@, name, 1),
        None => {},
    }
    lemma_starts_with_char(name, prefix + "_USER"@, prefix.len() as int + 1);
    match &item.due_date {
        Some(v) => lemma_single_apart(prefix, "_DUE_DATE"@, v@, name, 1),
        None => {},
    }
    lemma_starts_with_char(name, prefix + "_USER"@, prefix.len() as int + 1);
    match &item.pull_request_meta {
        Some(v) => {
            lemma_pull_request_meta_env_under(prefix + "_PULL_REQUEST"@, *v);
            lemma_no_value_apart(prefix + "_PULL_REQUEST"@, pull_request_meta_env(prefix + "_PULL_REQUEST"@, *v), name, prefix.len() as int + 1);
        },
        None => {},
    }
    lemma_starts_with_char(name, prefix + "_USER"@, prefix.len() as int + 1);
    match &item.repository_meta {
        Some(v) => {
            lemma_repository_meta_env_under(prefix + "_REPOSITORY"@, *v);
            lemma_no_value_apart(prefix + "_REPOSITORY"@, repository_meta_env(prefix + "_REPOSITORY"@, *v), name, prefix.len() as int + 1);
        },
        None => {},
    }
}

/// In the environment of an issue, the variable of the field `original_author` holds it.
#[verifier::rlimit(100)]
pub proof fn lemma_issue_env_original_author(prefix: Seq<char>, item: Issue)
    ensures
        last_value(issue_env(prefix, item), (prefix + "_ORIGINAL_AUTHOR"@)) == Some(item.original_author@),
{
    lemma_issue_keys();
    lemma_issue_env_lookup(prefix, item, (prefix + "_ORIGINAL_AUTHOR"@));
    lemma_single_apart_len(prefix, "_ORIGINAL_AUTHOR_ID"@, signed_decimal(item.original_author_id as int), (prefix + "_ORIGINAL_AUTHOR"@));
    lemma_single_apart_len(prefix, "_TITLE"@, item.title@, (prefix + "_ORIGINAL_AUTHOR"@));
    lemma_single_apart_len(prefix, "_BODY"@, item.body@, (prefix + "_ORIGINAL_AUTHOR"@));
    lemma_labels_env_under(prefix + "_LABELS_"@, item.labels@);
    lemma_no_value_apart(prefix + "_LABELS_"@, labels_env(prefix + "_LABELS_"@, item.labels@), (prefix + "_ORIGINAL_AUTHOR"@), prefix.len() as int + 1);
    match &item.milestone {
        Some(v) => {
            lemma_milestone_env_under(prefix + "_MILESTONE"@, *v);
            lemma_no_value_apart(prefix + "_MILESTONE"@, milestone_env(prefix + "_MILESTONE"@, *v), (prefix + "_ORIGINAL_AUTHOR"@), prefix.len() as int + 1);
        },
        None => {},
    }
    match &item.assignee {
        Some(v) => {
            lemma_user_env_under(prefix + "_ASSIGNEE"@, *v);
            lemma_no_value_apart(prefix + "_ASSIGNEE"@, user_env(prefix + "_ASSIGNEE"@, *v), (prefix + "_ORIGINAL_AUTHOR"@), prefix.len() as int + 1);
        },
        None => {},
    }
    match &item.assignees {
        Some(v) => {
            lemma_users_env_under(prefix + "_ASSIGNEES_"@, v@);
            lemma_no_value_apart(prefix + "_ASSIGNEES_"@, users_env(prefix + "_ASSIGNEES_"@, v@), (prefix + "_ORIGINAL_AUTHOR"@), prefix.len() as int + 1);
        },
        None => {},
    }
    lemma_single_apart_len(prefix, "_STATE"@, item.state@, (prefix + "_ORIGINAL_AUTHOR"@));
    lemma_single_apart_len(prefix, "_IS_LOCKED"@, bool_text(item.is_locked), (prefix + "_ORIGINAL_AUTHOR"@));
    lemma_single_apart_len(prefix, "_COMMENTS"@, signed_decimal(item.comment_count as int), (prefix + "_ORIGINAL_AUTHOR"@));
    lemma_single_apart_len(prefix, "_CREATED_AT"@, item.created_at@, (prefix + "_ORIGINAL_AUTHOR"@));
    lemma_single_apart_len(prefix, "_UPDATED_AT"@, item.updated_at@, (prefix + "_ORIGINAL_AUTHOR"@));
    match &item.closed_at {
        Some(v) => lemma_single_apart_len(prefix, "_CLOSED_AT"@, v@, (prefix + "_ORIGINAL_AUTHOR"@)),
        None => {},
    }
    match &item.due_date {
        Some(v) => lemma_single_apart_len(prefix, "_DUE_DATE"@, v@, (prefix + "_ORIGINAL_AUTHOR"@)),
        None => {},
    }
    match &item.pull_request_meta {
        Some(v) => {
            lemma_pull_request_meta_env_under(prefix + "_PULL_REQUEST"@, *v);
            lemma_no_value_apart(prefix + "_PULL_REQUEST"@, pull_request_meta_env(prefix + "_PULL_REQUEST"@, *v), (prefix + "_ORIGINAL_AUTHOR"@), prefix.len() as int + 1);
        },
        None => {},
    }
    match &item.repository_meta {
        Some(v) => {
            lemma_repository_meta_env_under(prefix + "_REPOSITORY"@, *v);
            lemma_no_value_apart(prefix + "_REPOSITORY"@, repository_meta_env(prefix + "_REPOSITORY"@, *v), (prefix + "_ORIGINAL_AUTHOR"@), prefix.len() as int + 1);
        },
        None => {},
    }
    lemma_last_value_single((prefix + "_ORIGINAL_AUTHOR"@), item.original_author@, (prefix + "_ORIGINAL_AUTHOR"@));
}

/// In the environment of an issue, the variable of the field `original_author_id` holds it.
#[verifier::rlimit(100)]
pub proof fn lemma_issue_env_original_author_id(prefix: Seq<char>, item: Issue)
    ensures
        last_value(issue_env(prefix, item), (prefix + "_ORIGINAL_AUTHOR_ID"@)) == Some(signed_decimal(item.original_author_id as int)),
{
    lemma_issue_keys();
    lemma_issue_env_lookup(prefix, item, (prefix + "_ORIGINAL_AUTHOR_ID"@));
    lemma_single_apart_len(prefix, "_TITLE"@, item.title@, (prefix + "_ORIGINAL_AUTHOR_ID"@));
    lemma_single_apart_len(prefix, "_BODY"@, item.body@, (prefix + "_ORIGINAL_AUTHOR_ID"@));
    lemma_labels_env_under(prefix + "_LABELS_"@, item.labels@);
    lemma_no_value_apart(prefix + "_LABELS_"@, labels_env(prefix + "_LABELS_"@, item.labels@), (prefix + "_ORIGINAL_AUTHOR_ID"@), prefix.len() as int + 1);
    match &item.milestone {
        Some(v) => {
            lemma_milestone_env_under(prefix + "_MILESTONE"@, *v);
            lemma_no_value_apart(prefix + "_MILESTONE"@, milestone_env(prefix + "_MILESTONE"@, *v), (prefix + "_ORIGINAL_AUTHOR_ID"@), prefix.len() as int + 1);
        },
        None => {},
    }
    match &item.assignee {
        Some(v) => {
            lemma_user_env_under(prefix + "_ASSIGNEE"@, *v);
            lemma_no_value_apart(prefix + "_ASSIGNEE"@, user_env(prefix + "_ASSIGNEE"@, *v), (prefix + "_ORIGINAL_AUTHOR_ID"@), prefix.len() as int + 1);
        },
        None => {},
    }
    match &item.assignees {
        Some(v) => {
            lemma_users_env_under(prefix + "_ASSIGNEES_"@, v@);
            lemma_no_value_apart(prefix + "_ASSIGNEES_"@, users_env(prefix + "_ASSIGNEES_"@, v@), (prefix + "_ORIGINAL_AUTHOR_ID"@), prefix.len() as int + 1);
        },
        None => {},
    }
    lemma_single_apart_len(prefix, "_STATE"@, item.state@, (prefix + "_ORIGINAL_AUTHOR_ID"@));
    lemma_single_apart_len(prefix, "_IS_LOCKED"@, bool_text(item.is_locked), (prefix + "_ORIGINAL_AUTHOR_ID"@));
    lemma_single_apart_len(prefix, "_COMMENTS"@, signed_decimal(item.comment_count as int), (prefix + "_ORIGINAL_AUTHOR_ID"@));
    lemma_single_apart_len(prefix, "_CREATED_AT"@, item.created_at@, (prefix + "_ORIGINAL_AUTHOR_ID"@));
    lemma_single_apart_len(prefix, "_UPDATED_AT"@, item.updated_at@, (prefix + "_ORIGINAL_AUTHOR_ID"@));
    match &item.closed_at {
        Some(v) => lemma_single_apart_len(prefix, "_CLOSED_AT"@, v@, (prefix + "_ORIGINAL_AUTHOR_ID"@)),
        None => {},
    }
    match &item.due_date {
        Some(v) => lemma_single_apart_len(prefix, "_DUE_DATE"@, v@, (prefix + "_ORIGINAL_AUTHOR_ID"@)),
        None => {},
    }
    match &item.pull_request_meta {
        Some(v) => {
            lemma_pull_request_meta_env_under(prefix + "_PULL_REQUEST"@, *v);
            lemma_no_value_apart(prefix + "_PULL_REQUEST"@, pull_request_meta_env(prefix + "_PULL_REQUEST"@, *v), (prefix + "_ORIGINAL_AUTHOR_ID"@), prefix.len() as int + 1);
        },
        None => {},
    }
    match &item.repository_meta {
        Some(v) => {
            lemma_repository_meta_env_under(prefix + "_REPOSITORY"@, *v);
            lemma_no_value_apart(prefix + "_REPOSITORY"@, repository_meta_env(prefix + "_REPOSITORY"@, *v), (prefix + "_ORIGINAL_AUTHOR_ID"@), prefix.len() as int + 1);
        },
        None => {},
    }
    lemma_last_value_single((prefix + "_ORIGINAL_AUTHOR_ID"@), signed_decimal(item.original_author_id as int), (prefix + "_ORIGINAL_AUTHOR_ID"@));
}

/// In the environment of an issue, the variable of the field `title` holds it.
#[verifier::rlimit(100)]
pub proof fn lemma_issue_env_title(prefix: Seq<char>, item: Issue)
    ensures
        last_value(issue_env(prefix, item), (prefix + "_TITLE"@)) == Some(item.title@),
{
    lemma_issue_keys();
    lemma_issue_env_lookup(prefix, item, (prefix + "_TITLE"@));
    lemma_single_apart_len(prefix, "_BODY"@, item.body@, (prefix + "_TITLE"@));
    lemma_labels_env_under(prefix + "_LABELS_"@, item.labels@);
    lemma_no_value_apart(prefix + "_LABELS_"@, labels_env(prefix + "_LABELS_"@, item.labels@), (prefix + "_TITLE"@), prefix.len() as int + 1);
    match &item.milestone {
        Some(v) => {
            lemma_milestone_env_under(prefix + "_MILESTONE"@, *v);
            lemma_no_value_apart(prefix + "_MILESTONE"@, milestone_env(prefix + "_MILESTONE"@, *v), (prefix + "_TITLE"@), prefix.len() as int + 1);
        },
        None => {},
    }
    match &item.assignee {
        Some(v) => {
            lemma_user_env_under(prefix + "_ASSIGNEE"@, *v);
            lemma_no_value_apart(prefix + "_ASSIGNEE"@, user_env(prefix + "_ASSIGNEE"@, *v), (prefix + "_TITLE"@), prefix.len() as int + 1);
        },
        None => {},
    }
    match &item.assignees {
        Some(v) => {
            lemma_users_env_under(prefix + "_ASSIGNEES_"@, v@);
            lemma_no_value_apart(prefix + "_ASSIGNEES_"@, users_env(prefix + "_ASSIGNEES_"@, v@), (prefix + "_TITLE"@), prefix.len() as int + 1);
        },
        None => {},
    }
    lemma_single_apart(prefix, "_STATE"@, item.state@, (prefix + "_TITLE"@), 1);
    lemma_single_apart_len(prefix, "_IS_LOCKED"@, bool_text(item.is_locked), (prefix + "_TITLE"@));
    lemma_single_apart_len(prefix, "_COMMENTS"@, signed_decimal(item.comment_count as int), (prefix + "_TITLE"@));
    lemma_single_apart_len(prefix, "_CREATED_AT"@, item.created_at@, (prefix + "_TITLE"@));
    lemma_single_apart_len(prefix, "_UPDATED_AT"@, item.updated_at@, (prefix + "_TITLE"@));
    match &item.closed_at {
        Some(v) => lemma_single_apart_len(prefix, "_CLOSED_AT"@, v@, (prefix + "_TITLE"@)),
        None => {},
    }
    match &item.due_date {
        Some(v) => lemma_single_apart_len(prefix, "_DUE_DATE"@, v@, (prefix + "_TITLE"@)),
        None => {},
    }
    match &item.pull_request_meta {
        Some(v) => {
            lemma_pull_request_meta_env_under(prefix + "_PULL_REQUEST"@, *v);
            lemma_no_value_apart(prefix + "_PULL_REQUEST"@, pull_request_meta_env(prefix + "_PULL_REQUEST"@, *v), (prefix + "_TITLE"@), prefix.len() as int + 1);
        },
        None => {},
    }
    match &item.repository_meta {
        Some(v) => {
            lemma_repository_meta_env_under(prefix + "_REPOSITORY"@, *v);
            lemma_no_value_apart(prefix + "_REPOSITORY"@, repository_meta_env(prefix + "_REPOSITORY"@, *v), (prefix + "_TITLE"@), prefix.len() as int + 1);
        },
        None => {},
    }
    lemma_last_value_single((prefix + "_TITLE"@), item.title@, (prefix + "_TITLE"@));
}

/// In the environment of an issue, the variable of the field `body` holds it.
#[verifier::rlimit(100)]
pub proof fn lemma_issue_env_body(prefix: Seq<char>, item: Issue)
    ensures
        last_value(issue_env(prefix, item), (prefix + "_BODY"@)) == Some(item.body@),
{
    lemma_issue_keys();
    lemma_issue_env_lookup(prefix, item, (prefix + "_BODY"@));
    lemma_labels_env_under(prefix + "_LABELS_"@, item.labels@);
    lemma_no_value_apart(prefix + "_LABELS_"@, labels_env(prefix + "_LABELS_"@, item.labels@), (prefix + "_BODY"@), prefix.len() as int + 1);
    match &item.milestone {
        Some(v) => {
            lemma_milestone_env_under(prefix + "_MILESTONE"@, *v);
            lemma_no_value_apart(prefix + "_MILESTONE"@, milestone_env(prefix + "_MILESTONE"@, *v), (prefix + "_BODY"@), prefix.len() as int + 1);
        },
        None => {},
    }
    match &item.assignee {
        Some(v) => {
            lemma_user_env_under(prefix + "_ASSIGNEE"@, *v);
            lemma_no_value_apart(prefix + "_ASSIGNEE"@, user_env(prefix + "_ASSIGNEE"@, *v), (prefix + "_BODY"@), prefix.len() as int + 1);
        },
        None => {},
    }
    match &item.assignees {
        Some(v) => {
            lemma_users_env_under(prefix + "_ASSIGNEES_"@, v@);
            lemma_no_value_apart(prefix + "_ASSIGNEES_"@, users_env(prefix + "_ASSIGNEES_"@, v@), (prefix + "_BODY"@), prefix.len() as int + 1);
        },
        None => {},
    }
    lemma_single_apart_len(prefix, "_STATE"@, item.state@, (prefix + "_BODY"@));
    lemma_single_apart_len(prefix, "_IS_LOCKED"@, bool_text(item.is_locked), (prefix + "_BODY"@));
    lemma_single_apart_len(prefix, "_COMMENTS"@, signed_decimal(item.comment_count as int), (prefix + "_BODY"@));
    lemma_single_apart_len(prefix, "_CREATED_AT"@, item.created_at@, (prefix + "_BODY"@));
    lemma_single_apart_len(prefix, "_UPDATED_AT"@, item.updated_at@, (prefix + "_BODY"@));
    match &item.closed_at {
        Some(v) => lemma_single_apart_len(prefix, "_CLOSED_AT"@, v@, (prefix + "_BODY"@)),
        None => {},
    }
    match &item.due_date {
        Some(v) => lemma_single_apart_len(prefix, "_DUE_DATE"@, v@, (prefix + "_BODY"@)),
        None => {},
    }
    match &item.pull_request_meta {
        Some(v) => {
            lemma_pull_request_meta_env_under(prefix + "_PULL_REQUEST"@, *v);
            lemma_no_value_apart(prefix + "_PULL_REQUEST"@, pull_request_meta_env(prefix + "_PULL_REQUEST"@, *v), (prefix + "_BODY"@), prefix.len() as int + 1);
        },
        None => {},
    }
    match &item.repository_meta {
        Some(v) => {
            lemma_repository_meta_env_under(prefix + "_REPOSITORY"@, *v);
            lemma_no_value_apart(prefix + "_REPOSITORY"@, repository_meta_env(prefix + "_REPOSITORY"@, *v), (prefix + "_BODY"@), prefix.len() as int + 1);
        },
        None => {},
    }
    lemma_last_value_single((prefix + "_BODY"@), item.body@, (prefix + "_BODY"@));
}

/// In the environment of an issue, the variables whose names start with the
/// prefix and _LABELS describe the field `labels`, and nothing else does.
#[verifier::rlimit(100)]
pub proof fn lemma_issue_env_labels(prefix: Seq<char>, item: Issue, name: Seq<char>)
    requires
        starts_with(name, prefix + "_LABELS_"@),
    ensures
        last_value(issue_env(prefix, item), name) == last_value(labels_env(prefix + "_LABELS_"@, item.labels@), name),
{
    lemma_issue_keys();
    lemma_issue_env_lookup(prefix, item, name);
    lemma_starts_with_char(name, prefix + "_LABELS_"@, prefix.len() as int + 1);
    lemma_single_apart(prefix, "_ID"@, signed_decimal(item.id as int), name, 1);
    lemma_starts_with_char(name, prefix + "_LABELS_"@, prefix.len() as int + 1);
    lemma_single_apart(prefix, "_URL"@, item.api_url@, name, 1);
    lemma_starts_with_char(name, prefix + "_LABELS_"@, prefix.len() as int + 1);
    lemma_single_apart(prefix, "_HTML_URL"@, item.html_url@, name, 1);
    lemma_starts_with_char(name, prefix + "_LABELS_"@, prefix.len() as int + 1);
    lemma_single_apart(prefix, "_NUMBER"@, signed_decimal(item.number as int), name, 1);
    lemma_starts_with_char(name, prefix + "_LABELS_"@, prefix.len() as int + 1);
    lemma_user_env_under(prefix + "_USER"@, item.user);
    lemma_no_value_apart(prefix + "_USER"@, user_env(prefix + "_USER"@, item.user), name, prefix.len() as int + 1);
    lemma_starts_with_char(name, prefix + "_LABELS_"@, prefix.len() as int + 1);
    lemma_single_apart(prefix, "_ORIGINAL_AUTHOR"@, item.original_author@, name, 1);
    lemma_starts_with_char(name, prefix + "_LABELS_"@, prefix.len() as int + 1);
    lemma_single_apart(prefix, "_ORIGINAL_AUTHOR_ID"@, signed_decimal(item.original_author_id as int), name, 1);
    lemma_starts_with_char(name, prefix + "_LABELS_"@, prefix.len() as int + 1);
    lemma_single_apart(prefix, "_TITLE"@, item.title@, name, 1);
    lemma_starts_with_char(name, prefix + "_LABELS_"@, prefix.len() as int + 1);
    lemma_single_apart(prefix, "_BODY"@, item.body@, name, 1);
    lemma_starts_with_char(name, prefix + "_LABELS_"@, prefix.len() as int + 1);
    match &item.milestone {
        Some(v) => {
            lemma_milestone_env_under(prefix + "_MILESTONE"@, *v);
            lemma_no_value_apart(prefix + "_MILESTONE"@, milestone_env(prefix + "_MILESTONE"@, *v), name, prefix.len() as int + 1);
        },
        None => {},
    }
    lemma_starts_with_char(name, prefix + "_LABELS_"@, prefix.len() as int + 1);
    match &item.assignee {
        Some(v) => {
            lemma_user_env_under(prefix + "_ASSIGNEE"@, *v);
            lemma_no_value_apart(prefix + "_ASSIGNEE"@, user_env(prefix + "_ASSIGNEE"@, *v), name, prefix.len() as int + 1);
        },
        None => {},
    }
    lemma_starts_with_char(name, prefix + "_LABELS_"@, prefix.len() as int + 1);
    match &item.assignees {
        Some(v) => {
            lemma_users_env_under(prefix + "_ASSIGNEES_"@, v@);
            lemma_no_value_apart(prefix + "_ASSIGNEES_"@, users_env(prefix + "_ASSIGNEES_"@, v@), name, prefix.len() as int + 1);
        },
        None => {},
    }
    lemma_starts_with_char(name, prefix + "_LABELS_"@, prefix.len() as int + 1);
    lemma_single_apart(prefix, "_STATE"@, item.state@, name, 1);
    lemma_starts_with_char(name, prefix + "_LABELS_"@, prefix.len() as int + 1);
    lemma_single_apart(prefix, "_IS_LOCKED"@, bool_text(item.is_locked), name, 1);
    lemma_starts_with_char(name, prefix + "_LABELS_"@, prefix.len() as int + 1);
    lemma_single_apart(prefix, "_COMMENTS"@, signed_decimal(item.comment_count as int), name, 1);
    lemma_starts_with_char(name, prefix + "_LABELS_"@, prefix.len() as int + 1);
    lemma_single_apart(prefix, "_CREATED_AT"@, item.created_at@, name, 1);
    lemma_starts_with_char(name, prefix + "_LABELS_"@, prefix.len() as int + 1);
    lemma_single_apart(prefix, "_UPDATED_AT"@, item.updated_at@, name, 1);
    lemma_starts_with_char(name, prefix + "_LABELS_"@, prefix.len() as int + 1);
    match &item.closed_at {
        Some(v) => lemma_single_apart(prefix, "_CLOSED_AT"@, v@, name, 1),
        None => {},
    }
    lemma_starts_with_char(name, prefix + "_LABELS_"@, prefix.len() as int + 1);
    match &item.due_date {
        Some(v) => lemma_single_apart(prefix, "_DUE_DATE"@, v@, name, 1),
        None => {},
    }
    lemma_starts_with_char(name, prefix + "_LABELS_"@, prefix.len() as int + 1);
    match &item.pull_request_meta {
        Some(v) => {
            lemma_pull_request_meta_env_under(prefix + "_PULL_REQUEST"@, *v);
            lemma_no_value_apart(prefix + "_PULL_REQUEST"@, pull_request_meta_env(prefix + "_PULL_REQUEST"@, *v), name, prefix.len() as int + 1);
        },
        None => {},
    }
    lemma_starts_with_char(name, prefix + "_LABELS_"@, prefix.len() as int + 1);
    match &item.repository_meta {
        Some(v) => {
            lemma_repository_meta_env_under(prefix + "_REPOSITORY"@, *v);
            lemma_no_value_apart(prefix + "_REPOSITORY"@, repository_meta_env(prefix + "_REPOSITORY"@, *v), name, prefix.len() as int + 1);
        },
        None => {},
    }
}

/// In the environment of an issue, the variables whose names start with the
/// prefix and _MILESTONE describe the field `milestone`, and nothing else does.
#[verifier::rlimit(100)]
pub proof fn lemma_issue_env_milestone(prefix: Seq<char>, item: Issue, name: Seq<char>)
    requires
        starts_with(name, prefix + "_MILESTONE"@),
    ensures
        last_value(issue_env(prefix, item), name) == last_value((match &item.milestone { Some(v) => milestone_env(prefix + "_MILESTONE"@, *v), None => seq![] }), name),
{
    lemma_issue_keys();
    lemma_issue_env_lookup(prefix, item, name);
    lemma_starts_with_char(name, prefix + "_MILESTONE"@, prefix.len() as int + 1);
    lemma_single_apart(prefix, "_ID"@, signed_decimal(item.id as int), name, 1);
    lemma_starts_with_char(name, prefix + "_MILESTONE"@, prefix.len() as int + 1);
    lemma_single_apart(prefix, "_URL"@, item.api_url@, name, 1);
    lemma_starts_with_char(name, prefix + "_MILESTONE"@, prefix.len() as int + 1);
    lemma_single_apart(prefix, "_HTML_URL"@, item.html_url@, name, 1);
    lemma_starts_with_char(name, prefix + "_MILESTONE"@, prefix.len() as int + 1);
    lemma_single_apart(prefix, "_NUMBER"@, signed_decimal(item.number as int), name, 1);
    lemma_starts_with_char(name, prefix + "_MILESTONE"@, prefix.len() as int + 1);
    lemma_user_env_under(prefix + "_USER"@, item.user);
    lemma_no_value_apart(prefix + "_USER"@, user_env(prefix + "_USER"@, item.user), name, prefix.len() as int + 1);
    lemma_starts_with_char(name, prefix + "_MILESTONE"@, prefix.len() as int + 1);
    lemma_single_apart(prefix, "_ORIGINAL_AUTHOR"@, item.original_author@, name, 1);
    lemma_starts_with_char(name, prefix + "_MILESTONE"@, prefix.len() as int + 1);
    lemma_single_apart(prefix, "_ORIGINAL_AUTHOR_ID"@, signed_decimal(item.original_author_id as int), name, 1);
    lemma_starts_with_char(name, prefix + "_MILESTONE"@, prefix.len() as int + 1);
    lemma_single_apart(prefix, "_TITLE"@, item.title@, name, 1);
    lemma_starts_with_char(name, prefix + "_MILESTONE"@, prefix.len() as int + 1);
    lemma_single_apart(prefix, "_BODY"@, item.body@, name, 1);
    lemma_starts_with_char(name, prefix + "_MILESTONE"@, prefix.len() as int + 1);
    lemma_labels_env_under(prefix + "_LABELS_"@, item.labels@);
    lemma_no_value_apart(prefix + "_LABELS_"@, labels_env(prefix + "_LABELS_"@, item.labels@), name, prefix.len() as int + 1);
    lemma_starts_with_char(name, prefix + "_MILESTONE"@, prefix.len() as int + 1);
    match &item.assignee {
        Some(v) => {
            lemma_user_env_under(prefix + "_ASSIGNEE"@, *v);
            lemma_no_value_apart(prefix + "_ASSIGNEE"@, user_env(prefix + "_ASSIGNEE"@, *v), name, prefix.len() as int + 1);
        },
        None => {},
    }
    lemma_starts_with_char(name, prefix + "_MILESTONE"@, prefix.len() as int + 1);
    match &item.assignees {
        Some(v) => {
            lemma_users_env_under(prefix + "_ASSIGNEES_"@, v@);
            lemma_no_value_apart(prefix + "_ASSIGNEES_"@, users_env(prefix + "_ASSIGNEES_"@, v@), name, prefix.len() as int + 1);
        },
        None => {},
    }
    lemma_starts_with_char(name, prefix + "_MILESTONE"@, prefix.len() as int + 1);
    lemma_single_apart(prefix, "_STATE"@, item.state@, name, 1);
    lemma_starts_with_char(name, prefix + "_MILESTONE"@, prefix.len() as int + 1);
    lemma_single_apart(prefix, "_IS_LOCKED"@, bool_text(item.is_locked), name, 1);
    lemma_starts_with_char(name, prefix + "_MILESTONE"@, prefix.len() as int + 1);
    lemma_single_apart(prefix, "_COMMENTS"@, signed_decimal(item.comment_count as int), name, 1);
    lemma_starts_with_char(name, prefix + "_MILESTONE"@, prefix.len() as int + 1);
    lemma_single_apart(prefix, "_CREATED_AT"@, item.created_at@, name, 1);
    lemma_starts_with_char(name, prefix + "_MILESTONE"@, prefix.len() as int + 1);
    lemma_single_apart(prefix, "_UPDATED_AT"@, item.updated_at@, name, 1);
    lemma_starts_with_char(name, prefix + "_MILESTONE"@, prefix.len() as int + 1);
    match &item.closed_at {
        Some(v) => lemma_single_apart(prefix, "_CLOSED_AT"@, v@, name, 1),
        None => {},
    }
    lemma_starts_with_char(name, prefix + "_MILESTONE"@, prefix.len() as int + 1);
    match &item.due_date {
        Some(v) => lemma_single_apart(prefix, "_DUE_DATE"@, v@, name, 1),
        None => {},
    }
    lemma_starts_with_char(name, prefix + "_MILESTONE"@, prefix.len() as int + 1);
    match &item.pull_request_meta {
        Some(v) => {
            lemma_pull_request_meta_env_under(prefix + "_PULL_REQUEST"@, *v);
            lemma_no_value_apart(prefix + "_PULL_REQUEST"@, pull_request_meta_env(prefix + "_PULL_REQUEST"@, *v), name, prefix.len() as int + 1);
        },
        None => {},
    }
    lemma_starts_with_char(name, prefix + "_MILESTONE"@, prefix.len() as int + 1);
    match &item.repository_meta {
        Some(v) => {
            lemma_repository_meta_env_under(prefix + "_REPOSITORY"@, *v);
            lemma_no_value_apart(prefix + "_REPOSITORY"@, repository_meta_env(prefix + "_REPOSITORY"@, *v), name, prefix.len() as int + 1);
        },
        None => {},
    }
}

/// In the environment of an issue, the variable of the field `state` holds it.
#[verifier::rlimit(100)]
pub proof fn lemma_issue_env_state(prefix: Seq<char>, item: Issue)
    ensures
        last_value(issue_env(prefix, item), (prefix + "_STATE"@)) == Some(item.state@),
{
    lemma_issue_keys();
    lemma_issue_env_lookup(prefix, item, (prefix + "_STATE"@));
    lemma_single_apart_len(prefix, "_IS_LOCKED"@, bool_text(item.is_locked), (prefix + "_STATE"@));
    lemma_single_apart_len(prefix, "_COMMENTS"@, signed_decimal(item.comment_count as int), (prefix + "_STATE"@));
    lemma_single_apart_len(prefix, "_CREATED_AT"@, item.created_at@, (prefix + "_STATE"@));
    lemma_single_apart_len(prefix, "_UPDATED_AT"@, item.updated_at@, (prefix + "_STATE"@));
    match &item.closed_at {
        Some(v) => lemma_single_apart_len(prefix, "_CLOSED_AT"@, v@, (prefix + "_STATE"@)),
        None => {},
    }
    match &item.due_date {
        Some(v) => lemma_single_apart_len(prefix, "_DUE_DATE"@, v@, (prefix + "_STATE"@)),
        None => {},
    }
    match &item.pull_request_meta {
        Some(v) => {
            lemma_pull_request_meta_env_under(prefix + "_PULL_REQUEST"@, *v);
            lemma_no_value_apart(prefix + "_PULL_REQUEST"@, pull_request_meta_env(prefix + "_PULL_REQUEST"@, *v), (prefix + "_STATE"@), prefix.len() as int + 1);
        },
        None => {},
    }
    match &item.repository_meta {
        Some(v) => {
            lemma_repository_meta_env_under(prefix + "_REPOSITORY"@, *v);
            lemma_no_value_apart(prefix + "_REPOSITORY"@, repository_meta_env(prefix + "_REPOSITORY"@, *v), (prefix + "_STATE"@), prefix.len() as int + 1);
        },
        None => {},
    }
    lemma_last_value_single((prefix + "_STATE"@), item.state@, (prefix + "_STATE"@));
}

/// In the environment of an issue, the variable of the field `is_locked` holds it.
#[verifier::rlimit(100)]
pub proof fn lemma_issue_env_is_locked(prefix: Seq<char>, item: Issue)
    ensures
        last_value(issue_env(prefix, item), (prefix + "_IS_LOCKED"@)) == Some(bool_text(item.is_locked)),
{
    lemma_issue_keys();
    lemma_issue_env_lookup(prefix, item, (prefix + "_IS_LOCKED"@));
    lemma_single_apart_len(prefix, "_COMMENTS"@, signed_decimal(item.comment_count as int), (prefix + "_IS_LOCKED"@));
    lemma_single_apart_len(prefix, "_CREATED_AT"@, item.created_at@, (prefix + "_IS_LOCKED"@));
    lemma_single_apart_len(prefix, "_UPDATED_AT"@, item.updated_at@, (prefix + "_IS_LOCKED"@));
    match &item.closed_at {
        Some(v) => lemma_single_apart(prefix, "_CLOSED_AT"@, v@, (prefix + "_IS_LOCKED"@), 1),
        None => {},
    }
    match &item.due_date {
        Some(v) => lemma_single_apart_len(prefix, "_DUE_DATE"@, v@, (prefix + "_IS_LOCKED"@)),
        None => {},
    }
    match &item.pull_request_meta {
        Some(v) => {
            lemma_pull_request_meta_env_under(prefix + "_PULL_REQUEST"@, *v);
            lemma_no_value_apart(prefix + "_PULL_REQUEST"@, pull_request_meta_env(prefix + "_PULL_REQUEST"@, *v), (prefix + "_IS_LOCKED"@), prefix.len() as int + 1);
        },
        None => {},
    }
    match &item.repository_meta {
        Some(v) => {
            lemma_repository_meta_env_under(prefix + "_REPOSITORY"@, *v);
            lemma_no_value_apart(prefix + "_REPOSITORY"@, repository_meta_env(prefix + "_REPOSITORY"@, *v), (prefix + "_IS_LOCKED"@), prefix.len() as int + 1);
        },
        None => {},
    }
    lemma_last_value_single((prefix + "_IS_LOCKED"@), bool_text(item.is_locked), (prefix + "_IS_LOCKED"@));
}

/// In the environment of an issue, the variable of the field `comment_count` holds it.
#[verifier::rlimit(100)]
pub proof fn lemma_issue_env_comments(prefix: Seq<char>, item: Issue)
    ensures
        last_value(issue_env(prefix, item), (prefix + "_COMMENTS"@)) == Some(signed_decimal(item.comment_count as int)),
{
    lemma_issue_keys();
    lemma_issue_env_lookup(prefix, item, (prefix + "_COMMENTS"@));
    lemma_single_apart_len(prefix, "_CREATED_AT"@, item.created_at@, (prefix + "_COMMENTS"@));
    lemma_single_apart_len(prefix, "_UPDATED_AT"@, item.updated_at@, (prefix + "_COMMENTS"@));
    match &item.closed_at {
        Some(v) => lemma_single_apart_len(prefix, "_CLOSED_AT"@, v@, (prefix + "_COMMENTS"@)),
        None => {},
    }
    match &item.due_date {
        Some(v) => lemma_single_apart(prefix, "_DUE_DATE"@, v@, (prefix + "_COMMENTS"@), 1),
        None => {},
    }
    match &item.pull_request_meta {
        Some(v) => {
            lemma_pull_request_meta_env_under(prefix + "_PULL_REQUEST"@, *v);
            lemma_no_value_apart(prefix + "_PULL_REQUEST"@, pull_request_meta_env(prefix + "_PULL_REQUEST"@, *v), (prefix + "_COMMENTS"@), prefix.len() as int + 1);
        },
        None => {},
    }
    match &item.repository_meta {
        Some(v) => {
            lemma_repository_meta_env_under(prefix + "_REPOSITORY"@, *v);
            lemma_no_value_apart(prefix + "_REPOSITORY"@, repository_meta_env(prefix + "_REPOSITORY"@, *v), (prefix + "_COMMENTS"@), prefix.len() as int + 1);
        },
        None => {},
    }
    lemma_last_value_single((prefix + "_COMMENTS"@), signed_decimal(item.comment_count as int), (prefix + "_COMMENTS"@));
}

/// In the environment of an issue, the variable of the field `created_at` holds it.
#[verifier::rlimit(100)]
pub proof fn lemma_issue_env_created_at(prefix: Seq<char>, item: Issue)
    ensures
        last_value(issue_env(prefix, item), (prefix + "_CREATED_AT"@)) == Some(item.created_at@),
{
    lemma_issue_keys();
    lemma_issue_env_lookup(prefix, item, (prefix + "_CREATED_AT"@));
    lemma_single_apart(prefix, "_UPDATED_AT"@, item.updated_at@, (prefix + "_CREATED_AT"@), 1);
    match &item.closed_at {
        Some(v) => lemma_single_apart_len(prefix, "_CLOSED_AT"@, v@, (prefix + "_CREATED_AT"@)),
        None => {},
    }
    match &item.due_date {
        Some(v) => lemma_single_apart_len(prefix, "_DUE_DATE"@, v@, (prefix + "_CREATED_AT"@)),
        None => {},
    }
    match &item.pull_request_meta {
        Some(v) => {
            lemma_pull_request_meta_env_under(prefix + "_PULL_REQUEST"@, *v);
            lemma_no_value_apart(prefix + "_PULL_REQUEST"@, pull_request_meta_env(prefix + "_PULL_REQUEST"@, *v), (prefix + "_CREATED_AT"@), prefix.len() as int + 1);
        },
        None => {},
    }
    match &item.repository_meta {
        Some(v) => {
            lemma_repository_meta_env_under(prefix + "_REPOSITORY"@, *v);
            lemma_no_value_apart(prefix + "_REPOSITORY"@, repository_meta_env(prefix + "_REPOSITORY"@, *v), (prefix + "_CREATED_AT"@), prefix.len() as int + 1);
        },
        None => {},
    }
    lemma_last_value_single((prefix + "_CREATED_AT"@), item.created_at@, (prefix + "_CREATED_AT"@));
}

/// In the environment of an issue, the variable of the field `updated_at` holds it.
#[verifier::rlimit(100)]
pub proof fn lemma_issue_env_updated_at(prefix: Seq<char>, item: Issue)
    ensures
        last_value(issue_env(prefix, item), (prefix + "_UPDATED_AT"@)) == Some(item.updated_at@),
{
    lemma_issue_keys();
    lemma_issue_env_lookup(prefix, item, (prefix + "_UPDATED_AT"@));
    match &item.closed_at {
        Some(v) => lemma_single_apart_len(prefix, "_CLOSED_AT"@, v@, (prefix + "_UPDATED_AT"@)),
        None => {},
    }
    match &item.due_date {
        Some(v) => lemma_single_apart_len(prefix, "_DUE_DATE"@, v@, (prefix + "_UPDATED_AT"@)),
        None => {},
    }
    match &item.pull_request_meta {
        Some(v) => {
            lemma_pull_request_meta_env_under(prefix + "_PULL_REQUEST"@, *v);
            lemma_no_value_apart(prefix + "_PULL_REQUEST"@, pull_request_meta_env(prefix + "_PULL_REQUEST"@, *v), (prefix + "_UPDATED_AT"@), prefix.len() as int + 1);
        },
        None => {},
    }
    match &item.repository_meta {
        Some(v) => {
            lemma_repository_meta_env_under(prefix + "_REPOSITORY"@, *v);
            lemma_no_value_apart(prefix + "_REPOSITORY"@, repository_meta_env(prefix + "_REPOSITORY"@, *v), (prefix + "_UPDATED_AT"@), prefix.len() as int + 1);
        },
        None => {},
    }
    lemma_last_value_single((prefix + "_UPDATED_AT"@), item.updated_at@, (prefix + "_UPDATED_AT"@));
}

/// In the environment of an issue, the variable of the field `closed_at` holds it.
#[verifier::rlimit(100)]
pub proof fn lemma_issue_env_closed_at(prefix: Seq<char>, item: Issue)
    ensures
        item.closed_at is Some ==> last_value(issue_env(prefix, item), (prefix + "_CLOSED_AT"@)) == Some(item.closed_at->Some_0@),
{
    lemma_issue_keys();
    lemma_issue_env_lookup(prefix, item, (prefix + "_CLOSED_AT"@));
    match &item.due_date {
        Some(v) => lemma_single_apart_len(prefix, "_DUE_DATE"@, v@, (prefix + "_CLOSED_AT"@)),
        None => {},
    }
    match &item.pull_request_meta {
        Some(v) => {
            lemma_pull_request_meta_env_under(prefix + "_PULL_REQUEST"@, *v);
            lemma_no_value_apart(prefix + "_PULL_REQUEST"@, pull_request_meta_env(prefix + "_PULL_REQUEST"@, *v), (prefix + "_CLOSED_AT"@), prefix.len() as int + 1);
        },
        None => {},
    }
    match &item.repository_meta {
        Some(v) => {
            lemma_repository_meta_env_under(prefix + "_REPOSITORY"@, *v);
            lemma_no_value_apart(prefix + "_REPOSITORY"@, repository_meta_env(prefix + "_REPOSITORY"@, *v), (prefix + "_CLOSED_AT"@), prefix.len() as int + 1);
        },
        None => {},
    }
    match &item.closed_at {
        Some(v) => lemma_last_value_single((prefix + "_CLOSED_AT"@), v@, (prefix + "_CLOSED_AT"@)),
        None => {},
    }
}

/// In the environment of an issue, the variable of the field `due_date` holds it.
#[verifier::rlimit(100)]
pub proof fn lemma_issue_env_due_date(prefix: Seq<char>, item: Issue)
    ensures
        item.due_date is Some ==> last_value(issue_env(prefix, item), (prefix + "_DUE_DATE"@)) == Some(item.due_date->Some_0@),
{
    lemma_issue_keys();
    lemma_issue_env_lookup(prefix, item, (prefix + "_DUE_DATE"@));
    match &item.pull_request_meta {
        Some(v) => {
            lemma_pull_request_meta_env_under(prefix + "_PULL_REQUEST"@, *v);
            lemma_no_value_apart(prefix + "_PULL_REQUEST"@, pull_request_meta_env(prefix + "_PULL_REQUEST"@, *v), (prefix + "_DUE_DATE"@), prefix.len() as int + 1);
        },
        None => {},
    }
    match &item.repository_meta {
        Some(v) => {
            lemma_repository_meta_env_under(prefix + "_REPOSITORY"@, *v);
            lemma_no_value_apart(prefix + "_REPOSITORY"@, repository_meta_env(prefix + "_REPOSITORY"@, *v), (prefix + "_DUE_DATE"@), prefix.len() as int + 1);
        },
        None => {},
    }
    match &item.due_date {
        Some(v) => lemma_last_value_single((prefix + "_DUE_DATE"@), v@, (prefix + "_DUE_DATE"@)),
        None => {},
    }
}

/// In the environment of an issue, the variables whose names start with the
/// prefix and _PULL_REQUEST describe the field `pull_request_meta`, and nothing else does.
#[verifier::rlimit(100)]
pub proof fn lemma_issue_env_pull_request(prefix: Seq<char>, item: Issue, name: Seq<char>)
    requires
        starts_with(name, prefix + "_PULL_REQUEST"@),
    ensures
        last_value(issue_env(prefix, item), name) == last_value((match &item.pull_request_meta { Some(v) => pull_request_meta_env(prefix + "_PULL_REQUEST"@, *v), None => seq![] }), name),
{
    lemma_issue_keys();
    lemma_issue_env_lookup(prefix, item, name);
    lemma_starts_with_char(name, prefix + "_PULL_REQUEST"@, prefix.len() as int + 1);
    lemma_single_apart(prefix, "_ID"@, signed_decimal(item.id as int), name, 1);
    lemma_starts_with_char(name, prefix + "_PULL_REQUEST"@, prefix.len() as int + 1);
    lemma_single_apart(prefix, "_URL"@, item.api_url@, name, 1);
    lemma_starts_with_char(name, prefix + "_PULL_REQUEST"@, prefix.len() as int + 1);
    lemma_single_apart(prefix, "_HTML_URL"@, item.html_url@, name, 1);
    lemma_starts_with_char(name, prefix + "_PULL_REQUEST"@, prefix.len() as int + 1);
    lemma_single_apart(prefix, "_NUMBER"@, signed_decimal(item.number as int), name, 1);
    lemma_starts_with_char(name, prefix + "_PULL_REQUEST"@, prefix.len() as int + 1);
    lemma_user_env_under(prefix + "_USER"@, item.user);
    lemma_no_value_apart(prefix + "_USER"@, user_env(prefix + "_USER"@, item.user), name, prefix.len() as int + 1);
    lemma_starts_with_char(name, prefix + "_PULL_REQUEST"@, prefix.len() as int + 1);
    lemma_single_apart(prefix, "_ORIGINAL_AUTHOR"@, item.original_author@, name, 1);
    lemma_starts_with_char(name, prefix + "_PULL_REQUEST"@, prefix.len() as int + 1);
    lemma_single_apart(prefix, "_ORIGINAL_AUTHOR_ID"@, signed_decimal(item.original_author_id as int), name, 1);
    lemma_starts_with_char(name, prefix + "_PULL_REQUEST"@, prefix.len() as int + 1);
    lemma_single_apart(prefix, "_TITLE"@, item.title@, name, 1);
    lemma_starts_with_char(name, prefix + "_PULL_REQUEST"@, prefix.len() as int + 1);
    lemma_single_apart(prefix, "_BODY"@, item.body@, name, 1);
    lemma_starts_with_char(name, prefix + "_PULL_REQUEST"@, prefix.len() as int + 1);
    lemma_labels_env_under(prefix + "_LABELS_"@, item.labels@);
    lemma_no_value_apart(prefix + "_LABELS_"@, labels_env(prefix + "_LABELS_"@, item.labels@), name, prefix.len() as int + 1);
    lemma_starts_with_char(name, prefix + "_PULL_REQUEST"@, prefix.len() as int + 1);
    match &item.milestone {
        Some(v) => {
            lemma_milestone_env_under(prefix + "_MILESTONE"@, *v);
            lemma_no_value_apart(prefix + "_MILESTONE"@, milestone_env(prefix + "_MILESTONE"@, *v), name, prefix.len() as int + 1);
        },
        None => {},
    }
    lemma_starts_with_char(name, prefix + "_PULL_REQUEST"@, prefix.len() as int + 1);
    match &item.assignee {
        Some(v) => {
            lemma_user_env_under(prefix + "_ASSIGNEE"@, *v);
            lemma_no_value_apart(prefix + "_ASSIGNEE"@, user_env(prefix + "_ASSIGNEE"@, *v), name, prefix.len() as int + 1);
        },
        None => {},
    }
    lemma_starts_with_char(name, prefix + "_PULL_REQUEST"@, prefix.len() as int + 1);
    match &item.assignees {
        Some(v) => {
            lemma_users_env_under(prefix + "_ASSIGNEES_"@, v@);
            lemma_no_value_apart(prefix + "_ASSIGNEES_"@, users_env(prefix + "_ASSIGNEES_"@, v@), name, prefix.len() as int + 1);
        },
        None => {},
    }
    lemma_starts_with_char(name, prefix + "_PULL_REQUEST"@, prefix.len() as int + 1);
    lemma_single_apart(prefix, "_STATE"@, item.state@, name, 1);
    lemma_starts_with_char(name, prefix + "_PULL_REQUEST"@, prefix.len() as int + 1);
    lemma_single_apart(prefix, "_IS_LOCKED"@, bool_text(item.is_locked), name, 1);
    lemma_starts_with_char(name, prefix + "_PULL_REQUEST"@, prefix.len() as int + 1);
    lemma_single_apart(prefix, "_COMMENTS"@, signed_decimal(item.comment_count as int), name, 1);
    lemma_starts_with_char(name, prefix + "_PULL_REQUEST"@, prefix.len() as int + 1);
    lemma_single_apart(prefix, "_CREATED_AT"@, item.created_at@, name, 1);
    lemma_starts_with_char(name, prefix + "_PULL_REQUEST"@, prefix.len() as int + 1);
    lemma_single_apart(prefix, "_UPDATED_AT"@, item.updated_at@, name, 1);
    lemma_starts_with_char(name, prefix + "_PULL_REQUEST"@, prefix.len() as int + 1);
    match &item.closed_at {
        Some(v) => lemma_single_apart(prefix, "_CLOSED_AT"@, v@, name, 1),
        None => {},
    }
    lemma_starts_with_char(name, prefix + "_PULL_REQUEST"@, prefix.len() as int + 1);
    match &item.due_date {
        Some(v) => lemma_single_apart(prefix, "_DUE_DATE"@, v@, name, 1),
        None => {},
    }
    lemma_starts_with_char(name, prefix + "_PULL_REQUEST"@, prefix.len() as int + 1);
    match &item.repository_meta {
        Some(v) => {
            lemma_repository_meta_env_under(prefix + "_REPOSITORY"@, *v);
            lemma_no_value_apart(prefix + "_REPOSITORY"@, repository_meta_env(prefix + "_REPOSITORY"@, *v), name, prefix.len() as int + 1);
        },
        None => {},
    }
}

/// In the environment of an issue, the variables whose names start with the
/// prefix and _REPOSITORY describe the field `repository_meta`, and nothing else does.
#[verifier::rlimit(100)]
pub proof fn lemma_issue_env_repository(prefix: Seq<char>, item: Issue, name: Seq<char>)
    requires
        starts_with(name, prefix + "_REPOSITORY"@),
    ensures
        last_value(issue_env(prefix, item), name) == last_value((match &item.repository_meta { Some(v) => repository_meta_env(prefix + "_REPOSITORY"@, *v), None => seq![] }), name),
{
    lemma_issue_keys();
    lemma_issue_env_lookup(prefix, item, name);
    lemma_starts_with_char(name, prefix + "_REPOSITORY"@, prefix.len() as int + 1);
    lemma_single_apart(prefix, "_ID"@, signed_decimal(item.id as int), name, 1);
    lemma_starts_with_char(name, prefix + "_REPOSITORY"@, prefix.len() as int + 1);
    lemma_single_apart(prefix, "_URL"@, item.api_url@, name, 1);
    lemma_starts_with_char(name, prefix + "_REPOSITORY"@, prefix.len() as int + 1);
    lemma_single_apart(prefix, "_HTML_URL"@, item.html_url@, name, 1);
    lemma_starts_with_char(name, prefix + "_REPOSITORY"@, prefix.len() as int + 1);
    lemma_single_apart(prefix, "_NUMBER"@, signed_decimal(item.number as int), name, 1);
    lemma_starts_with_char(name, prefix + "_REPOSITORY"@, prefix.len() as int + 1);
    lemma_user_env_under(prefix + "_USER"@, item.user);
    lemma_no_value_apart(prefix + "_USER"@, user_env(prefix + "_USER"@, item.user), name, prefix.len() as int + 1);
    lemma_starts_with_char(name, prefix + "_REPOSITORY"@, prefix.len() as int + 1);
    lemma_single_apart(prefix, "_ORIGINAL_AUTHOR"@, item.original_author@, name, 1);
    lemma_starts_with_char(name, prefix + "_REPOSITORY"@, prefix.len() as int + 1);
    lemma_single_apart(prefix, "_ORIGINAL_AUTHOR_ID"@, signed_decimal(item.original_author_id as int), name, 1);
    lemma_starts_with_char(name, prefix + "_REPOSITORY"@, prefix.len() as int + 1);
    lemma_single_apart(prefix, "_TITLE"@, item.title@, name, 1);
    lemma_starts_with_char(name, prefix + "_REPOSITORY"@, prefix.len() as int + 1);
    lemma_single_apart(prefix, "_BODY"@, item.body@, name, 1);
    lemma_starts_with_char(name, prefix + "_REPOSITORY"@, prefix.len() as int + 1);
    lemma_labels_env_under(prefix + "_LABELS_"@, item.labels@);
    lemma_no_value_apart(prefix + "_LABELS_"@, labels_env(prefix + "_LABELS_"@, item.labels@), name, prefix.len() as int + 1);
    lemma_starts_with_char(name, prefix + "_REPOSITORY"@, prefix.len() as int + 1);
    match &item.milestone {
        Some(v) => {
            lemma_milestone_env_under(prefix + "_MILESTONE"@, *v);
            lemma_no_value_apart(prefix + "_MILESTONE"@, milestone_env(prefix + "_MILESTONE"@, *v), name, prefix.len() as int + 1);
        },
        None => {},
    }
    lemma_starts_with_char(name, prefix + "_REPOSITORY"@, prefix.len() as int + 1);
    match &item.assignee {
        Some(v) => {
            lemma_user_env_under(prefix + "_ASSIGNEE"@, *v);
            lemma_no_value_apart(prefix + "_ASSIGNEE"@, user_env(prefix + "_ASSIGNEE"@, *v), name, prefix.len() as int + 1);
        },
        None => {},
    }
    lemma_starts_with_char(name, prefix + "_REPOSITORY"@, prefix.len() as int + 1);
    match &item.assignees {
        Some(v) => {
            lemma_users_env_under(prefix + "_ASSIGNEES_"@, v@);
            lemma_no_value_apart(prefix + "_ASSIGNEES_"@, users_env(prefix + "_ASSIGNEES_"@, v@), name, prefix.len() as int + 1);
        },
        None => {},
    }
    lemma_starts_with_char(name, prefix + "_REPOSITORY"@, prefix.len() as int + 1);
    lemma_single_apart(prefix, "_STATE"@, item.state@, name, 1);
    lemma_starts_with_char(name, prefix + "_REPOSITORY"@, prefix.len() as int + 1);
    lemma_single_apart(prefix, "_IS_LOCKED"@, bool_text(item.is_locked), name, 1);
    lemma_starts_with_char(name, prefix + "_REPOSITORY"@, prefix.len() as int + 1);
    lemma_single_apart(prefix, "_COMMENTS"@, signed_decimal(item.comment_count as int), name, 1);
    lemma_starts_with_char(name, prefix + "_REPOSITORY"@, prefix.len() as int + 1);
    lemma_single_apart(prefix, "_CREATED_AT"@, item.created_at@, name, 1);
    lemma_starts_with_char(name, prefix + "_REPOSITORY"@, prefix.len() as int + 1);
    lemma_single_apart(prefix, "_UPDATED_AT"@, item.updated_at@, name, 1);
    lemma_starts_with_char(name, prefix + "_REPOSITORY"@, prefix.len() as int + 1);
    match &item.closed_at {
        Some(v) => lemma_single_apart(prefix, "_CLOSED_AT"@, v@, name, 1),
        None => {},
    }
    lemma_starts_with_char(name, prefix + "_REPOSITORY"@, prefix.len() as int + 1);
    match &item.due_date {
        Some(v) => lemma_single_apart(prefix, "_DUE_DATE"@, v@, name, 1),
        None => {},
    }
    lemma_starts_with_char(name, prefix + "_REPOSITORY"@, prefix.len() as int + 1);
    match &item.pull_request_meta {
        Some(v) => {
            lemma_pull_request_meta_env_under(prefix + "_PULL_REQUEST"@, *v);
            lemma_no_value_apart(prefix + "_PULL_REQUEST"@, pull_request_meta_env(prefix + "_PULL_REQUEST"@, *v), name, prefix.len() as int + 1);
        },
        None => {},
    }
}

} // verus!
