use luffy::cli_handler::hook_handlers::{get_push_command, get_repo_command, get_repo_command_with};
use luffy::cli_handler::struct_helpers::{add_changes_env, add_labels_env, add_user_env};
use luffy::cli_handler::{Config, GiteaCliHandler};
use luffy::command::CommandSpec;
use luffy::luffy_gitea::payloads::{PushPayload, RepositoryPayload};
use luffy::luffy_gitea::structs::{Changes, ChangesFromPayload, Commit, GitUser, GiteaUser, Repository};
use luffy::luffy_gitea::{EventKind, GiteaService, HookEvent};
use luffy::text::{bool_to_text, i64_text, join, text_eq, to_uppercase, u64_text};

fn s(t: &str) -> String {
    t.to_string()
}

fn user(id: i64, login: &str) -> GiteaUser {
    GiteaUser {
        id,
        login: s(login),
        full_name: s("Full Name"),
        email: s("someone@gitea.io"),
        avatar_url: s("https://localhost:3000/avatars/1"),
        username: s(login),
        language: s("en-US"),
        is_admin: false,
        last_login: s("2020-01-01T00:00:00Z"),
        created: s("2019-01-01T00:00:00Z"),
    }
}

fn git_user() -> GitUser {
    GitUser { name: s("Gitea"), email: s("someone@gitea.io"), username: s("gitea") }
}

fn commit(id: &str) -> Commit {
    Commit {
        id: s(id),
        message: s("Webhooks Yay!"),
        url: s("http://localhost:3000/c"),
        author: git_user(),
        committer: git_user(),
        timestamp: s("2017-03-13T13:52:11-04:00"),
    }
}

fn repository(id: i64) -> Repository {
    Repository {
        id,
        owner: user(1, "gitea"),
        name: s("webhooks"),
        full_name: s("gitea/webhooks"),
        description: s(""),
        is_empty: false,
        is_private: false,
        is_fork: false,
        is_template: false,
        parent: None,
        is_mirror: false,
        size_mib: 3,
        html_url: s("http://localhost:3000/gitea/webhooks"),
        ssh_url: s("ssh://gitea@localhost:2222/gitea/webhooks.git"),
        clone_url: s("http://localhost:3000/gitea/webhooks.git"),
        original_url: s(""),
        website: s(""),
        stars_count: 0,
        forks_count: 1,
        watchers_count: 1,
        open_issues_count: 7,
        open_pr_counter: 0,
        release_counter: 0,
        default_branch: s("master"),
        is_archived: false,
        created_at: s("2017-02-26T04:29:06-05:00"),
        updated_at: s("2017-03-13T13:51:58-04:00"),
        permissions: None,
        has_issues: true,
        internal_tracker: None,
        external_tracker: None,
        has_wiki: true,
        external_wiki: None,
        has_pull_requests: true,
        has_projects: false,
        is_whitespace_conflict_ignored: false,
        allow_merge_commits: true,
        allow_rebase: true,
        allow_rebase_explicit: true,
        allow_squash_merge: true,
        avatar_url: s(""),
        is_internal: false,
    }
}

fn push_payload(commits: Vec<Commit>, head: Option<Commit>) -> PushPayload {
    PushPayload {
        ref_path: s("refs/heads/develop"),
        before: s("28e1879d029cb852e4844d9c718537df08844e03"),
        after: s("bffeb74224043ba2feb48d137756c8a9331c449a"),
        compare_url: s("http://localhost:3000/compare"),
        commits,
        head_commit: head,
        repository: repository(140),
        pusher: user(1, "gitea"),
        sender: user(2, "sender"),
    }
}

fn config() -> Config {
    Config {
        create: s("on-create"),
        delete: s("on-delete"),
        fork: s("on-fork"),
        issues: s("on-issues"),
        issue_comment: s("on-issue-comment"),
        push: s("on-push"),
        pull_request: s("on-pull-request"),
        repository: s("on-repository"),
        release: s("on-release"),
    }
}

fn value<'a>(cmd: &'a CommandSpec, name: &str) -> Option<&'a str> {
    cmd.envs.iter().rev().find(|(n, _)| n == name).map(|(_, v)| v.as_str())
}

fn names(cmd: &CommandSpec) -> Vec<&str> {
    cmd.envs.iter().map(|(n, _)| n.as_str()).collect()
}

#[test]
fn defaults_name_no_program() {
    let config = Config::default();
    assert_eq!("", &config.create);
    assert_eq!("", &config.delete);
    assert_eq!("", &config.fork);
    assert_eq!("", &config.issues);
    assert_eq!("", &config.issue_comment);
    assert_eq!("", &config.pull_request);
    assert_eq!("", &config.push);
    assert_eq!("", &config.repository);
    assert_eq!("", &config.release);
}

#[test]
fn handler_keeps_its_config_path() {
    let handler = GiteaCliHandler::new("/etc/luffy/config.json");
    assert_eq!(handler.get_config_path(), "/etc/luffy/config.json");
}

#[test]
fn numbers_are_written_in_decimal() {
    assert_eq!(i64_text(0), "0");
    assert_eq!(i64_text(7), "7");
    assert_eq!(i64_text(140), "140");
    assert_eq!(i64_text(-42), "-42");
    assert_eq!(i64_text(i64::MIN), i64::MIN.to_string());
    assert_eq!(i64_text(i64::MAX), i64::MAX.to_string());
    assert_eq!(u64_text(u64::MAX), u64::MAX.to_string());
    assert_eq!(u64_text(1000), "1000");
    assert_eq!(bool_to_text(true), "true");
    assert_eq!(bool_to_text(false), "false");
    assert_eq!(join("ab", "cd"), "abcd");
    assert!(text_eq("push", "push"));
    assert!(!text_eq("push", "Push"));
    assert_eq!(to_uppercase("created"), "CREATED");
}

#[test]
fn a_user_is_described_under_its_prefix() {
    let mut cmd = CommandSpec::new("p");
    add_user_env(&mut cmd, "SENDER", &user(-5, "bob"));
    assert_eq!(
        names(&cmd),
        vec![
            "SENDER_ID", "SENDER_LOGIN", "SENDER_FULL_NAME", "SENDER_EMAIL", "SENDER_AVATAR_URL",
            "SENDER_USERNAME", "SENDER_LANGUAGE", "SENDER_IS_ADMIN", "SENDER_LAST_LOGIN", "SENDER_CREATED",
        ]
    );
    assert_eq!(value(&cmd, "SENDER_ID"), Some("-5"));
    assert_eq!(value(&cmd, "SENDER_LOGIN"), Some("bob"));
    assert_eq!(value(&cmd, "SENDER_IS_ADMIN"), Some("false"));
}

#[test]
fn labels_and_changes_are_described_item_by_item() {
    let mut cmd = CommandSpec::new("p");
    add_labels_env(&mut cmd, "ISSUE_LABELS_", &vec![s("bug"), s("ui")]);
    let changes = Changes { title: Some(ChangesFromPayload { from: s("old title") }), body: None, ref_path: None };
    add_changes_env(&mut cmd, "CHANGES", &changes);
    assert_eq!(names(&cmd), vec!["ISSUE_LABELS_0", "ISSUE_LABELS_1", "CHANGES_TITLE_FROM"]);
    assert_eq!(value(&cmd, "ISSUE_LABELS_1"), Some("ui"));
    assert_eq!(value(&cmd, "CHANGES_TITLE_FROM"), Some("old title"));
}

#[test]
fn a_push_runs_the_configured_program_with_each_commit_numbered() {
    let payload = push_payload(vec![commit("a1"), commit("b2")], Some(commit("b2")));
    let cmd = get_push_command(&config(), &payload);
    assert_eq!(cmd.program, "on-push");
    assert!(cmd.args.is_empty());
    let n = names(&cmd);
    assert_eq!(&n[..4], &["REF_PATH", "BEFORE", "AFTER", "COMPARE_URL"]);
    assert_eq!(n[4], "REPOSITORY_ID");
    assert_eq!(n[5], "REPOSITORY_OWNER_ID");
    assert_eq!(value(&cmd, "REF_PATH"), Some("refs/heads/develop"));
    assert_eq!(value(&cmd, "REPOSITORY_ID"), Some("140"));
    assert_eq!(value(&cmd, "REPOSITORY_FORKS_COUNT"), Some("1"));
    assert_eq!(value(&cmd, "REPOSITORY_PRIVATE"), Some("false"));
    assert_eq!(value(&cmd, "PUSHER_LOGIN"), Some("gitea"));
    assert_eq!(value(&cmd, "SENDER_ID"), Some("2"));
    assert_eq!(value(&cmd, "HEAD_COMMIT_ID"), Some("b2"));
    assert_eq!(value(&cmd, "COMMIT_0_ID"), Some("a1"));
    assert_eq!(value(&cmd, "COMMIT_1_ID"), Some("b2"));
    assert_eq!(value(&cmd, "COMMIT_1_AUTHOR_NAME"), Some("Gitea"));
    assert_eq!(value(&cmd, "COMMIT_2_ID"), None);
    assert_eq!(value(&cmd, "REPOSITORY_PARENT_ID"), None);
    assert!(cmd.envs.iter().all(|(name, _)| !name.is_empty()));
}

#[test]
fn a_push_without_commits_has_no_commit_variables() {
    let payload = push_payload(vec![], None);
    let cmd = get_push_command(&config(), &payload);
    assert!(names(&cmd).iter().all(|n| !n.starts_with("COMMIT_") && !n.starts_with("HEAD_COMMIT")));
}

#[test]
fn a_parent_repository_is_described_under_parent() {
    let mut repo = repository(9);
    repo.parent = Some(Box::new(repository(3)));
    let payload = RepositoryPayload {
        action: s("created"),
        repository: repo,
        organization: user(4, "org"),
        sender: user(5, "me"),
    };
    let cmd = get_repo_command(&config(), &payload);
    assert_eq!(cmd.program, "on-repository");
    assert_eq!(names(&cmd)[0], "ACTION");
    assert_eq!(value(&cmd, "ACTION"), Some("created"));
    assert_eq!(value(&cmd, "CREATED_REPOSITORY_ID"), Some("9"));
    assert_eq!(value(&cmd, "CREATED_REPOSITORY_PARENT_ID"), Some("3"));
    assert_eq!(value(&cmd, "CREATED_REPOSITORY_PARENT_OWNER_LOGIN"), Some("gitea"));
    assert_eq!(value(&cmd, "CREATED_ORGANIZATION_LOGIN"), Some("org"));
    assert_eq!(value(&cmd, "CREATED_SENDER_ID"), Some("5"));
    let same = get_repo_command_with(&config(), &payload, "CREATED");
    assert_eq!(same.envs, cmd.envs);
}

#[test]
fn each_event_is_answered_by_its_configured_program() {
    let handler = GiteaCliHandler::new("config.json");
    let event = HookEvent::Push(push_payload(vec![commit("c")], None));
    assert_eq!(event.kind(), EventKind::Push);
    let cmd = handler.handle_event(&config(), &event);
    assert_eq!(cmd.program, "on-push");
    assert_eq!(value(&cmd, "COMMIT_0_ID"), Some("c"));
    let repo_event = HookEvent::Repository(RepositoryPayload {
        action: s("deleted"),
        repository: repository(1),
        organization: user(4, "org"),
        sender: user(5, "me"),
    });
    let cmd = handler.handle_event(&config(), &repo_event);
    assert_eq!(cmd.program, "on-repository");
    assert_eq!(value(&cmd, "DELETED_REPOSITORY_ID"), Some("1"));
    let cmd = handler.handle_event(&Config::default(), &repo_event);
    assert_eq!(cmd.program, "");
}

#[test]
fn a_decoded_body_becomes_the_event() {
    let r = GiteaService.parse_hook_event("push", |k: EventKind| -> Result<HookEvent, serde_json::Error> {
        assert_eq!(k, EventKind::Push);
        Ok(HookEvent::Push(push_payload(vec![], None)))
    });
    match r {
        Ok(HookEvent::Push(p)) => assert_eq!(p, push_payload(vec![], None)),
        other => panic!("unexpected {:?}", other),
    }
    assert!(matches!(GiteaService::settle(Ok(HookEvent::Push(push_payload(vec![], None)))), Ok(HookEvent::Push(_))));
}
