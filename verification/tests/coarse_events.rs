use luffy::gitea::{Commit, GitUser, Gitea, GiteaUser, HookEvent, PushEvent, Repository, PUSH_EVENT_HEADER_NAME};
use luffy::push_handler::{handle_push_event, CliHandler};

fn s(t: &str) -> String {
    t.to_string()
}

fn gitea_user() -> GiteaUser {
    GiteaUser {
        id: 1,
        login: s("gitea"),
        full_name: s("Gitea"),
        email: s("someone@gitea.io"),
        avatar_url: s("https://localhost:3000/avatars/1"),
        username: s("gitea"),
    }
}

fn push_event() -> PushEvent {
    let git_user = || GitUser { name: s("Gitea"), email: s("someone@gitea.io"), username: s("gitea") };
    PushEvent {
        ref_path: s("refs/heads/develop"),
        before: s("28e1879d029cb852e4844d9c718537df08844e03"),
        after: s("bffeb74224043ba2feb48d137756c8a9331c449a"),
        compare_url: s("http://localhost:3000/gitea/webhooks/compare/28e1879d029cb852e4844d9c718537df08844e03...bffeb74224043ba2feb48d137756c8a9331c449a"),
        commits: vec![Commit {
            id: s("bffeb74224043ba2feb48d137756c8a9331c449a"),
            message: s("Webhooks Yay!"),
            url: s("http://localhost:3000/gitea/webhooks/commit/bffeb74224043ba2feb48d137756c8a9331c449a"),
            author: git_user(),
            committer: git_user(),
            timestamp: s("2017-03-13T13:52:11-04:00"),
        }],
        repository: Repository {
            id: 140,
            owner: gitea_user(),
            name: s("webhooks"),
            full_name: s("gitea/webhooks"),
            description: s(""),
            private: false,
            fork: false,
            html_url: s("http://localhost:3000/gitea/webhooks"),
            ssh_url: s("ssh://gitea@localhost:2222/gitea/webhooks.git"),
            clone_url: s("http://localhost:3000/gitea/webhooks.git"),
            website: s(""),
            stars_count: 0,
            forks_count: 1,
            watchers_count: 1,
            open_issues_count: 7,
            default_branch: s("master"),
            created_at: s("2017-02-26T04:29:06-05:00"),
            updated_at: s("2017-03-13T13:51:58-04:00"),
        },
        pusher: gitea_user(),
        sender: gitea_user(),
    }
}

const UNIT_NAMES: [&str; 17] = [
    "create", "delete", "fork", "issues", "issue_assign", "issue_label", "issue_milestone", "issue_comment",
    "pull_request", "pull_request_assign", "pull_request_label", "pull_request_milestone", "pull_request_comment",
    "pull_request_review", "pull_request_sync", "repository", "release",
];

#[test]
fn coarse_header_name_is_gitea_event() {
    assert_eq!(Gitea.event_header_name(), "X-Gitea-Event");
    assert_eq!(PUSH_EVENT_HEADER_NAME, "X-Gitea-Event");
}

#[test]
fn a_push_reads_its_body() {
    let r = Gitea.parse_hook_event("push", || Ok(push_event()));
    match r {
        Ok(HookEvent::Push(p)) => assert_eq!(p, push_event()),
        other => panic!("unexpected {:?}", other),
    }
    let r = Gitea.parse_hook_event("push", || Err(s("expected value at line 1 column 1")));
    match r {
        Err(m) => assert_eq!(m, "expected value at line 1 column 1"),
        other => panic!("unexpected {:?}", other),
    }
}

#[test]
fn other_events_carry_no_payload_and_ignore_the_body() {
    for name in UNIT_NAMES.iter() {
        let r = Gitea.parse_hook_event(name, || -> Result<PushEvent, String> { panic!("body read") });
        assert!(r.is_ok(), "{}", name);
    }
    assert!(matches!(Gitea.parse_hook_event("issue_label", || Err(s("x"))), Ok(HookEvent::IssueLabel(_))));
    assert!(matches!(Gitea.parse_hook_event("release", || Err(s("x"))), Ok(HookEvent::Release(_))));
    assert!(matches!(Gitea::unit_event("pull_request_sync"), Some(HookEvent::PullRequestSync(_))));
    assert!(Gitea::unit_event("push").is_none());
}

#[test]
fn an_unknown_event_is_unrecognized() {
    for name in ["", "star", "Push", "wiki"].iter() {
        match Gitea.parse_hook_event(name, || -> Result<PushEvent, String> { panic!("body read") }) {
            Err(m) => assert_eq!(m, "unrecognized git event"),
            other => panic!("unexpected {:?}", other),
        }
    }
}

#[test]
fn a_push_runs_echoer_with_the_push_described() {
    let cmd = handle_push_event(&push_event());
    assert_eq!(cmd.program, "echoer");
    assert_eq!(cmd.args, vec![s("hi $PUSH_PUSHER_FULL_NAME")]);
    let get = |n: &str| cmd.envs.iter().find(|(k, _)| k == n).map(|(_, v)| v.clone());
    assert_eq!(cmd.envs.len(), 38);
    assert_eq!(cmd.envs[0], (s("PUSH_REF_PATH"), s("refs/heads/develop")));
    assert_eq!(get("PUSH_PUSHER_FULL_NAME"), Some(s("Gitea")));
    assert_eq!(get("PUSH_SENDER_ID"), Some(s("1")));
    assert_eq!(get("PUSH_REPOSITORY_ID"), Some(s("140")));
    assert_eq!(get("PUSH_REPOSITORY_OWNER_EMAIL"), Some(s("someone@gitea.io")));
    assert_eq!(get("PUSH_REPOSITORY_PRIVATE"), Some(s("false")));
    assert_eq!(get("PUSH_REPOSITORY_OPEN_ISSUES_COUNT"), Some(s("7")));
    assert_eq!(cmd.envs[37], (s("PUSH_REPOSITORY_UPDATED_AT"), s("2017-03-13T13:51:58-04:00")));
}

#[test]
fn only_a_push_is_answered() {
    let handler = CliHandler;
    assert!(handler.handle_event(&HookEvent::Push(push_event())).is_some());
    let r = Gitea.parse_hook_event("fork", || -> Result<PushEvent, String> { panic!("body read") }).unwrap();
    assert!(handler.handle_event(&r).is_none());
}
