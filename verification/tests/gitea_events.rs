use luffy::luffy_gitea::{EventKind, GiteaError, GiteaService, HookEvent};

const NAMES: [(&str, EventKind); 9] = [
    ("create", EventKind::Create),
    ("delete", EventKind::Delete),
    ("fork", EventKind::Fork),
    ("issues", EventKind::Issues),
    ("issue_comment", EventKind::IssueComment),
    ("push", EventKind::Push),
    ("pull_request", EventKind::PullRequest),
    ("repository", EventKind::Repository),
    ("release", EventKind::Release),
];

#[test]
fn header_name_is_gitea_event() {
    assert_eq!(GiteaService.event_header_name(), "X-Gitea-Event");
}

#[test]
fn every_event_type_name_selects_its_kind() {
    for (name, kind) in NAMES.iter() {
        assert_eq!(EventKind::from_name(name), Some(*kind));
        assert_eq!(kind.name(), *name);
        assert!(matches!(GiteaService.event_kind(name), Ok(k) if k == *kind));
    }
}

#[test]
fn unknown_event_type_is_reported_with_its_name() {
    for name in ["", "Push", "issue_assign", "pushes", "release "].iter() {
        assert_eq!(EventKind::from_name(name), None);
        match GiteaService.event_kind(name) {
            Err(GiteaError::EventType(n)) => assert_eq!(n, *name),
            other => panic!("unexpected {:?}", other),
        }
    }
}

#[test]
fn unknown_event_type_never_decodes_the_body() {
    let r = GiteaService.parse_hook_event("star", |_k: EventKind| -> Result<HookEvent, serde_json::Error> {
        panic!("the body must not be read")
    });
    match r {
        Err(GiteaError::EventType(n)) => assert_eq!(n, "star"),
        other => panic!("unexpected {:?}", other),
    }
}

#[test]
fn decoding_is_asked_for_the_named_kind_and_its_error_is_a_payload_error() {
    for (name, kind) in NAMES.iter() {
        let r = GiteaService.parse_hook_event(name, |k: EventKind| -> Result<HookEvent, serde_json::Error> {
            assert_eq!(k, *kind);
            Err(serde_json::from_str::<u8>("not json").unwrap_err())
        });
        assert!(matches!(r, Err(GiteaError::PayloadBody(_))));
    }
}

#[test]
fn settle_wraps_a_decoding_error() {
    let e = serde_json::from_str::<u8>("[").unwrap_err();
    assert!(matches!(GiteaService::settle(Err(e)), Err(GiteaError::PayloadBody(_))));
    let e = serde_json::from_str::<u8>("x").unwrap_err();
    assert!(matches!(GiteaError::from(e), GiteaError::PayloadBody(_)));
}

#[test]
fn an_unknown_event_type_explains_itself() {
    let r = GiteaService.parse_hook_event("ping", |_k: EventKind| -> Result<HookEvent, serde_json::Error> {
        panic!("the body must not be read")
    });
    let e = r.unwrap_err();
    assert_eq!(
        e.message(),
        "unrecognized event type ping, you may need to report a bug to github.com/limegrass/luffy"
    );
    assert_eq!(
        GiteaError::event_type_text("x"),
        "unrecognized event type x, you may need to report a bug to github.com/limegrass/luffy"
    );
}

#[test]
fn a_payload_error_carries_the_decoding_error_text() {
    let decode_error = || serde_json::from_str::<Vec<u8>>("{}").unwrap_err();
    let r = GiteaService.parse_hook_event("push", |_k: EventKind| -> Result<HookEvent, serde_json::Error> {
        Err(decode_error())
    });
    let e = r.unwrap_err();
    assert_eq!(
        e.message(),
        format!(
            "error while deserializing {}, you may need to report a bug to github.com/limegrass/luffy",
            decode_error()
        )
    );
    let e = GiteaError::from(decode_error());
    assert!(matches!(e, GiteaError::PayloadBody(_)));
    let m = e.message();
    assert!(m.starts_with("error while deserializing "));
    assert!(m.ends_with(", you may need to report a bug to github.com/limegrass/luffy"));
    assert_eq!(
        GiteaError::payload_body_text("missing field `ref`"),
        "error while deserializing missing field `ref`, you may need to report a bug to github.com/limegrass/luffy"
    );
}
