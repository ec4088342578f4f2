use luffy::server_config::{allowed_host_names, parse_allowed_hosts};

#[test]
fn allowed_hosts_are_a_json_array_of_names() {
    assert_eq!(parse_allowed_hosts("[]").unwrap(), Vec::<String>::new());
    assert_eq!(
        parse_allowed_hosts(r#"["example.com", "localhost:9669"]"#).unwrap(),
        vec!["example.com".to_string(), "localhost:9669".to_string()]
    );
    assert!(parse_allowed_hosts("example.com").is_err());
    assert!(parse_allowed_hosts("[1, 2]").is_err());
}

#[test]
fn the_bind_address_is_always_allowed_first() {
    let hosts = vec!["a.example".to_string(), "b.example".to_string()];
    assert_eq!(
        allowed_host_names("127.0.0.1:9669".to_string(), &hosts),
        vec!["127.0.0.1:9669".to_string(), "a.example".to_string(), "b.example".to_string()]
    );
    assert_eq!(allowed_host_names("h:1".to_string(), &vec![]), vec!["h:1".to_string()]);
}
