use linear_mg::error::CliError;

fn all_errors() -> Vec<CliError> {
    vec![
        CliError::NoApiKey,
        CliError::AuthError("bad key".into()),
        CliError::RateLimited { retry_after: Some(30) },
        CliError::HttpError { status: 500, body: "oops".into() },
        CliError::GraphQlErrors(vec!["a".into()]),
        CliError::NoData,
        CliError::NotFound("team 'x'".into()),
        CliError::InvalidInput("bad".into()),
        CliError::ConfigError("broken".into()),
        CliError::Reqwest("connection refused".into()),
        CliError::Io("denied".into()),
        CliError::SerdeJson("expected value".into()),
        CliError::TomlParse("line 1".into()),
        CliError::TomlSerialize("unsupported".into()),
    ]
}

#[test]
fn error_types() {
    let types: Vec<&str> = all_errors().iter().map(|e| e.error_type()).collect();
    assert_eq!(
        types,
        vec![
            "no_api_key",
            "auth_error",
            "rate_limited",
            "http_error",
            "graphql_error",
            "no_data",
            "not_found",
            "invalid_input",
            "config_error",
            "request_error",
            "io_error",
            "json_error",
            "toml_parse_error",
            "toml_serialize_error",
        ]
    );
}

#[test]
fn exit_codes() {
    let codes: Vec<i32> = all_errors().iter().map(|e| e.exit_code()).collect();
    assert_eq!(codes, vec![2, 2, 3, 6, 6, 6, 4, 5, 1, 1, 1, 1, 1, 1]);
    assert!(codes.iter().all(|c| (1..=6).contains(c)));
}

#[test]
fn messages_of_plain_errors() {
    assert_eq!(
        CliError::NoApiKey.message(),
        "No API key configured. Set LINEAR_API_KEY or run `linear-mg auth login`"
    );
    assert_eq!(CliError::AuthError("bad key".into()).message(), "Authentication failed: bad key");
    assert_eq!(CliError::NoData.message(), "No data returned from API");
    assert_eq!(CliError::NotFound("team 'x'".into()).message(), "Not found: team 'x'");
    assert_eq!(CliError::InvalidInput("bad".into()).message(), "Invalid input: bad");
    assert_eq!(CliError::ConfigError("broken".into()).message(), "Config error: broken");
    assert_eq!(CliError::Reqwest("connection refused".into()).message(), "connection refused");
    assert_eq!(CliError::Io("denied".into()).message(), "denied");
    assert_eq!(CliError::SerdeJson("expected value".into()).message(), "expected value");
    assert_eq!(CliError::TomlParse("line 1".into()).message(), "TOML parse error: line 1");
    assert_eq!(CliError::TomlSerialize("unsupported".into()).message(), "TOML serialize error: unsupported");
}

#[test]
fn rate_limit_message_shows_retry() {
    assert_eq!(
        CliError::RateLimited { retry_after: Some(30) }.message(),
        "Rate limited. Retry after Some(30) seconds"
    );
    assert_eq!(
        CliError::RateLimited { retry_after: None }.message(),
        "Rate limited. Retry after None seconds"
    );
}

#[test]
fn http_error_message_names_status() {
    assert_eq!(
        CliError::HttpError { status: 404, body: "missing".into() }.message(),
        "HTTP error 404 Not Found: missing"
    );
    assert_eq!(
        CliError::HttpError { status: 500, body: "".into() }.message(),
        "HTTP error 500 Internal Server Error: "
    );
    assert_eq!(
        CliError::HttpError { status: 599, body: "x".into() }.message(),
        "HTTP error 599 <unknown status code>: x"
    );
}

#[test]
fn graphql_errors_message_lists_messages() {
    assert_eq!(
        CliError::GraphQlErrors(vec!["Entity not found".into(), "say \"hi\"".into()]).message(),
        "GraphQL errors: [\"Entity not found\", \"say \\\"hi\\\"\"]"
    );
    assert_eq!(CliError::GraphQlErrors(vec![]).message(), "GraphQL errors: []");
}
