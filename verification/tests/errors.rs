use backend::http::{Error, FailureKind, FieldErrors, StoreFailure};

fn failure(kind: FailureKind, detail: &str) -> StoreFailure {
    StoreFailure { kind, detail: detail.to_string() }
}

#[test]
fn unprocessable_entity_collects_messages_by_field() {
    let error = Error::unprocessable_entity(vec![
        ("email".to_string(), "first".to_string()),
        ("grade".to_string(), "second".to_string()),
        ("email".to_string(), "third".to_string()),
    ]);
    match error {
        Error::UnprocessableEntity { errors } => {
            assert_eq!(
                errors.messages("email"),
                Some(vec!["first".to_string(), "third".to_string()])
            );
            assert_eq!(errors.messages("grade"), Some(vec!["second".to_string()]));
            assert_eq!(errors.messages("id"), None);
            assert!(!errors.is_empty());
        }
        other => panic!("expected validation errors, got {:?}", other),
    }
}

#[test]
fn unprocessable_entity_of_nothing_is_empty() {
    match Error::unprocessable_entity(Vec::new()) {
        Error::UnprocessableEntity { errors } => assert!(errors.is_empty()),
        other => panic!("expected validation errors, got {:?}", other),
    }
}

#[test]
fn field_errors_keep_the_order_of_messages() {
    let mut errors = FieldErrors::new();
    assert!(errors.is_empty());
    errors.add("a".to_string(), "1".to_string());
    errors.add("b".to_string(), "2".to_string());
    errors.add("a".to_string(), "3".to_string());
    errors.add("a".to_string(), "1".to_string());
    assert_eq!(
        errors.messages("a"),
        Some(vec!["1".to_string(), "3".to_string(), "1".to_string()])
    );
    assert!(errors.contains_key("b"));
    assert!(!errors.contains_key("c"));
}

#[test]
fn io_failure_is_a_connection_error() {
    let error = Error::from_redis_error(failure(FailureKind::Io, "connection refused"));
    assert!(matches!(error, Error::RedisConnection(ref detail) if detail == "connection refused"));
    assert_eq!(error.status_code(), 500);
    assert_eq!(error.message(), "failed to connect to Redis: connection refused");
}

#[test]
fn response_failure_with_nil_is_a_missing_key() {
    let error = Error::from_redis_error(failure(FailureKind::Response, "response was nil"));
    assert!(matches!(error, Error::RedisKeyNotFound(ref detail) if detail == "response was nil"));
    assert_eq!(error.status_code(), 404);
    assert_eq!(error.message(), "Redis key not found: response was nil");
}

#[test]
fn response_failure_without_nil_is_a_command_error() {
    let error = Error::from_redis_error(failure(FailureKind::Response, "ERR unknown command"));
    assert!(matches!(error, Error::RedisCommand(ref detail) if detail == "ERR unknown command"));
    assert_eq!(error.status_code(), 500);
    assert_eq!(error.message(), "Redis command failed: ERR unknown command");
    // The three letters have to stand together.
    let error = Error::from_redis_error(failure(FailureKind::Response, "n i l, ni, il"));
    assert!(matches!(error, Error::RedisCommand(_)));
}

#[test]
fn type_and_client_failures_are_parse_errors() {
    let error = Error::from_redis_error(failure(FailureKind::Type, "not a string, nil"));
    assert!(matches!(error, Error::RedisParseError(ref detail) if detail == "not a string, nil"));
    assert_eq!(error.message(), "failed to parse Redis data: not a string, nil");
    let error = Error::from_redis_error(failure(FailureKind::Client, "bad request"));
    assert!(matches!(error, Error::RedisParseError(_)));
    assert_eq!(error.status_code(), 500);
}

#[test]
fn rejected_credentials_are_an_authentication_error() {
    let error = Error::from_redis_error(failure(
        FailureKind::Authentication,
        "WRONGPASS invalid username-password pair",
    ));
    assert!(matches!(
        error,
        Error::RedisAuthentication(ref detail) if detail == "WRONGPASS invalid username-password pair"
    ));
    assert_eq!(error.status_code(), 500);
    assert_eq!(
        error.message(),
        "Redis authentication failed: WRONGPASS invalid username-password pair"
    );
}

#[test]
fn other_failures_are_command_errors() {
    let error = Error::from_redis_error(failure(FailureKind::Other, "cluster is down"));
    assert!(matches!(error, Error::RedisCommand(ref detail) if detail == "cluster is down"));
    assert_eq!(error.status_code(), 500);
    assert_eq!(error.message(), "Redis command failed: cluster is down");
    // Not even a text that mentions nil makes another class a missing key.
    let error = Error::from_redis_error(failure(FailureKind::Other, "nil"));
    assert!(matches!(error, Error::RedisCommand(_)));
}

#[test]
fn no_class_of_failure_leaves_the_five_kinds() {
    let kinds = [
        FailureKind::Io,
        FailureKind::Response,
        FailureKind::Type,
        FailureKind::Client,
        FailureKind::Authentication,
        FailureKind::Other,
    ];
    for kind in kinds {
        for detail in ["", "nil", "ERR wrong number of arguments"] {
            let error = Error::from_redis_error(failure(kind, detail));
            assert!(matches!(
                error,
                Error::RedisConnection(_)
                    | Error::RedisAuthentication(_)
                    | Error::RedisCommand(_)
                    | Error::RedisKeyNotFound(_)
                    | Error::RedisParseError(_)
            ));
        }
    }
}

#[test]
fn internal_errors_keep_their_text_to_themselves() {
    let error = Error::Internal("stack trace".to_string());
    assert_eq!(error.status_code(), 500);
    assert_eq!(error.message(), "an internal server error occurred");
}

#[test]
fn unsupported_reply_is_a_type_failure() {
    let failure = StoreFailure::unsupported_reply("double(1.5)");
    assert_eq!(failure.kind, FailureKind::Type);
    assert_eq!(failure.detail, "unsupported reply: double(1.5)");
    assert!(matches!(Error::from_redis_error(failure), Error::RedisParseError(_)));
}

#[test]
fn collected_errors_name_each_field_once() {
    let error = Error::unprocessable_entity(vec![
        ("a".to_string(), "1".to_string()),
        ("b".to_string(), "2".to_string()),
        ("a".to_string(), "3".to_string()),
        ("c".to_string(), "4".to_string()),
        ("b".to_string(), "5".to_string()),
    ]);
    match error {
        Error::UnprocessableEntity { errors } => {
            let mut names = errors.keys();
            names.sort();
            assert_eq!(names, vec!["a".to_string(), "b".to_string(), "c".to_string()]);
        }
        other => panic!("expected validation errors, got {:?}", other),
    }
}

#[test]
fn status_codes_and_messages_of_plain_errors() {
    assert_eq!(Error::Unauthorized.status_code(), 401);
    assert_eq!(Error::Forbidden.status_code(), 403);
    assert_eq!(Error::NotFound.status_code(), 404);
    assert_eq!(Error::unprocessable_entity(Vec::new()).status_code(), 422);
    assert_eq!(Error::RedisAuthentication("x".to_string()).status_code(), 500);
    assert_eq!(Error::Unauthorized.message(), "authentication required");
    assert_eq!(Error::Forbidden.message(), "user may not perform that action");
    assert_eq!(Error::NotFound.message(), "request path not found");
    assert_eq!(Error::unprocessable_entity(Vec::new()).message(), "error in the request body");
    assert_eq!(
        Error::RedisAuthentication("WRONGPASS".to_string()).message(),
        "Redis authentication failed: WRONGPASS"
    );
}

#[test]
fn field_errors_list_each_field_once() {
    let mut errors = FieldErrors::new();
    assert!(errors.keys().is_empty());
    errors.add("b".to_string(), "1".to_string());
    errors.add("a".to_string(), "2".to_string());
    errors.add("b".to_string(), "3".to_string());
    let mut names = errors.keys();
    names.sort();
    assert_eq!(names, vec!["a".to_string(), "b".to_string()]);
}

#[test]
fn decimal_notation_and_byte_length() {
    assert_eq!(backend::text::decimal_string(0), "0");
    assert_eq!(backend::text::decimal_string(9), "9");
    assert_eq!(backend::text::decimal_string(10), "10");
    assert_eq!(backend::text::decimal_string(1_000_000), "1000000");
    assert_eq!(backend::text::decimal_string(u64::MAX), "18446744073709551615");
    assert_eq!(backend::text::byte_len(""), 0);
    assert_eq!(backend::text::byte_len("abc"), 3);
    assert_eq!(backend::text::byte_len("caf\u{e9}"), 5);
}
