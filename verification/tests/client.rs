use fogws::client::{
    check_target, check_uri, connection_failed, has_invalid_explicit_port, parse_target, Authority,
    RequestTarget,
};
use fogws::error::DriverError;

fn invalid_uri(result: Result<(), DriverError>) -> String {
    match result {
        Err(DriverError::InvalidUri(message)) => message,
        other => panic!("expected an invalid URI, got {other:?}"),
    }
}

#[test]
fn explicit_port_validation_preserves_valid_authorities() {
    for value in [
        "ws://example.test/path",
        "ws://example.test:0/path",
        "ws://example.test:65535/path",
        "ws://[::1]/path",
        "ws://[::1]:80/path",
    ] {
        let target = parse_target(value).unwrap();
        assert!(!has_invalid_explicit_port(&target), "{value}");
    }
}

#[test]
fn explicit_port_validation_rejects_unusable_authorities() {
    for value in [
        "ws://example.test:/path",
        "ws://example.test:abc/path",
        "ws://example.test:65536/path",
        "ws://[::1]:99999/path",
    ] {
        let target = parse_target(value).unwrap();
        assert!(has_invalid_explicit_port(&target), "{value}");
    }
}

#[test]
fn a_target_is_taken_apart() {
    assert_eq!(
        parse_target("ws://user:80@example.test:8765/socket").unwrap(),
        RequestTarget {
            scheme: Some("ws".to_owned()),
            authority: Some(Authority {
                text: "user:80@example.test:8765".to_owned(),
                host: "example.test".to_owned(),
                port: Some(8765),
            }),
        },
    );
}

#[test]
fn user_information_is_no_port() {
    assert!(check_uri("ws://user:secret@example.test/").is_ok());
    assert_eq!(
        invalid_uri(check_uri("ws://user:80@example.test:/")),
        "WebSocket URI has an invalid explicit port",
    );
}

#[test]
fn only_plain_schemes_are_accepted() {
    assert!(check_uri("ws://127.0.0.1:8765/socket").is_ok());
    for value in ["wss://example.test/", "http://example.test/", "example.test"] {
        assert_eq!(
            invalid_uri(check_uri(value)),
            "only plain ws:// URIs are supported in this release slice",
        );
    }
}

#[test]
fn the_scheme_is_checked_before_the_port() {
    assert_eq!(
        invalid_uri(check_uri("wss://example.test:abc/")),
        "only plain ws:// URIs are supported in this release slice",
    );
}

#[test]
fn a_text_that_is_no_uri_is_refused() {
    for value in ["", "ws://", "/path", "ws://exa mple.test/"] {
        let message = invalid_uri(check_uri(value));
        assert!(message.starts_with("invalid WebSocket URI: "), "{message}");
        assert!(message.len() > "invalid WebSocket URI: ".len());
    }
}

#[test]
fn a_target_without_authority_has_no_port() {
    let target = RequestTarget { scheme: Some("ws".to_owned()), authority: None };

    assert!(!has_invalid_explicit_port(&target));
    assert!(check_target(&target).is_ok());
}

#[test]
fn a_failed_attempt_is_described() {
    assert_eq!(
        connection_failed("refused"),
        DriverError::ConnectionFailed("WebSocket connection failed: refused".to_owned()),
    );
}
