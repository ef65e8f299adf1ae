use weblib::error::{FailureKind, FetchError};

#[test]
fn describe_names_each_kind() {
    let cases = [
        (FailureKind::Transport, "transport error: refused"),
        (FailureKind::Timeout, "timeout error: refused"),
        (FailureKind::Decode, "decode error: refused"),
        (FailureKind::Auth, "auth error: refused"),
    ];
    for (kind, text) in cases {
        assert_eq!(FetchError::new(kind, "refused".to_string()).describe(), text);
    }
}

#[test]
fn at_attempt_keeps_the_cause() {
    let e = FetchError::new(FailureKind::Timeout, "slow".to_string()).at_attempt(3);
    assert_eq!(e.kind, FailureKind::Timeout);
    assert_eq!(e.message, "slow");
    assert_eq!(e.attempt, Some(3));
    assert_eq!(FetchError::new(FailureKind::Decode, String::new()).attempt, None);
}
