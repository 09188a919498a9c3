use pushover_api::SendError;

#[test]
fn message_is_the_text_that_the_error_carries() {
    assert_eq!(SendError::Transport("connection refused".to_string()).message(), "connection refused");
    assert_eq!(SendError::Encode("key must be a string".to_string()).message(), "key must be a string");
    assert_eq!(SendError::Decode("expected value".to_string()).message(), "expected value");
    assert_eq!(SendError::Rejected("invalid token, invalid user".to_string()).message(), "invalid token, invalid user");
}

#[test]
fn the_kinds_of_error_are_told_apart() {
    let errors = [
        SendError::Transport("x".to_string()),
        SendError::Encode("x".to_string()),
        SendError::Decode("x".to_string()),
        SendError::Rejected("x".to_string()),
    ];
    assert!(matches!(errors[0], SendError::Transport(_)));
    assert!(matches!(errors[1], SendError::Encode(_)));
    assert!(matches!(errors[2], SendError::Decode(_)));
    assert!(matches!(errors[3], SendError::Rejected(_)));
    assert!(!matches!(errors[0], SendError::Decode(_) | SendError::Rejected(_) | SendError::Encode(_)));
    assert!(!matches!(errors[2], SendError::Transport(_) | SendError::Rejected(_) | SendError::Encode(_)));
    assert!(!matches!(errors[3], SendError::Transport(_) | SendError::Decode(_) | SendError::Encode(_)));
}
