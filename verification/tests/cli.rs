use pushover_api::cli::{priority_from_word, ArgumentError, SendMessageArgs};
use pushover_api::MessagePriority;

fn minimal_args() -> SendMessageArgs {
    SendMessageArgs {
        token: "tok".to_string(),
        user: "usr".to_string(),
        message: "hi".to_string(),
        device: None,
        title: None,
        url: None,
        url_title: None,
        priority: None,
        sound: None,
        timestamp: None,
    }
}

fn fault_of(args: SendMessageArgs) -> ArgumentError {
    match args.into_message() {
        Err(fault) => fault,
        Ok(message) => panic!("expected a fault, got {:?}", message),
    }
}

#[test]
fn minimal_arguments_make_the_minimal_message() {
    let message = minimal_args().into_message().unwrap();
    assert_eq!(message.token, "tok");
    assert_eq!(message.user, "usr");
    assert_eq!(message.message, "hi");
    assert_eq!(message.device, None);
    assert_eq!(message.title, None);
    assert_eq!(message.url, None);
    assert_eq!(message.url_title, None);
    assert_eq!(message.priority, None);
    assert_eq!(message.sound, None);
    assert_eq!(message.timestamp, None);
}

#[test]
fn two_devices_are_joined_by_a_comma() {
    let mut args = minimal_args();
    args.device = Some(vec!["a".to_string(), "b".to_string()]);
    assert_eq!(args.into_message().unwrap().device, Some("a,b".to_string()));
}

#[test]
fn devices_keep_their_order() {
    let mut args = minimal_args();
    args.device = Some(vec!["phone".to_string(), "desktop".to_string(), "tablet".to_string()]);
    assert_eq!(args.into_message().unwrap().device, Some("phone,desktop,tablet".to_string()));
    let mut args = minimal_args();
    args.device = Some(vec!["phone".to_string()]);
    assert_eq!(args.into_message().unwrap().device, Some("phone".to_string()));
}

#[test]
fn url_title_without_url_is_refused() {
    let mut args = minimal_args();
    args.url_title = Some("X".to_string());
    assert_eq!(fault_of(args), ArgumentError::UrlTitleWithoutUrl);
}

#[test]
fn url_title_with_url_is_taken() {
    let mut args = minimal_args();
    args.url = Some("https://example.com".to_string());
    args.url_title = Some("X".to_string());
    let message = args.into_message().unwrap();
    assert_eq!(message.url, Some("https://example.com".to_string()));
    assert_eq!(message.url_title, Some("X".to_string()));
    let mut args = minimal_args();
    args.url = Some("https://example.com".to_string());
    let message = args.into_message().unwrap();
    assert_eq!(message.url, Some("https://example.com".to_string()));
    assert_eq!(message.url_title, None);
}

#[test]
fn timestamp_that_is_no_number_is_refused() {
    let mut args = minimal_args();
    args.timestamp = Some("notanumber".to_string());
    assert_eq!(fault_of(args), ArgumentError::InvalidTimestamp);
    for digits in ["", "1.5", "9223372036854775808", "12 "] {
        let mut args = minimal_args();
        args.timestamp = Some(digits.to_string());
        assert_eq!(fault_of(args), ArgumentError::InvalidTimestamp);
    }
}

#[test]
fn timestamp_is_read_in_base_ten() {
    let mut args = minimal_args();
    args.timestamp = Some("1600000000".to_string());
    assert_eq!(args.into_message().unwrap().timestamp, Some(1_600_000_000));
    let mut args = minimal_args();
    args.timestamp = Some("-1".to_string());
    assert_eq!(args.into_message().unwrap().timestamp, Some(-1));
}

#[test]
fn priority_is_given_by_its_word() {
    let cases = [
        ("lowest", MessagePriority::Lowest),
        ("low", MessagePriority::Low),
        ("normal", MessagePriority::Normal),
        ("high", MessagePriority::High),
    ];
    for (word, priority) in cases {
        let mut args = minimal_args();
        args.priority = Some(word.to_string());
        assert_eq!(args.into_message().unwrap().priority, Some(priority));
        assert_eq!(priority_from_word(word), Some(priority));
    }
}

#[test]
fn priority_by_anything_but_its_word_is_refused() {
    for word in ["-2", "-1", "0", "1", "", "urgent", "High", "emergency"] {
        let mut args = minimal_args();
        args.priority = Some(word.to_string());
        assert_eq!(fault_of(args), ArgumentError::UnknownPriority);
        assert_eq!(priority_from_word(word), None);
    }
}

#[test]
fn the_first_fault_is_reported() {
    let mut args = minimal_args();
    args.url_title = Some("X".to_string());
    args.priority = Some("urgent".to_string());
    args.timestamp = Some("soon".to_string());
    assert_eq!(fault_of(args), ArgumentError::UrlTitleWithoutUrl);
    let mut args = minimal_args();
    args.priority = Some("urgent".to_string());
    args.timestamp = Some("soon".to_string());
    assert_eq!(fault_of(args), ArgumentError::UnknownPriority);
}

#[test]
fn every_argument_reaches_its_field() {
    let args = SendMessageArgs {
        token: "tok".to_string(),
        user: "usr".to_string(),
        message: "hello".to_string(),
        device: Some(vec!["a".to_string(), "b".to_string()]),
        title: Some("T".to_string()),
        url: Some("https://example.com".to_string()),
        url_title: Some("Example".to_string()),
        priority: Some("high".to_string()),
        sound: Some("pushover".to_string()),
        timestamp: Some("1600000000".to_string()),
    };
    let message = args.into_message().unwrap();
    assert_eq!(
        message.to_json().unwrap(),
        r#"{"device":"a,b","message":"hello","priority":1,"sound":"pushover","timestamp":1600000000,"title":"T","token":"tok","url":"https://example.com","url_title":"Example","user":"usr"}"#
    );
}
