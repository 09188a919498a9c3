use pushover_api::{MessageResponse, SendError};

fn rejection(outcome: Result<MessageResponse, SendError>) -> String {
    match outcome {
        Err(SendError::Rejected(complaints)) => complaints,
        other => panic!("expected a rejection, got {:?}", other),
    }
}

fn decoding_failure(outcome: Result<MessageResponse, SendError>) -> String {
    match outcome {
        Err(SendError::Decode(reason)) => reason,
        other => panic!("expected a decode error, got {:?}", other),
    }
}

#[test]
fn reply_without_errors_is_a_success() {
    let response = MessageResponse::from_reply(200, r#"{"status":1,"request":"647d2300-702c-4b38-8b2f-d56326ae460b"}"#).unwrap();
    assert_eq!(response.http_status, 200);
    assert_eq!(response.request, "647d2300-702c-4b38-8b2f-d56326ae460b");
    assert_eq!(response.status, 1);
}

#[test]
fn reply_with_empty_errors_is_a_success() {
    let response = MessageResponse::from_reply(200, r#"{"errors":[],"status":1,"request":"abc"}"#).unwrap();
    assert_eq!(response.http_status, 200);
    assert_eq!(response.request, "abc");
    assert_eq!(response.status, 1);
}

#[test]
fn success_goes_by_the_errors_alone() {
    let response = MessageResponse::from_reply(500, r#"{"status":0,"request":"r"}"#).unwrap();
    assert_eq!(response.http_status, 500);
    assert_eq!(response.status, 0);
    assert_eq!(response.request, "r");
    let complaints = rejection(MessageResponse::from_reply(200, r#"{"status":1,"request":"r","errors":["odd"]}"#));
    assert_eq!(complaints, "odd");
}

#[test]
fn one_error_is_a_rejection_with_its_text() {
    let body = r#"{"token":"invalid","errors":["invalid token"],"status":0,"request":"5042853c-402d-4a18-abcb-168734a801de"}"#;
    assert_eq!(rejection(MessageResponse::from_reply(400, body)), "invalid token");
}

#[test]
fn several_errors_are_joined_in_their_order() {
    let body = r#"{"errors":["invalid token","invalid user"],"status":0,"request":"r"}"#;
    assert_eq!(rejection(MessageResponse::from_reply(400, body)), "invalid token, invalid user");
    let body = r#"{"errors":["c","a","b",""],"status":0,"request":"r"}"#;
    assert_eq!(rejection(MessageResponse::from_reply(400, body)), "c, a, b, ");
}

#[test]
fn status_is_read_over_its_whole_range() {
    let response = MessageResponse::from_reply(200, r#"{"status":2147483647,"request":""}"#).unwrap();
    assert_eq!(response.status, i32::MAX);
    assert_eq!(response.request, "");
    let response = MessageResponse::from_reply(200, r#"{"status":-2147483648,"request":""}"#).unwrap();
    assert_eq!(response.status, i32::MIN);
    assert_eq!(
        decoding_failure(MessageResponse::from_reply(200, r#"{"status":2147483648,"request":""}"#)),
        "the JSON does not describe a response"
    );
    assert_eq!(
        decoding_failure(MessageResponse::from_reply(200, r#"{"status":-2147483649,"request":""}"#)),
        "the JSON does not describe a response"
    );
}

#[test]
fn body_that_is_no_json_is_a_decode_error() {
    for body in ["", "<html>502 Bad Gateway</html>", "{\"status\":1,", "{\"status\":1,\"request\":\"r\"}}"] {
        let reason = decoding_failure(MessageResponse::from_reply(502, body));
        let expected = serde_json::from_str::<serde_json::Value>(body).unwrap_err().to_string();
        assert_eq!(reason, expected);
    }
}

#[test]
fn json_of_another_shape_is_a_decode_error() {
    let bodies = [
        "null",
        "[]",
        "1",
        "\"ok\"",
        "{}",
        r#"{"status":1}"#,
        r#"{"request":"r"}"#,
        r#"{"status":"1","request":"r"}"#,
        r#"{"status":1.0,"request":"r"}"#,
        r#"{"status":null,"request":"r"}"#,
        r#"{"status":1,"request":null}"#,
        r#"{"status":1,"request":7}"#,
        r#"{"status":1,"request":"r","errors":null}"#,
        r#"{"status":1,"request":"r","errors":"invalid token"}"#,
        r#"{"status":1,"request":"r","errors":["invalid token",1]}"#,
        r#"{"status":1,"request":"r","errors":[null]}"#,
        r#"{"status":1,"request":"r","errors":{"0":"invalid token"}}"#,
        r#"[[],"r",1]"#,
    ];
    for body in bodies {
        assert_eq!(
            decoding_failure(MessageResponse::from_reply(200, body)),
            "the JSON does not describe a response",
            "{}",
            body
        );
    }
}

#[test]
fn a_required_member_is_asked_for_before_the_errors_count() {
    let body = r#"{"errors":["invalid token"],"status":0}"#;
    assert_eq!(decoding_failure(MessageResponse::from_reply(400, body)), "the JSON does not describe a response");
}

#[test]
fn from_value_reads_a_parsed_reply() {
    let value: serde_json::Value = serde_json::from_str(r#"{"status":1,"request":"abc","extra":true}"#).unwrap();
    let response = MessageResponse::from_value(201, &value).unwrap();
    assert_eq!(response.http_status, 201);
    assert_eq!(response.request, "abc");
    assert_eq!(response.status, 1);
    let value: serde_json::Value = serde_json::from_str(r#"{"status":0,"request":"abc","errors":["a","b"]}"#).unwrap();
    assert_eq!(rejection(MessageResponse::from_value(400, &value)), "a, b");
    let value: serde_json::Value = serde_json::from_str("[]").unwrap();
    assert_eq!(decoding_failure(MessageResponse::from_value(200, &value)), "the JSON does not describe a response");
}
