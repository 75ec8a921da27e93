use bucket::dispatch::{classify, handle_ip, Operation};
use bucket::envelope::{DecodeError, Envelope, Payload};
use bucket::store::Portal;

fn insert_request(key: &str, value: &str) -> Envelope {
    Envelope {
        action: "insert".to_string(),
        payload: Payload::Tuple { first: key.to_string(), second: value.to_string() },
    }
}

fn read_request(key: &str, second: &str) -> Envelope {
    Envelope {
        action: "read".to_string(),
        payload: Payload::Tuple { first: key.to_string(), second: second.to_string() },
    }
}

fn response_text(response: &Envelope) -> &str {
    match &response.payload {
        Payload::Text { text } => text.as_str(),
        _ => panic!("response payload is not a text record"),
    }
}

#[test]
fn insert_then_read_returns_inserted_value() {
    let mut portal = Portal::new();
    handle_ip(&mut portal, insert_request("key", "value")).unwrap();
    let response = handle_ip(&mut portal, read_request("key", "anything")).unwrap();
    assert_eq!(response_text(&response), "value");
    assert_eq!(response.action, "key");
}

#[test]
fn read_of_absent_key_returns_empty_string() {
    let mut portal = Portal::new();
    let response = handle_ip(&mut portal, read_request("never inserted", "x")).unwrap();
    assert_eq!(response_text(&response), "");
    assert_eq!(response.action, "never inserted");
}

#[test]
fn repeated_insert_overwrites() {
    let mut portal = Portal::new();
    handle_ip(&mut portal, insert_request("k", "a")).unwrap();
    handle_ip(&mut portal, insert_request("k", "b")).unwrap();
    let response = handle_ip(&mut portal, read_request("k", "")).unwrap();
    assert_eq!(response_text(&response), "b");
}

#[test]
fn insert_confirms_with_literal_text() {
    let mut portal = Portal::new();
    let response = handle_ip(&mut portal, insert_request("some key", "some value")).unwrap();
    assert_eq!(response_text(&response), "inserted into bucket!");
    assert_eq!(response.action, "");
}

#[test]
fn insert_of_empty_strings_confirms_with_same_text() {
    let mut portal = Portal::new();
    let response = handle_ip(&mut portal, insert_request("", "")).unwrap();
    assert_eq!(response_text(&response), "inserted into bucket!");
    assert_eq!(response.action, "");
    let response = handle_ip(&mut portal, read_request("", "x")).unwrap();
    assert_eq!(response_text(&response), "");
    assert_eq!(response.action, "");
}

#[test]
fn read_response_echoes_queried_key() {
    let mut portal = Portal::new();
    handle_ip(&mut portal, insert_request("foo", "stored")).unwrap();
    let response = handle_ip(&mut portal, read_request("foo", "ignored")).unwrap();
    assert_eq!(response.action, "foo");
    assert_eq!(response_text(&response), "stored");
}

#[test]
fn unrecognized_tag_is_forwarded_unchanged() {
    let mut portal = Portal::new();
    handle_ip(&mut portal, insert_request("kept", "intact")).unwrap();
    let input = Envelope {
        action: "delete".to_string(),
        payload: Payload::Tuple { first: "kept".to_string(), second: "whatever".to_string() },
    };
    let copy = input.clone();
    let response = handle_ip(&mut portal, input).unwrap();
    assert_eq!(response, copy);
    let response = handle_ip(&mut portal, read_request("kept", "")).unwrap();
    assert_eq!(response_text(&response), "intact");
}

#[test]
fn empty_tag_is_forwarded_unchanged() {
    let mut portal = Portal::new();
    let input = Envelope { action: String::new(), payload: Payload::Other };
    let copy = input.clone();
    let response = handle_ip(&mut portal, input).unwrap();
    assert_eq!(response, copy);
}

#[test]
fn malformed_insert_payload_is_decode_error() {
    let mut portal = Portal::new();
    handle_ip(&mut portal, insert_request("kept", "intact")).unwrap();
    let input = Envelope {
        action: "insert".to_string(),
        payload: Payload::Text { text: "not a tuple".to_string() },
    };
    let result = handle_ip(&mut portal, input);
    assert_eq!(result, Err(DecodeError));
    let response = handle_ip(&mut portal, read_request("kept", "")).unwrap();
    assert_eq!(response_text(&response), "intact");
}

#[test]
fn malformed_read_payload_is_decode_error() {
    let mut portal = Portal::new();
    handle_ip(&mut portal, insert_request("kept", "intact")).unwrap();
    let input = Envelope { action: "read".to_string(), payload: Payload::Other };
    let result = handle_ip(&mut portal, input);
    assert_eq!(result, Err(DecodeError));
    let response = handle_ip(&mut portal, read_request("kept", "")).unwrap();
    assert_eq!(response_text(&response), "intact");
}

#[test]
fn concrete_insert_read_scenario() {
    let mut portal = Portal::new();
    let response = handle_ip(&mut portal, insert_request("user:1", "alice")).unwrap();
    assert_eq!(response_text(&response), "inserted into bucket!");
    let response = handle_ip(&mut portal, read_request("user:1", "zzz")).unwrap();
    assert_eq!(response_text(&response), "alice");
    assert_eq!(response.action, "user:1");
    let response = handle_ip(&mut portal, read_request("user:2", "")).unwrap();
    assert_eq!(response_text(&response), "");
    assert_eq!(response.action, "user:2");
}

#[test]
fn store_put_get_and_clear() {
    let mut portal = Portal::new();
    assert_eq!(portal.get("a"), "");
    portal.put("a".to_string(), "1".to_string());
    portal.put("b".to_string(), "2".to_string());
    assert_eq!(portal.get("a"), "1");
    assert_eq!(portal.get("b"), "2");
    portal.put("a".to_string(), "3".to_string());
    assert_eq!(portal.get("a"), "3");
    portal.clear();
    assert_eq!(portal.get("a"), "");
    assert_eq!(portal.get("b"), "");
}

#[test]
fn classify_recognizes_only_insert_and_read() {
    assert!(matches!(classify(&"insert".to_string()), Operation::Insert));
    assert!(matches!(classify(&"read".to_string()), Operation::Read));
    assert!(matches!(classify(&"delete".to_string()), Operation::Passthrough));
    assert!(matches!(classify(&"".to_string()), Operation::Passthrough));
    assert!(matches!(classify(&"Insert".to_string()), Operation::Passthrough));
}
