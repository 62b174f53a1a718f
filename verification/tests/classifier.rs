//! The message classifier on concrete publications.

use azure_iot_mqtt::classify::InternalMessage;
use azure_iot_mqtt::messages::MessageParseError;

fn chars(s: &str) -> Vec<char> {
    s.chars().collect()
}

fn string_of(v: &Vec<char>) -> String {
    v.iter().collect()
}

#[test]
fn classifies_direct_method() {
    let r = InternalMessage::parse(
        &chars("$iothub/methods/POST/ping/?$rid=3"),
        b"{\"p\":true}".to_vec(),
    );
    match r {
        Ok(InternalMessage::DirectMethod { name, payload, request_id }) => {
            assert_eq!(string_of(&name), "ping");
            assert_eq!(payload, b"{\"p\":true}".to_vec());
            assert_eq!(string_of(&request_id), "3");
        },
        _ => panic!("expected a direct method"),
    }
}

#[test]
fn classifies_twin_response() {
    let r = InternalMessage::parse(&chars("$iothub/twin/res/204/?$rid=8&$version=2"), Vec::new());
    match r {
        Ok(InternalMessage::TwinResponse { status, request_id, version, payload }) => {
            assert_eq!(status, 204);
            assert_eq!(string_of(&request_id), "8");
            assert_eq!(version, Some(2));
            assert!(payload.is_empty());
        },
        _ => panic!("expected a twin response"),
    }
}

#[test]
fn classifies_twin_patch() {
    let r = InternalMessage::parse(
        &chars("$iothub/twin/PATCH/properties/desired/?$version=5"),
        b"{\"k\":1}".to_vec(),
    );
    match r {
        Ok(InternalMessage::TwinPatch { version, payload }) => {
            assert_eq!(version, 5);
            assert_eq!(payload, b"{\"k\":1}".to_vec());
        },
        _ => panic!("expected a twin patch"),
    }
}

#[test]
fn direct_method_with_bad_json_is_json_error() {
    let r = InternalMessage::parse(&chars("$iothub/methods/POST/m/?$rid=1"), b"{".to_vec());
    assert!(matches!(r, Err(MessageParseError::Json)));
}

#[test]
fn unknown_topic_is_unrecognized() {
    let r = InternalMessage::parse(&chars("devices/d1/messages/events"), b"{}".to_vec());
    assert!(matches!(r, Err(MessageParseError::UnrecognizedMessage)));
}
