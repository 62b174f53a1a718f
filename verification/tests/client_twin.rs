//! Desired-property synchronizer scenarios: the full document, patches,
//! duplicates and malformed replies.

use azure_iot_mqtt::client::Client;
use azure_iot_mqtt::messages::Diagnostic;
use azure_iot_mqtt::messages::Event;
use azure_iot_mqtt::messages::Message;
use azure_iot_mqtt::messages::MessageParseError;

fn chars(s: &str) -> Vec<char> {
    s.chars().collect()
}

fn string_of(v: &Vec<char>) -> String {
    v.iter().collect()
}

fn ready_client() -> Client {
    let mut client = Client::new(2);
    client.handle_event(Event::NewConnection { reset_session: true });
    let r = client.handle_event(Event::SubscriptionUpdates { count: 2 });
    assert_eq!(string_of(&r.publications[0].topic), "$iothub/twin/GET/?$rid=0");
    client
}

const FULL_DOC: &[u8] = b"{\"desired\":{\"x\":1,\"$version\":3},\"reported\":{\"y\":2,\"$version\":7}}";

#[test]
fn full_document_reply_yields_initial() {
    let mut client = ready_client();
    let r = client.handle_event(Event::Publication {
        topic: chars("$iothub/twin/res/200/?$rid=0"),
        payload: FULL_DOC.to_vec(),
    });
    match r.message {
        Some(Message::TwinInitial { state }) => {
            assert_eq!(state.desired.version, Some(3));
            assert_eq!(state.reported.version, Some(7));
            let desired: serde_json::Value =
                serde_json::from_slice(&state.desired.properties).unwrap();
            let expected: serde_json::Value =
                serde_json::from_str("{\"x\":1,\"$version\":3}").unwrap();
            assert_eq!(desired, expected);
            let reported: serde_json::Value =
                serde_json::from_slice(&state.reported.properties).unwrap();
            let expected: serde_json::Value =
                serde_json::from_str("{\"y\":2,\"$version\":7}").unwrap();
            assert_eq!(reported, expected);
        },
        _ => panic!("expected the initial twin document"),
    }
    assert!(client.twin_is_initialized());
    let baseline = client.reported_baseline().as_ref().expect("baseline set");
    let baseline: serde_json::Value = serde_json::from_slice(baseline).unwrap();
    let expected: serde_json::Value = serde_json::from_str("{\"y\":2,\"$version\":7}").unwrap();
    assert_eq!(baseline, expected);
}

#[test]
fn replayed_full_document_ignored() {
    let mut client = ready_client();
    let first = client.handle_event(Event::Publication {
        topic: chars("$iothub/twin/res/200/?$rid=0"),
        payload: FULL_DOC.to_vec(),
    });
    assert!(matches!(first.message, Some(Message::TwinInitial { .. })));

    let second = client.handle_event(Event::Publication {
        topic: chars("$iothub/twin/res/200/?$rid=0"),
        payload: FULL_DOC.to_vec(),
    });
    assert!(second.message.is_none());
    assert_eq!(second.diagnostic, Some(Diagnostic::UnconsumedFrame));
}

#[test]
fn patch_before_initial_unconsumed() {
    let mut client = ready_client();
    let r = client.handle_event(Event::Publication {
        topic: chars("$iothub/twin/PATCH/properties/desired/?$version=8"),
        payload: b"{\"z\":9}".to_vec(),
    });
    assert!(r.message.is_none());
    assert_eq!(r.diagnostic, Some(Diagnostic::UnconsumedFrame));
}

#[test]
fn patch_after_initial_yields_patch() {
    let mut client = ready_client();
    client.handle_event(Event::Publication {
        topic: chars("$iothub/twin/res/200/?$rid=0"),
        payload: FULL_DOC.to_vec(),
    });
    let r = client.handle_event(Event::Publication {
        topic: chars("$iothub/twin/PATCH/properties/desired/?$version=8"),
        payload: b"{\"z\":9}".to_vec(),
    });
    match r.message {
        Some(Message::TwinPatch { properties }) => {
            assert_eq!(properties.version, Some(8));
            assert_eq!(properties.properties, b"{\"z\":9}".to_vec());
        },
        _ => panic!("expected a twin patch"),
    }
}

#[test]
fn invalid_patch_payload_discarded() {
    let mut client = ready_client();
    client.handle_event(Event::Publication {
        topic: chars("$iothub/twin/res/200/?$rid=0"),
        payload: FULL_DOC.to_vec(),
    });
    let r = client.handle_event(Event::Publication {
        topic: chars("$iothub/twin/PATCH/properties/desired/?$version=8"),
        payload: b"{not json".to_vec(),
    });
    assert!(r.message.is_none());
    assert_eq!(r.diagnostic, Some(Diagnostic::ParseFailure(MessageParseError::Json)));
}

#[test]
fn malformed_document_re_requests() {
    let mut client = ready_client();
    let r = client.handle_event(Event::Publication {
        topic: chars("$iothub/twin/res/200/?$rid=0"),
        payload: b"{\"nope\":1}".to_vec(),
    });
    assert!(r.message.is_none());
    assert_eq!(r.diagnostic, Some(Diagnostic::MalformedTwinDocument));
    assert_eq!(r.publications.len(), 1);
    assert_eq!(string_of(&r.publications[0].topic), "$iothub/twin/GET/?$rid=1");
    assert!(!client.twin_is_initialized());
}

#[test]
fn rejected_document_request_re_requests() {
    let mut client = ready_client();
    let r = client.handle_event(Event::Publication {
        topic: chars("$iothub/twin/res/500/?$rid=0"),
        payload: b"{}".to_vec(),
    });
    assert!(r.message.is_none());
    assert_eq!(r.diagnostic, Some(Diagnostic::TwinRequestRejected));
    assert_eq!(r.publications.len(), 1);
    assert_eq!(string_of(&r.publications[0].topic), "$iothub/twin/GET/?$rid=1");
}

#[test]
fn malformed_command_payload_discarded() {
    let mut client = ready_client();
    let r = client.handle_event(Event::Publication {
        topic: chars("$iothub/methods/POST/my-method/?$rid=1"),
        payload: b"{invalid".to_vec(),
    });
    assert!(r.message.is_none());
    assert_eq!(r.diagnostic, Some(Diagnostic::ParseFailure(MessageParseError::Json)));
}

#[test]
fn stale_reply_left_unconsumed() {
    let mut client = ready_client();
    let r = client.handle_event(Event::Publication {
        topic: chars("$iothub/twin/res/200/?$rid=99"),
        payload: FULL_DOC.to_vec(),
    });
    assert!(r.message.is_none());
    assert_eq!(r.diagnostic, Some(Diagnostic::UnconsumedFrame));
    assert!(!client.twin_is_initialized());
}

#[test]
fn correlation_ids_wrap_after_one_byte() {
    let mut client = ready_client();
    // Each rejected reply to the outstanding request makes the client
    // re-request under the next id; after id 255 the counter wraps to 0.
    for rid in 0u64..=254 {
        let r = client.handle_event(Event::Publication {
            topic: chars(&format!("$iothub/twin/res/500/?$rid={}", rid)),
            payload: b"{}".to_vec(),
        });
        assert_eq!(
            string_of(&r.publications[0].topic),
            format!("$iothub/twin/GET/?$rid={}", rid + 1)
        );
    }
    let r = client.handle_event(Event::Publication {
        topic: chars("$iothub/twin/res/500/?$rid=255"),
        payload: b"{}".to_vec(),
    });
    assert_eq!(string_of(&r.publications[0].topic), "$iothub/twin/GET/?$rid=0");
}
