//! Connection and subscription handshake scenarios.

use azure_iot_mqtt::client::Client;
use azure_iot_mqtt::messages::Diagnostic;
use azure_iot_mqtt::messages::Event;
use azure_iot_mqtt::messages::Message;

fn chars(s: &str) -> Vec<char> {
    s.chars().collect()
}

fn string_of(v: &Vec<char>) -> String {
    v.iter().collect()
}

#[test]
fn handshake_completes_at_expected_count_and_requests_twin() {
    let mut client = Client::new(2);
    assert!(!client.is_ready());

    let r = client.handle_event(Event::NewConnection { reset_session: true });
    assert!(r.publications.is_empty());
    assert!(r.message.is_none());

    let r = client.handle_event(Event::SubscriptionUpdates { count: 1 });
    assert!(!client.is_ready());
    assert!(r.publications.is_empty());

    let r = client.handle_event(Event::SubscriptionUpdates { count: 1 });
    assert!(client.is_ready());
    assert_eq!(r.publications.len(), 1);
    assert_eq!(string_of(&r.publications[0].topic), "$iothub/twin/GET/?$rid=0");
    assert!(r.publications[0].payload.is_empty());
}

#[test]
fn command_after_handshake_is_dispatched() {
    let mut client = Client::new(2);
    client.handle_event(Event::NewConnection { reset_session: true });
    client.handle_event(Event::SubscriptionUpdates { count: 2 });
    assert!(client.is_ready());

    let r = client.handle_event(Event::Publication {
        topic: chars("$iothub/methods/POST/my-method/?$rid=1"),
        payload: b"{\"x\":1}".to_vec(),
    });
    match r.message {
        Some(Message::DirectMethod { name, payload, request_id }) => {
            assert_eq!(string_of(&name), "my-method");
            assert_eq!(payload, b"{\"x\":1}".to_vec());
            assert_eq!(string_of(&request_id), "1");
        },
        _ => panic!("expected a direct-method message"),
    }
}

#[test]
fn command_during_handshake_not_delayed() {
    let mut client = Client::new(2);
    client.handle_event(Event::NewConnection { reset_session: true });
    assert!(!client.is_ready());

    let r = client.handle_event(Event::Publication {
        topic: chars("$iothub/methods/POST/reboot/?$rid=44"),
        payload: b"null".to_vec(),
    });
    match r.message {
        Some(Message::DirectMethod { name, request_id, .. }) => {
            assert_eq!(string_of(&name), "reboot");
            assert_eq!(string_of(&request_id), "44");
        },
        _ => panic!("expected the command in the same poll cycle"),
    }
}

#[test]
fn twin_frame_during_handshake_discarded() {
    let mut client = Client::new(2);
    client.handle_event(Event::NewConnection { reset_session: true });

    let r = client.handle_event(Event::Publication {
        topic: chars("$iothub/twin/res/200/?$rid=0"),
        payload: b"{}".to_vec(),
    });
    assert!(r.message.is_none());
    assert_eq!(r.diagnostic, Some(Diagnostic::DiscardedBeforeReady));
}

#[test]
fn preserved_session_skips_handshake() {
    let mut client = Client::new(2);
    client.handle_event(Event::NewConnection { reset_session: true });
    client.handle_event(Event::SubscriptionUpdates { count: 2 });
    assert!(client.is_ready());

    let r = client.handle_event(Event::NewConnection { reset_session: false });
    assert!(client.is_ready());
    assert_eq!(r.publications.len(), 1);
    assert_eq!(string_of(&r.publications[0].topic), "$iothub/twin/GET/?$rid=1");
}

#[test]
fn direct_method_response_publication_built_exactly() {
    let p = azure_iot_mqtt::client::direct_method_response_publication(
        200,
        &chars("1"),
        b"{\"ok\":true}".to_vec(),
    );
    assert_eq!(string_of(&p.topic), "$iothub/methods/res/200/?$rid=1");
    assert_eq!(p.payload, b"{\"ok\":true}".to_vec());
}

#[test]
fn unrecognized_topic_is_classification_failure() {
    let mut client = Client::new(2);
    client.handle_event(Event::NewConnection { reset_session: true });
    client.handle_event(Event::SubscriptionUpdates { count: 2 });

    let r = client.handle_event(Event::Publication {
        topic: chars("foo/bar"),
        payload: b"{}".to_vec(),
    });
    assert!(r.message.is_none());
    match r.diagnostic {
        Some(Diagnostic::ParseFailure(
            azure_iot_mqtt::messages::MessageParseError::UnrecognizedMessage,
        )) => {},
        _ => panic!("expected an unrecognized-message diagnostic"),
    }
}
