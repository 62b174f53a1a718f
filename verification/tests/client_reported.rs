//! Reported-property synchronizer scenarios: submissions, ordering,
//! acknowledgements and reconnects.

use azure_iot_mqtt::client::Client;
use azure_iot_mqtt::messages::Completion;
use azure_iot_mqtt::messages::Diagnostic;
use azure_iot_mqtt::messages::Event;
use azure_iot_mqtt::messages::Message;
use azure_iot_mqtt::messages::ReportKind;
use azure_iot_mqtt::messages::ReportRequest;

fn chars(s: &str) -> Vec<char> {
    s.chars().collect()
}

fn string_of(v: &Vec<char>) -> String {
    v.iter().collect()
}

const FULL_DOC: &[u8] = b"{\"desired\":{\"$version\":1},\"reported\":{\"$version\":1}}";

/// A client that is connected and has received its initial twin document,
/// so correlation id 0 went to the full-document request.
fn primed_client() -> Client {
    let mut client = Client::new(2);
    client.handle_event(Event::NewConnection { reset_session: true });
    client.handle_event(Event::SubscriptionUpdates { count: 2 });
    let r = client.handle_event(Event::Publication {
        topic: chars("$iothub/twin/res/200/?$rid=0"),
        payload: FULL_DOC.to_vec(),
    });
    assert!(matches!(r.message, Some(Message::TwinInitial { .. })));
    client
}

fn replace(token: u64, body: &[u8]) -> ReportRequest {
    ReportRequest { token, kind: ReportKind::Replace, properties: body.to_vec() }
}

#[test]
fn submission_publishes_once_with_fresh_id_and_completes_on_ack() {
    let mut client = primed_client();
    let pubs = client.submit_report(replace(42, b"{\"a\":1}"));
    assert_eq!(pubs.len(), 1);
    assert_eq!(
        string_of(&pubs[0].topic),
        "$iothub/twin/PATCH/properties/reported/?$rid=1"
    );
    assert_eq!(pubs[0].payload, b"{\"a\":1}".to_vec());
    assert!(client.has_in_flight_report());

    let r = client.handle_event(Event::Publication {
        topic: chars("$iothub/twin/res/204/?$rid=1&$version=9"),
        payload: Vec::new(),
    });
    match r.message {
        Some(Message::ReportedTwinState { version }) => assert_eq!(version, Some(9)),
        _ => panic!("expected a reported-twin-state message"),
    }
    assert_eq!(r.completion, Some(Completion { token: 42, success: true }));
    assert!(!client.has_in_flight_report());
}

#[test]
fn second_submission_queues_behind_first_in_order() {
    let mut client = primed_client();
    let first = client.submit_report(replace(1, b"{\"a\":1}"));
    assert_eq!(first.len(), 1);
    let second = client.submit_report(replace(2, b"{\"b\":2}"));
    assert!(second.is_empty());
    assert_eq!(client.queued_reports(), 1);

    let r = client.handle_event(Event::Publication {
        topic: chars("$iothub/twin/res/204/?$rid=1"),
        payload: Vec::new(),
    });
    assert_eq!(r.completion, Some(Completion { token: 1, success: true }));
    assert_eq!(r.publications.len(), 1);
    assert_eq!(
        string_of(&r.publications[0].topic),
        "$iothub/twin/PATCH/properties/reported/?$rid=2"
    );
    assert_eq!(r.publications[0].payload, b"{\"b\":2}".to_vec());
    assert_eq!(client.queued_reports(), 0);
    assert!(client.has_in_flight_report());
}

#[test]
fn submission_before_initial_document_waits() {
    let mut client = Client::new(2);
    client.handle_event(Event::NewConnection { reset_session: true });
    client.handle_event(Event::SubscriptionUpdates { count: 2 });
    let pubs = client.submit_report(replace(5, b"{}"));
    assert!(pubs.is_empty());
    assert_eq!(client.queued_reports(), 1);

    // The initial document arrives; the queued submission goes out under
    // the next fresh id.
    let r = client.handle_event(Event::Publication {
        topic: chars("$iothub/twin/res/200/?$rid=0"),
        payload: FULL_DOC.to_vec(),
    });
    assert!(matches!(r.message, Some(Message::TwinInitial { .. })));
    assert_eq!(r.publications.len(), 1);
    assert_eq!(
        string_of(&r.publications[0].topic),
        "$iothub/twin/PATCH/properties/reported/?$rid=1"
    );
    assert!(client.has_in_flight_report());
}

#[test]
fn failed_ack_completes_with_failure_and_no_message() {
    let mut client = primed_client();
    client.submit_report(replace(7, b"{}"));
    let r = client.handle_event(Event::Publication {
        topic: chars("$iothub/twin/res/500/?$rid=1"),
        payload: Vec::new(),
    });
    assert!(r.message.is_none());
    assert_eq!(r.completion, Some(Completion { token: 7, success: false }));
    assert!(!client.has_in_flight_report());
}

#[test]
fn reconnect_fails_in_flight_submission_and_reprimes() {
    let mut client = primed_client();
    client.submit_report(replace(42, b"{}"));
    assert!(client.has_in_flight_report());

    let r = client.handle_event(Event::NewConnection { reset_session: true });
    assert_eq!(r.completion, Some(Completion { token: 42, success: false }));
    assert!(!client.has_in_flight_report());
    assert!(!client.twin_is_initialized());
    assert!(client.reported_baseline().is_none());

    // The new connection hands shakes and re-requests the document; its
    // reply restores the baseline.
    client.handle_event(Event::SubscriptionUpdates { count: 2 });
    let r = client.handle_event(Event::Publication {
        topic: chars("$iothub/twin/res/200/?$rid=2"),
        payload: FULL_DOC.to_vec(),
    });
    assert!(matches!(r.message, Some(Message::TwinInitial { .. })));
    assert!(client.reported_baseline().is_some());
}

#[test]
fn stale_ack_not_matched() {
    let mut client = primed_client();
    client.submit_report(replace(9, b"{}"));
    let r = client.handle_event(Event::Publication {
        topic: chars("$iothub/twin/res/204/?$rid=200"),
        payload: Vec::new(),
    });
    assert!(r.completion.is_none());
    assert!(r.message.is_none());
    assert_eq!(r.diagnostic, Some(Diagnostic::UnconsumedFrame));
    assert!(client.has_in_flight_report());
}
