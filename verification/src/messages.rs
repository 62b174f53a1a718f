//! The data carried between the transport, the protocol core, and the
//! application: transport events in, application messages and outbound
//! publications out.

use vstd::prelude::*;

verus! {

/// One outbound publication. The protocol always publishes at-least-once
/// and without the retain flag, so only topic and payload vary.
pub struct Publication {
    pub topic: Vec<char>,
    pub payload: Vec<u8>,
}

/// Mathematical image of a [`Publication`].
#[verifier::ext_equal]
pub struct PublicationV {
    pub topic: Seq<char>,
    pub payload: Seq<u8>,
}

impl View for Publication {
    type V = PublicationV;

    open spec fn view(&self) -> PublicationV {
        PublicationV { topic: self.topic@, payload: self.payload@ }
    }
}

/// One section of a twin document: its properties as a JSON document plus
/// the section version, when the document carries one.
pub struct TwinProperties {
    pub properties: Vec<u8>,
    pub version: Option<u64>,
}

/// Mathematical image of [`TwinProperties`].
#[verifier::ext_equal]
pub struct TwinPropertiesV {
    pub properties: Seq<u8>,
    pub version: Option<u64>,
}

impl View for TwinProperties {
    type V = TwinPropertiesV;

    open spec fn view(&self) -> TwinPropertiesV {
        TwinPropertiesV { properties: self.properties@, version: self.version }
    }
}

/// The full twin document: the server-authored desired section and the
/// device-authored reported section.
pub struct TwinState {
    pub desired: TwinProperties,
    pub reported: TwinProperties,
}

/// Mathematical image of [`TwinState`].
#[verifier::ext_equal]
pub struct TwinStateV {
    pub desired: TwinPropertiesV,
    pub reported: TwinPropertiesV,
}

impl View for TwinState {
    type V = TwinStateV;

    open spec fn view(&self) -> TwinStateV {
        TwinStateV { desired: self.desired@, reported: self.reported@ }
    }
}

/// A message surfaced to the application.
pub enum Message {
    /// A direct-method invocation: name, JSON payload, correlation id.
    DirectMethod { name: Vec<char>, payload: Vec<u8>, request_id: Vec<char> },
    /// The server acknowledged a report of the twin state; carries the
    /// version of the updated section when the acknowledgement names one.
    ReportedTwinState { version: Option<u64> },
    /// The full twin document, yielded once per connection.
    TwinInitial { state: TwinState },
    /// An incremental patch to the desired properties.
    TwinPatch { properties: TwinProperties },
}

/// Mathematical image of a [`Message`].
#[verifier::ext_equal]
pub enum MessageV {
    DirectMethod { name: Seq<char>, payload: Seq<u8>, request_id: Seq<char> },
    ReportedTwinState { version: Option<u64> },
    TwinInitial { state: TwinStateV },
    TwinPatch { properties: TwinPropertiesV },
}

impl View for Message {
    type V = MessageV;

    open spec fn view(&self) -> MessageV {
        match self {
            Message::DirectMethod { name, payload, request_id } => MessageV::DirectMethod {
                name: name@,
                payload: payload@,
                request_id: request_id@,
            },
            Message::ReportedTwinState { version } => MessageV::ReportedTwinState {
                version: *version,
            },
            Message::TwinInitial { state } => MessageV::TwinInitial { state: state@ },
            Message::TwinPatch { properties } => MessageV::TwinPatch { properties: properties@ },
        }
    }
}

/// Why an inbound publication could not be classified.
#[derive(Clone, Copy, Debug, PartialEq, Eq, Structural)]
pub enum MessageParseError {
    /// The topic followed a known convention but the payload was not JSON.
    Json,
    /// The topic followed no known convention.
    UnrecognizedMessage,
}

/// A non-fatal observation about an inbound publication: the message was
/// consumed without reaching the application. Never surfaced as a message;
/// the embedding may log it.
#[derive(Clone, Copy, Debug, PartialEq, Eq, Structural)]
pub enum Diagnostic {
    /// A twin frame arrived before the subscription handshake finished.
    DiscardedBeforeReady,
    /// The publication could not be parsed.
    ParseFailure(MessageParseError),
    /// A twin response matched no outstanding request.
    UnconsumedFrame,
    /// A matching full-document reply lacked the desired or reported section.
    MalformedTwinDocument,
    /// The server rejected the full-document request.
    TwinRequestRejected,
}

/// One event from the underlying transport.
pub enum Event {
    /// A new connection; `reset_session` tells whether the server dropped
    /// the previous session state.
    NewConnection { reset_session: bool },
    /// An inbound publication.
    Publication { topic: Vec<char>, payload: Vec<u8> },
    /// The server acknowledged `count` subscriptions.
    SubscriptionUpdates { count: usize },
}

/// Mathematical image of an [`Event`].
#[verifier::ext_equal]
pub enum EventV {
    NewConnection { reset_session: bool },
    Publication { topic: Seq<char>, payload: Seq<u8> },
    SubscriptionUpdates { count: usize },
}

impl View for Event {
    type V = EventV;

    open spec fn view(&self) -> EventV {
        match self {
            Event::NewConnection { reset_session } => EventV::NewConnection {
                reset_session: *reset_session,
            },
            Event::Publication { topic, payload } => EventV::Publication {
                topic: topic@,
                payload: payload@,
            },
            Event::SubscriptionUpdates { count } => EventV::SubscriptionUpdates { count: *count },
        }
    }
}

/// The outcome of one reported-property submission, keyed by the token the
/// submitter chose.
#[derive(Clone, Copy, Debug, PartialEq, Eq, Structural)]
pub struct Completion {
    pub token: u64,
    pub success: bool,
}

/// Whether a reported-property submission replaces the reported section or
/// patches it. Both travel as the submitted JSON document; the distinction
/// is carried for the application.
#[derive(Clone, Copy, Debug, PartialEq, Eq, Structural)]
pub enum ReportKind {
    Replace,
    Patch,
}

/// A reported-property submission: the token identifies it to its
/// submitter, the properties are the JSON document to publish.
pub struct ReportRequest {
    pub token: u64,
    pub kind: ReportKind,
    pub properties: Vec<u8>,
}

/// Mathematical image of a [`ReportRequest`].
#[verifier::ext_equal]
pub struct ReportRequestV {
    pub token: u64,
    pub kind: ReportKind,
    pub properties: Seq<u8>,
}

impl View for ReportRequest {
    type V = ReportRequestV;

    open spec fn view(&self) -> ReportRequestV {
        ReportRequestV { token: self.token, kind: self.kind, properties: self.properties@ }
    }
}

/// The reported-property submission currently awaiting its acknowledgement.
#[derive(Clone, Copy, Debug, PartialEq, Eq, Structural)]
pub struct InFlightReport {
    pub token: u64,
    pub request_id: u8,
}

/// The per-connection subscription handshake state.
#[derive(Clone, Copy, Debug, PartialEq, Eq, Structural)]
pub enum HandshakeState {
    /// Waiting for the fixed set of subscriptions to be acknowledged.
    AwaitingSubscriptions { reset_session: bool, acked: usize },
    /// Normal dispatch.
    Ready,
}

/// The desired-property synchronizer state.
#[derive(Clone, Copy, Debug, PartialEq, Eq, Structural)]
pub enum DesiredState {
    /// A full-document request is owed for this connection.
    SendRequest,
    /// The full-document request with this correlation id is outstanding.
    WaitingForResponse { request_id: u8 },
    /// The full document arrived; patches now apply.
    HaveResponse,
}

/// Everything one step of the protocol core produces.
pub struct StepResult {
    /// Publications the embedding must hand to the transport, in order.
    pub publications: Vec<Publication>,
    /// At most one message for the application.
    pub message: Option<Message>,
    /// At most one completed reported-property submission.
    pub completion: Option<Completion>,
    /// At most one discarded-input observation, for logging.
    pub diagnostic: Option<Diagnostic>,
}

/// Mathematical image of a [`StepResult`].
#[verifier::ext_equal]
pub struct StepV {
    pub publications: Seq<PublicationV>,
    pub message: Option<MessageV>,
    pub completion: Option<Completion>,
    pub diagnostic: Option<Diagnostic>,
}

impl View for StepResult {
    type V = StepV;

    open spec fn view(&self) -> StepV {
        StepV {
            publications: self.publications@.map_values(|p: Publication| p@),
            message: match self.message {
                Some(m) => Some(m@),
                None => None,
            },
            completion: self.completion,
            diagnostic: self.diagnostic,
        }
    }
}

} // verus!
