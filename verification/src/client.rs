//! The protocol core: a reconnect-aware state machine that classifies
//! inbound publications, drives the per-connection subscription handshake,
//! and coordinates the desired-property and reported-property synchronizers.
//!
//! The machine is pure: one step takes the current state and one transport
//! event and returns the new state together with everything the embedding
//! must do — publications to send, at most one message for the application,
//! at most one completed reported-property submission, and at most one
//! discard observation. The whole transition is pinned by the specification
//! function [`step_spec`].

use vstd::prelude::*;

use crate::chars::dec_digits;
use crate::json::desired_key;
use crate::json::is_valid_json;
use crate::json::json_field_of;
use crate::json::json_is_valid;
use crate::json::json_object_field;
use crate::json::json_u64_field;
use crate::json::json_u64_field_of;
use crate::json::reported_key;
use crate::json::version_key;
use crate::messages::Completion;
use crate::messages::DesiredState;
use crate::messages::Diagnostic;
use crate::messages::Event;
use crate::messages::EventV;
use crate::messages::HandshakeState;
use crate::messages::InFlightReport;
use crate::messages::Message;
use crate::messages::MessageParseError;
use crate::messages::MessageV;
use crate::messages::Publication;
use crate::messages::PublicationV;
use crate::messages::ReportRequest;
use crate::messages::ReportRequestV;
use crate::messages::StepResult;
use crate::messages::StepV;
use crate::messages::TwinProperties;
use crate::messages::TwinPropertiesV;
use crate::messages::TwinState;
use crate::messages::TwinStateV;
use crate::next_id;
use crate::topics::build_method_res_topic;
use crate::topics::build_report_topic;
use crate::topics::build_twin_get_topic;
use crate::topics::method_res_topic_spec;
use crate::topics::parse_direct_method;
use crate::topics::parse_dm_spec;
use crate::topics::parse_patch;
use crate::topics::parse_patch_spec;
use crate::topics::parse_twin_res;
use crate::topics::parse_twin_res_spec;
use crate::topics::report_topic_spec;
use crate::topics::twin_get_topic_spec;

verus! {

/// The reported-property synchronizer state: submissions queued behind the
/// one in flight, and the reported baseline from the last full document.
pub struct ReportedState {
    pub queue: Vec<ReportRequest>,
    pub in_flight: Option<InFlightReport>,
    pub baseline: Option<Vec<u8>>,
}

/// Mathematical image of [`ReportedState`].
#[verifier::ext_equal]
pub struct ReportedV {
    pub queue: Seq<ReportRequestV>,
    pub in_flight: Option<InFlightReport>,
    pub baseline: Option<Seq<u8>>,
}

impl View for ReportedState {
    type V = ReportedV;

    open spec fn view(&self) -> ReportedV {
        ReportedV {
            queue: self.queue@.map_values(|r: ReportRequest| r@),
            in_flight: self.in_flight,
            baseline: match self.baseline {
                Some(b) => Some(b@),
                None => None,
            },
        }
    }
}

/// The protocol core state.
pub struct Client {
    pub num_default_subscriptions: usize,
    pub state: HandshakeState,
    pub previous_request_id: u8,
    pub desired: DesiredState,
    pub reported: ReportedState,
}

/// Mathematical image of a [`Client`].
#[verifier::ext_equal]
pub struct ClientV {
    pub num_default_subscriptions: usize,
    pub state: HandshakeState,
    pub previous_request_id: u8,
    pub desired: DesiredState,
    pub reported: ReportedV,
}

impl View for Client {
    type V = ClientV;

    open spec fn view(&self) -> ClientV {
        ClientV {
            num_default_subscriptions: self.num_default_subscriptions,
            state: self.state,
            previous_request_id: self.previous_request_id,
            desired: self.desired,
            reported: self.reported@,
        }
    }
}

/// The success range of a twin response status.
pub open spec fn is_success_status(status: u64) -> bool {
    200 <= status < 300
}

/// The state of a freshly constructed client: a handshake is owed, the
/// correlation counter sits just before its first value, and both
/// synchronizers are unprimed.
pub open spec fn initial_client(num_default_subscriptions: usize) -> ClientV {
    ClientV {
        num_default_subscriptions,
        state: HandshakeState::AwaitingSubscriptions { reset_session: true, acked: 0 },
        previous_request_id: 255u8,
        desired: DesiredState::SendRequest,
        reported: ReportedV { queue: seq![], in_flight: None, baseline: None },
    }
}

/// The internal invariant every reachable client state satisfies.
pub open spec fn wf_v(c: ClientV) -> bool {
    &&& match c.state {
        HandshakeState::AwaitingSubscriptions { reset_session, acked } => {
            &&& reset_session
            &&& c.desired is SendRequest
        },
        HandshakeState::Ready => !(c.desired is SendRequest),
    }
    &&& (c.reported.in_flight is Some ==> c.desired is HaveResponse)
    &&& (c.desired is HaveResponse <==> c.reported.baseline is Some)
    &&& (c.desired is HaveResponse && c.reported.queue.len() > 0 ==> c.reported.in_flight
        is Some)
    &&& match c.desired {
        DesiredState::WaitingForResponse { request_id } => request_id == c.previous_request_id,
        _ => true,
    }
}

/// A step output with no publications, message, completion or diagnostic.
pub open spec fn quiet_v() -> StepV {
    StepV { publications: seq![], message: None, completion: None, diagnostic: None }
}

/// A step output that only records a discard observation.
pub open spec fn diag_v(d: Diagnostic) -> StepV {
    StepV { publications: seq![], message: None, completion: None, diagnostic: Some(d) }
}

/// Entering normal dispatch: the desired-property synchronizer issues its
/// one full-document request for this connection, under a fresh id.
pub open spec fn go_ready_spec(c: ClientV) -> (ClientV, Seq<PublicationV>) {
    let rid = next_id(c.previous_request_id);
    (
        ClientV {
            num_default_subscriptions: c.num_default_subscriptions,
            state: HandshakeState::Ready,
            previous_request_id: rid,
            desired: DesiredState::WaitingForResponse { request_id: rid },
            reported: c.reported,
        },
        seq![PublicationV { topic: twin_get_topic_spec(rid), payload: seq![] }],
    )
}

/// A new connection: the handshake restarts with the connection's
/// `reset_session` flag, both synchronizers forget their per-connection
/// state, and the submitter of any in-flight report observes failure. When
/// the session was preserved the handshake completes immediately.
pub open spec fn step_new_connection(c: ClientV, reset_session: bool) -> (ClientV, StepV) {
    let completion = match c.reported.in_flight {
        Some(f) => Some(Completion { token: f.token, success: false }),
        None => None,
    };
    let base = ClientV {
        num_default_subscriptions: c.num_default_subscriptions,
        state: HandshakeState::AwaitingSubscriptions { reset_session: true, acked: 0 },
        previous_request_id: c.previous_request_id,
        desired: DesiredState::SendRequest,
        reported: ReportedV { queue: c.reported.queue, in_flight: None, baseline: None },
    };
    if reset_session {
        (base, StepV { publications: seq![], message: None, completion, diagnostic: None })
    } else {
        let (ready, pubs) = go_ready_spec(base);
        (ready, StepV { publications: pubs, message: None, completion, diagnostic: None })
    }
}

/// Subscription acknowledgements during the handshake: the count
/// accumulates, and dispatch resumes exactly when it reaches the expected
/// number of default subscriptions.
pub open spec fn step_subscription_updates(c: ClientV, count: usize) -> (ClientV, StepV) {
    match c.state {
        HandshakeState::AwaitingSubscriptions { reset_session, acked } => {
            if acked + count == c.num_default_subscriptions {
                let (ready, pubs) = go_ready_spec(c);
                (
                    ready,
                    StepV { publications: pubs, message: None, completion: None, diagnostic: None },
                )
            } else {
                let stored: usize = if acked + count <= usize::MAX {
                    (acked + count) as usize
                } else {
                    usize::MAX
                };
                (
                    ClientV {
                        num_default_subscriptions: c.num_default_subscriptions,
                        state: HandshakeState::AwaitingSubscriptions {
                            reset_session,
                            acked: stored,
                        },
                        previous_request_id: c.previous_request_id,
                        desired: c.desired,
                        reported: c.reported,
                    },
                    quiet_v(),
                )
            }
        },
        HandshakeState::Ready => (c, quiet_v()),
    }
}

/// Publishes the head of the report queue, if the synchronizer is idle and
/// something is queued, under a fresh id.
pub open spec fn pump_spec(c: ClientV) -> (ClientV, Seq<PublicationV>) {
    if c.reported.queue.len() > 0 && c.reported.in_flight is None {
        let req = c.reported.queue[0];
        let rid = next_id(c.previous_request_id);
        (
            ClientV {
                num_default_subscriptions: c.num_default_subscriptions,
                state: c.state,
                previous_request_id: rid,
                desired: c.desired,
                reported: ReportedV {
                    queue: c.reported.queue.drop_first(),
                    in_flight: Some(InFlightReport { token: req.token, request_id: rid }),
                    baseline: c.reported.baseline,
                },
            },
            seq![PublicationV { topic: report_topic_spec(rid), payload: req.properties }],
        )
    } else {
        (c, seq![])
    }
}

/// The desired-property synchronizer gives up on the current reply and
/// re-issues the full-document request under a fresh id.
pub open spec fn re_request_spec(c: ClientV, d: Diagnostic) -> (ClientV, StepV) {
    let rid = next_id(c.previous_request_id);
    (
        ClientV {
            num_default_subscriptions: c.num_default_subscriptions,
            state: c.state,
            previous_request_id: rid,
            desired: DesiredState::WaitingForResponse { request_id: rid },
            reported: c.reported,
        },
        StepV {
            publications: seq![PublicationV { topic: twin_get_topic_spec(rid), payload: seq![] }],
            message: None,
            completion: None,
            diagnostic: Some(d),
        },
    )
}

/// A twin response frame in normal dispatch. The desired-property
/// synchronizer owns the frame when its id matches the outstanding
/// full-document request; the reported-property synchronizer owns it when
/// its id matches the in-flight report; anything else is left unconsumed.
pub open spec fn step_twin_response(
    c: ClientV,
    status: u64,
    rid: Seq<char>,
    version: Option<u64>,
    payload: Seq<u8>,
) -> (ClientV, StepV) {
    let desired_match = match c.desired {
        DesiredState::WaitingForResponse { request_id } => rid == dec_digits(request_id as nat),
        _ => false,
    };
    if desired_match {
        if is_success_status(status) {
            match json_field_of(payload, desired_key()) {
                Some(d) => match json_field_of(payload, reported_key()) {
                    Some(r) => {
                        let primed = ClientV {
                            num_default_subscriptions: c.num_default_subscriptions,
                            state: c.state,
                            previous_request_id: c.previous_request_id,
                            desired: DesiredState::HaveResponse,
                            reported: ReportedV {
                                queue: c.reported.queue,
                                in_flight: None,
                                baseline: Some(r),
                            },
                        };
                        let (pumped, pubs) = pump_spec(primed);
                        (
                            pumped,
                            StepV {
                                publications: pubs,
                                message: Some(
                                    MessageV::TwinInitial {
                                        state: TwinStateV {
                                            desired: TwinPropertiesV {
                                                properties: d,
                                                version: json_u64_field_of(d, version_key()),
                                            },
                                            reported: TwinPropertiesV {
                                                properties: r,
                                                version: json_u64_field_of(r, version_key()),
                                            },
                                        },
                                    },
                                ),
                                completion: None,
                                diagnostic: None,
                            },
                        )
                    },
                    None => re_request_spec(c, Diagnostic::MalformedTwinDocument),
                },
                None => re_request_spec(c, Diagnostic::MalformedTwinDocument),
            }
        } else {
            re_request_spec(c, Diagnostic::TwinRequestRejected)
        }
    } else {
        match c.reported.in_flight {
            Some(f) => {
                if rid == dec_digits(f.request_id as nat) {
                    let success = is_success_status(status);
                    let cleared = ClientV {
                        num_default_subscriptions: c.num_default_subscriptions,
                        state: c.state,
                        previous_request_id: c.previous_request_id,
                        desired: c.desired,
                        reported: ReportedV {
                            queue: c.reported.queue,
                            in_flight: None,
                            baseline: c.reported.baseline,
                        },
                    };
                    let (pumped, pubs) = pump_spec(cleared);
                    (
                        pumped,
                        StepV {
                            publications: pubs,
                            message: if success {
                                Some(MessageV::ReportedTwinState { version })
                            } else {
                                None
                            },
                            completion: Some(Completion { token: f.token, success }),
                            diagnostic: None,
                        },
                    )
                } else {
                    (c, diag_v(Diagnostic::UnconsumedFrame))
                }
            },
            None => (c, diag_v(Diagnostic::UnconsumedFrame)),
        }
    }
}

/// A desired-property patch frame in normal dispatch: surfaced once the
/// synchronizer is primed, left unconsumed before that.
pub open spec fn step_twin_patch(c: ClientV, ver: u64, payload: Seq<u8>) -> (ClientV, StepV) {
    if c.desired is HaveResponse {
        if is_valid_json(payload) {
            (
                c,
                StepV {
                    publications: seq![],
                    message: Some(
                        MessageV::TwinPatch {
                            properties: TwinPropertiesV { properties: payload, version: Some(ver) },
                        },
                    ),
                    completion: None,
                    diagnostic: None,
                },
            )
        } else {
            (c, diag_v(Diagnostic::ParseFailure(MessageParseError::Json)))
        }
    } else {
        (c, diag_v(Diagnostic::UnconsumedFrame))
    }
}

/// An inbound publication: direct-method invocations are dispatched
/// immediately in every state; twin frames are discarded during the
/// handshake and handed to the synchronizers once ready; everything else
/// is a classification failure.
pub open spec fn step_publication(c: ClientV, topic: Seq<char>, payload: Seq<u8>) -> (
    ClientV,
    StepV,
) {
    match parse_dm_spec(topic) {
        Some(nr) => {
            if is_valid_json(payload) {
                (
                    c,
                    StepV {
                        publications: seq![],
                        message: Some(
                            MessageV::DirectMethod { name: nr.0, payload, request_id: nr.1 },
                        ),
                        completion: None,
                        diagnostic: None,
                    },
                )
            } else {
                (c, diag_v(Diagnostic::ParseFailure(MessageParseError::Json)))
            }
        },
        None => match parse_twin_res_spec(topic) {
            Some(srv) => {
                if c.state is Ready {
                    step_twin_response(c, srv.0, srv.1, srv.2, payload)
                } else {
                    (c, diag_v(Diagnostic::DiscardedBeforeReady))
                }
            },
            None => match parse_patch_spec(topic) {
                Some(ver) => {
                    if c.state is Ready {
                        step_twin_patch(c, ver, payload)
                    } else {
                        (c, diag_v(Diagnostic::DiscardedBeforeReady))
                    }
                },
                None => (c, diag_v(Diagnostic::ParseFailure(MessageParseError::UnrecognizedMessage))),
            },
        },
    }
}

/// The full transition relation of the protocol core, as a function: what
/// one transport event does to the state and what the step produces.
pub open spec fn step_spec(c: ClientV, ev: EventV) -> (ClientV, StepV) {
    match ev {
        EventV::NewConnection { reset_session } => step_new_connection(c, reset_session),
        EventV::Publication { topic, payload } => step_publication(c, topic, payload),
        EventV::SubscriptionUpdates { count } => step_subscription_updates(c, count),
    }
}

/// What submitting a reported-property request does: publish immediately
/// under a fresh id when the synchronizer is primed and idle, queue behind
/// the in-flight submission otherwise.
pub open spec fn submit_spec(c: ClientV, req: ReportRequestV) -> (ClientV, Seq<PublicationV>) {
    if c.state is Ready && c.desired is HaveResponse && c.reported.in_flight is None {
        let rid = next_id(c.previous_request_id);
        (
            ClientV {
                num_default_subscriptions: c.num_default_subscriptions,
                state: c.state,
                previous_request_id: rid,
                desired: c.desired,
                reported: ReportedV {
                    queue: c.reported.queue,
                    in_flight: Some(InFlightReport { token: req.token, request_id: rid }),
                    baseline: c.reported.baseline,
                },
            },
            seq![PublicationV { topic: report_topic_spec(rid), payload: req.properties }],
        )
    } else {
        (
            ClientV {
                num_default_subscriptions: c.num_default_subscriptions,
                state: c.state,
                previous_request_id: c.previous_request_id,
                desired: c.desired,
                reported: ReportedV {
                    queue: c.reported.queue.push(req),
                    in_flight: c.reported.in_flight,
                    baseline: c.reported.baseline,
                },
            },
            seq![],
        )
    }
}

/// Every step from a well-formed state leaves a well-formed state.
pub proof fn lemma_step_preserves_wf(c: ClientV, ev: EventV)
    requires
        wf_v(c),
    ensures
        wf_v(step_spec(c, ev).0),
{
}

/// Every submission from a well-formed state leaves a well-formed state.
pub proof fn lemma_submit_preserves_wf(c: ClientV, req: ReportRequestV)
    requires
        wf_v(c),
    ensures
        wf_v(submit_spec(c, req).0),
{
}


/// Successor of the wrapping correlation-id counter, executable form.
pub fn next_id_exec(prev: u8) -> (r: u8)
    ensures
        r == next_id(prev),
{
    if prev == 255 {
        0
    } else {
        prev + 1
    }
}

/// Builds the publication that answers a direct-method invocation:
/// the fixed response topic embedding status and correlation id, with the
/// given payload.
pub fn direct_method_response_publication(
    status: u64,
    request_id: &Vec<char>,
    payload: Vec<u8>,
) -> (p: Publication)
    ensures
        p@ == (PublicationV {
            topic: method_res_topic_spec(status, request_id@),
            payload: payload@,
        }),
{
    let p = Publication { topic: build_method_res_topic(status, request_id), payload };
    proof {
        assert(p@ =~~= (PublicationV {
            topic: method_res_topic_spec(status, request_id@),
            payload: payload@,
        }));
    }
    p
}

impl Client {
    /// The internal invariant, stated of the client's image.
    pub open spec fn wf(self) -> bool {
        wf_v(self@)
    }

    /// Creates a client that owes a full handshake: `num_default_subscriptions`
    /// is the number of subscription acknowledgements each fresh session
    /// must collect before normal dispatch resumes.
    pub fn new(num_default_subscriptions: usize) -> (c: Client)
        ensures
            c@ == initial_client(num_default_subscriptions),
            c.wf(),
    {
        let c = Client {
            num_default_subscriptions,
            state: HandshakeState::AwaitingSubscriptions { reset_session: true, acked: 0 },
            previous_request_id: 255,
            desired: DesiredState::SendRequest,
            reported: ReportedState { queue: Vec::new(), in_flight: None, baseline: None },
        };
        proof {
            assert(c@ =~~= initial_client(num_default_subscriptions));
        }
        c
    }

    /// Whether the handshake is complete and normal dispatch is running.
    pub fn is_ready(&self) -> (r: bool)
        ensures
            r == (self@.state is Ready),
    {
        match self.state {
            HandshakeState::Ready => true,
            HandshakeState::AwaitingSubscriptions { .. } => false,
        }
    }

    /// Whether the full twin document of this connection has arrived.
    pub fn twin_is_initialized(&self) -> (r: bool)
        ensures
            r == (self@.desired is HaveResponse),
    {
        match self.desired {
            DesiredState::HaveResponse => true,
            _ => false,
        }
    }

    /// The number of reported-property submissions queued behind the one
    /// in flight.
    pub fn queued_reports(&self) -> (n: usize)
        ensures
            n == self@.reported.queue.len(),
    {
        self.reported.queue.len()
    }

    /// Whether a reported-property submission is awaiting acknowledgement.
    pub fn has_in_flight_report(&self) -> (r: bool)
        ensures
            r == (self@.reported.in_flight is Some),
    {
        self.reported.in_flight.is_some()
    }

    /// The reported baseline taken from the last full twin document.
    pub fn reported_baseline(&self) -> (b: &Option<Vec<u8>>)
        ensures
            self@.reported.baseline == match b {
                Some(v) => Some(v@),
                None => None,
            },
    {
        &self.reported.baseline
    }

    /// Enters normal dispatch and issues the full-document request.
    fn go_ready(&mut self) -> (p: Publication)
        ensures
            final(self)@ == go_ready_spec(old(self)@).0,
            seq![p@] =~~= go_ready_spec(old(self)@).1,
    {
        let rid = next_id_exec(self.previous_request_id);
        self.state = HandshakeState::Ready;
        self.previous_request_id = rid;
        self.desired = DesiredState::WaitingForResponse { request_id: rid };
        let p = Publication { topic: build_twin_get_topic(rid), payload: Vec::new() };
        proof {
            assert(self@ =~~= go_ready_spec(old(self)@).0);
            assert(seq![p@] =~~= go_ready_spec(old(self)@).1);
        }
        p
    }

    /// Publishes the head of the report queue when the synchronizer is idle.
    fn pump(&mut self) -> (pubs: Vec<Publication>)
        ensures
            final(self)@ == pump_spec(old(self)@).0,
            pubs@.map_values(|p: Publication| p@) =~~= pump_spec(old(self)@).1,
    {
        let mut pubs: Vec<Publication> = Vec::new();
        if self.reported.queue.len() > 0 && self.reported.in_flight.is_none() {
            let req = self.reported.queue.remove(0);
            let rid = next_id_exec(self.previous_request_id);
            self.previous_request_id = rid;
            self.reported.in_flight = Some(InFlightReport { token: req.token, request_id: rid });
            let topic = build_report_topic(rid);
            pubs.push(Publication { topic, payload: req.properties });
            proof {
                assert(self@.reported.queue =~~= pump_spec(old(self)@).0.reported.queue);
                assert(self@ =~~= pump_spec(old(self)@).0);
                assert(pubs@.map_values(|p: Publication| p@) =~~= pump_spec(old(self)@).1);
            }
        } else {
            proof {
                assert(self@ =~~= pump_spec(old(self)@).0);
                assert(pubs@.map_values(|p: Publication| p@) =~~= pump_spec(old(self)@).1);
            }
        }
        pubs
    }

    /// Applies a new-connection event.
    fn apply_new_connection(&mut self, reset_session: bool) -> (r: StepResult)
        ensures
            final(self)@ == step_new_connection(old(self)@, reset_session).0,
            r@ =~~= step_new_connection(old(self)@, reset_session).1,
    {
        let completion = match self.reported.in_flight {
            Some(f) => Some(Completion { token: f.token, success: false }),
            None => None,
        };
        self.state = HandshakeState::AwaitingSubscriptions { reset_session: true, acked: 0 };
        self.desired = DesiredState::SendRequest;
        self.reported.in_flight = None;
        self.reported.baseline = None;
        if reset_session {
            let r = StepResult {
                publications: Vec::new(),
                message: None,
                completion,
                diagnostic: None,
            };
            proof {
                assert(self@ =~~= step_new_connection(old(self)@, reset_session).0);
                assert(r@ =~~= step_new_connection(old(self)@, reset_session).1);
            }
            r
        } else {
            let p = self.go_ready();
            let mut publications: Vec<Publication> = Vec::new();
            publications.push(p);
            let r = StepResult { publications, message: None, completion, diagnostic: None };
            proof {
                assert(self@ =~~= step_new_connection(old(self)@, reset_session).0);
                assert(r@ =~~= step_new_connection(old(self)@, reset_session).1);
            }
            r
        }
    }

    /// Applies a subscription-acknowledgement event.
    fn apply_subscription_updates(&mut self, count: usize) -> (r: StepResult)
        ensures
            final(self)@ == step_subscription_updates(old(self)@, count).0,
            r@ =~~= step_subscription_updates(old(self)@, count).1,
    {
        match self.state {
            HandshakeState::AwaitingSubscriptions { reset_session, acked } => {
                let reaches = count <= self.num_default_subscriptions
                    && acked == self.num_default_subscriptions - count;
                if reaches {
                    let p = self.go_ready();
                    let mut publications: Vec<Publication> = Vec::new();
                    publications.push(p);
                    let r = StepResult {
                        publications,
                        message: None,
                        completion: None,
                        diagnostic: None,
                    };
                    proof {
                        assert(self@ =~~= step_subscription_updates(old(self)@, count).0);
                        assert(r@ =~~= step_subscription_updates(old(self)@, count).1);
                    }
                    r
                } else {
                    let stored = if count <= usize::MAX - acked {
                        acked + count
                    } else {
                        usize::MAX
                    };
                    self.state = HandshakeState::AwaitingSubscriptions {
                        reset_session,
                        acked: stored,
                    };
                    let r = StepResult {
                        publications: Vec::new(),
                        message: None,
                        completion: None,
                        diagnostic: None,
                    };
                    proof {
                        assert(self@ =~~= step_subscription_updates(old(self)@, count).0);
                        assert(r@ =~~= step_subscription_updates(old(self)@, count).1);
                    }
                    r
                }
            },
            HandshakeState::Ready => {
                let r = StepResult {
                    publications: Vec::new(),
                    message: None,
                    completion: None,
                    diagnostic: None,
                };
                proof {
                    assert(self@ =~~= step_subscription_updates(old(self)@, count).0);
                    assert(r@ =~~= step_subscription_updates(old(self)@, count).1);
                }
                r
            },
        }
    }

    /// Applies a twin response frame in normal dispatch.
    fn apply_twin_response(
        &mut self,
        status: u64,
        rid: Vec<char>,
        version: Option<u64>,
        payload: Vec<u8>,
    ) -> (r: StepResult)
        ensures
            final(self)@ == step_twin_response(old(self)@, status, rid@, version, payload@).0,
            r@ =~~= step_twin_response(old(self)@, status, rid@, version, payload@).1,
    {
        let desired_match = match self.desired {
            DesiredState::WaitingForResponse { request_id } => {
                let expected = crate::chars::format_u64(request_id as u64);
                crate::chars::chars_eq(&rid, &expected)
            },
            _ => false,
        };
        if desired_match {
            if 200 <= status && status < 300 {
                let d = json_object_field(&payload, "desired");
                let rep = json_object_field(&payload, "reported");
                match (d, rep) {
                    (Some(d), Some(rep)) => {
                        let dv = json_u64_field(&d, "$version");
                        let rv = json_u64_field(&rep, "$version");
                        self.desired = DesiredState::HaveResponse;
                        self.reported.in_flight = None;
                        let baseline = crate::chars::copy_bytes(&rep);
                        self.reported.baseline = Some(baseline);
                        let publications = self.pump();
                        let message = Message::TwinInitial {
                            state: TwinState {
                                desired: TwinProperties { properties: d, version: dv },
                                reported: TwinProperties { properties: rep, version: rv },
                            },
                        };
                        let r = StepResult {
                            publications,
                            message: Some(message),
                            completion: None,
                            diagnostic: None,
                        };
                        proof {
                            assert(self@ =~~= step_twin_response(
                                old(self)@,
                                status,
                                rid@,
                                version,
                                payload@,
                            ).0);
                            assert(r@ =~~= step_twin_response(
                                old(self)@,
                                status,
                                rid@,
                                version,
                                payload@,
                            ).1);
                        }
                        r
                    },
                    _ => self.re_request(Diagnostic::MalformedTwinDocument),
                }
            } else {
                self.re_request(Diagnostic::TwinRequestRejected)
            }
        } else {
            let ack = match self.reported.in_flight {
                Some(f) => {
                    let expected = crate::chars::format_u64(f.request_id as u64);
                    if crate::chars::chars_eq(&rid, &expected) {
                        Some(f)
                    } else {
                        None
                    }
                },
                None => None,
            };
            match ack {
                Some(f) => {
                    let success = 200 <= status && status < 300;
                    self.reported.in_flight = None;
                    let publications = self.pump();
                    let message = if success {
                        Some(Message::ReportedTwinState { version })
                    } else {
                        None
                    };
                    let r = StepResult {
                        publications,
                        message,
                        completion: Some(Completion { token: f.token, success }),
                        diagnostic: None,
                    };
                    proof {
                        assert(self@ =~~= step_twin_response(
                            old(self)@,
                            status,
                            rid@,
                            version,
                            payload@,
                        ).0);
                        assert(r@ =~~= step_twin_response(
                            old(self)@,
                            status,
                            rid@,
                            version,
                            payload@,
                        ).1);
                    }
                    r
                },
                None => {
                    let r = StepResult {
                        publications: Vec::new(),
                        message: None,
                        completion: None,
                        diagnostic: Some(Diagnostic::UnconsumedFrame),
                    };
                    proof {
                        assert(self@ =~~= step_twin_response(
                            old(self)@,
                            status,
                            rid@,
                            version,
                            payload@,
                        ).0);
                        assert(r@ =~~= step_twin_response(
                            old(self)@,
                            status,
                            rid@,
                            version,
                            payload@,
                        ).1);
                    }
                    r
                },
            }
        }
    }

    /// Re-issues the full-document request under a fresh id.
    fn re_request(&mut self, d: Diagnostic) -> (r: StepResult)
        ensures
            final(self)@ == re_request_spec(old(self)@, d).0,
            r@ =~~= re_request_spec(old(self)@, d).1,
    {
        let rid = next_id_exec(self.previous_request_id);
        self.previous_request_id = rid;
        self.desired = DesiredState::WaitingForResponse { request_id: rid };
        let mut publications: Vec<Publication> = Vec::new();
        publications.push(Publication { topic: build_twin_get_topic(rid), payload: Vec::new() });
        let r = StepResult { publications, message: None, completion: None, diagnostic: Some(d) };
        proof {
            assert(self@ =~~= re_request_spec(old(self)@, d).0);
            assert(r@ =~~= re_request_spec(old(self)@, d).1);
        }
        r
    }

    /// Applies a desired-property patch frame in normal dispatch.
    fn apply_twin_patch(&mut self, ver: u64, payload: Vec<u8>) -> (r: StepResult)
        ensures
            final(self)@ == step_twin_patch(old(self)@, ver, payload@).0,
            r@ =~~= step_twin_patch(old(self)@, ver, payload@).1,
    {
        let initialized = match self.desired {
            DesiredState::HaveResponse => true,
            _ => false,
        };
        let r = if initialized {
            if json_is_valid(&payload) {
                StepResult {
                    publications: Vec::new(),
                    message: Some(
                        Message::TwinPatch {
                            properties: TwinProperties { properties: payload, version: Some(ver) },
                        },
                    ),
                    completion: None,
                    diagnostic: None,
                }
            } else {
                StepResult {
                    publications: Vec::new(),
                    message: None,
                    completion: None,
                    diagnostic: Some(Diagnostic::ParseFailure(MessageParseError::Json)),
                }
            }
        } else {
            StepResult {
                publications: Vec::new(),
                message: None,
                completion: None,
                diagnostic: Some(Diagnostic::UnconsumedFrame),
            }
        };
        proof {
            assert(self@ =~~= step_twin_patch(old(self)@, ver, payload@).0);
            assert(r@ =~~= step_twin_patch(old(self)@, ver, payload@).1);
        }
        r
    }

    /// Feeds one transport event to the protocol core.
    ///
    /// Subscription acknowledgements are defined only during the handshake;
    /// during normal dispatch the transport contract does not produce them.
    pub fn handle_event(&mut self, event: Event) -> (r: StepResult)
        requires
            old(self).wf(),
            event matches Event::SubscriptionUpdates { .. } ==> !(old(self)@.state is Ready),
        ensures
            final(self)@ == step_spec(old(self)@, event@).0,
            r@ =~~= step_spec(old(self)@, event@).1,
            final(self).wf(),
    {
        proof {
            lemma_step_preserves_wf(old(self)@, event@);
        }
        match event {
            Event::NewConnection { reset_session } => self.apply_new_connection(reset_session),
            Event::SubscriptionUpdates { count } => self.apply_subscription_updates(count),
            Event::Publication { topic, payload } => {
                match parse_direct_method(&topic) {
                    Some((name, request_id)) => {
                        let r = if json_is_valid(&payload) {
                            StepResult {
                                publications: Vec::new(),
                                message: Some(
                                    Message::DirectMethod { name, payload, request_id },
                                ),
                                completion: None,
                                diagnostic: None,
                            }
                        } else {
                            StepResult {
                                publications: Vec::new(),
                                message: None,
                                completion: None,
                                diagnostic: Some(
                                    Diagnostic::ParseFailure(MessageParseError::Json),
                                ),
                            }
                        };
                        proof {
                            assert(r@ =~~= step_spec(old(self)@, event@).1);
                        }
                        r
                    },
                    None => match parse_twin_res(&topic) {
                        Some((status, rid, version)) => {
                            if self.is_ready() {
                                self.apply_twin_response(status, rid, version, payload)
                            } else {
                                let r = StepResult {
                                    publications: Vec::new(),
                                    message: None,
                                    completion: None,
                                    diagnostic: Some(Diagnostic::DiscardedBeforeReady),
                                };
                                proof {
                                    assert(r@ =~~= step_spec(old(self)@, event@).1);
                                }
                                r
                            }
                        },
                        None => match parse_patch(&topic) {
                            Some(ver) => {
                                if self.is_ready() {
                                    self.apply_twin_patch(ver, payload)
                                } else {
                                    let r = StepResult {
                                        publications: Vec::new(),
                                        message: None,
                                        completion: None,
                                        diagnostic: Some(Diagnostic::DiscardedBeforeReady),
                                    };
                                    proof {
                                        assert(r@ =~~= step_spec(old(self)@, event@).1);
                                    }
                                    r
                                }
                            },
                            None => {
                                let r = StepResult {
                                    publications: Vec::new(),
                                    message: None,
                                    completion: None,
                                    diagnostic: Some(
                                        Diagnostic::ParseFailure(
                                            MessageParseError::UnrecognizedMessage,
                                        ),
                                    ),
                                };
                                proof {
                                    assert(r@ =~~= step_spec(old(self)@, event@).1);
                                }
                                r
                            },
                        },
                    },
                }
            },
        }
    }

    /// Submits a reported-property request: publishes it at once under a
    /// fresh correlation id when the synchronizer is primed and idle,
    /// queues it in order behind the outstanding submission otherwise.
    pub fn submit_report(&mut self, request: ReportRequest) -> (pubs: Vec<Publication>)
        requires
            old(self).wf(),
        ensures
            final(self)@ == submit_spec(old(self)@, request@).0,
            pubs@.map_values(|p: Publication| p@) =~~= submit_spec(old(self)@, request@).1,
            final(self).wf(),
    {
        proof {
            lemma_submit_preserves_wf(old(self)@, request@);
        }
        let ready = self.is_ready();
        let primed = self.twin_is_initialized();
        let idle = self.reported.in_flight.is_none();
        let mut pubs: Vec<Publication> = Vec::new();
        if ready && primed && idle {
            let rid = next_id_exec(self.previous_request_id);
            self.previous_request_id = rid;
            self.reported.in_flight = Some(
                InFlightReport { token: request.token, request_id: rid },
            );
            let topic = build_report_topic(rid);
            pubs.push(Publication { topic, payload: request.properties });
            proof {
                assert(self@ =~~= submit_spec(old(self)@, request@).0);
                assert(pubs@.map_values(|p: Publication| p@) =~~= submit_spec(
                    old(self)@,
                    request@,
                ).1);
            }
        } else {
            self.reported.queue.push(request);
            proof {
                assert(self@.reported.queue =~~= submit_spec(old(self)@, request@).0.reported.queue);
                assert(self@ =~~= submit_spec(old(self)@, request@).0);
                assert(pubs@.map_values(|p: Publication| p@) =~~= submit_spec(
                    old(self)@,
                    request@,
                ).1);
            }
        }
        pubs
    }
}

} // verus!
