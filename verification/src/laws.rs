//! The protocol laws: what holds of every step of the core, proved once
//! and for all over the transition function [`crate::client::step_spec`].

use vstd::prelude::*;

use crate::chars::dec_digits;
use crate::chars::lemma_dec_digits;
use crate::client::diag_v;
use crate::client::lemma_step_preserves_wf;
use crate::client::is_success_status;
use crate::client::step_new_connection;
use crate::client::step_spec;
use crate::client::step_twin_response;
use crate::client::submit_spec;
use crate::client::wf_v;
use crate::client::ClientV;
use crate::json::desired_key;
use crate::json::is_valid_json;
use crate::json::json_field_of;
use crate::json::reported_key;
use crate::messages::Completion;
use crate::messages::InFlightReport;
use crate::messages::DesiredState;
use crate::messages::Diagnostic;
use crate::messages::EventV;
use crate::messages::MessageParseError;
use crate::messages::MessageV;
use crate::messages::ReportRequestV;
use crate::messages::StepV;
use crate::next_id;
use crate::topics::parse_dm_spec;
use crate::topics::report_topic_spec;
use crate::topics::twin_get_topic_spec;

verus! {

/// Two distinct numbers have distinct canonical decimal renderings.
pub proof fn lemma_dec_digits_injective(a: nat, b: nat)
    requires
        a != b,
    ensures
        dec_digits(a) != dec_digits(b),
{
    lemma_dec_digits(a);
    lemma_dec_digits(b);
}

/// A new connection leaves the desired-property synchronizer unprimed:
/// the full twin document is owed again before any patch applies.
pub proof fn lemma_reconnect_unprimes(c: ClientV, reset_session: bool)
    requires
        wf_v(c),
    ensures
        !(step_new_connection(c, reset_session).0.desired is HaveResponse),
{
}

/// For every connection: while the full twin document of the connection
/// has not yet arrived, no step yields a twin patch and no step yields a
/// reported-twin-state acknowledgement, and any step that does not yield
/// the initial document leaves the synchronizer unprimed. Together with
/// [`lemma_reconnect_unprimes`] this shows, by induction over any event
/// sequence, that the first application-visible twin message after a
/// connection is always the initial full document.
pub proof fn lemma_first_twin_message_is_initial(c: ClientV, ev: EventV)
    requires
        wf_v(c),
        !(c.desired is HaveResponse),
    ensures
        !(step_spec(c, ev).1.message matches Some(MessageV::TwinPatch { .. })),
        !(step_spec(c, ev).1.message matches Some(MessageV::ReportedTwinState { .. })),
        !(step_spec(c, ev).1.message matches Some(MessageV::TwinInitial { .. })) ==> !(step_spec(
            c,
            ev,
        ).0.desired is HaveResponse),
{
}

/// Submitting a reported-property request yields no message and cannot
/// prime the desired-property synchronizer, so it does not disturb the
/// first-twin-message ordering.
pub proof fn lemma_submit_preserves_unprimed(c: ClientV, req: ReportRequestV)
    requires
        !(c.desired is HaveResponse),
    ensures
        !(submit_spec(c, req).0.desired is HaveResponse),
{
}

/// No command invocation is delayed: a well-formed direct-method frame is
/// dispatched by the very step that receives it, in every state — during
/// the subscription handshake as much as in normal dispatch — and the
/// state does not change.
pub proof fn lemma_command_never_delayed(c: ClientV, topic: Seq<char>, payload: Seq<u8>)
    requires
        parse_dm_spec(topic) is Some,
        is_valid_json(payload),
    ensures
        match parse_dm_spec(topic) {
            Some(nr) => step_spec(c, EventV::Publication { topic, payload }).1.message == Some(
                MessageV::DirectMethod { name: nr.0, payload, request_id: nr.1 },
            ),
            None => false,
        },
        step_spec(c, EventV::Publication { topic, payload }).0 == c,
{
}

/// A malformed command payload on a correctly addressed topic is discarded
/// with a classification diagnostic: no direct-method message is ever
/// yielded for it and the state does not change.
pub proof fn lemma_malformed_command_discarded(c: ClientV, topic: Seq<char>, payload: Seq<u8>)
    requires
        parse_dm_spec(topic) is Some,
        !is_valid_json(payload),
    ensures
        step_spec(c, EventV::Publication { topic, payload }).0 == c,
        step_spec(c, EventV::Publication { topic, payload }).1.message is None,
        step_spec(c, EventV::Publication { topic, payload }).1.diagnostic == Some(
            Diagnostic::ParseFailure(MessageParseError::Json),
        ),
{
}

/// Correlation ids are assigned in strictly increasing order modulo the
/// counter width: a step issues at most one correlated request, always
/// under the successor of the previous counter value, and the counter
/// advances exactly when a request is issued.
pub proof fn lemma_ids_fresh(c: ClientV, ev: EventV)
    requires
        wf_v(c),
    ensures
        step_spec(c, ev).1.publications.len() <= 1,
        step_spec(c, ev).1.publications.len() == 0 ==> step_spec(c, ev).0.previous_request_id
            == c.previous_request_id,
        step_spec(c, ev).1.publications.len() == 1 ==> {
            let rid = next_id(c.previous_request_id);
            &&& step_spec(c, ev).0.previous_request_id == rid
            &&& (step_spec(c, ev).1.publications[0].topic == twin_get_topic_spec(rid) || step_spec(
                c,
                ev,
            ).1.publications[0].topic == report_topic_spec(rid))
        },
{
}

/// Submitting a report likewise assigns at most one id, and it is fresh.
pub proof fn lemma_submit_id_fresh(c: ClientV, req: ReportRequestV)
    requires
        wf_v(c),
    ensures
        submit_spec(c, req).1.len() <= 1,
        submit_spec(c, req).1.len() == 0 ==> submit_spec(c, req).0.previous_request_id
            == c.previous_request_id,
        submit_spec(c, req).1.len() == 1 ==> {
            let rid = next_id(c.previous_request_id);
            &&& submit_spec(c, req).0.previous_request_id == rid
            &&& submit_spec(c, req).1[0].topic == report_topic_spec(rid)
        },
{
}

/// A reply is matched only to the currently outstanding request: a twin
/// response whose correlation id matches neither the outstanding
/// full-document request nor the in-flight report is left unconsumed and
/// changes nothing.
pub proof fn lemma_stale_reply_ignored(
    c: ClientV,
    status: u64,
    rid: Seq<char>,
    version: Option<u64>,
    payload: Seq<u8>,
)
    requires
        wf_v(c),
        match c.desired {
            DesiredState::WaitingForResponse { request_id } => rid != dec_digits(
                request_id as nat,
            ),
            _ => true,
        },
        match c.reported.in_flight {
            Some(f) => rid != dec_digits(f.request_id as nat),
            None => true,
        },
    ensures
        step_twin_response(c, status, rid, version, payload).0 == c,
        step_twin_response(c, status, rid, version, payload).1 == diag_v(
            Diagnostic::UnconsumedFrame,
        ),
{
    assert(step_twin_response(c, status, rid, version, payload).1 =~~= diag_v(
        Diagnostic::UnconsumedFrame,
    ));
}

/// Replaying the same full-document reply twice before any patch yields
/// exactly one initial twin message: the duplicate no longer matches an
/// outstanding request and is left unconsumed, changing nothing.
pub proof fn lemma_replayed_document_ignored(
    c: ClientV,
    status: u64,
    rid: Seq<char>,
    version: Option<u64>,
    payload: Seq<u8>,
)
    requires
        wf_v(c),
        c.state is Ready,
        match c.desired {
            DesiredState::WaitingForResponse { request_id } => rid == dec_digits(
                request_id as nat,
            ),
            _ => false,
        },
        is_success_status(status),
        json_field_of(payload, desired_key()) is Some,
        json_field_of(payload, reported_key()) is Some,
    ensures
        ({
            let first = step_twin_response(c, status, rid, version, payload);
            let second = step_twin_response(first.0, status, rid, version, payload);
            &&& first.1.message matches Some(MessageV::TwinInitial { .. })
            &&& second.1.message is None
            &&& second.1.diagnostic == Some(Diagnostic::UnconsumedFrame)
            &&& second.0 == first.0
        }),
{
    let first = step_twin_response(c, status, rid, version, payload);
    let r0 = c.previous_request_id;
    match first.0.reported.in_flight {
        Some(f) => {
            assert(f.request_id == next_id(r0));
            crate::lemma_next_id_wraps(r0);
            lemma_dec_digits_injective(f.request_id as nat, r0 as nat);
        },
        None => {},
    }
    assert(step_twin_response(first.0, status, rid, version, payload).1 =~~= diag_v(
        Diagnostic::UnconsumedFrame,
    ));
}

/// A connection with a reset session while a reported-property submission
/// is in flight completes that submission with a failure outcome, and the
/// synchronizers forget their baseline and owe a fresh full-document
/// request, from whose reply the next baseline is taken.
pub proof fn lemma_reconnect_fails_submission(c: ClientV)
    requires
        wf_v(c),
        c.reported.in_flight is Some,
    ensures
        match c.reported.in_flight {
            Some(f) => {
                let post = step_spec(c, EventV::NewConnection { reset_session: true }).0;
                let out = step_spec(c, EventV::NewConnection { reset_session: true }).1;
                &&& out.completion == Some(Completion { token: f.token, success: false })
                &&& post.reported.in_flight is None
                &&& post.reported.baseline is None
                &&& post.desired is SendRequest
                &&& !(post.state is Ready)
            },
            None => false,
        },
{
}


/// Reported-property submissions are served first-in first-out: while one
/// is outstanding a new submission goes to the back of the queue, and the
/// acknowledgement of the outstanding one promotes exactly the head of the
/// queue to in-flight, under a fresh id.
pub proof fn lemma_reports_fifo(
    c: ClientV,
    req: ReportRequestV,
    status: u64,
    rid: Seq<char>,
    version: Option<u64>,
    payload: Seq<u8>,
)
    requires
        wf_v(c),
        c.reported.in_flight is Some,
    ensures
        submit_spec(c, req).0.reported.queue == c.reported.queue.push(req),
        submit_spec(c, req).0.reported.in_flight == c.reported.in_flight,
        match c.reported.in_flight {
            Some(f) => rid == dec_digits(f.request_id as nat) && c.reported.queue.len() > 0
                ==> {
                let post = step_twin_response(c, status, rid, version, payload).0;
                &&& post.reported.in_flight == Some(
                    InFlightReport {
                        token: c.reported.queue[0].token,
                        request_id: next_id(c.previous_request_id),
                    },
                )
                &&& post.reported.queue == c.reported.queue.drop_first()
            },
            None => true,
        },
{
}

/// Whether a step surfaced a twin patch or a reported-twin-state message.
pub open spec fn is_twin_data_message(m: Option<MessageV>) -> bool {
    ||| m matches Some(MessageV::TwinPatch { .. })
    ||| m matches Some(MessageV::ReportedTwinState { .. })
}

/// Whether a step surfaced the initial full twin document.
pub open spec fn is_initial_message(m: Option<MessageV>) -> bool {
    m matches Some(MessageV::TwinInitial { .. })
}

/// The outputs of feeding a whole sequence of transport events, in order.
pub open spec fn step_outputs(c: ClientV, evs: Seq<EventV>) -> Seq<StepV>
    decreases evs.len(),
{
    if evs.len() == 0 {
        seq![]
    } else {
        seq![step_spec(c, evs[0]).1] + step_outputs(step_spec(c, evs[0]).0, evs.drop_first())
    }
}

/// Every twin patch or reported-state message in a run is strictly
/// preceded by an initial-document message.
pub open spec fn first_twin_message_is_initial(outs: Seq<StepV>) -> bool {
    forall|i: int|
        0 <= i < outs.len() && is_twin_data_message(#[trigger] outs[i].message) ==> exists|j: int|
            0 <= j < i && is_initial_message(#[trigger] outs[j].message)
}

/// The whole-trace form of the first-twin-message law: starting from any
/// well-formed state in which the full document of the connection has not
/// arrived — as after every new connection — no run of transport events
/// surfaces a twin patch or a reported-state acknowledgement before it has
/// surfaced the initial document.
pub proof fn lemma_trace_first_twin_message_is_initial(c: ClientV, evs: Seq<EventV>)
    requires
        wf_v(c),
        !(c.desired is HaveResponse),
    ensures
        first_twin_message_is_initial(step_outputs(c, evs)),
    decreases evs.len(),
{
    if evs.len() > 0 {
        let out0 = step_spec(c, evs[0]).1;
        let c1 = step_spec(c, evs[0]).0;
        let rest = step_outputs(c1, evs.drop_first());
        let outs = step_outputs(c, evs);
        lemma_step_preserves_wf(c, evs[0]);
        lemma_first_twin_message_is_initial(c, evs[0]);
        assert(outs == seq![out0] + rest);
        assert(outs[0] == out0);
        assert(forall|i: int| 1 <= i < outs.len() ==> outs[i] == rest[i - 1]);
        if is_initial_message(out0.message) {
            assert forall|i: int|
                0 <= i < outs.len() && is_twin_data_message(outs[i].message) implies exists|j: int|
                0 <= j < i && is_initial_message(outs[j].message) by {
                assert(i != 0);
                assert(is_initial_message(outs[0].message));
            }
        } else {
            assert(!(c1.desired is HaveResponse));
            lemma_trace_first_twin_message_is_initial(c1, evs.drop_first());
            assert forall|i: int|
                0 <= i < outs.len() && is_twin_data_message(outs[i].message) implies exists|j: int|
                0 <= j < i && is_initial_message(outs[j].message) by {
                assert(i != 0);
                assert(is_twin_data_message(rest[i - 1].message));
                let j0 = choose|j0: int|
                    0 <= j0 < i - 1 && is_initial_message(#[trigger] rest[j0].message);
                assert(outs[j0 + 1] == rest[j0]);
                assert(is_initial_message(outs[j0 + 1].message));
            }
        }
    }
}

} // verus!
