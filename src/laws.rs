use vstd::prelude::*;

use crate::protocol::{ConnectionType, FwdWsRequest, FwdWsResponse};
use crate::relay::{respond_if, ConnectAttempt, ConnectPurpose, Effect, ProcessState};
use crate::router::Event;
use crate::wire::is_ws_path;

verus! {

/// Inbound closes and timer firings.
pub open spec fn is_close_or_timer(e: Event) -> bool {
    e is WsClose || e is Timer
}

/// Whether any event of the run, from state `s`, asks for a connection.
pub open spec fn attempts_during(s: ProcessState, events: Seq<Event>) -> bool
    decreases events.len(),
{
    if events.len() == 0 {
        false
    } else {
        let o = s.event_outcome(events[0]);
        o.connect is Some || attempts_during(o.state, events.drop_first())
    }
}

proof fn no_attempt_without_outbound_gap(s: ProcessState, events: Seq<Event>)
    requires
        s.ws_channel is Some || s.connection != ConnectionType::ToWsServer,
        forall|i: int| 0 <= i < events.len() ==> is_close_or_timer(#[trigger] events[i]),
    ensures
        !attempts_during(s, events),
    decreases events.len(),
{
    if events.len() > 0 {
        assert(is_close_or_timer(events[0]));
        let rest = events.drop_first();
        assert forall|i: int| 0 <= i < rest.len() implies is_close_or_timer(#[trigger] rest[i]) by {
            assert(rest[i] == events[i + 1]);
        }
        no_attempt_without_outbound_gap(s.event_outcome(events[0]).state, rest);
    }
}

/// While a channel is live, no run of inbound closes and timer firings asks
/// for a new outbound connection.
pub proof fn single_flight_reconnection(s: ProcessState, events: Seq<Event>)
    requires
        s.wf(),
        s.ws_channel is Some,
        forall|i: int| 0 <= i < events.len() ==> is_close_or_timer(#[trigger] events[i]),
    ensures
        !attempts_during(s, events),
{
    no_attempt_without_outbound_gap(s, events);
}

/// The state after two `Forward` requests from `source`.
pub open spec fn after_two_forwards(
    s: ProcessState,
    source: Seq<char>,
    first: String,
    second: String,
) -> ProcessState {
    let s1 = s.request_outcome(source, FwdWsRequest::Forward(first), true).state;
    s1.request_outcome(source, FwdWsRequest::Forward(second), true).state
}

/// Two partner messages that arrive while no channel is live leave only the
/// second buffered: an inbound client that opens next receives the second
/// alone, and so does an outbound connection that opens next.
pub proof fn latest_message_to_ws_wins(
    s: ProcessState,
    first: String,
    second: String,
    path: String,
    attempt: ConnectAttempt,
)
    requires
        s.wf(),
        s.partner is Some,
        s.ws_channel is None,
        first@.len() > 0,
        second@.len() > 0,
    ensures
        ({
            let t = after_two_forwards(s, s.partner->Some_0@, first, second);
            &&& t.pending_to_ws == Some(second)
            &&& (is_ws_path(path@) && s.connection != ConnectionType::ToWsServer)
                ==> t.ws_open_outcome(path, attempt.channel_id).effects == seq![
                Effect::AcceptChannel { path, channel_id: attempt.channel_id },
                Effect::PushToClient { channel_id: attempt.channel_id, message: second },
            ]
            &&& t.connect_outcome(attempt, true).effects == seq![
                Effect::PushToServer { channel_id: attempt.channel_id, message: second },
            ] + match attempt.purpose {
                ConnectPurpose::Requested { respond } => respond_if(respond, FwdWsResponse::Done),
                _ => seq![],
            }
        }),
{
    let t = after_two_forwards(s, s.partner->Some_0@, first, second);
    assert(t.ws_channel is None);
}

/// Two local messages that arrive while no partner is set leave only the
/// second buffered: the partner set next receives the second alone.
pub proof fn latest_message_to_partner_wins(
    s: ProcessState,
    first: String,
    second: String,
    partner: String,
    respond: bool,
)
    requires
        s.wf(),
        s.partner is None,
    ensures
        ({
            let t = s.route_outcome(first).state.route_outcome(second).state;
            let o = t.request_outcome(partner@, FwdWsRequest::SetPartner(Some(partner)), respond);
            &&& t.pending_to_partner == Some(second)
            &&& o.effects == seq![Effect::ForwardToPartner { partner, message: second }]
                + respond_if(respond, FwdWsResponse::Done)
            &&& o.state.pending_to_partner is None
        }),
{
}

} // verus!
