use fwd_ws::backoff::{next_reconnect_delay, INITIAL_RECONNECT_DELAY_MS, MAX_RECONNECT_DELAY_MS};
use fwd_ws::persist::PersistedState;
use fwd_ws::protocol::{ConnectionType, FwdWsRequest, FwdWsResponse, ResponseError, State};
use fwd_ws::relay::{ConnectAttempt, ConnectPurpose, Effect, ProcessState};
use fwd_ws::router::{Event, HttpBody, HttpReply};
use fwd_ws::wire::{is_reconnect_token, reconnect_token_bytes, DEFAULT_WS_URL};

fn s(text: &str) -> String {
    text.to_string()
}

fn token() -> Vec<u8> {
    b"reconnect".to_vec()
}

fn peer(source: &str, request: FwdWsRequest) -> Event {
    Event::Peer { source: s(source), request }
}

fn outbound(url: &str, channel_id: u32) -> ProcessState {
    let mut st = ProcessState::default();
    st.connection = ConnectionType::ToWsServer;
    st.ws_url = Some(s(url));
    st.ws_channel = Some(channel_id);
    st
}

#[test]
fn round_trip_through_partner() {
    let mut a = ProcessState::default();
    let step = a.handle_message(peer("A", FwdWsRequest::SetPartner(Some(s("B")))));
    assert_eq!(step.effects, vec![Effect::Respond(FwdWsResponse::Done)]);
    assert_eq!(a.partner, Some(s("B")));

    let effects = a.route_to_partner(s("hello"));
    assert_eq!(
        effects,
        vec![Effect::ForwardToPartner { partner: s("B"), message: s("hello") }]
    );

    let mut b = ProcessState::default();
    b.partner = Some(s("A"));
    let step = b.handle_message(peer("A", FwdWsRequest::Forward(s("hello"))));
    assert_eq!(step.effects, vec![Effect::Respond(FwdWsResponse::Done)]);
    assert_eq!(b.pending_to_ws, Some(s("hello")));
}

#[test]
fn buffer_then_flush_to_partner() {
    let mut st = ProcessState::default();
    let effects = st.handle_message(Event::ClientPush { message: s("x") }).effects;
    assert!(effects.is_empty());
    assert_eq!(st.pending_to_partner, Some(s("x")));

    let step = st.handle_message(peer("A", FwdWsRequest::SetPartner(Some(s("B")))));
    assert_eq!(
        step.effects,
        vec![
            Effect::ForwardToPartner { partner: s("B"), message: s("x") },
            Effect::Respond(FwdWsResponse::Done),
        ]
    );
    assert_eq!(st.pending_to_partner, None);
}

#[test]
fn failed_connect_then_timer_retries() {
    let mut st = ProcessState::default();
    let step = st.handle_message(peer("A", FwdWsRequest::ConnectToServer(s("ws://h:1"))));
    assert!(step.effects.is_empty());
    let attempt = step.connect.expect("a connection is asked for");
    assert_eq!(attempt.url, s("ws://h:1"));
    assert_eq!(attempt.purpose, ConnectPurpose::Requested { respond: true });

    let effects = st.connect_finished(attempt, false);
    assert_eq!(
        effects,
        vec![
            Effect::Respond(FwdWsResponse::Refused(ResponseError::FailedToConnect)),
            Effect::ArmReconnectTimer { delay_ms: 5000 },
        ]
    );
    assert_eq!(ResponseError::FailedToConnect.text(), s("Failed to connect"));
    assert_eq!(st.ws_channel, None);

    let step = st.handle_message(Event::Timer { context: token() });
    let retry = step.connect.expect("the timer retries");
    assert_eq!(retry.url, s("ws://h:1"));
    assert_eq!(retry.purpose, ConnectPurpose::Reconnect);
}

#[test]
fn backoff_doubles_to_the_cap_and_resets() {
    let mut st = ProcessState::default();
    st.connection = ConnectionType::ToWsServer;
    st.ws_url = Some(s("ws://h:1"));
    let mut seen = Vec::new();
    for _ in 0..6 {
        let attempt = st.try_reconnect_to_server().expect("reconnecting");
        let effects = st.connect_finished(attempt, false);
        match effects.as_slice() {
            [Effect::ArmReconnectTimer { delay_ms }] => seen.push(*delay_ms),
            other => panic!("unexpected effects {:?}", other),
        }
    }
    assert_eq!(seen, vec![5000, 10000, 20000, 30000, 30000, 30000]);

    let attempt = st.try_reconnect_to_server().expect("reconnecting");
    let channel_id = attempt.channel_id;
    assert!(st.connect_finished(attempt, true).is_empty());
    assert_eq!(st.ws_channel, Some(channel_id));
    assert_eq!(st.reconnect_delay_ms, None);

    let attempt = st.on_client_close().expect("reconnecting after loss");
    let effects = st.connect_finished(attempt, false);
    assert_eq!(effects, vec![Effect::ArmReconnectTimer { delay_ms: 5000 }]);
}

#[test]
fn next_delay_values() {
    assert_eq!(next_reconnect_delay(None), (5000, 10000));
    assert_eq!(next_reconnect_delay(Some(20000)), (20000, 30000));
    assert_eq!(next_reconnect_delay(Some(30000)), (30000, 30000));
    assert_eq!(INITIAL_RECONNECT_DELAY_MS, 5000);
    assert_eq!(MAX_RECONNECT_DELAY_MS, 30000);
}

#[test]
fn no_reconnect_while_channel_live() {
    let mut st = outbound("ws://h:1", 9);
    assert!(st.try_reconnect_to_server().is_none());
    assert!(st.handle_message(Event::Timer { context: token() }).connect.is_none());
    let step = st.handle_message(Event::WsClose { channel_id: 4 });
    assert!(step.connect.is_none() && step.effects.is_empty());
    assert!(st.handle_message(Event::Timer { context: token() }).connect.is_none());
    assert_eq!(st, outbound("ws://h:1", 9));
}

#[test]
fn timer_with_other_context_is_ignored() {
    let mut st = ProcessState::default();
    st.connection = ConnectionType::ToWsServer;
    assert!(st.handle_message(Event::Timer { context: b"other".to_vec() }).connect.is_none());
    let attempt = st.handle_message(Event::Timer { context: token() }).connect.unwrap();
    assert_eq!(attempt.url, s(DEFAULT_WS_URL));
}

#[test]
fn latest_message_to_ws_wins() {
    let mut st = ProcessState::default();
    st.partner = Some(s("B"));
    st.handle_message(peer("B", FwdWsRequest::Forward(s("one"))));
    st.handle_message(peer("B", FwdWsRequest::Forward(s("two"))));
    assert_eq!(st.pending_to_ws, Some(s("two")));
    let effects = st.on_ws_open(s("/"), 3);
    assert_eq!(
        effects,
        vec![
            Effect::AcceptChannel { path: s("/"), channel_id: 3 },
            Effect::PushToClient { channel_id: 3, message: s("two") },
        ]
    );
    assert_eq!(st.connection, ConnectionType::ToWsClient);
    assert_eq!(st.pending_to_ws, None);
}

#[test]
fn latest_message_to_partner_wins() {
    let mut st = ProcessState::default();
    st.route_to_partner(s("one"));
    st.route_to_partner(s("two"));
    let step = st.handle_request_message(&s("A"), FwdWsRequest::SetPartner(Some(s("B"))), false);
    assert_eq!(
        step.effects,
        vec![Effect::ForwardToPartner { partner: s("B"), message: s("two") }]
    );
}

#[test]
fn buffered_message_goes_out_on_reconnect() {
    let mut st = ProcessState::default();
    st.partner = Some(s("B"));
    st.connection = ConnectionType::ToWsServer;
    st.handle_message(peer("B", FwdWsRequest::Forward(s("later"))));
    let attempt = ConnectAttempt { url: s("ws://h:1"), channel_id: 11, purpose: ConnectPurpose::Reconnect };
    let effects = st.connect_finished(attempt, true);
    assert_eq!(effects, vec![Effect::PushToServer { channel_id: 11, message: s("later") }]);
}

#[test]
fn inbound_open_ignored_while_outbound() {
    let mut st = outbound("ws://h:1", 5);
    let effects = st.on_ws_open(s("/"), 8);
    assert!(effects.is_empty());
    assert_eq!(st.connection, ConnectionType::ToWsServer);
    assert_eq!(st.ws_channel, Some(5));
}

#[test]
fn inbound_open_on_unknown_path_ignored() {
    let mut st = ProcessState::default();
    assert!(st.on_ws_open(s("/other"), 8).is_empty());
    assert_eq!(st, ProcessState::default());
    assert_eq!(st.on_ws_open(s("/api"), 8), vec![Effect::AcceptChannel { path: s("/api"), channel_id: 8 }]);
}

#[test]
fn inbound_close_only_for_live_channel() {
    let mut st = ProcessState::default();
    st.on_ws_open(s("/"), 8);
    assert!(st.on_ws_close(9).is_empty());
    assert_eq!(st.connection, ConnectionType::ToWsClient);
    assert_eq!(st.on_ws_close(8), vec![Effect::ReleaseChannel { channel_id: 8 }]);
    assert_eq!(st.connection, ConnectionType::Idle);
    assert_eq!(st.ws_channel, None);
}

#[test]
fn forward_from_stranger_is_dropped() {
    let mut st = ProcessState::default();
    st.partner = Some(s("B"));
    st.on_ws_open(s("/"), 2);
    let before = st.clone();
    let step = st.handle_message(peer("C", FwdWsRequest::Forward(s("hi"))));
    assert!(step.effects.is_empty() && step.connect.is_none());
    assert_eq!(st, before);
    let step = st.handle_message(peer("B", FwdWsRequest::Forward(s(""))));
    assert!(step.effects.is_empty());
    let step = st.handle_message(peer("B", FwdWsRequest::Forward(s("hi"))));
    assert_eq!(
        step.effects,
        vec![
            Effect::PushToClient { channel_id: 2, message: s("hi") },
            Effect::Respond(FwdWsResponse::Done),
        ]
    );
}

#[test]
fn forward_without_partner_is_dropped() {
    let mut st = ProcessState::default();
    let step = st.handle_message(peer("B", FwdWsRequest::Forward(s("hi"))));
    assert!(step.effects.is_empty());
    assert_eq!(st.pending_to_ws, None);
}

#[test]
fn forward_over_outbound_channel() {
    let mut st = outbound("ws://h:1", 6);
    st.partner = Some(s("B"));
    let step = st.handle_message(peer("B", FwdWsRequest::Forward(s("m"))));
    assert_eq!(
        step.effects,
        vec![
            Effect::PushToServer { channel_id: 6, message: s("m") },
            Effect::Respond(FwdWsResponse::Done),
        ]
    );
}

#[test]
fn connect_and_accept_refused_when_active() {
    let mut st = outbound("ws://h:1", 6);
    let step = st.handle_message(peer("A", FwdWsRequest::ConnectToServer(s("ws://x"))));
    assert_eq!(
        step.effects,
        vec![Effect::Respond(FwdWsResponse::Refused(ResponseError::AlreadyConnected))]
    );
    assert!(step.connect.is_none());
    let step = st.handle_message(peer("A", FwdWsRequest::AcceptClients(s("ws://y"))));
    assert_eq!(
        step.effects,
        vec![Effect::Respond(FwdWsResponse::Refused(ResponseError::AlreadyConnected))]
    );
    assert_eq!(ResponseError::AlreadyConnected.text(), s("Already connected"));
    assert_eq!(st.ws_url, Some(s("ws://h:1")));
}

#[test]
fn accept_clients_records_endpoint() {
    let mut st = ProcessState::default();
    let step = st.handle_message(peer("A", FwdWsRequest::AcceptClients(s("ws://me:2"))));
    assert_eq!(step.effects, vec![Effect::Respond(FwdWsResponse::Done)]);
    assert_eq!(st.ws_url, Some(s("ws://me:2")));
    assert_eq!(st.connection, ConnectionType::Idle);
}

#[test]
fn successful_connect_answers_ok() {
    let mut st = ProcessState::default();
    st.reconnect_delay_ms = Some(20000);
    let attempt = st
        .handle_message(peer("A", FwdWsRequest::ConnectToServer(s("ws://h:1"))))
        .connect
        .unwrap();
    let channel_id = attempt.channel_id;
    assert_eq!(st.connect_finished(attempt, true), vec![Effect::Respond(FwdWsResponse::Done)]);
    assert_eq!(st.connection, ConnectionType::ToWsServer);
    assert_eq!(st.ws_channel, Some(channel_id));
    assert_eq!(st.reconnect_delay_ms, None);
}

#[test]
fn disconnect_clears_everything_but_partner() {
    let mut st = outbound("ws://h:1", 6);
    st.partner = Some(s("B"));
    st.reconnect_delay_ms = Some(10000);
    let step = st.handle_message(peer("A", FwdWsRequest::Disconnect));
    assert_eq!(step.effects, vec![Effect::Respond(FwdWsResponse::Done)]);
    assert_eq!(st.connection, ConnectionType::Idle);
    assert_eq!(st.ws_url, None);
    assert_eq!(st.ws_channel, None);
    assert_eq!(st.reconnect_delay_ms, None);
    assert_eq!(st.partner, Some(s("B")));
}

#[test]
fn get_state_hides_channel_and_buffers() {
    let mut st = outbound("ws://h:1", 6);
    st.partner = Some(s("B"));
    st.pending_to_partner = Some(s("p"));
    let expected = State {
        partner: Some(s("B")),
        connection: ConnectionType::ToWsServer,
        ws_url: Some(s("ws://h:1")),
    };
    assert_eq!(st.to_public_state(), expected);
    let step = st.handle_message(peer("A", FwdWsRequest::GetState));
    assert_eq!(step.effects, vec![Effect::Respond(FwdWsResponse::GetState(expected))]);
}

#[test]
fn local_requests_send_no_response() {
    let mut st = ProcessState::default();
    let step = st.handle_request_message(&s("me"), FwdWsRequest::GetState, false);
    assert!(step.effects.is_empty());
    let step = st.handle_request_message(&s("me"), FwdWsRequest::SetPartner(None), false);
    assert!(step.effects.is_empty());
}

#[test]
fn outbound_push_routes_to_partner() {
    let mut st = outbound("ws://h:1", 6);
    st.partner = Some(s("B"));
    let step = st.handle_message(Event::ClientPush { message: s("up") });
    assert_eq!(step.effects, vec![Effect::ForwardToPartner { partner: s("B"), message: s("up") }]);
    let step = st.handle_message(Event::WsPush { channel_id: 6, message: s("up2") });
    assert_eq!(step.effects, vec![Effect::ForwardToPartner { partner: s("B"), message: s("up2") }]);
    let step = st.handle_message(Event::WsPush { channel_id: 7, message: s("no") });
    assert!(step.effects.is_empty());
}

#[test]
fn outbound_close_keeps_role_and_reconnects() {
    let mut st = outbound("ws://h:1", 6);
    let step = st.handle_message(Event::ClientClose);
    let attempt = step.connect.unwrap();
    assert_eq!(attempt.url, s("ws://h:1"));
    assert_eq!(st.connection, ConnectionType::ToWsServer);
    assert_eq!(st.ws_channel, None);

    let mut idle = ProcessState::default();
    assert!(idle.handle_message(Event::ClientClose).connect.is_none());
}

#[test]
fn http_surface() {
    let mut st = ProcessState::default();
    st.partner = Some(s("B"));
    let (reply, step) = st.handle_http_server_request(&s("me"), &s("GET"), HttpBody::Missing);
    assert_eq!(
        reply,
        HttpReply::StateJson(State { partner: Some(s("B")), connection: ConnectionType::Idle, ws_url: None })
    );
    assert!(step.effects.is_empty());
    let (reply, _) = st.handle_http_server_request(&s("me"), &s("PUT"), HttpBody::Missing);
    assert_eq!(reply, HttpReply::Status(400));
    let (reply, _) = st.handle_http_server_request(&s("me"), &s("PUT"), HttpBody::Malformed);
    assert_eq!(reply, HttpReply::Status(500));
    let (reply, _) = st.handle_http_server_request(&s("me"), &s("DELETE"), HttpBody::Missing);
    assert_eq!(reply, HttpReply::Status(405));
    let (reply, step) = st.handle_http_server_request(
        &s("me"),
        &s("PUT"),
        HttpBody::Request(FwdWsRequest::SetPartner(Some(s("C")))),
    );
    assert_eq!(reply, HttpReply::Status(200));
    assert!(step.effects.is_empty());
    assert_eq!(st.partner, Some(s("C")));
}

#[test]
fn save_and_restore() {
    let mut st = outbound("ws://h:1", 6);
    st.partner = Some(s("B"));
    st.pending_to_ws = Some(s("w"));
    st.reconnect_delay_ms = Some(10000);
    let saved = st.save();
    assert_eq!(
        saved,
        PersistedState {
            partner: Some(s("B")),
            connection: ConnectionType::ToWsServer,
            ws_url: Some(s("ws://h:1")),
            reconnect_delay_ms: Some(10000),
        }
    );
    let back = ProcessState::restore(saved);
    assert_eq!(back.ws_channel, None);
    assert_eq!(back.pending_to_ws, None);
    assert_eq!(back.partner, Some(s("B")));
    assert_eq!(back.reconnect_delay_ms, Some(10000));
}

#[test]
fn restore_drops_inbound_role_and_caps_delay() {
    let saved = PersistedState {
        partner: None,
        connection: ConnectionType::ToWsClient,
        ws_url: None,
        reconnect_delay_ms: Some(90000),
    };
    let st = ProcessState::restore(saved);
    assert_eq!(st.connection, ConnectionType::Idle);
    assert_eq!(st.reconnect_delay_ms, Some(30000));
}

#[test]
fn startup_resumes_outbound_role() {
    let saved = PersistedState {
        partner: None,
        connection: ConnectionType::ToWsServer,
        ws_url: Some(s("ws://h:1")),
        reconnect_delay_ms: None,
    };
    let (st, attempt) = ProcessState::startup(Some(saved));
    assert_eq!(attempt.url, s("ws://h:1"));
    assert_eq!(attempt.purpose, ConnectPurpose::Reconnect);
    assert_eq!(st.connection, ConnectionType::ToWsServer);
}

#[test]
fn startup_tries_default_server() {
    let (mut st, attempt) = ProcessState::startup(None);
    assert_eq!(attempt.url, s("ws://localhost:10125"));
    assert_eq!(attempt.purpose, ConnectPurpose::Startup);
    assert!(st.connect_finished(attempt, false).is_empty());
    assert_eq!(st, ProcessState::default());
}

#[test]
fn reconnect_token_matches_only_itself() {
    assert_eq!(reconnect_token_bytes(), token());
    assert!(is_reconnect_token(b"reconnect"));
    assert!(!is_reconnect_token(b"reconnecT"));
    assert!(!is_reconnect_token(b"reconnect!"));
    assert!(!is_reconnect_token(b""));
}
