use vstd::prelude::*;

use crate::protocol::{ConnectionType, FwdWsRequest, FwdWsResponse, ResponseError, State};
use crate::relay::{
    outcome, respond_if, step_is, ConnectAttempt, ConnectPurpose, Effect, Outcome, ProcessState,
    Step,
};

verus! {

/// An event that reaches the relay from its transports, its timer or a peer.
#[derive(Clone, Debug, PartialEq, Eq)]
pub enum Event {
    /// An inbound client opened a channel on a path.
    WsOpen { path: String, channel_id: u32 },
    /// An inbound channel closed.
    WsClose { channel_id: u32 },
    /// An inbound client sent a text message.
    WsPush { channel_id: u32, message: String },
    /// The server closed the outbound channel.
    ClientClose,
    /// The server sent a text message over the outbound channel.
    ClientPush { message: String },
    /// A timer fired with its context.
    Timer { context: Vec<u8> },
    /// A peer on node `source` sent a request and awaits the response.
    Peer { source: String, request: FwdWsRequest },
}

/// The body of a write request on the HTTP control surface.
#[derive(Clone, Debug, PartialEq, Eq)]
pub enum HttpBody {
    /// The request carried no body.
    Missing,
    /// The body is not a request of the peer protocol.
    Malformed,
    /// The body is this request.
    Request(FwdWsRequest),
}

/// What the HTTP control surface answers.
#[derive(Clone, Debug, PartialEq, Eq)]
pub enum HttpReply {
    /// Status 200 with the public state as JSON.
    StateJson(State),
    /// A bare status.
    Status(u16),
}

pub const HTTP_OK: u16 = 200;
pub const HTTP_BAD_REQUEST: u16 = 400;
pub const HTTP_SERVER_ERROR: u16 = 500;
pub const HTTP_METHOD_NOT_ALLOWED: u16 = 405;

/// Whether `source` is the configured partner.
pub open spec fn is_partner(partner: Option<String>, source: Seq<char>) -> bool {
    partner matches Some(p) && p@ == source
}

impl ProcessState {
    /// A request of the peer protocol from node `source`; `respond` says
    /// whether the requester awaits a response.
    pub open spec fn request_outcome(
        self,
        source: Seq<char>,
        request: FwdWsRequest,
        respond: bool,
    ) -> Outcome {
        match request {
            FwdWsRequest::SetPartner(p) => {
                let set = ProcessState { partner: p, ..self };
                match (p, self.pending_to_partner) {
                    (Some(name), Some(m)) => outcome(
                        ProcessState { pending_to_partner: None, ..set },
                        seq![Effect::ForwardToPartner { partner: name, message: m }] + respond_if(
                            respond,
                            FwdWsResponse::Done,
                        ),
                        None,
                    ),
                    _ => outcome(set, respond_if(respond, FwdWsResponse::Done), None),
                }
            },
            FwdWsRequest::ConnectToServer(url) => {
                if self.connection != ConnectionType::Idle {
                    outcome(
                        self,
                        respond_if(
                            respond,
                            FwdWsResponse::Refused(ResponseError::AlreadyConnected),
                        ),
                        None,
                    )
                } else {
                    outcome(self, seq![], Some((url@, ConnectPurpose::Requested { respond })))
                }
            },
            FwdWsRequest::AcceptClients(endpoint) => {
                if self.connection != ConnectionType::Idle {
                    outcome(
                        self,
                        respond_if(
                            respond,
                            FwdWsResponse::Refused(ResponseError::AlreadyConnected),
                        ),
                        None,
                    )
                } else {
                    outcome(
                        ProcessState { ws_url: Some(endpoint), ..self },
                        respond_if(respond, FwdWsResponse::Done),
                        None,
                    )
                }
            },
            FwdWsRequest::Disconnect => outcome(
                ProcessState {
                    connection: ConnectionType::Idle,
                    ws_url: None,
                    ws_channel: None,
                    reconnect_delay_ms: None,
                    ..self
                },
                respond_if(respond, FwdWsResponse::Done),
                None,
            ),
            FwdWsRequest::GetState => outcome(
                self,
                respond_if(respond, FwdWsResponse::GetState(self.public_state())),
                None,
            ),
            FwdWsRequest::Forward(message) => {
                if message@.len() == 0 || !is_partner(self.partner, source) {
                    outcome(self, seq![], None)
                } else {
                    match (self.ws_channel, self.connection) {
                        (Some(id), ConnectionType::ToWsServer) => outcome(
                            self,
                            seq![Effect::PushToServer { channel_id: id, message }] + respond_if(
                                respond,
                                FwdWsResponse::Done,
                            ),
                            None,
                        ),
                        (Some(id), ConnectionType::ToWsClient) => outcome(
                            self,
                            seq![Effect::PushToClient { channel_id: id, message }] + respond_if(
                                respond,
                                FwdWsResponse::Done,
                            ),
                            None,
                        ),
                        _ => outcome(
                            ProcessState { pending_to_ws: Some(message), ..self },
                            respond_if(respond, FwdWsResponse::Done),
                            None,
                        ),
                    }
                }
            },
        }
    }
}

/// Pushes a `Respond` effect where the requester awaits an answer.
fn respond_into(effects: &mut Vec<Effect>, respond: bool, r: FwdWsResponse)
    ensures
        final(effects)@ == old(effects)@ + respond_if(respond, r),
{
    if respond {
        effects.push(Effect::Respond(r));
    }
    assert(final(effects)@ =~= old(effects)@ + respond_if(respond, r));
}

impl ProcessState {
    /// Carries out a request of the peer protocol from node `source`.
    /// `Forward` from anyone but the partner, or with an empty message, is
    /// dropped without a trace and without a response.
    pub fn handle_request_message(
        &mut self,
        source: &String,
        request: FwdWsRequest,
        should_respond: bool,
    ) -> (r: Step)
        requires
            old(self).wf(),
        ensures
            step_is(*final(self), r, old(self).request_outcome(source@, request, should_respond)),
            (request matches FwdWsRequest::Forward(_) && !is_partner(old(self).partner, source@))
                ==> *final(self) == *old(self) && r.effects@.len() == 0 && r.connect is None,
            final(self).wf(),
    {
        let ghost start = *self;
        let mut effects: Vec<Effect> = Vec::new();
        let mut connect: Option<ConnectAttempt> = None;
        match request {
            FwdWsRequest::SetPartner(partner) => {
                self.partner = partner;
                if let Some(name) = &self.partner {
                    if let Some(message) = self.pending_to_partner.take() {
                        effects.push(Effect::ForwardToPartner { partner: name.clone(), message });
                    }
                }
                respond_into(&mut effects, should_respond, FwdWsResponse::Done);
            },
            FwdWsRequest::ConnectToServer(url) => {
                if self.connection != ConnectionType::Idle {
                    respond_into(
                        &mut effects,
                        should_respond,
                        FwdWsResponse::Refused(ResponseError::AlreadyConnected),
                    );
                } else {
                    connect = Some(
                        ConnectAttempt {
                            url,
                            channel_id: crate::relay::fresh_channel_id(),
                            purpose: ConnectPurpose::Requested { respond: should_respond },
                        },
                    );
                }
            },
            FwdWsRequest::AcceptClients(endpoint) => {
                if self.connection != ConnectionType::Idle {
                    respond_into(
                        &mut effects,
                        should_respond,
                        FwdWsResponse::Refused(ResponseError::AlreadyConnected),
                    );
                } else {
                    self.ws_url = Some(endpoint);
                    respond_into(&mut effects, should_respond, FwdWsResponse::Done);
                }
            },
            FwdWsRequest::Disconnect => {
                self.connection = ConnectionType::Idle;
                self.ws_url = None;
                self.ws_channel = None;
                self.reconnect_delay_ms = None;
                respond_into(&mut effects, should_respond, FwdWsResponse::Done);
            },
            FwdWsRequest::GetState => {
                let state = self.to_public_state();
                respond_into(&mut effects, should_respond, FwdWsResponse::GetState(state));
            },
            FwdWsRequest::Forward(message) => {
                let from_partner = match &self.partner {
                    Some(p) => *p == *source,
                    None => false,
                };
                if message.as_str().is_empty() || !from_partner {
                    return Step { effects, connect };
                }
                match (self.ws_channel, self.connection) {
                    (Some(id), ConnectionType::ToWsServer) => {
                        effects.push(Effect::PushToServer { channel_id: id, message });
                    },
                    (Some(id), ConnectionType::ToWsClient) => {
                        effects.push(Effect::PushToClient { channel_id: id, message });
                    },
                    _ => {
                        self.pending_to_ws = Some(message);
                    },
                }
                respond_into(&mut effects, should_respond, FwdWsResponse::Done);
            },
        }
        assert(effects@ =~= start.request_outcome(source@, request, should_respond).effects);
        Step { effects, connect }
    }
}

impl ProcessState {
    /// What one event does.
    pub open spec fn event_outcome(self, event: Event) -> Outcome {
        match event {
            Event::WsOpen { path, channel_id } => self.ws_open_outcome(path, channel_id),
            Event::WsClose { channel_id } => self.ws_close_outcome(channel_id),
            Event::WsPush { channel_id, message } => self.ws_push_outcome(channel_id, message),
            Event::ClientClose => self.client_close_outcome(),
            Event::ClientPush { message } => self.route_outcome(message),
            Event::Timer { context } => self.timer_outcome(context@),
            Event::Peer { source, request } => self.request_outcome(source@, request, true),
        }
    }

    /// What the HTTP control surface answers to `method` with `body`, and
    /// what the request does; a written request acts as one from `our` own
    /// node that awaits no response.
    pub open spec fn http_outcome(self, our: Seq<char>, method: Seq<char>, body: HttpBody) -> (
        HttpReply,
        Outcome,
    ) {
        if method == "GET"@ {
            (HttpReply::StateJson(self.public_state()), outcome(self, seq![], None))
        } else if method == "PUT"@ {
            match body {
                HttpBody::Missing => (
                    HttpReply::Status(HTTP_BAD_REQUEST),
                    outcome(self, seq![], None),
                ),
                HttpBody::Malformed => (
                    HttpReply::Status(HTTP_SERVER_ERROR),
                    outcome(self, seq![], None),
                ),
                HttpBody::Request(request) => (
                    HttpReply::Status(HTTP_OK),
                    self.request_outcome(our, request, false),
                ),
            }
        } else {
            (HttpReply::Status(HTTP_METHOD_NOT_ALLOWED), outcome(self, seq![], None))
        }
    }

    /// Handles one event from a transport, the timer or a peer.
    pub fn handle_message(&mut self, event: Event) -> (r: Step)
        requires
            old(self).wf(),
        ensures
            step_is(*final(self), r, old(self).event_outcome(event)),
            final(self).wf(),
    {
        match event {
            Event::WsOpen { path, channel_id } => {
                let effects = self.on_ws_open(path, channel_id);
                Step { effects, connect: None }
            },
            Event::WsClose { channel_id } => {
                let effects = self.on_ws_close(channel_id);
                Step { effects, connect: None }
            },
            Event::WsPush { channel_id, message } => {
                let effects = self.on_ws_push(channel_id, message);
                Step { effects, connect: None }
            },
            Event::ClientClose => {
                let connect = self.on_client_close();
                let effects: Vec<Effect> = Vec::new();
                assert(effects@ =~= seq![]);
                Step { effects, connect }
            },
            Event::ClientPush { message } => {
                let effects = self.route_to_partner(message);
                Step { effects, connect: None }
            },
            Event::Timer { context } => {
                let connect = self.on_timer(context.as_slice());
                let effects: Vec<Effect> = Vec::new();
                assert(effects@ =~= seq![]);
                Step { effects, connect }
            },
            Event::Peer { source, request } => self.handle_request_message(&source, request, true),
        }
    }

    /// Serves the HTTP control surface: `GET` reads the public state, `PUT`
    /// carries out the request in its body as one from `our` own node, and
    /// any other method is refused.
    pub fn handle_http_server_request(&mut self, our: &String, method: &String, body: HttpBody) -> (r: (
        HttpReply,
        Step,
    ))
        requires
            old(self).wf(),
        ensures
            r.0 == old(self).http_outcome(our@, method@, body).0,
            step_is(*final(self), r.1, old(self).http_outcome(our@, method@, body).1),
            final(self).wf(),
    {
        let get = "GET".to_owned();
        let put = "PUT".to_owned();
        let none: Vec<Effect> = Vec::new();
        assert(none@ =~= seq![]);
        if *method == get {
            let state = self.to_public_state();
            (HttpReply::StateJson(state), Step { effects: none, connect: None })
        } else if *method == put {
            match body {
                HttpBody::Missing => (
                    HttpReply::Status(HTTP_BAD_REQUEST),
                    Step { effects: none, connect: None },
                ),
                HttpBody::Malformed => (
                    HttpReply::Status(HTTP_SERVER_ERROR),
                    Step { effects: none, connect: None },
                ),
                HttpBody::Request(request) => {
                    let step = self.handle_request_message(our, request, false);
                    (HttpReply::Status(HTTP_OK), step)
                },
            }
        } else {
            (HttpReply::Status(HTTP_METHOD_NOT_ALLOWED), Step { effects: none, connect: None })
        }
    }
}

} // verus!
