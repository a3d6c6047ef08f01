use vstd::prelude::*;

use crate::backoff::{delay_is_bounded, delay_to_use, doubled_capped, next_reconnect_delay};
use crate::protocol::{ConnectionType, FwdWsResponse, ResponseError, State};
use crate::wire::{default_ws_url, default_ws_url_string, is_ws_path};

verus! {

/// The relay's whole state: what is persisted and what lives only as long
/// as the process.
#[derive(Clone, Debug, PartialEq, Eq)]
pub struct ProcessState {
    /// The remote relay that messages are forwarded to and accepted from.
    pub partner: Option<String>,
    /// The active WebSocket role.
    pub connection: ConnectionType,
    /// The URL last used, or to be used, for an outbound connection.
    pub ws_url: Option<String>,
    /// The live WebSocket channel, if any.
    pub ws_channel: Option<u32>,
    /// The latest local message that arrived while no partner was set.
    pub pending_to_partner: Option<String>,
    /// The latest partner message that arrived while no channel was live.
    pub pending_to_ws: Option<String>,
    /// The delay of the next reconnection timer; unset after a success.
    pub reconnect_delay_ms: Option<u64>,
}

/// What the event loop must do after a handler returns, in order.
#[derive(Clone, Debug, PartialEq, Eq)]
pub enum Effect {
    /// Send a `Forward(message)` request to the relay of `partner`.
    ForwardToPartner { partner: String, message: String },
    /// Push a text frame to the accepted client over the server-side channel.
    PushToClient { channel_id: u32, message: String },
    /// Push a text frame over the outbound client channel.
    PushToServer { channel_id: u32, message: String },
    /// Register a newly accepted inbound channel with the HTTP server.
    AcceptChannel { path: String, channel_id: u32 },
    /// Deregister an inbound channel that closed.
    ReleaseChannel { channel_id: u32 },
    /// Arm the one-shot timer that carries the reconnection token.
    ArmReconnectTimer { delay_ms: u64 },
    /// Answer the request being handled.
    Respond(FwdWsResponse),
}

/// Why an outbound connection is being opened.
#[derive(Clone, Copy, Debug, PartialEq, Eq, Structural)]
pub enum ConnectPurpose {
    /// A peer or the local user asked for it; `respond` says whether the
    /// requester awaits an answer.
    Requested { respond: bool },
    /// The outbound role is declared but its channel was lost.
    Reconnect,
    /// The first connection made when the relay starts.
    Startup,
}

/// An outbound connection that the event loop must try to open before it
/// hands the outcome back with `connect_finished`.
#[derive(Clone, Debug, PartialEq, Eq)]
pub struct ConnectAttempt {
    pub url: String,
    pub channel_id: u32,
    pub purpose: ConnectPurpose,
}

/// The result of handling one event.
#[derive(Clone, Debug, PartialEq, Eq)]
pub struct Step {
    pub effects: Vec<Effect>,
    /// At most one connection to open, after the effects.
    pub connect: Option<ConnectAttempt>,
}

/// What a handler does, as a value: the state after it, the effects it
/// issues, and the URL and purpose of the connection it asks for.
pub struct Outcome {
    pub state: ProcessState,
    pub effects: Seq<Effect>,
    pub connect: Option<(Seq<char>, ConnectPurpose)>,
}

pub open spec fn outcome(
    state: ProcessState,
    effects: Seq<Effect>,
    connect: Option<(Seq<char>, ConnectPurpose)>,
) -> Outcome {
    Outcome { state, effects, connect }
}

/// Whether an attempt opens the connection that `target` describes.
pub open spec fn attempt_matches(
    a: Option<ConnectAttempt>,
    target: Option<(Seq<char>, ConnectPurpose)>,
) -> bool {
    match (a, target) {
        (None, None) => true,
        (Some(a), Some(t)) => a.url@ == t.0 && a.purpose == t.1,
        _ => false,
    }
}

/// Whether a returned step, with the state after it, is what `o` describes.
pub open spec fn step_is(after: ProcessState, step: Step, o: Outcome) -> bool {
    &&& after == o.state
    &&& step.effects@ == o.effects
    &&& attempt_matches(step.connect, o.connect)
}

/// A single `Respond` effect where the requester awaits an answer.
pub open spec fn respond_if(respond: bool, r: FwdWsResponse) -> Seq<Effect> {
    if respond {
        seq![Effect::Respond(r)]
    } else {
        seq![]
    }
}

/// Relies on rand::random: a fresh identifier for a new outbound channel,
/// drawn from the thread-local generator. Nothing is known of its value. It
/// takes no input; it fails only where the operating system cannot seed the
/// generator.
#[verifier::external_body]
pub(crate) fn fresh_channel_id() -> (r: u32) {
    rand::random::<u32>()
}

/// A copy of an optional string, equal to it.
pub fn copy_text(o: &Option<String>) -> (r: Option<String>)
    ensures
        r == *o,
{
    match o {
        Some(s) => Some(s.clone()),
        None => None,
    }
}

impl ProcessState {
    /// The state's invariant: an inbound role always has its channel, no
    /// channel lives without a role, and the stored delay is within the cap.
    pub open spec fn wf(&self) -> bool {
        &&& (self.connection == ConnectionType::ToWsClient ==> self.ws_channel is Some)
        &&& (self.connection == ConnectionType::Idle ==> self.ws_channel is None)
        &&& delay_is_bounded(self.reconnect_delay_ms)
    }

    /// The state of a relay that has never run.
    pub open spec fn empty() -> ProcessState {
        ProcessState {
            partner: None,
            connection: ConnectionType::Idle,
            ws_url: None,
            ws_channel: None,
            pending_to_partner: None,
            pending_to_ws: None,
            reconnect_delay_ms: None,
        }
    }

    pub open spec fn public_state(self) -> State {
        State { partner: self.partner, connection: self.connection, ws_url: self.ws_url }
    }

    /// Whether the outbound role is declared while its channel is missing.
    pub open spec fn wants_reconnect(self) -> bool {
        self.connection == ConnectionType::ToWsServer && self.ws_channel is None
    }

    /// The URL that a reconnection goes to.
    pub open spec fn reconnect_url(self) -> Seq<char> {
        match self.ws_url {
            Some(u) => u@,
            None => default_ws_url(),
        }
    }

    /// The reconnection that this state calls for, if any.
    pub open spec fn reconnect_target(self) -> Option<(Seq<char>, ConnectPurpose)> {
        if self.wants_reconnect() {
            Some((self.reconnect_url(), ConnectPurpose::Reconnect))
        } else {
            None
        }
    }

    /// The state after one more reconnection timer has been armed.
    pub open spec fn after_schedule(self) -> ProcessState {
        ProcessState {
            reconnect_delay_ms: Some(doubled_capped(delay_to_use(self.reconnect_delay_ms))),
            ..self
        }
    }

    /// Effects that deliver the message buffered for the WebSocket side
    /// over the server-side channel `id`.
    pub open spec fn flush_to_client(self, id: u32) -> Seq<Effect> {
        match self.pending_to_ws {
            Some(m) => seq![Effect::PushToClient { channel_id: id, message: m }],
            None => seq![],
        }
    }

    /// Effects that deliver the message buffered for the WebSocket side
    /// over the outbound channel `id`.
    pub open spec fn flush_to_server(self, id: u32) -> Seq<Effect> {
        match self.pending_to_ws {
            Some(m) => seq![Effect::PushToServer { channel_id: id, message: m }],
            None => seq![],
        }
    }

    /// An inbound client opens `channel_id` on `path`.
    pub open spec fn ws_open_outcome(self, path: String, channel_id: u32) -> Outcome {
        if !is_ws_path(path@) || self.connection == ConnectionType::ToWsServer {
            outcome(self, seq![], None)
        } else {
            outcome(
                ProcessState {
                    connection: ConnectionType::ToWsClient,
                    ws_channel: Some(channel_id),
                    pending_to_ws: None,
                    ..self
                },
                seq![Effect::AcceptChannel { path, channel_id }] + self.flush_to_client(
                    channel_id,
                ),
                None,
            )
        }
    }

    /// An inbound channel closes.
    pub open spec fn ws_close_outcome(self, channel_id: u32) -> Outcome {
        if self.ws_channel == Some(channel_id) {
            outcome(
                ProcessState { connection: ConnectionType::Idle, ws_channel: None, ..self },
                seq![Effect::ReleaseChannel { channel_id }],
                None,
            )
        } else {
            outcome(self, seq![], None)
        }
    }

    /// A message arrives from the local WebSocket side.
    pub open spec fn route_outcome(self, message: String) -> Outcome {
        match self.partner {
            Some(p) => outcome(
                self,
                seq![Effect::ForwardToPartner { partner: p, message }],
                None,
            ),
            None => outcome(ProcessState { pending_to_partner: Some(message), ..self }, seq![], None),
        }
    }

    /// A message arrives from the inbound client on `channel_id`.
    pub open spec fn ws_push_outcome(self, channel_id: u32, message: String) -> Outcome {
        if self.ws_channel == Some(channel_id) {
            self.route_outcome(message)
        } else {
            outcome(self, seq![], None)
        }
    }

    /// The outbound channel was closed by the server.
    pub open spec fn client_close_outcome(self) -> Outcome {
        if self.connection == ConnectionType::ToWsServer {
            let s = ProcessState { ws_channel: None, ..self };
            outcome(s, seq![], s.reconnect_target())
        } else {
            outcome(self, seq![], None)
        }
    }

    /// A timer fires with `context`.
    pub open spec fn timer_outcome(self, context: Seq<u8>) -> Outcome {
        if context == crate::wire::reconnect_token() {
            outcome(self, seq![], self.reconnect_target())
        } else {
            outcome(self, seq![], None)
        }
    }

    /// The outcome of an attempt to open an outbound connection is known.
    pub open spec fn connect_outcome(self, a: ConnectAttempt, connected: bool) -> Outcome {
        if connected {
            let answer = match a.purpose {
                ConnectPurpose::Requested { respond } => respond_if(respond, FwdWsResponse::Done),
                _ => seq![],
            };
            outcome(
                ProcessState {
                    connection: ConnectionType::ToWsServer,
                    ws_url: Some(a.url),
                    ws_channel: Some(a.channel_id),
                    pending_to_ws: None,
                    reconnect_delay_ms: None,
                    ..self
                },
                self.flush_to_server(a.channel_id) + answer,
                None,
            )
        } else {
            match a.purpose {
                ConnectPurpose::Startup => outcome(
                    ProcessState {
                        connection: ConnectionType::Idle,
                        ws_url: None,
                        ws_channel: None,
                        ..self
                    },
                    seq![],
                    None,
                ),
                ConnectPurpose::Reconnect => {
                    let s = ProcessState {
                        connection: ConnectionType::ToWsServer,
                        ws_channel: None,
                        ..self
                    };
                    outcome(
                        s.after_schedule(),
                        seq![
                            Effect::ArmReconnectTimer {
                                delay_ms: delay_to_use(self.reconnect_delay_ms),
                            },
                        ],
                        None,
                    )
                },
                ConnectPurpose::Requested { respond } => {
                    let s = ProcessState {
                        connection: ConnectionType::ToWsServer,
                        ws_url: Some(a.url),
                        ws_channel: None,
                        ..self
                    };
                    outcome(
                        s.after_schedule(),
                        respond_if(respond, FwdWsResponse::Refused(ResponseError::FailedToConnect))
                            + seq![
                            Effect::ArmReconnectTimer {
                                delay_ms: delay_to_use(self.reconnect_delay_ms),
                            },
                        ],
                        None,
                    )
                },
            }
        }
    }

    /// The public part of the state: partner, role and URL.
    pub fn to_public_state(&self) -> (r: State)
        ensures
            r == self.public_state(),
    {
        State {
            partner: copy_text(&self.partner),
            connection: self.connection,
            ws_url: copy_text(&self.ws_url),
        }
    }

    /// Asks for a reconnection when the outbound role is declared and its
    /// channel is missing; with a live channel, or another role, it asks
    /// for nothing.
    pub fn try_reconnect_to_server(&self) -> (r: Option<ConnectAttempt>)
        ensures
            attempt_matches(r, self.reconnect_target()),
            self.ws_channel is Some ==> r is None,
    {
        if self.connection != ConnectionType::ToWsServer {
            return None;
        }
        if self.ws_channel.is_some() {
            return None;
        }
        let url = match &self.ws_url {
            Some(u) => u.clone(),
            None => default_ws_url_string(),
        };
        Some(ConnectAttempt { url, channel_id: fresh_channel_id(), purpose: ConnectPurpose::Reconnect })
    }

    /// Stores the delay for the attempt after this one and returns the delay
    /// to arm the reconnection timer with now.
    pub fn schedule_reconnect(&mut self) -> (delay: u64)
        requires
            old(self).wf(),
        ensures
            delay == delay_to_use(old(self).reconnect_delay_ms),
            *final(self) == old(self).after_schedule(),
            final(self).wf(),
    {
        let (delay, next) = next_reconnect_delay(self.reconnect_delay_ms);
        self.reconnect_delay_ms = Some(next);
        delay
    }
}

} // verus!
