use vstd::prelude::*;

use crate::protocol::{ConnectionType, FwdWsResponse, ResponseError};
use crate::relay::{attempt_matches, ConnectAttempt, ConnectPurpose, Effect, ProcessState};
use crate::wire::{accepts_ws_path, is_reconnect_token};

verus! {

impl ProcessState {
    /// An inbound client opens `channel_id` on `path`. The relay takes the
    /// inbound role unless the path is not a WebSocket path or an outbound
    /// connection holds the role; a message buffered for the WebSocket side
    /// goes to the new channel at once.
    pub fn on_ws_open(&mut self, path: String, channel_id: u32) -> (r: Vec<Effect>)
        requires
            old(self).wf(),
        ensures
            *final(self) == old(self).ws_open_outcome(path, channel_id).state,
            r@ == old(self).ws_open_outcome(path, channel_id).effects,
            old(self).connection == ConnectionType::ToWsServer ==> *final(self) == *old(self)
                && r@.len() == 0,
            final(self).wf(),
    {
        let mut effects: Vec<Effect> = Vec::new();
        if !accepts_ws_path(&path) || self.connection == ConnectionType::ToWsServer {
            return effects;
        }
        self.connection = ConnectionType::ToWsClient;
        self.ws_channel = Some(channel_id);
        effects.push(Effect::AcceptChannel { path, channel_id });
        if let Some(message) = self.pending_to_ws.take() {
            effects.push(Effect::PushToClient { channel_id, message });
        }
        assert(effects@ =~= old(self).ws_open_outcome(path, channel_id).effects);
        effects
    }

    /// An inbound channel closes. Only the live channel is acted on: the
    /// relay goes back to no role.
    pub fn on_ws_close(&mut self, channel_id: u32) -> (r: Vec<Effect>)
        requires
            old(self).wf(),
        ensures
            *final(self) == old(self).ws_close_outcome(channel_id).state,
            r@ == old(self).ws_close_outcome(channel_id).effects,
            final(self).wf(),
    {
        let mut effects: Vec<Effect> = Vec::new();
        if self.ws_channel != Some(channel_id) {
            return effects;
        }
        self.connection = ConnectionType::Idle;
        self.ws_channel = None;
        effects.push(Effect::ReleaseChannel { channel_id });
        assert(effects@ =~= old(self).ws_close_outcome(channel_id).effects);
        effects
    }

    /// A message from the local WebSocket side goes to the partner, or, with
    /// no partner set, replaces whatever was buffered for it.
    pub fn route_to_partner(&mut self, message: String) -> (r: Vec<Effect>)
        requires
            old(self).wf(),
        ensures
            *final(self) == old(self).route_outcome(message).state,
            r@ == old(self).route_outcome(message).effects,
            final(self).wf(),
    {
        let mut effects: Vec<Effect> = Vec::new();
        match &self.partner {
            Some(p) => {
                effects.push(Effect::ForwardToPartner { partner: p.clone(), message });
            },
            None => {
                self.pending_to_partner = Some(message);
            },
        }
        assert(effects@ =~= old(self).route_outcome(message).effects);
        effects
    }

    /// A message arrives from the inbound client; only the live channel is
    /// listened to.
    pub fn on_ws_push(&mut self, channel_id: u32, message: String) -> (r: Vec<Effect>)
        requires
            old(self).wf(),
        ensures
            *final(self) == old(self).ws_push_outcome(channel_id, message).state,
            r@ == old(self).ws_push_outcome(channel_id, message).effects,
            final(self).wf(),
    {
        if self.ws_channel != Some(channel_id) {
            let effects: Vec<Effect> = Vec::new();
            assert(effects@ =~= old(self).ws_push_outcome(channel_id, message).effects);
            return effects;
        }
        self.route_to_partner(message)
    }

    /// The server closed the outbound channel. The outbound role stays
    /// declared, the channel is dropped, and a reconnection is asked for.
    pub fn on_client_close(&mut self) -> (r: Option<ConnectAttempt>)
        requires
            old(self).wf(),
        ensures
            *final(self) == old(self).client_close_outcome().state,
            attempt_matches(r, old(self).client_close_outcome().connect),
            final(self).wf(),
    {
        if self.connection != ConnectionType::ToWsServer {
            return None;
        }
        self.ws_channel = None;
        self.try_reconnect_to_server()
    }

    /// A timer fires. Only the reconnection token counts, and then only
    /// while the outbound role is declared and its channel is missing.
    pub fn on_timer(&self, context: &[u8]) -> (r: Option<ConnectAttempt>)
        ensures
            attempt_matches(r, self.timer_outcome(context@).connect),
            self.ws_channel is Some ==> r is None,
    {
        if !is_reconnect_token(context) {
            return None;
        }
        self.try_reconnect_to_server()
    }

    /// The event loop tried to open `attempt` and reports whether it opened.
    /// On success the outbound role holds the new channel, the backoff is
    /// cleared and a buffered message goes out over the channel. On failure
    /// at startup the relay stays without a role; otherwise the outbound
    /// role stays declared and the reconnection timer is armed.
    pub fn connect_finished(&mut self, attempt: ConnectAttempt, connected: bool) -> (r: Vec<Effect>)
        requires
            old(self).wf(),
        ensures
            *final(self) == old(self).connect_outcome(attempt, connected).state,
            r@ == old(self).connect_outcome(attempt, connected).effects,
            final(self).wf(),
    {
        let ghost start = *self;
        let mut effects: Vec<Effect> = Vec::new();
        if connected {
            self.connection = ConnectionType::ToWsServer;
            self.ws_url = Some(attempt.url);
            self.ws_channel = Some(attempt.channel_id);
            self.reconnect_delay_ms = None;
            if let Some(message) = self.pending_to_ws.take() {
                effects.push(Effect::PushToServer { channel_id: attempt.channel_id, message });
            }
            if let ConnectPurpose::Requested { respond } = attempt.purpose {
                if respond {
                    effects.push(Effect::Respond(FwdWsResponse::Done));
                }
            }
        } else {
            match attempt.purpose {
                ConnectPurpose::Startup => {
                    self.connection = ConnectionType::Idle;
                    self.ws_url = None;
                    self.ws_channel = None;
                },
                ConnectPurpose::Reconnect => {
                    self.connection = ConnectionType::ToWsServer;
                    self.ws_channel = None;
                    let delay = self.schedule_reconnect();
                    effects.push(Effect::ArmReconnectTimer { delay_ms: delay });
                },
                ConnectPurpose::Requested { respond } => {
                    self.connection = ConnectionType::ToWsServer;
                    self.ws_url = Some(attempt.url);
                    self.ws_channel = None;
                    if respond {
                        effects.push(
                            Effect::Respond(FwdWsResponse::Refused(ResponseError::FailedToConnect)),
                        );
                    }
                    let delay = self.schedule_reconnect();
                    effects.push(Effect::ArmReconnectTimer { delay_ms: delay });
                },
            }
        }
        assert(effects@ =~= start.connect_outcome(attempt, connected).effects);
        effects
    }
}

} // verus!
