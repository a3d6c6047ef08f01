use vstd::prelude::*;

use crate::backoff::MAX_RECONNECT_DELAY_MS;
use crate::protocol::ConnectionType;
use crate::relay::{attempt_matches, copy_text, ConnectAttempt, ConnectPurpose, ProcessState};
use crate::wire::{default_ws_url, default_ws_url_string};

verus! {

/// The part of the state that survives a restart. The channel and the two
/// buffers belong to one transport session and are never persisted.
#[derive(Clone, Debug, PartialEq, Eq)]
pub struct PersistedState {
    pub partner: Option<String>,
    pub connection: ConnectionType,
    pub ws_url: Option<String>,
    pub reconnect_delay_ms: Option<u64>,
}

/// The state that a persisted record restores: no channel, empty buffers,
/// an inbound role dropped (its channel cannot outlive the process), and
/// the stored delay held to the cap.
pub open spec fn restored_from(saved: PersistedState) -> ProcessState {
    ProcessState {
        partner: saved.partner,
        connection: if saved.connection == ConnectionType::ToWsClient {
            ConnectionType::Idle
        } else {
            saved.connection
        },
        ws_url: saved.ws_url,
        ws_channel: None,
        pending_to_partner: None,
        pending_to_ws: None,
        reconnect_delay_ms: match saved.reconnect_delay_ms {
            Some(d) => Some(
                if d <= MAX_RECONNECT_DELAY_MS {
                    d
                } else {
                    MAX_RECONNECT_DELAY_MS
                },
            ),
            None => None,
        },
    }
}

/// The state at startup: restored from the record if there is one, else
/// empty.
pub open spec fn started_from(saved: Option<PersistedState>) -> ProcessState {
    match saved {
        Some(p) => restored_from(p),
        None => ProcessState::empty(),
    }
}

/// The connection opened at startup: a reconnection where the outbound role
/// was persisted, otherwise the default server.
pub open spec fn startup_target(s: ProcessState) -> (Seq<char>, ConnectPurpose) {
    if s.wants_reconnect() {
        (s.reconnect_url(), ConnectPurpose::Reconnect)
    } else {
        (default_ws_url(), ConnectPurpose::Startup)
    }
}

impl Default for ProcessState {
    fn default() -> (r: ProcessState)
        ensures
            r == ProcessState::empty(),
            r.wf(),
    {
        ProcessState {
            partner: None,
            connection: ConnectionType::Idle,
            ws_url: None,
            ws_channel: None,
            pending_to_partner: None,
            pending_to_ws: None,
            reconnect_delay_ms: None,
        }
    }
}

impl ProcessState {
    /// The record to persist.
    pub fn save(&self) -> (r: PersistedState)
        ensures
            r == (PersistedState {
                partner: self.partner,
                connection: self.connection,
                ws_url: self.ws_url,
                reconnect_delay_ms: self.reconnect_delay_ms,
            }),
    {
        PersistedState {
            partner: copy_text(&self.partner),
            connection: self.connection,
            ws_url: copy_text(&self.ws_url),
            reconnect_delay_ms: self.reconnect_delay_ms,
        }
    }

    /// The state that a persisted record stands for.
    pub fn restore(saved: PersistedState) -> (r: ProcessState)
        ensures
            r == restored_from(saved),
            r.wf(),
    {
        let connection = match saved.connection {
            ConnectionType::ToWsClient => ConnectionType::Idle,
            other => other,
        };
        let reconnect_delay_ms = match saved.reconnect_delay_ms {
            Some(d) => Some(
                if d <= MAX_RECONNECT_DELAY_MS {
                    d
                } else {
                    MAX_RECONNECT_DELAY_MS
                },
            ),
            None => None,
        };
        ProcessState {
            partner: saved.partner,
            connection,
            ws_url: saved.ws_url,
            ws_channel: None,
            pending_to_partner: None,
            pending_to_ws: None,
            reconnect_delay_ms,
        }
    }

    /// The state to start from and the connection to open first: where the
    /// outbound role was persisted it is resumed, otherwise the relay tries
    /// the default server.
    pub fn startup(saved: Option<PersistedState>) -> (r: (ProcessState, ConnectAttempt))
        ensures
            r.0 == started_from(saved),
            r.0.wf(),
            attempt_matches(Some(r.1), Some(startup_target(r.0))),
    {
        let state = match saved {
            Some(p) => ProcessState::restore(p),
            None => ProcessState::default(),
        };
        match state.try_reconnect_to_server() {
            Some(attempt) => (state, attempt),
            None => {
                let attempt = ConnectAttempt {
                    url: default_ws_url_string(),
                    channel_id: crate::relay::fresh_channel_id(),
                    purpose: ConnectPurpose::Startup,
                };
                (state, attempt)
            },
        }
    }
}

} // verus!
