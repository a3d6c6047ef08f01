use vstd::prelude::*;

verus! {

/// Which side of the local WebSocket this relay currently occupies.
#[derive(Clone, Copy, Debug, PartialEq, Eq, Structural)]
pub enum ConnectionType {
    /// No WebSocket role.
    Idle,
    /// This relay is a WebSocket client of an external server.
    ToWsServer,
    /// This relay is a WebSocket server for one external client.
    ToWsClient,
}

/// The part of the relay's state that is shown to peers and to the UI.
#[derive(Clone, Debug, PartialEq, Eq)]
pub struct State {
    pub partner: Option<String>,
    pub connection: ConnectionType,
    pub ws_url: Option<String>,
}

/// A request of the peer protocol.
#[derive(Clone, Debug, PartialEq, Eq)]
pub enum FwdWsRequest {
    SetPartner(Option<String>),
    ConnectToServer(String),
    AcceptClients(String),
    Disconnect,
    GetState,
    Forward(String),
}

/// Why a connect or accept request was refused.
#[derive(Clone, Copy, Debug, PartialEq, Eq, Structural)]
pub enum ResponseError {
    /// A WebSocket role is already active.
    AlreadyConnected,
    /// The outbound connection could not be opened.
    FailedToConnect,
}

pub open spec fn already_connected_text() -> Seq<char> {
    "Already connected"@
}

pub open spec fn failed_to_connect_text() -> Seq<char> {
    "Failed to connect"@
}

impl ResponseError {
    /// The text that the protocol carries for this error.
    pub fn text(&self) -> (r: String)
        ensures
            r@ == match self {
                ResponseError::AlreadyConnected => already_connected_text(),
                ResponseError::FailedToConnect => failed_to_connect_text(),
            },
    {
        match self {
            ResponseError::AlreadyConnected => "Already connected".to_owned(),
            ResponseError::FailedToConnect => "Failed to connect".to_owned(),
        }
    }
}

/// A response of the peer protocol.
#[derive(Clone, Debug, PartialEq, Eq)]
pub enum FwdWsResponse {
    /// The request was carried out.
    Done,
    /// The request was refused.
    Refused(ResponseError),
    GetState(State),
}

} // verus!
