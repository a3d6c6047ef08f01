use vstd::prelude::*;

verus! {

/// The URL of the outbound connection when none has been recorded.
pub const DEFAULT_WS_URL: &'static str = "ws://localhost:10125";

/// The WebSocket path that a local client opens.
pub const WS_PATH: &'static str = "/";

/// The HTTP and WebSocket path of the control surface.
pub const HTTP_API_PATH: &'static str = "/api";

pub open spec fn default_ws_url() -> Seq<char> {
    "ws://localhost:10125"@
}

/// The paths on which an inbound WebSocket client is accepted.
pub open spec fn is_ws_path(p: Seq<char>) -> bool {
    p == "/"@ || p == "/api"@
}

/// The correlation token carried by the reconnection timer: the bytes of
/// "reconnect".
pub open spec fn reconnect_token() -> Seq<u8> {
    seq![114u8, 101u8, 99u8, 111u8, 110u8, 110u8, 101u8, 99u8, 116u8]
}

/// The default URL as an owned string.
pub fn default_ws_url_string() -> (r: String)
    ensures
        r@ == default_ws_url(),
{
    DEFAULT_WS_URL.to_owned()
}

/// Whether `path` is one on which an inbound client is accepted.
pub fn accepts_ws_path(path: &String) -> (r: bool)
    ensures
        r == is_ws_path(path@),
{
    let root = WS_PATH.to_owned();
    let api = HTTP_API_PATH.to_owned();
    *path == root || *path == api
}

/// The bytes of the reconnection token.
pub fn reconnect_token_bytes() -> (r: Vec<u8>)
    ensures
        r@ == reconnect_token(),
{
    let r: Vec<u8> = vec![114u8, 101u8, 99u8, 111u8, 110u8, 110u8, 101u8, 99u8, 116u8];
    assert(r@ =~= reconnect_token());
    r
}

/// Whether a timer's context is the reconnection token.
pub fn is_reconnect_token(context: &[u8]) -> (r: bool)
    ensures
        r == (context@ == reconnect_token()),
{
    let token = reconnect_token_bytes();
    if context.len() != token.len() {
        return false;
    }
    let mut i: usize = 0;
    while i < context.len()
        invariant
            0 <= i <= context@.len(),
            context@.len() == token@.len(),
            token@ == reconnect_token(),
            forall|j: int| 0 <= j < i ==> context@[j] == token@[j],
        decreases context@.len() - i,
    {
        if context[i] != token[i] {
            return false;
        }
        i = i + 1;
    }
    assert(context@ =~= token@);
    true
}

} // verus!
