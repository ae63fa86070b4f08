//! Decisions of the web UI's event hub and of each WebSocket connection.
//!
//! The HTTP server, the WebSocket framing and the tokio channels stay at the
//! program's edge.
use vstd::prelude::*;
use vstd::utf8::encode_utf8;
use crate::event::{Event, event_json};

verus! {

/// Whether an event from the source channel is put on the hub: only when
/// some client is subscribed.
pub fn should_broadcast(receiver_count: usize) -> (r: bool)
    ensures
        r == (receiver_count > 0),
{
    receiver_count > 0
}

/// What happened to a connection's sending side.
#[derive(Debug)]
pub enum HubInput {
    /// The hub delivered an event.
    Event(Event),
    /// The connection fell behind and missed this many events.
    Lagged(u64),
    /// The hub was closed.
    Closed,
    /// Sending to the client failed.
    ClientGone,
}

/// What a connection's sending side does next.
#[derive(Debug)]
pub enum WsSendAction {
    /// Send this text frame to the client.
    SendText(String),
    /// Report the missed events and go on.
    ReportLag(u64),
    /// End the sending side.
    Stop,
}

/// One step of a connection's sending side: each event goes to the client as
/// its JSON text; the end of the hub or of the client ends it.
pub fn ws_send_step(input: HubInput) -> (r: WsSendAction)
    ensures
        match input {
            HubInput::Event(e) => r matches WsSendAction::SendText(t) && encode_utf8(t@)
                == event_json(e.path@, e.op@),
            HubInput::Lagged(n) => r == WsSendAction::ReportLag(n),
            HubInput::Closed => r is Stop,
            HubInput::ClientGone => r is Stop,
        },
{
    match input {
        HubInput::Event(e) => WsSendAction::SendText(e.to_json_text()),
        HubInput::Lagged(n) => WsSendAction::ReportLag(n),
        HubInput::Closed => WsSendAction::Stop,
        HubInput::ClientGone => WsSendAction::Stop,
    }
}

/// The kinds of message a WebSocket client sends.
#[derive(Debug, Clone, Copy, PartialEq, Eq, Structural)]
pub enum ClientMessage {
    Text,
    Binary,
    Ping,
    Pong,
    Close,
}

/// Whether the receiving side keeps reading after a client message: every
/// message is only reported, and a close frame ends the connection.
pub fn client_message_keeps_open(msg: ClientMessage) -> (r: bool)
    ensures
        r == (msg != ClientMessage::Close),
{
    match msg {
        ClientMessage::Close => false,
        _ => true,
    }
}

} // verus!
