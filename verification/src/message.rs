//! The wire-protocol types: inbound client messages and outbound server
//! messages, each a tagged union, together with their mathematical views.

use vstd::prelude::*;

verus! {

/// Payload of a recording command: start (`true`) or stop (`false`).
#[derive(Debug)]
pub struct CommandData {
    pub rec: bool,
}

/// Payload of a parameter update. The amplitude is the decimal token that
/// arrived on the wire (a well-formed JSON number); `None` means the field
/// was absent or `null`, which requests no change.
#[derive(Debug)]
pub struct ParameterData {
    pub amplitude: Option<String>,
}

/// One inbound frame's decoded content.
#[derive(Debug)]
pub enum ClientMessage {
    Command(CommandData),
    Parameter(ParameterData),
}

/// Positive acknowledgment payload.
#[derive(Debug)]
pub struct AckData {
    pub status: String,
}

/// Decode/validation failure payload.
#[derive(Debug)]
pub struct ErrorData {
    pub message: String,
}

/// One outbound frame's content.
#[derive(Debug)]
pub enum ServerMessage {
    Ack(AckData),
    Error(ErrorData),
}

/// Model of a [`ClientMessage`].
pub enum ClientMessageView {
    Command { rec: bool },
    Parameter { amplitude: Option<Seq<char>> },
}

/// Model of a [`ServerMessage`].
pub enum ServerMessageView {
    Ack { status: Seq<char> },
    Error { message: Seq<char> },
}

impl View for ClientMessage {
    type V = ClientMessageView;

    open spec fn view(&self) -> ClientMessageView {
        match self {
            ClientMessage::Command(c) => ClientMessageView::Command { rec: c.rec },
            ClientMessage::Parameter(p) => ClientMessageView::Parameter {
                amplitude: match p.amplitude {
                    Option::Some(t) => Option::Some(t@),
                    Option::None => Option::None,
                },
            },
        }
    }
}

impl View for ServerMessage {
    type V = ServerMessageView;

    open spec fn view(&self) -> ServerMessageView {
        match self {
            ServerMessage::Ack(a) => ServerMessageView::Ack { status: a.status@ },
            ServerMessage::Error(e) => ServerMessageView::Error { message: e.message@ },
        }
    }
}

} // verus!
