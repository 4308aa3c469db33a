//! What a wizard's live connection does with each thing that happens on it.

use vstd::prelude::*;

verus! {

/// Something that happened on a wizard's connection.
#[derive(Debug, PartialEq)]
pub enum SocketEvent {
    /// The wizard sent a text message.
    ClientText(String),
    /// The wizard sent a message that is not text.
    ClientOther,
    /// Receiving from the wizard failed.
    ClientFailed,
    /// The wizard's side closed.
    ClientClosed,
    /// A notice for the wizard was broadcast.
    Broadcast(String),
    /// Receiving broadcasts failed.
    BroadcastFailed,
}

/// What to do on the connection.
#[derive(Debug, PartialEq)]
pub enum SocketAction {
    /// Answer a ping with a pong.
    SendPong,
    /// Pass the broadcast text on to the wizard.
    Forward(String),
    /// Nothing.
    Ignore,
    /// End the connection.
    Close,
}

/// The `type` field of a JSON text: `Some` of the field's text when the text
/// parses as JSON and the value has a string field `type`, `None` otherwise.
pub uninterp spec fn json_type_field(text: Seq<char>) -> Option<Seq<char>>;

/// Reads the `type` field of a wizard's JSON message.
///
/// Trusted: parses with `serde_json::from_str::<serde_json::Value>`, looks the
/// field up with `Value::get` and reads it with `Value::as_str`. What the
/// parse gives is named, not stated: the contract claims only that the
/// result is `json_type_field` of the text.
#[verifier::external_body]
pub(crate) fn message_type(text: &str) -> (r: Option<String>)
    ensures
        match r {
            Some(t) => json_type_field(text@) == Some(t@),
            None => json_type_field(text@) is None,
        },
{
    match serde_json::from_str::<serde_json::Value>(text) {
        Ok(data) => match data.get("type") {
            Some(field) => match field.as_str() {
                Some(t) => Some(t.to_string()),
                None => None,
            },
            None => None,
        },
        Err(_) => None,
    }
}

/// The action for a message whose `type` field is `message_type`: a ping
/// is answered with a pong, anything else ignored.
pub open spec fn type_reaction(message_type: Option<Seq<char>>) -> SocketAction {
    if message_type == Some("ping"@) {
        SocketAction::SendPong
    } else {
        SocketAction::Ignore
    }
}

/// The action for an event: pings are answered, broadcasts forwarded, other
/// messages ignored, and any failure or close ends the connection.
pub open spec fn socket_reaction(e: SocketEvent) -> SocketAction {
    match e {
        SocketEvent::ClientText(text) => type_reaction(json_type_field(text@)),
        SocketEvent::ClientOther => SocketAction::Ignore,
        SocketEvent::ClientFailed => SocketAction::Close,
        SocketEvent::ClientClosed => SocketAction::Close,
        SocketEvent::Broadcast(text) => SocketAction::Forward(text),
        SocketEvent::BroadcastFailed => SocketAction::Close,
    }
}

/// The action for a message whose `type` field is `message_type`.
pub fn react_to_type(message_type: &Option<String>) -> (a: SocketAction)
    ensures
        a == type_reaction(match message_type {
            Some(t) => Some(t@),
            None => None,
        }),
{
    let ping = "ping".to_string();
    match message_type {
        Some(t) => {
            if *t == ping {
                SocketAction::SendPong
            } else {
                SocketAction::Ignore
            }
        },
        None => SocketAction::Ignore,
    }
}

/// The action for a text message from the wizard.
pub fn react_to_text(text: &str) -> (a: SocketAction)
    ensures
        a == (if json_type_field(text@) == Some("ping"@) {
            SocketAction::SendPong
        } else {
            SocketAction::Ignore
        }),
{
    let t = message_type(text);
    react_to_type(&t)
}

/// The action to take for `event`.
pub fn react(event: SocketEvent) -> (a: SocketAction)
    ensures
        a == socket_reaction(event),
{
    match event {
        SocketEvent::ClientText(text) => react_to_text(text.as_str()),
        SocketEvent::ClientOther => SocketAction::Ignore,
        SocketEvent::ClientFailed => SocketAction::Close,
        SocketEvent::ClientClosed => SocketAction::Close,
        SocketEvent::Broadcast(text) => SocketAction::Forward(text),
        SocketEvent::BroadcastFailed => SocketAction::Close,
    }
}

} // verus!
