//! What the client does with each header read from the server

use vstd::prelude::*;

use crate::error::Error;
use crate::message::MessageId;
use crate::protocol::Header;
use crate::pubsub::SeqId;

verus! {

/// An event for the client broker, made from a header read from the server
#[derive(Debug, Clone)]
pub enum ClientInbound {
    /// The response to request `id`; its body is the result when `is_ok`,
    /// and the error message otherwise
    Response {
        /// Id of the request
        id: MessageId,
        /// Whether the body holds the result
        is_ok: bool,
    },
    /// An item of a topic the client subscribed to; its body is the item
    Subscription {
        /// Sequence id given by the server
        id: SeqId,
        /// Topic of the item
        topic: String,
    },
    /// The server acknowledged a publication
    InboundAck(SeqId),
}

/// What the client reader does after reading a header
#[derive(Debug, Clone)]
pub enum ClientReadAction {
    /// Read the body, then hand the event with the body to the broker
    ReadBodyThen(ClientInbound),
    /// Hand the event to the broker; no body follows
    Emit(ClientInbound),
    /// The header is not one a server sends to a client
    Fail(Error),
}

/// What the client reader does after reading a header: responses and
/// publications are followed by a body, an Ack is not, and any other header
/// is an error.
pub fn client_read_action(header: Header) -> (a: ClientReadAction)
    ensures
        match header {
            Header::Response { id, is_ok } => a matches ClientReadAction::ReadBodyThen(
                ClientInbound::Response { id: i, is_ok: ok },
            ) && i == id && ok == is_ok,
            Header::Publish { id, topic } => a matches ClientReadAction::ReadBodyThen(
                ClientInbound::Subscription { id: s, topic: t },
            ) && s.0 == id && t@ == topic@,
            Header::Ack(id) => a matches ClientReadAction::Emit(ClientInbound::InboundAck(s)) && s.0
                == id,
            _ => a matches ClientReadAction::Fail(Error::Internal(m)) && m@
                == "Unexpected Header type"@,
        },
{
    match header {
        Header::Response { id, is_ok } => ClientReadAction::ReadBodyThen(
            ClientInbound::Response { id, is_ok },
        ),
        Header::Publish { id, topic } => ClientReadAction::ReadBodyThen(
            ClientInbound::Subscription { id: SeqId::new(id), topic },
        ),
        Header::Ack(id) => ClientReadAction::Emit(ClientInbound::InboundAck(SeqId::new(id))),
        _ => ClientReadAction::Fail(Error::Internal(String::from_str("Unexpected Header type"))),
    }
}

} // verus!
