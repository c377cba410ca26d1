//! What the server writes for each item of its broker

use vstd::prelude::*;

use crate::error::{error_of_message, is_sendable, Error};
use crate::message::{ErrorMessage, MessageId};
use crate::protocol::Header;
use crate::pubsub::SeqId;

verus! {

/// What the server writer is asked to send
#[derive(Debug)]
pub enum ServerWriterItem {
    /// The response to message `id`: `Ok` when the call gave a result (which
    /// goes along with the item), or the error of the call
    Response {
        /// Message id
        id: MessageId,
        /// Outcome of the call
        result: Result<(), Error>,
    },
    /// Publish subscription item to client; its content goes along
    Publication {
        /// Sequence id given by the server
        seq_id: SeqId,
        /// Topic
        topic: String,
    },
    /// Close the connection
    Stopping,
    /// Stop the writer
    Stop,
}

/// Writer half of a server connection: sends the broker's items over a codec
pub struct ServerWriter<W> {
    writer: W,
}

impl<W> ServerWriter<W> {
    /// Creates the writer over the writing half of a codec
    pub fn new(writer: W) -> (w: Self)
        ensures
            w.writer() == writer,
    {
        Self { writer }
    }

    /// The writing half of the codec
    pub closed spec fn writer(&self) -> W {
        self.writer
    }
}

/// The body written after a header
#[derive(Debug, Clone)]
pub enum ServerBodyOut {
    /// The result of the call, which goes along with the item
    CallResult,
    /// The message of an error
    ErrorMessage(ErrorMessage),
    /// The content of a publication, which goes along with the item
    Content,
}

/// What the writer does for an item
#[derive(Debug, Clone)]
pub enum ServerWriteAction {
    /// Write this header, then this body
    Write(Header, ServerBodyOut),
    /// Write nothing: the error cannot be sent to the client
    Skip,
    /// Close the connection and keep running
    Close,
    /// Stop the writer
    Stop,
}

/// What the server writer does for an item: a result is sent in a Response
/// with `is_ok`, an error that a client can be told of is sent as its message
/// in a Response without `is_ok`, any other error is not sent at all; a
/// publication is sent with its sequence id as the message id.
pub fn server_write_action(item: ServerWriterItem) -> (a: ServerWriteAction)
    ensures
        match item {
            ServerWriterItem::Response { id, result: Ok(()) } => a matches ServerWriteAction::Write(
                Header::Response { id: i, is_ok: true },
                ServerBodyOut::CallResult,
            ) && i == id,
            ServerWriterItem::Response { id, result: Err(e) } => if is_sendable(e) {
                a matches ServerWriteAction::Write(
                    Header::Response { id: i, is_ok: false },
                    ServerBodyOut::ErrorMessage(m),
                ) && i == id && error_of_message(m) == e
            } else {
                a matches ServerWriteAction::Skip
            },
            ServerWriterItem::Publication { seq_id, topic } => a matches ServerWriteAction::Write(
                Header::Publish { id: i, topic: t },
                ServerBodyOut::Content,
            ) && i == seq_id.0 && t@ == topic@,
            ServerWriterItem::Stopping => a matches ServerWriteAction::Close,
            ServerWriterItem::Stop => a matches ServerWriteAction::Stop,
        },
{
    match item {
        ServerWriterItem::Response { id, result } => match result {
            Ok(()) => ServerWriteAction::Write(
                Header::Response { id, is_ok: true },
                ServerBodyOut::CallResult,
            ),
            Err(err) => match ErrorMessage::from_err(err) {
                Ok(m) => ServerWriteAction::Write(
                    Header::Response { id, is_ok: false },
                    ServerBodyOut::ErrorMessage(m),
                ),
                Err(_) => ServerWriteAction::Skip,
            },
        },
        ServerWriterItem::Publication { seq_id, topic } => ServerWriteAction::Write(
            Header::Publish { id: seq_id.0, topic },
            ServerBodyOut::Content,
        ),
        ServerWriterItem::Stopping => ServerWriteAction::Close,
        ServerWriterItem::Stop => ServerWriteAction::Stop,
    }
}

} // verus!
