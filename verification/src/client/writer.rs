//! What the client writes for each item of its broker

use vstd::prelude::*;

use crate::client::broker::ClientWriterItem;
use crate::message::{cancellation_body, cancellation_token};
use crate::protocol::Header;

verus! {

/// Writer half of the client: sends the broker's items over a codec
pub struct ClientWriter<W> {
    /// The writing half of the codec
    pub writer: W,
}

impl<W> ClientWriter<W> {
    /// Creates the writer over the writing half of a codec
    pub fn new(writer: W) -> (w: Self)
        ensures
            w.writer == writer,
    {
        Self { writer }
    }
}

/// The body written after a header
#[derive(Debug, Clone)]
pub enum ClientBody {
    /// The body kept with the item (a request's argument, or a publication's bytes)
    ItemBody,
    /// The unit value `()`
    Unit,
    /// A string
    Text(String),
}

/// What the writer does for an item
#[derive(Debug, Clone)]
pub enum ClientWriteAction {
    /// Write this header, then this body
    Write(Header, ClientBody),
    /// Close the connection and keep running
    Close,
    /// Stop the writer
    Stop,
}

/// What the writer does for an item: a request is written with its argument,
/// a cancellation with the cancellation token of the request, a publication
/// with its bytes, a subscription and an unsubscription with `()`.
pub fn client_write_action(item: ClientWriterItem) -> (a: ClientWriteAction)
    ensures
        match item {
            ClientWriterItem::Request(id, sm, d) => a matches ClientWriteAction::Write(
                Header::Request { id: i, service_method: s, timeout: t },
                ClientBody::ItemBody,
            ) && i == id && s@ == sm@ && t == d,
            ClientWriterItem::Cancel(id) => a matches ClientWriteAction::Write(
                Header::Cancel(i),
                ClientBody::Text(b),
            ) && i == id && b@ == cancellation_body(id),
            ClientWriterItem::Publish(id, topic) => a matches ClientWriteAction::Write(
                Header::Publish { id: i, topic: t },
                ClientBody::ItemBody,
            ) && i == id && t@ == topic@,
            ClientWriterItem::Subscribe(id, topic) => a matches ClientWriteAction::Write(
                Header::Subscribe { id: i, topic: t },
                ClientBody::Unit,
            ) && i == id && t@ == topic@,
            ClientWriterItem::Unsubscribe(id, topic) => a matches ClientWriteAction::Write(
                Header::Unsubscribe { id: i, topic: t },
                ClientBody::Unit,
            ) && i == id && t@ == topic@,
            ClientWriterItem::Stopping => a matches ClientWriteAction::Close,
            ClientWriterItem::Stop => a matches ClientWriteAction::Stop,
        },
{
    match item {
        ClientWriterItem::Request(id, service_method, duration) => ClientWriteAction::Write(
            Header::Request { id, service_method, timeout: duration },
            ClientBody::ItemBody,
        ),
        ClientWriterItem::Cancel(id) => ClientWriteAction::Write(
            Header::Cancel(id),
            ClientBody::Text(cancellation_token(id)),
        ),
        ClientWriterItem::Publish(id, topic) => ClientWriteAction::Write(
            Header::Publish { id, topic },
            ClientBody::ItemBody,
        ),
        ClientWriterItem::Subscribe(id, topic) => ClientWriteAction::Write(
            Header::Subscribe { id, topic },
            ClientBody::Unit,
        ),
        ClientWriterItem::Unsubscribe(id, topic) => ClientWriteAction::Write(
            Header::Unsubscribe { id, topic },
            ClientBody::Unit,
        ),
        ClientWriterItem::Stopping => ClientWriteAction::Close,
        ClientWriterItem::Stop => ClientWriteAction::Stop,
    }
}

} // verus!
