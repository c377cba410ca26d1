//! Message protocol between server and client

use std::time::Duration;
use vstd::prelude::*;

use crate::message::{MessageId, Metadata};

verus! {

/// Header of a message
#[derive(Debug, Clone)]
pub enum Header {
    /// Header of a request
    ///
    /// The body contains the content of the request
    Request {
        /// Message id
        id: MessageId,
        /// RPC service and method in the format of "{Service}.{method}"
        service_method: String,
        /// RPC timeout, all requests will have timeouts
        timeout: Duration,
    },
    /// Header of a response
    ///
    /// The body contains the content of the response/result
    Response {
        /// Message id
        id: MessageId,
        /// Whether the result is Ok
        is_ok: bool,
    },
    /// Header of a cancellation message
    Cancel(MessageId),
    /// Header of a publish message
    ///
    /// The body contains the publishing content
    Publish {
        /// Message id
        id: MessageId,
        /// Topic to publish to
        topic: String,
    },
    /// Header of a subscribe message
    ///
    /// The body should be an unit type ie. `()`
    Subscribe {
        /// Message id
        id: MessageId,
        /// Topic to subscribe to
        topic: String,
    },
    /// Header of a unsubscribe message
    ///
    /// The body should be an unit type ie. `()`
    Unsubscribe {
        /// Message Id
        id: MessageId,
        /// Topic to unsubscribe from
        topic: String,
    },
    /// Acknowledge of a Publish or Subscribe message
    ///
    /// The body should be an unit type `()`
    Ack(MessageId),
    /// Reserved for a potential message queue like design
    /// Produce a message to be consumed
    Produce {
        /// Message id
        id: MessageId,
        /// Topic of the queue
        topic: String,
        /// Number of times this message can be consumed
        tickets: u32,
    },
    /// Reserved for a potential message queue like design
    /// Consumes a message by pulling message from broker/server
    Consume {
        /// Message id
        id: MessageId,
        /// Topic of the queue
        topic: String,
    },
    /// Reserved for further extension to the message protocol
    Ext {
        /// Message id
        id: MessageId,
        /// Reserved for content of extension
        content: String,
        /// Reserved for some numerical/enum content
        marker: u32,
    },
}

/// The message id that a header carries
pub open spec fn header_id(h: Header) -> MessageId {
    match h {
        Header::Request { id, .. } => id,
        Header::Response { id, .. } => id,
        Header::Cancel(id) => id,
        Header::Publish { id, .. } => id,
        Header::Subscribe { id, .. } => id,
        Header::Unsubscribe { id, .. } => id,
        Header::Ack(id) => id,
        Header::Produce { id, .. } => id,
        Header::Consume { id, .. } => id,
        Header::Ext { id, .. } => id,
    }
}

impl Metadata for Header {
    fn get_id(&self) -> (r: MessageId)
        ensures
            r == header_id(*self),
    {
        match self {
            Self::Request { id, .. } => *id,
            Self::Response { id, .. } => *id,
            Self::Cancel(id) => *id,
            Self::Publish { id, .. } => *id,
            Self::Subscribe { id, .. } => *id,
            Self::Unsubscribe { id, .. } => *id,
            Self::Ack(id) => *id,
            Self::Produce { id, .. } => *id,
            Self::Consume { id, .. } => *id,
            Self::Ext { id, .. } => *id,
        }
    }
}

} // verus!
