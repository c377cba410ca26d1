//! WebSocket transport support: the halves of a WebSocket connection and what
//! a message read from it gives

use std::marker::PhantomData;
use vstd::prelude::*;

use crate::error::{Error, IoError, IoErrorKind};

verus! {

/// Type state of a WebSocket connection that can send messages
pub struct CanSink {}

/// Type state of a WebSocket connection whose sending side is handled elsewhere
pub struct CannotSink {}

/// A WebSocket connection
pub struct WebSocketConn<S, N> {
    /// The underlying connection
    pub inner: S,
    can_sink: PhantomData<N>,
}

/// The reading half of a WebSocket connection
pub struct StreamHalf<S, Mode> {
    inner: S,
    can_sink: PhantomData<Mode>,
}

/// The writing half of a WebSocket connection
pub struct SinkHalf<S, Mode> {
    inner: S,
    can_sink: PhantomData<Mode>,
}

impl<S> WebSocketConn<S, CanSink> {
    /// Wraps a WebSocket connection
    pub fn new(inner: S) -> (c: Self)
        ensures
            c.conn() == inner,
    {
        Self { inner, can_sink: PhantomData }
    }
}

impl<S, N> WebSocketConn<S, N> {
    /// The underlying connection
    pub closed spec fn conn(&self) -> S {
        self.inner
    }
}

impl<S> WebSocketConn<S, CannotSink> {
    /// Wraps a WebSocket connection whose sending side is handled elsewhere
    pub fn new_without_sink(inner: S) -> (c: Self)
        ensures
            c.conn() == inner,
    {
        Self { inner, can_sink: PhantomData }
    }
}

impl<S, Mode> StreamHalf<S, Mode> {
    /// Wraps the reading half of a connection
    pub fn new(inner: S) -> (h: Self)
        ensures
            h.inner() == inner,
    {
        Self { inner, can_sink: PhantomData }
    }

    /// The underlying reading half
    pub closed spec fn inner(&self) -> S {
        self.inner
    }

    /// The underlying reading half, to read from
    pub fn inner_mut(&mut self) -> (r: &mut S)
        ensures
            *r == old(self).inner(),
            final(self).inner() == *final(r),
    {
        &mut self.inner
    }
}

impl<S, Mode> SinkHalf<S, Mode> {
    /// Wraps the writing half of a connection
    pub fn new(inner: S) -> (h: Self)
        ensures
            h.inner() == inner,
    {
        Self { inner, can_sink: PhantomData }
    }

    /// The underlying writing half
    pub closed spec fn inner(&self) -> S {
        self.inner
    }

    /// The underlying writing half, to write to
    pub fn inner_mut(&mut self) -> (r: &mut S)
        ensures
            *r == old(self).inner(),
            final(self).inner() == *final(r),
    {
        &mut self.inner
    }
}

/// A message read from a WebSocket connection, as far as the transport tells
/// them apart
#[derive(Debug)]
pub enum WsIncoming {
    /// A binary message with its bytes
    Binary(Vec<u8>),
    /// The peer closes the connection
    Close,
    /// Any other message (text, ping, pong, raw frame)
    Other,
}

/// Text of the error for a message that is not binary
pub open spec fn not_binary_msg() -> Seq<char> {
    "Expecting WebSocket::Message::Binary"@
}

/// The payload that a message read from a WebSocket connection gives: the
/// bytes of a binary message, `None` when the peer closes, an `InvalidData`
/// error for any other message or for a failed read (with the text of the
/// failure)
pub fn payload_of_message(msg: Result<WsIncoming, String>) -> (r: Option<Result<Vec<u8>, Error>>)
    ensures
        match msg {
            Err(text) => r matches Some(Err(Error::IoError(e))) && e.kind == IoErrorKind::InvalidData
                && e.message@ == text@,
            Ok(WsIncoming::Binary(b)) => r matches Some(Ok(p)) && p@ == b@,
            Ok(WsIncoming::Close) => r is None,
            Ok(WsIncoming::Other) => r matches Some(Err(Error::IoError(e))) && e.kind
                == IoErrorKind::InvalidData && e.message@ == not_binary_msg(),
        },
{
    match msg {
        Err(text) => Some(Err(Error::IoError(IoError::new(IoErrorKind::InvalidData, text)))),
        Ok(WsIncoming::Binary(bytes)) => Some(Ok(bytes)),
        Ok(WsIncoming::Close) => None,
        Ok(WsIncoming::Other) => Some(
            Err(
                Error::IoError(
                    IoError::new(
                        IoErrorKind::InvalidData,
                        String::from_str("Expecting WebSocket::Message::Binary"),
                    ),
                ),
            ),
        ),
    }
}

} // verus!
