//! The life of an RPC call on the client side: whether it is canceled when
//! dropped, and what `.await`ing it gives.

use vstd::prelude::*;

use crate::error::{error_of_message, is_sendable, Error};
use crate::message::{ErrorMessage, MessageId};

verus! {

/// Status of a call
#[derive(Debug, Clone, Copy, PartialEq, Eq, Structural)]
pub enum CallStatus {
    /// Waiting for the response
    Pending,
    /// Canceled by the caller
    Canceled,
    /// The response was received
    Received,
    /// The call was dropped
    Dropped,
}

/// What the response channel of a call gives when it is polled
#[derive(Debug)]
pub enum CallDelivery {
    /// Nothing yet
    NotReady,
    /// The broker dropped the channel without sending
    Closed,
    /// The broker sent an error (the request timed out or was canceled)
    Failed(Error),
    /// The response body held the result, which read as this value (or
    /// failed to read with this error)
    Success(Result<(), Error>),
    /// The response body held an error message, which read as this message
    /// (or failed to read with this error)
    Failure(Result<ErrorMessage, Error>),
}

/// What polling a call gives
#[derive(Debug)]
pub enum CallPoll {
    /// Not ready yet
    Pending,
    /// Ready with the call's result; `Ok` carries the value read from the body
    Ready(Result<(), Error>),
}

/// An RPC call: its id and its status
pub struct Call {
    /// Status of the call
    pub status: CallStatus,
    /// Message id of the request
    pub id: MessageId,
}

/// What polling a call with a given status gives for what its channel gives
pub open spec fn poll_result(status: CallStatus, id: MessageId, d: CallDelivery) -> CallPoll {
    let stopped = status == CallStatus::Canceled || status == CallStatus::Dropped;
    match d {
        CallDelivery::NotReady => if stopped {
            CallPoll::Ready(Err(Error::Canceled(id)))
        } else {
            CallPoll::Pending
        },
        _ => if stopped {
            CallPoll::Ready(Err(Error::Canceled(id)))
        } else {
            match d {
                CallDelivery::Closed => CallPoll::Ready(Err(Error::Canceled(id))),
                CallDelivery::Failed(e) => CallPoll::Ready(Err(e)),
                CallDelivery::Success(r) => CallPoll::Ready(r),
                CallDelivery::Failure(Ok(m)) => CallPoll::Ready(Err(error_of_message(m))),
                CallDelivery::Failure(Err(e)) => CallPoll::Ready(Err(e)),
                CallDelivery::NotReady => CallPoll::Pending,
            }
        },
    }
}

/// Whether polling completes a call that still waits: its channel gave
/// something (a result, an error message, an error, or its closing)
pub open spec fn completes(status: CallStatus, d: CallDelivery) -> bool {
    &&& status != CallStatus::Canceled
    &&& status != CallStatus::Dropped
    &&& !(d is NotReady)
}

/// The status of a call after polling it
pub open spec fn status_after_poll(status: CallStatus, d: CallDelivery) -> CallStatus {
    if completes(status, d) {
        CallStatus::Received
    } else {
        status
    }
}

impl Call {
    /// A new call of request `id`, waiting for its response
    pub fn new(id: MessageId) -> (c: Self)
        ensures
            c.status == CallStatus::Pending,
            c.id == id,
    {
        Self { status: CallStatus::Pending, id }
    }

    /// Gets the ID number of the call
    pub fn get_id(&self) -> (id: MessageId)
        ensures
            id == self.id,
    {
        self.id
    }

    /// Cancels the call; the returned id is the request whose cancellation is
    /// sent to the broker
    pub fn cancel(&mut self) -> (id: MessageId)
        ensures
            final(self).status == CallStatus::Canceled,
            final(self).id == old(self).id,
            id == old(self).id,
    {
        self.status = CallStatus::Canceled;
        self.id
    }

    /// Drops the call: a call still waiting for its response is canceled, and
    /// the returned id is the request whose cancellation is sent to the broker
    pub fn drop_call(&mut self) -> (r: Option<MessageId>)
        ensures
            final(self).status == CallStatus::Dropped,
            final(self).id == old(self).id,
            old(self).status == CallStatus::Pending ==> r == Some(old(self).id),
            old(self).status != CallStatus::Pending ==> r is None,
    {
        let r = match self.status {
            CallStatus::Pending => Some(self.id),
            _ => None,
        };
        self.status = CallStatus::Dropped;
        r
    }

    /// Polls the call with what its response channel gives: a canceled or
    /// dropped call gives `Canceled`; a closed channel gives `Canceled` too; an
    /// error message from the server gives the error it stands for. Once the
    /// call is ready it has received its response, and is no longer canceled
    /// when dropped
    pub fn poll(&mut self, delivery: CallDelivery) -> (p: CallPoll)
        ensures
            p == poll_result(old(self).status, old(self).id, delivery),
            final(self).id == old(self).id,
            final(self).status == status_after_poll(old(self).status, delivery),
    {
        let stopped = match self.status {
            CallStatus::Canceled => true,
            CallStatus::Dropped => true,
            _ => false,
        };
        if stopped {
            return CallPoll::Ready(Err(Error::Canceled(self.id)));
        }
        let r = match delivery {
            CallDelivery::NotReady => {
                return CallPoll::Pending;
            },
            CallDelivery::Closed => Err(Error::Canceled(self.id)),
            CallDelivery::Failed(e) => Err(e),
            CallDelivery::Success(r) => r,
            CallDelivery::Failure(Ok(m)) => Err(Error::from_err_msg(m)),
            CallDelivery::Failure(Err(e)) => Err(e),
        };
        self.status = CallStatus::Received;
        CallPoll::Ready(r)
    }
}

/// Cascading cancellation: a call dropped while it waits sends the
/// cancellation of its request, and a canceled or dropped call gives
/// `Canceled` whatever its channel gives.
pub proof fn lemma_cancellation_cascades(id: MessageId, d: CallDelivery)
    ensures
        poll_result(CallStatus::Canceled, id, d) == CallPoll::Ready(Err(Error::Canceled(id))),
        poll_result(CallStatus::Dropped, id, d) == CallPoll::Ready(Err(Error::Canceled(id))),
{
}

/// Only an unfinished call is canceled when dropped: a waiting call that was
/// polled to readiness has received its response, and `drop_call` sends no
/// cancellation for it; while it is not ready it still waits.
pub proof fn lemma_finished_call_not_canceled(id: MessageId, d: CallDelivery)
    ensures
        poll_result(CallStatus::Pending, id, d) is Ready ==> status_after_poll(CallStatus::Pending, d)
            == CallStatus::Received,
        poll_result(CallStatus::Pending, id, d) is Pending ==> status_after_poll(
            CallStatus::Pending,
            d,
        ) == CallStatus::Pending,
{
}

/// What awaiting a call that is neither canceled nor dropped gives: the
/// result the server sent; the error an error message from the server stands
/// for (a method's own error reaches the caller as that error, never as a
/// cancellation); the error the broker relayed (such as a timeout); and
/// `Canceled` only when the broker dropped the channel. Nothing is ready
/// before the channel gives something.
pub proof fn lemma_poll_delivers(status: CallStatus, id: MessageId, d: CallDelivery)
    requires
        status != CallStatus::Canceled,
        status != CallStatus::Dropped,
    ensures
        d matches CallDelivery::Success(r) ==> poll_result(status, id, d) == CallPoll::Ready(r),
        d matches CallDelivery::Failure(Ok(m)) ==> poll_result(status, id, d) == CallPoll::Ready(
            Err(error_of_message(m)),
        ),
        d matches CallDelivery::Failure(Ok(m)) ==> (poll_result(status, id, d) matches CallPoll::Ready(Err(e)) && is_sendable(e) && !(e is Canceled)),
        d matches CallDelivery::Failure(Ok(ErrorMessage::ExecutionError(s))) ==> poll_result(
            status,
            id,
            d,
        ) == CallPoll::Ready(Err(Error::ExecutionError(s))),
        d matches CallDelivery::Failure(Err(e)) ==> poll_result(status, id, d) == CallPoll::Ready(
            Err(e),
        ),
        d matches CallDelivery::Failed(e) ==> poll_result(status, id, d) == CallPoll::Ready(Err(e)),
        d is Closed ==> poll_result(status, id, d) == CallPoll::Ready(Err(Error::Canceled(id))),
        d is NotReady ==> poll_result(status, id, d) == CallPoll::Pending,
{
}

} // verus!
