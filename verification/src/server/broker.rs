//! The broker of one server connection: which requests are running, what
//! goes to the writer and what goes to the publish/subscribe broker.
//!
//! The tasks that run the calls and the channels are held by the broker
//! loop; this module decides, for each event, how the set of running
//! requests changes and what the loop does.

use std::collections::HashSet;
use vstd::prelude::*;

use crate::error::{is_sendable, Error};
use crate::message::MessageId;
use crate::pubsub::SeqId;
use crate::server::reader::ServerInbound;
use crate::server::writer::ServerWriterItem;
use crate::server::ClientId;

verus! {

broadcast use vstd::std_specs::hash::group_hash_axioms;

/// Life cycle of a connection's broker
#[derive(Debug, Clone, Copy, PartialEq, Eq, Structural)]
pub enum BrokerState {
    /// Running
    Started,
    /// The connection is closing
    Ending,
    /// Stopped
    Ended,
}

/// A message for the publish/subscribe broker of the server
#[derive(Debug)]
pub enum PubSubItem {
    /// A new publication from a client; its content goes along
    Publish {
        /// The publishing client
        client_id: ClientId,
        /// The id the client gave the publication
        msg_id: MessageId,
        /// Topic
        topic: String,
    },
    /// A client subscribes to a topic; its channel goes along
    Subscribe {
        /// The subscribing client
        client_id: ClientId,
        /// Topic
        topic: String,
    },
    /// A client unsubscribes from a topic
    Unsubscribe {
        /// The client
        client_id: ClientId,
        /// Topic
        topic: String,
    },
    /// A client acknowledged a publication
    Ack {
        /// Sequence id of the publication
        seq_id: SeqId,
        /// The client
        client_id: ClientId,
    },
}

/// An event for the broker of a connection
#[derive(Debug)]
pub enum ServerBrokerEvent {
    /// A message read from the client
    Inbound(ServerInbound),
    /// A call finished with this outcome (its value goes along)
    Response {
        /// Message id of the request
        id: MessageId,
        /// Outcome of the call
        result: Result<(), Error>,
    },
    /// A publication to send to the client; its content goes along
    Publication {
        /// Sequence id
        seq_id: SeqId,
        /// Topic
        topic: String,
    },
    /// The client is gone: stop running calls and close
    Stopping,
    /// Stop
    Stop,
}

/// What the broker loop does for an event
#[derive(Debug)]
pub enum ServerBrokerAction {
    /// Start running request `id` (its service, method, timeout and body come
    /// with the event)
    Execute(MessageId),
    /// Hand this item to the writer
    Write(ServerWriterItem),
    /// Abort the call of request `id`, when one runs
    Abort(MessageId),
    /// Hand this item to the publish/subscribe broker
    ToPubSub(PubSubItem),
    /// Abort these calls, send `Stop` to this broker and ask the writer to close
    StopAll(Vec<MessageId>),
}

/// The broker of one client connection
pub struct ServerBroker {
    /// Id of the client
    pub client_id: ClientId,
    /// Requests whose calls are running
    pub executions: HashSet<MessageId>,
    /// Life cycle state
    pub state: BrokerState,
}

impl ServerBroker {
    /// Requests whose calls are running
    pub open spec fn running(&self) -> Set<MessageId> {
        self.executions@
    }

    /// The broker of a new connection
    pub fn new(client_id: ClientId) -> (b: Self)
        ensures
            b.client_id == client_id,
            b.running() == Set::<MessageId>::empty(),
            b.state == BrokerState::Started,
    {
        Self { client_id, executions: HashSet::new(), state: BrokerState::Started }
    }

    /// What to do for an event, and how the running requests change: a
    /// request starts running, a finished call is no longer running and its
    /// outcome is written, a cancellation stops the call, publications and
    /// subscriptions go to the publish/subscribe broker under this client's
    /// id, and stopping aborts every running call.
    pub fn op(&mut self, event: ServerBrokerEvent) -> (a: ServerBrokerAction)
        ensures
            final(self).client_id == old(self).client_id,
            match event {
                ServerBrokerEvent::Inbound(ServerInbound::Request { id, .. }) => {
                    &&& a matches ServerBrokerAction::Execute(i) && i == id
                    &&& final(self).running() == old(self).running().insert(id)
                    &&& final(self).state == old(self).state
                },
                ServerBrokerEvent::Inbound(ServerInbound::Response { id, error }) => {
                    &&& a matches ServerBrokerAction::Write(
                        ServerWriterItem::Response { id: i, result: Err(e) },
                    ) && i == id && e == error
                    &&& final(self).running() == old(self).running().remove(id)
                    &&& final(self).state == old(self).state
                },
                ServerBrokerEvent::Response { id, result } => {
                    &&& a matches ServerBrokerAction::Write(
                        ServerWriterItem::Response { id: i, result: r },
                    ) && i == id && r == result
                    &&& final(self).running() == old(self).running().remove(id)
                    &&& final(self).state == old(self).state
                },
                ServerBrokerEvent::Inbound(ServerInbound::Cancel(id)) => {
                    &&& a matches ServerBrokerAction::Abort(i) && i == id
                    &&& final(self).running() == old(self).running().remove(id)
                    &&& final(self).state == old(self).state
                },
                ServerBrokerEvent::Inbound(ServerInbound::Publish { id, topic, .. }) => {
                    &&& a matches ServerBrokerAction::ToPubSub(
                        PubSubItem::Publish { client_id: c, msg_id: i, topic: t },
                    ) && c == old(self).client_id && i == id && t@ == topic@
                    &&& final(self).running() == old(self).running()
                    &&& final(self).state == old(self).state
                },
                ServerBrokerEvent::Inbound(ServerInbound::Subscribe { topic, .. }) => {
                    &&& a matches ServerBrokerAction::ToPubSub(
                        PubSubItem::Subscribe { client_id: c, topic: t },
                    ) && c == old(self).client_id && t@ == topic@
                    &&& final(self).running() == old(self).running()
                    &&& final(self).state == old(self).state
                },
                ServerBrokerEvent::Inbound(ServerInbound::Unsubscribe { topic, .. }) => {
                    &&& a matches ServerBrokerAction::ToPubSub(
                        PubSubItem::Unsubscribe { client_id: c, topic: t },
                    ) && c == old(self).client_id && t@ == topic@
                    &&& final(self).running() == old(self).running()
                    &&& final(self).state == old(self).state
                },
                ServerBrokerEvent::Inbound(ServerInbound::InboundAck { seq_id }) => {
                    &&& a matches ServerBrokerAction::ToPubSub(PubSubItem::Ack { seq_id: s, client_id: c })
                        && s == seq_id && c == old(self).client_id
                    &&& final(self).running() == old(self).running()
                    &&& final(self).state == old(self).state
                },
                ServerBrokerEvent::Publication { seq_id, topic } => {
                    &&& a matches ServerBrokerAction::Write(
                        ServerWriterItem::Publication { seq_id: s, topic: t },
                    ) && s == seq_id && t@ == topic@
                    &&& final(self).running() == old(self).running()
                    &&& final(self).state == old(self).state
                },
                ServerBrokerEvent::Stopping => {
                    &&& a matches ServerBrokerAction::StopAll(ids) && ids@.to_set() == old(
                        self,
                    ).running() && ids@.no_duplicates()
                    &&& final(self).running() == Set::<MessageId>::empty()
                    &&& final(self).state == BrokerState::Ending
                },
                ServerBrokerEvent::Stop => {
                    &&& a matches ServerBrokerAction::Write(ServerWriterItem::Stop)
                    &&& final(self).running() == old(self).running()
                    &&& final(self).state == BrokerState::Ended
                },
            },
    {
        match event {
            ServerBrokerEvent::Inbound(inbound) => match inbound {
                ServerInbound::Request { id, .. } => {
                    self.executions.insert(id);
                    ServerBrokerAction::Execute(id)
                },
                ServerInbound::Response { id, error } => {
                    self.executions.remove(&id);
                    ServerBrokerAction::Write(ServerWriterItem::Response { id, result: Err(error) })
                },
                ServerInbound::Cancel(id) => {
                    self.executions.remove(&id);
                    ServerBrokerAction::Abort(id)
                },
                ServerInbound::Publish { id, topic, .. } => ServerBrokerAction::ToPubSub(
                    PubSubItem::Publish { client_id: self.client_id, msg_id: id, topic },
                ),
                ServerInbound::Subscribe { topic, .. } => ServerBrokerAction::ToPubSub(
                    PubSubItem::Subscribe { client_id: self.client_id, topic },
                ),
                ServerInbound::Unsubscribe { topic, .. } => ServerBrokerAction::ToPubSub(
                    PubSubItem::Unsubscribe { client_id: self.client_id, topic },
                ),
                ServerInbound::InboundAck { seq_id } => ServerBrokerAction::ToPubSub(
                    PubSubItem::Ack { seq_id, client_id: self.client_id },
                ),
            },
            ServerBrokerEvent::Response { id, result } => {
                self.executions.remove(&id);
                ServerBrokerAction::Write(ServerWriterItem::Response { id, result })
            },
            ServerBrokerEvent::Publication { seq_id, topic } => ServerBrokerAction::Write(
                ServerWriterItem::Publication { seq_id, topic },
            ),
            ServerBrokerEvent::Stopping => {
                let ids = self.drain_executions();
                self.state = BrokerState::Ending;
                ServerBrokerAction::StopAll(ids)
            },
            ServerBrokerEvent::Stop => {
                self.state = BrokerState::Ended;
                ServerBrokerAction::Write(ServerWriterItem::Stop)
            },
        }
    }

    /// Takes every running request out
    fn drain_executions(&mut self) -> (ids: Vec<MessageId>)
        ensures
            ids@.to_set() == old(self).running(),
            ids@.no_duplicates(),
            final(self).running() == Set::<MessageId>::empty(),
            final(self).client_id == old(self).client_id,
            final(self).state == old(self).state,
    {
        let mut ids: Vec<MessageId> = Vec::new();
        let ghost all = self.executions@;
        proof {
            vstd::std_specs::hash::axiom_spec_hash_keys_iter(&self.executions);
        }
        let ghost full = vstd::std_specs::iter::IteratorSpec::remaining(&vstd::std_specs::hash::spec_hash_keys_iter(&self.executions)).unref();
        for k in it: self.executions.iter()
            invariant
                all == self.executions@,
                it.seq().unref() == full,
                it.seq().unref().to_set() == all,
                it.seq().unref().no_duplicates(),
                ids@ == it.seq().unref().take(it.index() as int),
        {
            assert(it.seq().unref().take(it.index() + 1) =~= it.seq().unref().take(
                it.index() as int,
            ).push(*k));
            ids.push(*k);
        }
        assert(ids@ =~= full);
        assert(ids@.to_set() =~= all);
        self.executions = HashSet::new();
        ids
    }
}

/// The error a call's failure is reported as: a body that could not be read
/// as the method's argument is an invalid argument
pub open spec fn reported_call_error(err: Error) -> Error {
    match err {
        Error::ParseError(_) => Error::InvalidArgument,
        e => e,
    }
}

/// The outcome of a call as reported to the client; a call that did not
/// finish in time is reported as a timeout of its request
pub fn call_outcome(id: MessageId, finished: Option<Result<(), Error>>) -> (r: Result<(), Error>)
    ensures
        match finished {
            None => r == Err::<(), Error>(Error::Timeout(id)),
            Some(Ok(())) => r is Ok,
            Some(Err(e)) => r == Err::<(), Error>(reported_call_error(e)),
        },
{
    match finished {
        None => Err(Error::Timeout(id)),
        Some(Ok(())) => Ok(()),
        Some(Err(err)) => match err {
            Error::ParseError(_) => Err(Error::InvalidArgument),
            e => Err(e),
        },
    }
}

/// How a call's failure is reported to the client: a failure to read the
/// argument is reported as `InvalidArgument`, which the client is told of, so
/// a reported error is never a parse error; every other error is reported as
/// it is, and an error the client can be told of stays one.
pub proof fn lemma_call_errors_reported(id: MessageId, err: Error)
    ensures
        err is ParseError ==> reported_call_error(err) == Error::InvalidArgument,
        err is ParseError ==> is_sendable(reported_call_error(err)),
        !(reported_call_error(err) is ParseError),
        !(err is ParseError) ==> reported_call_error(err) == err,
        is_sendable(err) ==> is_sendable(reported_call_error(err)),
{
}

} // verus!
