//! The client broker: the state it keeps between events and what it asks the
//! writer to send for each event.
//!
//! The broker runs in a loop that receives events (requests from the client,
//! responses and publications read from the server, timer expiries) and
//! forwards writer items. The channels that carry results back to callers
//! are held by the loop; this module decides, for each event, how the
//! broker's bookkeeping changes and which item, if any, the writer sends.

use std::collections::HashSet;
use std::time::Duration;
use vstd::prelude::*;

use crate::error::Error;
use crate::message::{next_message_id, nth_message_id, MessageId};
use crate::numeral::{decimal, push_decimal, push_str, string_from_chars};
use crate::pubsub::SeqId;

verus! {

broadcast use vstd::std_specs::hash::group_hash_axioms;

/// Life cycle of the client broker
#[derive(Debug, Clone, Copy, PartialEq, Eq, Structural)]
pub enum ClientBrokerState {
    /// Running
    Started,
    /// A first stop request was received; the writer was asked to close
    Stopping,
    /// Stopped
    Stopped,
}

/// What the client writer is asked to send. The bodies that go with a
/// request or a publication are kept by the broker loop next to the item.
#[derive(Debug, Clone)]
pub enum ClientWriterItem {
    /// A request with its id, "{Service}.{method}" and timeout
    Request(MessageId, String, Duration),
    /// A publication with its id and topic
    Publish(MessageId, String),
    /// A subscription to a topic
    Subscribe(MessageId, String),
    /// The end of a subscription to a topic
    Unsubscribe(MessageId, String),
    /// The cancellation of a request
    Cancel(MessageId),
    /// Close the connection
    Stopping,
    /// Stop the writer
    Stop,
}

/// How handing a subscription item to the local subscriber went
#[derive(Debug, Clone, Copy, PartialEq, Eq, Structural)]
pub enum DeliveryOutcome {
    /// The item was handed over
    Sent,
    /// The subscriber's queue is full; the item is dropped
    Full,
    /// The subscriber is gone
    Disconnected,
}

/// The state the broker moves to on a stop request
pub open spec fn state_after_stopping(s: ClientBrokerState) -> ClientBrokerState {
    match s {
        ClientBrokerState::Started => ClientBrokerState::Stopping,
        _ => ClientBrokerState::Stopped,
    }
}

/// Two stop requests stop a running broker, and a stopped broker stays stopped.
pub proof fn lemma_stopping_stops(s: ClientBrokerState)
    ensures
        state_after_stopping(state_after_stopping(s)) == ClientBrokerState::Stopped,
        state_after_stopping(ClientBrokerState::Stopped) == ClientBrokerState::Stopped,
{
}

/// A request is resolved once: once it is pending its response is delivered,
/// and after that a second response with the same id is refused, as is a
/// response after the request was canceled.
pub proof fn lemma_response_resolves_once(pending: Set<MessageId>, id: MessageId)
    ensures
        pending.insert(id).contains(id),
        !pending.insert(id).remove(id).contains(id),
        !pending.remove(id).contains(id),
        !pending.contains(id) ==> pending.insert(id).remove(id) == pending,
{
    assert(!pending.contains(id) ==> pending.insert(id).remove(id) =~= pending);
}

/// A publication is sent again at most `max` times: from retry count `c` the
/// broker sends it again exactly when `c < max`, and the next count is `c + 1`.
pub open spec fn retries_left(count: u32, max: u32) -> nat {
    if count < max {
        (max - count) as nat
    } else {
        0
    }
}

/// Each retry uses up one of the retries that are left, and none is left once
/// the count reaches the maximum.
pub proof fn lemma_retries_bounded(count: u32, max: u32)
    ensures
        count < max ==> retries_left((count + 1) as u32, max) + 1 == retries_left(count, max),
        count >= max ==> retries_left(count, max) == 0,
        retries_left(0, max) == max,
{
}

/// Text of the error for a response whose request is not pending
pub open spec fn response_not_found_msg(id: MessageId) -> Seq<char> {
    "InternalError: Response channel not found for id: "@ + decimal(id as nat)
}

/// Text of the error for an Ack whose publication is not waiting for one
pub open spec fn ack_not_found_msg(id: MessageId) -> Seq<char> {
    "InternalError: Ack timeout task channel not found for id: "@ + decimal(id as nat)
}

/// An event for the client broker. The bodies of requests and publications,
/// the channels that carry results to callers and the queues of local
/// subscribers travel next to it.
#[derive(Debug)]
pub enum ClientBrokerEvent {
    /// A new request with its id, "{Service}.{method}" and timeout
    Request {
        /// Message id
        id: MessageId,
        /// "{Service}.{method}"
        service_method: String,
        /// Timeout of the request
        duration: Duration,
    },
    /// A response read from the server
    Response {
        /// Id of the request
        id: MessageId,
    },
    /// The caller canceled request `id`
    Cancel(MessageId),
    /// A new publication on a topic
    Publish {
        /// Topic
        topic: String,
    },
    /// The Ack of publication `id` did not come in time; `count` retries
    /// were made so far
    PublishRetry {
        /// Retries made so far
        count: u32,
        /// Id of the publication
        id: MessageId,
        /// Topic
        topic: String,
    },
    /// A new subscription to a topic
    Subscribe {
        /// Topic
        topic: String,
    },
    /// A new local subscriber replaces the previous one
    NewLocalSubscriber {
        /// Topic
        topic: String,
    },
    /// The end of a subscription
    Unsubscribe {
        /// Topic
        topic: String,
    },
    /// An item of a topic read from the server, and how handing it to the
    /// topic's local subscriber went
    Subscription {
        /// Topic
        topic: String,
        /// How handing the item over went
        outcome: DeliveryOutcome,
    },
    /// The server acknowledged a publication
    InboundAck(SeqId),
    /// A stop request
    Stopping,
    /// Stop
    Stop,
}

/// The state of the client broker
pub struct ClientBroker {
    /// Life cycle state
    pub state: ClientBrokerState,
    /// The next message id to hand out
    pub count: MessageId,
    /// Ids of the requests that wait for a response
    pub pending: HashSet<MessageId>,
    /// Topics that have a local subscriber
    pub subscriptions: Vec<String>,
    /// Ids of the publications that wait for an Ack
    pub pending_acks: HashSet<MessageId>,
    /// How long a publication waits for an Ack before it is sent again
    pub pub_retry_timeout: Duration,
    /// How many times a publication is sent again at most
    pub max_num_retries: u32,
}

/// The topics of a list of topic names
pub open spec fn topic_set(v: Seq<String>) -> Set<Seq<char>> {
    Set::new(|t: Seq<char>| exists|i: int| 0 <= i < v.len() && v[i]@ == t)
}

impl ClientBroker {
    /// The topics that have a local subscriber
    pub open spec fn topics(&self) -> Set<Seq<char>> {
        topic_set(self.subscriptions@)
    }

    /// Each topic is held once
    pub open spec fn well_formed(&self) -> bool {
        forall|i: int, j: int|
            0 <= i < j < self.subscriptions@.len() ==> self.subscriptions@[i]@
                != self.subscriptions@[j]@
    }

    /// Creates the broker of a new connection
    pub fn new(count: MessageId, pub_retry_timeout: Duration, max_num_retries: u32) -> (b: Self)
        ensures
            b.well_formed(),
            b.state == ClientBrokerState::Started,
            b.count == count,
            b.pending@ == Set::<MessageId>::empty(),
            b.topics() == Set::<Seq<char>>::empty(),
            b.pending_acks@ == Set::<MessageId>::empty(),
            b.pub_retry_timeout == pub_retry_timeout,
            b.max_num_retries == max_num_retries,
    {
        let b = Self {
            state: ClientBrokerState::Started,
            count,
            pending: HashSet::new(),
            subscriptions: Vec::new(),
            pending_acks: HashSet::new(),
            pub_retry_timeout,
            max_num_retries,
        };
        assert(b.topics() =~= Set::<Seq<char>>::empty());
        b
    }

    /// Hands out the next message id
    pub fn fetch_add_id(&mut self) -> (id: MessageId)
        ensures
            id == old(self).count,
            final(self).count == next_message_id(old(self).count),
            final(self).count == nth_message_id(old(self).count, 1),
            final(self).state == old(self).state,
            final(self).pending@ == old(self).pending@,
            final(self).subscriptions@ == old(self).subscriptions@,
            final(self).pending_acks@ == old(self).pending_acks@,
            final(self).pub_retry_timeout == old(self).pub_retry_timeout,
            final(self).max_num_retries == old(self).max_num_retries,
    {
        let id = self.count;
        assert(nth_message_id(id, 1) == next_message_id(nth_message_id(id, 0)));
        self.count = if self.count == 65535 {
            0
        } else {
            self.count + 1
        };
        id
    }

    /// Position of a topic in the list of subscriptions
    fn find_topic(&self, topic: &String) -> (r: Option<usize>)
        ensures
            r matches Some(i) ==> i < self.subscriptions@.len() && self.subscriptions@[i as int]@
                == topic@,
            r is None ==> !self.topics().contains(topic@),
    {
        let mut i: usize = 0;
        while i < self.subscriptions.len()
            invariant
                i <= self.subscriptions@.len(),
                forall|j: int| 0 <= j < i ==> self.subscriptions@[j]@ != topic@,
            decreases self.subscriptions@.len() - i,
        {
            if self.subscriptions[i] == *topic {
                return Some(i);
            }
            i = i + 1;
        }
        None
    }

    /// A new request: it waits for its response from now on, and the writer
    /// sends it
    pub fn handle_request(&mut self, id: MessageId, service_method: String, duration: Duration) -> (r:
        Result<Option<ClientWriterItem>, Error>)
        ensures
            final(self).pending@ == old(self).pending@.insert(id),
            r matches Ok(Some(ClientWriterItem::Request(i, sm, d))) && i == id && sm@
                == service_method@ && d == duration,
            final(self).state == old(self).state,
            final(self).count == old(self).count,
            final(self).subscriptions@ == old(self).subscriptions@,
            final(self).pending_acks@ == old(self).pending_acks@,
            final(self).pub_retry_timeout == old(self).pub_retry_timeout,
            final(self).max_num_retries == old(self).max_num_retries,
    {
        self.pending.insert(id);
        Ok(Some(ClientWriterItem::Request(id, service_method, duration)))
    }

    /// A response read from the server: the pending request is resolved and its
    /// caller gets the result; a response to no pending request is an error
    pub fn handle_response(&mut self, id: MessageId) -> (r: Result<Option<ClientWriterItem>, Error>)
        ensures
            old(self).pending@.contains(id) ==> r matches Ok(None),
            !old(self).pending@.contains(id) ==> (r matches Err(Error::Internal(m)) && m@
                == response_not_found_msg(id)),
            final(self).pending@ == old(self).pending@.remove(id),
            final(self).state == old(self).state,
            final(self).count == old(self).count,
            final(self).subscriptions@ == old(self).subscriptions@,
            final(self).pending_acks@ == old(self).pending_acks@,
            final(self).pub_retry_timeout == old(self).pub_retry_timeout,
            final(self).max_num_retries == old(self).max_num_retries,
    {
        if self.pending.remove(&id) {
            Ok(None)
        } else {
            let mut out: Vec<char> = Vec::new();
            push_str("InternalError: Response channel not found for id: ", &mut out);
            push_decimal(id as u64, &mut out);
            assert(out@ =~= response_not_found_msg(id));
            Err(Error::Internal(string_from_chars(&out)))
        }
    }

    /// A cancellation: the request no longer waits (its caller gets
    /// `Canceled`), and the writer tells the server
    pub fn handle_cancel(&mut self, id: MessageId) -> (r: Result<Option<ClientWriterItem>, Error>)
        ensures
            r matches Ok(Some(ClientWriterItem::Cancel(i))) && i == id,
            final(self).pending@ == old(self).pending@.remove(id),
            final(self).state == old(self).state,
            final(self).count == old(self).count,
            final(self).subscriptions@ == old(self).subscriptions@,
            final(self).pending_acks@ == old(self).pending_acks@,
            final(self).pub_retry_timeout == old(self).pub_retry_timeout,
            final(self).max_num_retries == old(self).max_num_retries,
    {
        self.pending.remove(&id);
        Ok(Some(ClientWriterItem::Cancel(id)))
    }

    /// A new publication: it gets the next id and the writer sends it
    pub fn handle_publish(&mut self, topic: String) -> (r: Result<Option<ClientWriterItem>, Error>)
        ensures
            r matches Ok(Some(ClientWriterItem::Publish(i, t))) && i == old(self).count && t@
                == topic@,
            final(self).count == next_message_id(old(self).count),
            final(self).state == old(self).state,
            final(self).pending@ == old(self).pending@,
            final(self).subscriptions@ == old(self).subscriptions@,
            final(self).pending_acks@ == old(self).pending_acks@,
            final(self).pub_retry_timeout == old(self).pub_retry_timeout,
            final(self).max_num_retries == old(self).max_num_retries,
    {
        let id = self.fetch_add_id();
        Ok(Some(ClientWriterItem::Publish(id, topic)))
    }

    /// A publication whose Ack did not come in time: it is sent again and waits
    /// for its Ack, unless it was already sent again `max_num_retries` times.
    /// The second component is the retry count to start the next wait with.
    pub fn handle_publish_retry(&mut self, count: u32, id: MessageId, topic: String) -> (r: (
        Result<Option<ClientWriterItem>, Error>,
        u32,
    ))
        ensures
            count < old(self).max_num_retries ==> {
                &&& r.0 matches Ok(Some(ClientWriterItem::Publish(i, t))) && i == id && t@
                    == topic@
                &&& r.1 == count + 1
                &&& final(self).pending_acks@ == old(self).pending_acks@.insert(id)
            },
            count >= old(self).max_num_retries ==> {
                &&& r.0 matches Err(Error::MaxRetriesReached(i)) && i == id
                &&& r.1 == count
                &&& final(self).pending_acks@ == old(self).pending_acks@
            },
            final(self).state == old(self).state,
            final(self).count == old(self).count,
            final(self).pending@ == old(self).pending@,
            final(self).subscriptions@ == old(self).subscriptions@,
            final(self).pub_retry_timeout == old(self).pub_retry_timeout,
            final(self).max_num_retries == old(self).max_num_retries,
    {
        if count < self.max_num_retries {
            self.pending_acks.insert(id);
            (Ok(Some(ClientWriterItem::Publish(id, topic))), count + 1)
        } else {
            (Err(Error::MaxRetriesReached(id)), count)
        }
    }

    /// Adds or replaces the local subscriber of a topic
    fn insert_topic(&mut self, topic: String)
        requires
            old(self).well_formed(),
        ensures
            final(self).well_formed(),
            final(self).topics() == old(self).topics().insert(topic@),
            final(self).state == old(self).state,
            final(self).count == old(self).count,
            final(self).pending@ == old(self).pending@,
            final(self).pending_acks@ == old(self).pending_acks@,
            final(self).pub_retry_timeout == old(self).pub_retry_timeout,
            final(self).max_num_retries == old(self).max_num_retries,
    {
        match self.find_topic(&topic) {
            Some(_) => {
                assert(self.topics().insert(topic@) =~= self.topics());
            },
            None => {
                let ghost old_subs = self.subscriptions@;
                self.subscriptions.push(topic);
                assert(self.topics() =~= topic_set(old_subs).insert(
                    self.subscriptions@[old_subs.len() as int]@,
                )) by {
                    assert forall|t: Seq<char>| self.topics().contains(t) implies topic_set(
                        old_subs,
                    ).insert(self.subscriptions@[old_subs.len() as int]@).contains(t) by {
                        let i = choose|i: int|
                            0 <= i < self.subscriptions@.len() && self.subscriptions@[i]@ == t;
                        if i < old_subs.len() {
                            assert(old_subs[i]@ == t);
                        }
                    }
                    assert forall|t: Seq<char>|
                        topic_set(old_subs).insert(
                            self.subscriptions@[old_subs.len() as int]@,
                        ).contains(t) implies self.topics().contains(t) by {
                        if t != self.subscriptions@[old_subs.len() as int]@ {
                            let i = choose|i: int| 0 <= i < old_subs.len() && old_subs[i]@ == t;
                            assert(self.subscriptions@[i]@ == t);
                        }
                    }
                }
            },
        }
    }

    /// A new subscription: the topic gets its local subscriber and the writer
    /// tells the server, with the next id
    pub fn handle_subscribe(&mut self, topic: String) -> (r: Result<Option<ClientWriterItem>, Error>)
        requires
            old(self).well_formed(),
        ensures
            final(self).well_formed(),
            r matches Ok(Some(ClientWriterItem::Subscribe(i, t))) && i == old(self).count && t@
                == topic@,
            final(self).topics() == old(self).topics().insert(topic@),
            final(self).count == next_message_id(old(self).count),
            final(self).state == old(self).state,
            final(self).pending@ == old(self).pending@,
            final(self).pending_acks@ == old(self).pending_acks@,
            final(self).pub_retry_timeout == old(self).pub_retry_timeout,
            final(self).max_num_retries == old(self).max_num_retries,
    {
        let id = self.fetch_add_id();
        let t = topic.clone();
        self.insert_topic(t);
        Ok(Some(ClientWriterItem::Subscribe(id, topic)))
    }

    /// A new local subscriber replaces the previous one; nothing is sent
    pub fn handle_new_local_subscriber(&mut self, topic: String) -> (r: Result<
        Option<ClientWriterItem>,
        Error,
    >)
        requires
            old(self).well_formed(),
        ensures
            final(self).well_formed(),
            r matches Ok(None),
            final(self).topics() == old(self).topics().insert(topic@),
            final(self).count == old(self).count,
            final(self).state == old(self).state,
            final(self).pending@ == old(self).pending@,
            final(self).pending_acks@ == old(self).pending_acks@,
            final(self).pub_retry_timeout == old(self).pub_retry_timeout,
            final(self).max_num_retries == old(self).max_num_retries,
    {
        self.insert_topic(topic);
        Ok(None)
    }

    /// An unsubscription: the writer tells the server, with the next id
    pub fn handle_unsubscribe(&mut self, topic: String) -> (r: Result<
        Option<ClientWriterItem>,
        Error,
    >)
        ensures
            r matches Ok(Some(ClientWriterItem::Unsubscribe(i, t))) && i == old(self).count && t@
                == topic@,
            final(self).count == next_message_id(old(self).count),
            final(self).state == old(self).state,
            final(self).pending@ == old(self).pending@,
            final(self).subscriptions@ == old(self).subscriptions@,
            final(self).pending_acks@ == old(self).pending_acks@,
            final(self).pub_retry_timeout == old(self).pub_retry_timeout,
            final(self).max_num_retries == old(self).max_num_retries,
    {
        let id = self.fetch_add_id();
        Ok(Some(ClientWriterItem::Unsubscribe(id, topic)))
    }

    /// An Ack from the server: the publication no longer waits for it; an Ack
    /// for no waiting publication is an error
    pub fn handle_inbound_ack(&mut self, id: MessageId) -> (r: Result<
        Option<ClientWriterItem>,
        Error,
    >)
        ensures
            old(self).pending_acks@.contains(id) ==> r matches Ok(None),
            !old(self).pending_acks@.contains(id) ==> (r matches Err(Error::Internal(m)) && m@
                == ack_not_found_msg(id)),
            final(self).pending_acks@ == old(self).pending_acks@.remove(id),
            final(self).state == old(self).state,
            final(self).count == old(self).count,
            final(self).pending@ == old(self).pending@,
            final(self).subscriptions@ == old(self).subscriptions@,
            final(self).pub_retry_timeout == old(self).pub_retry_timeout,
            final(self).max_num_retries == old(self).max_num_retries,
    {
        if self.pending_acks.remove(&id) {
            Ok(None)
        } else {
            let mut out: Vec<char> = Vec::new();
            push_str("InternalError: Ack timeout task channel not found for id: ", &mut out);
            push_decimal(id as u64, &mut out);
            assert(out@ =~= ack_not_found_msg(id));
            Err(Error::Internal(string_from_chars(&out)))
        }
    }

    /// Whether an item of a topic read from the server goes to a local
    /// subscriber; an item of a topic without one is an error
    pub fn handle_subscription(&self, topic: &String) -> (r: Result<(), Error>)
        ensures
            self.topics().contains(topic@) <==> r is Ok,
            r matches Err(Error::Internal(m)) && m@ == "Topic is not found locally"@ || r is Ok,
    {
        match self.find_topic(topic) {
            Some(_) => Ok(()),
            None => Err(Error::Internal(String::from_str("Topic is not found locally"))),
        }
    }

    /// After an item was handed to the local subscriber of a topic: a
    /// subscriber that is gone loses its topic and is reported, a full queue
    /// drops the item silently
    pub fn handle_subscription_delivery(&mut self, topic: &String, outcome: DeliveryOutcome) -> (r:
        Result<Option<ClientWriterItem>, Error>)
        requires
            old(self).well_formed(),
        ensures
            final(self).well_formed(),
            outcome == DeliveryOutcome::Disconnected ==> {
                &&& r matches Err(Error::Internal(m)) && m@ == "Subscription recver is Disconnected"@
                &&& final(self).topics() == old(self).topics().remove(topic@)
            },
            outcome != DeliveryOutcome::Disconnected ==> {
                &&& r matches Ok(None)
                &&& final(self).topics() == old(self).topics()
            },
            final(self).state == old(self).state,
            final(self).count == old(self).count,
            final(self).pending@ == old(self).pending@,
            final(self).pending_acks@ == old(self).pending_acks@,
            final(self).pub_retry_timeout == old(self).pub_retry_timeout,
            final(self).max_num_retries == old(self).max_num_retries,
    {
        match outcome {
            DeliveryOutcome::Disconnected => {
                match self.find_topic(topic) {
                    Some(i) => {
                        let ghost old_subs = self.subscriptions@;
                        self.subscriptions.remove(i);
                        assert(self.topics() =~= topic_set(old_subs).remove(topic@)) by {
                            assert forall|t: Seq<char>| self.topics().contains(t) implies topic_set(
                                old_subs,
                            ).remove(topic@).contains(t) by {
                                let k = choose|k: int|
                                    0 <= k < self.subscriptions@.len() && self.subscriptions@[k]@
                                        == t;
                                if k < i {
                                    assert(old_subs[k]@ == t);
                                    assert(old_subs[k]@ != old_subs[i as int]@);
                                } else {
                                    assert(old_subs[k + 1]@ == t);
                                    assert(old_subs[k + 1]@ != old_subs[i as int]@);
                                }
                            }
                            assert forall|t: Seq<char>|
                                topic_set(old_subs).remove(topic@).contains(
                                    t,
                                ) implies self.topics().contains(t) by {
                                let k = choose|k: int| 0 <= k < old_subs.len() && old_subs[k]@ == t;
                                if k < i {
                                    assert(self.subscriptions@[k]@ == t);
                                } else {
                                    assert(self.subscriptions@[k - 1]@ == t);
                                }
                            }
                        }
                    },
                    None => {
                        assert(self.topics().remove(topic@) =~= self.topics());
                    },
                }
                Err(Error::Internal(String::from_str("Subscription recver is Disconnected")))
            },
            _ => Ok(None),
        }
    }

    /// A stop request: the first one asks the writer to close the connection,
    /// the second one too and the broker stops; later ones are ignored
    pub fn handle_stopping(&mut self) -> (r: Result<Option<ClientWriterItem>, Error>)
        ensures
            final(self).state == state_after_stopping(old(self).state),
            old(self).state == ClientBrokerState::Started ==> final(self).state
                == ClientBrokerState::Stopping && r matches Ok(Some(ClientWriterItem::Stopping)),
            old(self).state == ClientBrokerState::Stopping ==> final(self).state
                == ClientBrokerState::Stopped && r matches Ok(Some(ClientWriterItem::Stopping)),
            old(self).state == ClientBrokerState::Stopped ==> final(self).state
                == ClientBrokerState::Stopped && r matches Ok(None),
            final(self).count == old(self).count,
            final(self).pending@ == old(self).pending@,
            final(self).subscriptions@ == old(self).subscriptions@,
            final(self).pending_acks@ == old(self).pending_acks@,
            final(self).pub_retry_timeout == old(self).pub_retry_timeout,
            final(self).max_num_retries == old(self).max_num_retries,
    {
        match self.state {
            ClientBrokerState::Started => self.state = ClientBrokerState::Stopping,
            ClientBrokerState::Stopping => self.state = ClientBrokerState::Stopped,
            _ => {
                return Ok(None);
            },
        }
        Ok(Some(ClientWriterItem::Stopping))
    }

    /// A stop: the broker stops and the writer is told to stop
    pub fn handle_stop(&mut self) -> (r: Result<Option<ClientWriterItem>, Error>)
        ensures
            final(self).state == ClientBrokerState::Stopped,
            r matches Ok(Some(ClientWriterItem::Stop)),
            final(self).count == old(self).count,
            final(self).pending@ == old(self).pending@,
            final(self).subscriptions@ == old(self).subscriptions@,
            final(self).pending_acks@ == old(self).pending_acks@,
            final(self).pub_retry_timeout == old(self).pub_retry_timeout,
            final(self).max_num_retries == old(self).max_num_retries,
    {
        self.state = ClientBrokerState::Stopped;
        Ok(Some(ClientWriterItem::Stop))
    }

    /// What the broker does for an event: the writer item it hands on (or the
    /// error that the loop logs), and how its bookkeeping changes; each event
    /// is handled as its `handle_*` method says
    pub fn op(&mut self, event: ClientBrokerEvent) -> (r: Result<Option<ClientWriterItem>, Error>)
        requires
            old(self).well_formed(),
        ensures
            final(self).well_formed(),
            final(self).pub_retry_timeout == old(self).pub_retry_timeout,
            final(self).max_num_retries == old(self).max_num_retries,
            match event {
                ClientBrokerEvent::Request { id, service_method, duration } => {
                    &&& r matches Ok(Some(ClientWriterItem::Request(i, sm, d))) && i == id && sm@
                        == service_method@ && d == duration
                    &&& final(self).pending@ == old(self).pending@.insert(id)
                    &&& final(self).state == old(self).state
                    &&& final(self).count == old(self).count
                    &&& final(self).topics() == old(self).topics()
                    &&& final(self).pending_acks@ == old(self).pending_acks@
                },
                ClientBrokerEvent::Response { id } => {
                    &&& old(self).pending@.contains(id) ==> (r matches Ok(None))
                    &&& !old(self).pending@.contains(id) ==> (r matches Err(Error::Internal(m)) && m@
                        == response_not_found_msg(id))
                    &&& final(self).pending@ == old(self).pending@.remove(id)
                    &&& final(self).state == old(self).state
                    &&& final(self).count == old(self).count
                    &&& final(self).topics() == old(self).topics()
                    &&& final(self).pending_acks@ == old(self).pending_acks@
                },
                ClientBrokerEvent::Cancel(id) => {
                    &&& r matches Ok(Some(ClientWriterItem::Cancel(i))) && i == id
                    &&& final(self).pending@ == old(self).pending@.remove(id)
                    &&& final(self).state == old(self).state
                    &&& final(self).count == old(self).count
                    &&& final(self).topics() == old(self).topics()
                    &&& final(self).pending_acks@ == old(self).pending_acks@
                },
                ClientBrokerEvent::Publish { topic } => {
                    &&& r matches Ok(Some(ClientWriterItem::Publish(i, t))) && i == old(self).count
                        && t@ == topic@
                    &&& final(self).count == next_message_id(old(self).count)
                    &&& final(self).pending@ == old(self).pending@
                    &&& final(self).state == old(self).state
                    &&& final(self).topics() == old(self).topics()
                    &&& final(self).pending_acks@ == old(self).pending_acks@
                },
                ClientBrokerEvent::PublishRetry { count, id, topic } => {
                    &&& count < old(self).max_num_retries ==> (r matches Ok(
                        Some(ClientWriterItem::Publish(i, t)),
                    ) && i == id && t@ == topic@ && final(self).pending_acks@ == old(self).pending_acks@.insert(id))
                    &&& count >= old(self).max_num_retries ==> (r matches Err(
                        Error::MaxRetriesReached(i),
                    ) && i == id && final(self).pending_acks@ == old(self).pending_acks@)
                    &&& final(self).pending@ == old(self).pending@
                    &&& final(self).state == old(self).state
                    &&& final(self).count == old(self).count
                    &&& final(self).topics() == old(self).topics()
                },
                ClientBrokerEvent::Subscribe { topic } => {
                    &&& r matches Ok(Some(ClientWriterItem::Subscribe(i, t))) && i == old(self).count
                        && t@ == topic@
                    &&& final(self).topics() == old(self).topics().insert(topic@)
                    &&& final(self).count == next_message_id(old(self).count)
                    &&& final(self).pending@ == old(self).pending@
                    &&& final(self).state == old(self).state
                    &&& final(self).pending_acks@ == old(self).pending_acks@
                },
                ClientBrokerEvent::NewLocalSubscriber { topic } => {
                    &&& r matches Ok(None)
                    &&& final(self).topics() == old(self).topics().insert(topic@)
                    &&& final(self).count == old(self).count
                    &&& final(self).pending@ == old(self).pending@
                    &&& final(self).state == old(self).state
                    &&& final(self).pending_acks@ == old(self).pending_acks@
                },
                ClientBrokerEvent::Unsubscribe { topic } => {
                    &&& r matches Ok(Some(ClientWriterItem::Unsubscribe(i, t))) && i == old(self).count && t@ == topic@
                    &&& final(self).count == next_message_id(old(self).count)
                    &&& final(self).topics() == old(self).topics()
                    &&& final(self).pending@ == old(self).pending@
                    &&& final(self).state == old(self).state
                    &&& final(self).pending_acks@ == old(self).pending_acks@
                },
                ClientBrokerEvent::Subscription { topic, outcome } => {
                    &&& !old(self).topics().contains(topic@) ==> (r matches Err(Error::Internal(m))
                        && m@ == "Topic is not found locally"@ && final(self).topics() == old(self).topics())
                    &&& (old(self).topics().contains(topic@) && outcome
                        == DeliveryOutcome::Disconnected) ==> (r matches Err(Error::Internal(m))
                        && m@ == "Subscription recver is Disconnected"@ && final(self).topics()
                        == old(self).topics().remove(topic@))
                    &&& (old(self).topics().contains(topic@) && outcome
                        != DeliveryOutcome::Disconnected) ==> (r matches Ok(None) && final(self).topics() == old(self).topics())
                    &&& final(self).count == old(self).count
                    &&& final(self).pending@ == old(self).pending@
                    &&& final(self).state == old(self).state
                    &&& final(self).pending_acks@ == old(self).pending_acks@
                },
                ClientBrokerEvent::InboundAck(seq_id) => {
                    &&& old(self).pending_acks@.contains(seq_id.0) ==> (r matches Ok(None))
                    &&& !old(self).pending_acks@.contains(seq_id.0) ==> (r matches Err(
                        Error::Internal(m),
                    ) && m@ == ack_not_found_msg(seq_id.0))
                    &&& final(self).pending_acks@ == old(self).pending_acks@.remove(seq_id.0)
                    &&& final(self).count == old(self).count
                    &&& final(self).pending@ == old(self).pending@
                    &&& final(self).state == old(self).state
                    &&& final(self).topics() == old(self).topics()
                },
                ClientBrokerEvent::Stopping => {
                    &&& final(self).state == state_after_stopping(old(self).state)
                    &&& old(self).state != ClientBrokerState::Stopped ==> (r matches Ok(Some(ClientWriterItem::Stopping)))
                    &&& old(self).state == ClientBrokerState::Stopped ==> (r matches Ok(None))
                    &&& final(self).count == old(self).count
                    &&& final(self).pending@ == old(self).pending@
                    &&& final(self).topics() == old(self).topics()
                    &&& final(self).pending_acks@ == old(self).pending_acks@
                },
                ClientBrokerEvent::Stop => {
                    &&& r matches Ok(Some(ClientWriterItem::Stop))
                    &&& final(self).state == ClientBrokerState::Stopped
                    &&& final(self).count == old(self).count
                    &&& final(self).pending@ == old(self).pending@
                    &&& final(self).topics() == old(self).topics()
                    &&& final(self).pending_acks@ == old(self).pending_acks@
                },
            },
    {
        match event {
            ClientBrokerEvent::Request { id, service_method, duration } => self.handle_request(
                id,
                service_method,
                duration,
            ),
            ClientBrokerEvent::Response { id } => self.handle_response(id),
            ClientBrokerEvent::Cancel(id) => self.handle_cancel(id),
            ClientBrokerEvent::Publish { topic } => self.handle_publish(topic),
            ClientBrokerEvent::PublishRetry { count, id, topic } => {
                let (r, _) = self.handle_publish_retry(count, id, topic);
                r
            },
            ClientBrokerEvent::Subscribe { topic } => self.handle_subscribe(topic),
            ClientBrokerEvent::NewLocalSubscriber { topic } => self.handle_new_local_subscriber(topic),
            ClientBrokerEvent::Unsubscribe { topic } => self.handle_unsubscribe(topic),
            ClientBrokerEvent::Subscription { topic, outcome } => {
                match self.handle_subscription(&topic) {
                    Err(e) => Err(e),
                    Ok(()) => self.handle_subscription_delivery(&topic, outcome),
                }
            },
            ClientBrokerEvent::InboundAck(seq_id) => self.handle_inbound_ack(seq_id.0),
            ClientBrokerEvent::Stopping => self.handle_stopping(),
            ClientBrokerEvent::Stop => self.handle_stop(),
        }
    }
}

} // verus!
