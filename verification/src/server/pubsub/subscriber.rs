//! Subscriber on the server side: the server itself subscribes to a topic
//! under the reserved client id and reads the publications from a queue.

use vstd::prelude::*;

use crate::error::Error;
use crate::server::broker::{PubSubItem, ServerBrokerEvent};
use crate::server::RESERVED_CLIENT_ID;

verus! {

/// Subscriber on the server side, on one topic
pub struct Subscriber {
    topic: String,
    auto_ack: bool,
}

impl Subscriber {
    /// The topic it subscribes to
    pub closed spec fn topic(&self) -> Seq<char> {
        self.topic@
    }

    /// Whether each publication is acknowledged as it is read
    pub closed spec fn auto_ack(&self) -> bool {
        self.auto_ack
    }

    /// A subscriber on a topic, acknowledging publications when `auto_ack`
    pub fn new(topic: String, auto_ack: bool) -> (s: Self)
        ensures
            s.topic() == topic@,
            s.auto_ack() == auto_ack,
    {
        Self { topic, auto_ack }
    }

    /// The item that subscribes it, under the reserved client id
    pub fn subscribe_item(&self) -> (item: PubSubItem)
        ensures
            item matches PubSubItem::Subscribe { client_id, topic } && client_id
                == RESERVED_CLIENT_ID && topic@ == self.topic(),
    {
        PubSubItem::Subscribe { client_id: RESERVED_CLIENT_ID, topic: self.topic.clone() }
    }

    /// The item sent when it is dropped while its queue is still connected
    pub fn unsubscribe_item(&self) -> (item: PubSubItem)
        ensures
            item matches PubSubItem::Unsubscribe { client_id, topic } && client_id
                == RESERVED_CLIENT_ID && topic@ == self.topic(),
    {
        PubSubItem::Unsubscribe { client_id: RESERVED_CLIENT_ID, topic: self.topic.clone() }
    }

    /// What reading an item of its queue gives: a publication is handed out
    /// (its content travels with it), after its Ack is sent when publications
    /// are acknowledged; anything else is an invalid item
    pub fn on_item(&self, event: &ServerBrokerEvent) -> (r: Result<Option<PubSubItem>, Error>)
        ensures
            match *event {
                ServerBrokerEvent::Publication { seq_id, .. } => if self.auto_ack() {
                    r matches Ok(Some(PubSubItem::Ack { seq_id: s, client_id: c })) && s == seq_id
                        && c == RESERVED_CLIENT_ID
                } else {
                    r matches Ok(None)
                },
                _ => r matches Err(Error::Internal(m)) && m@ == "Invalid PubSub item"@,
            },
    {
        match event {
            ServerBrokerEvent::Publication { seq_id, .. } => {
                if self.auto_ack {
                    Ok(Some(PubSubItem::Ack { seq_id: *seq_id, client_id: RESERVED_CLIENT_ID }))
                } else {
                    Ok(None)
                }
            },
            _ => Err(Error::Internal(String::from_str("Invalid PubSub item"))),
        }
    }
}

} // verus!
