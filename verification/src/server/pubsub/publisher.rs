//! Publisher on the server side: publications made by the server itself go
//! to the publish/subscribe broker under the reserved client id.

use vstd::prelude::*;

use crate::message::{next_message_id, MessageId};
use crate::server::broker::PubSubItem;
use crate::server::RESERVED_CLIENT_ID;

verus! {

/// Publisher on the server side, on one topic. The serialized content of a
/// publication travels next to the item that `start_send` makes.
pub struct Publisher {
    counter: MessageId,
    topic: String,
}

impl Publisher {
    /// The message id of the next publication
    pub closed spec fn counter(&self) -> MessageId {
        self.counter
    }

    /// The topic it publishes on
    pub closed spec fn topic(&self) -> Seq<char> {
        self.topic@
    }

    /// A publisher on a topic; its first publication gets message id 0
    pub fn new(topic: String) -> (p: Self)
        ensures
            p.counter() == 0,
            p.topic() == topic@,
    {
        Self { counter: 0, topic }
    }

    /// The item for the next publication: it is published under the reserved
    /// client id, with the next message id of this publisher (ids wrap around)
    pub fn start_send(&mut self) -> (item: PubSubItem)
        ensures
            item matches PubSubItem::Publish { client_id, msg_id, topic } && client_id
                == RESERVED_CLIENT_ID && msg_id == old(self).counter() && topic@ == old(self).topic(),
            final(self).counter() == next_message_id(old(self).counter()),
            final(self).topic() == old(self).topic(),
    {
        let msg_id = self.counter;
        self.counter = if self.counter == 65535 {
            0
        } else {
            self.counter + 1
        };
        PubSubItem::Publish { client_id: RESERVED_CLIENT_ID, msg_id, topic: self.topic.clone() }
    }
}

} // verus!
