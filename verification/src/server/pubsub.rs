//! PubSub bookkeeping on the server side: which clients are subscribed to
//! which topic, which sequence id a publication gets, which publications
//! still wait for Acks and which subscribers have not acknowledged yet.
//!
//! The channels to the subscribers and the timers are held by the broker
//! loop; this module decides who gets what.

use std::collections::{BTreeSet, HashSet};
use std::time::Duration;
use vstd::prelude::*;

use crate::message::{next_message_id, MessageId};
use crate::pubsub::SeqId;
use crate::server::ClientId;

pub mod publisher;
pub mod subscriber;

verus! {

broadcast use {vstd::std_specs::hash::group_hash_axioms, vstd::std_specs::btree::group_btree_axioms};

/// Whether a sequence is strictly increasing
pub open spec fn strictly_increasing(s: Seq<ClientId>) -> bool {
    forall|i: int, j: int| 0 <= i < j < s.len() ==> s[i] < s[j]
}

/// A set of client ids, walked in increasing order
pub struct ClientSet {
    ids: BTreeSet<ClientId>,
}

impl View for ClientSet {
    type V = Set<ClientId>;

    closed spec fn view(&self) -> Set<ClientId> {
        self.ids@
    }
}

impl ClientSet {
    /// The set is finite
    pub closed spec fn well_formed(&self) -> bool {
        self.ids@.finite()
    }

    /// The empty set
    pub fn new() -> (s: Self)
        ensures
            s.well_formed(),
            s@ == Set::<ClientId>::empty(),
    {
        Self { ids: BTreeSet::new() }
    }

    /// Whether the set holds `x`
    pub fn contains(&self, x: ClientId) -> (b: bool)
        requires
            self.well_formed(),
        ensures
            b == self@.contains(x),
    {
        broadcast use vstd::laws_cmp::group_laws_cmp;

        self.ids.contains(&x)
    }

    /// Adds `x`
    pub fn insert(&mut self, x: ClientId)
        requires
            old(self).well_formed(),
        ensures
            final(self).well_formed(),
            final(self)@ == old(self)@.insert(x),
    {
        broadcast use vstd::laws_cmp::group_laws_cmp;

        self.ids.insert(x);
    }

    /// Removes `x`
    pub fn remove(&mut self, x: ClientId)
        requires
            old(self).well_formed(),
        ensures
            final(self).well_formed(),
            final(self)@ == old(self)@.remove(x),
    {
        broadcast use vstd::laws_cmp::group_laws_cmp;

        self.ids.remove(&x);
    }

    /// Whether the set is empty
    pub fn is_empty(&self) -> (b: bool)
        requires
            self.well_formed(),
        ensures
            b == (self@ == Set::<ClientId>::empty()),
    {
        let b = self.ids.is_empty();
        proof {
            if b {
                assert(self@ =~= Set::<ClientId>::empty());
            }
        }
        b
    }

    /// The ids in increasing order
    pub fn to_vec(&self) -> (v: Vec<ClientId>)
        requires
            self.well_formed(),
        ensures
            v@.to_set() == self@,
            v@.no_duplicates(),
            strictly_increasing(v@),
    {
        let mut v: Vec<ClientId> = Vec::new();
        let ghost full = vstd::std_specs::iter::IteratorSpec::remaining(
            &vstd::std_specs::btree::spec_btree_keys_iter(&self.ids),
        ).unref();
        proof {
            lemma_keys_in_order(&self.ids);
        }
        for k in it: self.ids.iter()
            invariant
                it.seq().unref() == full,
                v@ == it.seq().unref().take(it.index() as int),
        {
            assert(it.seq().unref().take(it.index() + 1) =~= it.seq().unref().take(
                it.index() as int,
            ).push(*k));
            v.push(*k);
        }
        assert(v@ =~= full);
        v
    }
}

/// The iterator of a set walks its ids once each, in increasing order
proof fn lemma_keys_in_order(s: &BTreeSet<ClientId>)
    ensures
        vstd::std_specs::btree::key_obeys_cmp_spec::<ClientId>(),
        vstd::std_specs::iter::IteratorSpec::remaining(
            &vstd::std_specs::btree::spec_btree_keys_iter(s),
        ).unref().to_set() == s@,
        vstd::std_specs::iter::IteratorSpec::remaining(
            &vstd::std_specs::btree::spec_btree_keys_iter(s),
        ).unref().no_duplicates(),
        strictly_increasing(
            vstd::std_specs::iter::IteratorSpec::remaining(
                &vstd::std_specs::btree::spec_btree_keys_iter(s),
            ).unref(),
        ),
{
    broadcast use vstd::laws_cmp::group_laws_cmp;

    let rem = vstd::std_specs::iter::IteratorSpec::remaining(
        &vstd::std_specs::btree::spec_btree_keys_iter(s),
    );
    let full = rem.unref();
    vstd::std_specs::btree::axiom_spec_btree_keys_iter(s);
    assert(vstd::std_specs::btree::increasing_seq(rem));
    assert(vstd::laws_cmp::obeys_cmp::<&ClientId>());
    vstd::std_specs::btree::axiom_increasing_seq_meaning(rem);
    assert forall|i: int, j: int| 0 <= i < j < full.len() implies full[i] < full[j] by {
        assert(vstd::std_specs::cmp::OrdSpec::cmp_spec(&rem[i], &rem[j]) is Less);
        assert(rem[i] == &full[i]);
        assert(rem[j] == &full[j]);
    }
    assert forall|i: int, j: int| 0 <= i < j < full.len() implies full[i] != full[j] by {
        assert(full[i] < full[j]);
    }
}

/// The subscribers of one topic
pub struct TopicEntry {
    /// The topic
    pub topic: String,
    /// The clients subscribed to it
    pub clients: ClientSet,
}

/// The map from topics to subscribers held by a list of entries
pub open spec fn entries_map(s: Seq<TopicEntry>) -> Map<Seq<char>, Set<ClientId>>
    decreases s.len(),
{
    if s.len() == 0 {
        Map::empty()
    } else {
        entries_map(s.drop_last()).insert(s.last().topic@, s.last().clients@)
    }
}

/// Each topic is held once, and each set of clients is well formed
pub open spec fn entries_well_formed(s: Seq<TopicEntry>) -> bool {
    &&& forall|i: int, j: int| 0 <= i < j < s.len() ==> s[i].topic@ != s[j].topic@
    &&& forall|i: int| 0 <= i < s.len() ==> (#[trigger] s[i]).clients.well_formed()
}

proof fn lemma_entries_map_dom(s: Seq<TopicEntry>, t: Seq<char>)
    requires
        entries_well_formed(s),
    ensures
        entries_map(s).dom().contains(t) <==> exists|i: int| 0 <= i < s.len() && s[i].topic@ == t,
        forall|i: int| 0 <= i < s.len() && s[i].topic@ == t ==> entries_map(s)[t] == s[i].clients@,
    decreases s.len(),
{
    if s.len() > 0 {
        let init = s.drop_last();
        assert(entries_well_formed(init)) by {
            assert forall|i: int| 0 <= i < init.len() implies (#[trigger] init[i]).clients.well_formed() by {
                assert(init[i] == s[i]);
            }
        }
        lemma_entries_map_dom(init, t);
        if exists|i: int| 0 <= i < s.len() && s[i].topic@ == t {
            let i = choose|i: int| 0 <= i < s.len() && s[i].topic@ == t;
            if i < s.len() - 1 {
                assert(init[i] == s[i]);
            }
        }
        if exists|i: int| 0 <= i < init.len() && init[i].topic@ == t {
            let i = choose|i: int| 0 <= i < init.len() && init[i].topic@ == t;
            assert(s[i] == init[i]);
        }
    }
}

proof fn lemma_entries_map_update(s: Seq<TopicEntry>, i: int, e: TopicEntry)
    requires
        entries_well_formed(s),
        0 <= i < s.len(),
        e.topic@ == s[i].topic@,
    ensures
        entries_map(s.update(i, e)) == entries_map(s).insert(e.topic@, e.clients@),
    decreases s.len(),
{
    let s2 = s.update(i, e);
    if i == s.len() - 1 {
        assert(s2.drop_last() =~= s.drop_last());
        if s.len() > 1 {
            let init = s.drop_last();
            lemma_entries_map_dom_absent(init, e.topic@, s);
        } else {
            assert(s.drop_last() =~= Seq::<TopicEntry>::empty());
        }
        assert(entries_map(s2) =~= entries_map(s).insert(e.topic@, e.clients@));
    } else {
        let init = s.drop_last();
        assert(entries_well_formed(init)) by {
            assert forall|k: int| 0 <= k < init.len() implies (#[trigger] init[k]).clients.well_formed() by {
                assert(init[k] == s[k]);
            }
        }
        lemma_entries_map_update(init, i, e);
        assert(s2.drop_last() =~= init.update(i, e));
        assert(s2.last() == s.last());
        assert(s.last().topic@ != e.topic@);
        assert(entries_map(s2) =~= entries_map(s).insert(e.topic@, e.clients@));
    }
}

proof fn lemma_entries_map_dom_absent(init: Seq<TopicEntry>, t: Seq<char>, s: Seq<TopicEntry>)
    requires
        entries_well_formed(s),
        s.len() > 0,
        init == s.drop_last(),
        t == s.last().topic@,
    ensures
        !entries_map(init).dom().contains(t),
{
    assert(entries_well_formed(init)) by {
        assert forall|k: int| 0 <= k < init.len() implies (#[trigger] init[k]).clients.well_formed() by {
            assert(init[k] == s[k]);
        }
    }
    lemma_entries_map_dom(init, t);
    if exists|k: int| 0 <= k < init.len() && init[k].topic@ == t {
        let k = choose|k: int| 0 <= k < init.len() && init[k].topic@ == t;
        assert(s[k].topic@ != s[s.len() - 1].topic@);
    }
}

/// A message for the publish/subscribe broker. The content of a publication
/// and the queue of a subscriber travel next to it.
#[derive(Debug)]
pub enum PubSubEvent {
    /// A new publication from a client
    Publish {
        /// The publishing client
        client_id: ClientId,
        /// The id the client gave the publication
        msg_id: MessageId,
        /// Topic
        topic: String,
    },
    /// A publication was handed to the subscribers of its topic; these were
    /// found gone
    Delivered {
        /// Sequence id of the publication
        seq_id: SeqId,
        /// Topic
        topic: String,
        /// The subscribers whose queue was closed
        gone: Vec<ClientId>,
    },
    /// The wait for the Acks of a publication timed out; these clients did
    /// not acknowledge
    PublishRetry {
        /// The clients that did not acknowledge
        client_ids: Vec<ClientId>,
        /// Sequence id of the publication
        seq_id: SeqId,
        /// Topic
        topic: String,
    },
    /// Every Ack of a publication came in time
    RemovePendingAcks {
        /// Sequence id of the publication
        seq_id: SeqId,
    },
    /// A client subscribes to a topic
    Subscribe {
        /// The client
        client_id: ClientId,
        /// Topic
        topic: String,
    },
    /// A client unsubscribes from a topic
    Unsubscribe {
        /// The client
        client_id: ClientId,
        /// Topic
        topic: String,
    },
    /// A client acknowledged a publication
    Ack {
        /// Sequence id of the publication
        seq_id: SeqId,
        /// The client
        client_id: ClientId,
    },
    /// The server is gone
    Stop,
}

/// What the publish/subscribe loop does for a message
#[derive(Debug)]
pub enum PubSubAction {
    /// Hand the publication to these subscribers, in this order, and report
    /// the ones found gone with `Delivered`
    Deliver {
        /// Sequence id given to the publication
        seq_id: SeqId,
        /// Topic
        topic: String,
        /// The subscribers
        targets: Vec<ClientId>,
    },
    /// Hand the publication again to these subscribers, in this order
    Redeliver {
        /// Sequence id of the publication
        seq_id: SeqId,
        /// Topic
        topic: String,
        /// The subscribers
        targets: Vec<ClientId>,
    },
    /// Wait, for the retry timeout, for the Acks of these subscribers
    WaitForAcks {
        /// Sequence id of the publication
        seq_id: SeqId,
        /// Topic
        topic: String,
        /// The subscribers whose Ack is waited for
        targets: Vec<ClientId>,
    },
    /// Hand the Ack to the wait of its publication
    ForwardAck {
        /// Sequence id of the publication
        seq_id: SeqId,
        /// The client
        client_id: ClientId,
    },
    /// Nothing to do
    Nothing,
    /// Stop the loop
    Stop,
}

/// The server's publish/subscribe bookkeeping
pub struct PubSubBroker {
    seq_counter: MessageId,
    entries: Vec<TopicEntry>,
    pending_acks: HashSet<MessageId>,
    pub_retry_timeout: Duration,
}

impl PubSubBroker {
    /// Subscribers of each topic; a topic keeps its entry, maybe empty, once
    /// it had a subscriber
    pub closed spec fn subscriptions(&self) -> Map<Seq<char>, Set<ClientId>> {
        entries_map(self.entries@)
    }

    /// How long a publication waits for the Acks of its subscribers
    pub closed spec fn retry_timeout(&self) -> Duration {
        self.pub_retry_timeout
    }

    /// How long a publication waits for the Acks of its subscribers
    pub fn pub_retry_timeout(&self) -> (d: Duration)
        ensures
            d == self.retry_timeout(),
    {
        self.pub_retry_timeout
    }

    /// The sequence id the next publication gets
    pub closed spec fn seq_counter(&self) -> MessageId {
        self.seq_counter
    }

    /// Sequence ids of the publications that wait for Acks
    pub closed spec fn pending_acks(&self) -> Set<MessageId> {
        self.pending_acks@
    }

    /// The bookkeeping is consistent
    pub closed spec fn well_formed(&self) -> bool {
        entries_well_formed(self.entries@)
    }

    /// The subscribers of a topic, none when it has no entry
    pub open spec fn subscribers_of(&self, topic: Seq<char>) -> Set<ClientId> {
        if self.subscriptions().dom().contains(topic) {
            self.subscriptions()[topic]
        } else {
            Set::empty()
        }
    }

    /// The bookkeeping of a new server
    pub fn new(retry_timeout: Duration) -> (b: Self)
        ensures
            b.well_formed(),
            b.subscriptions() == Map::<Seq<char>, Set<ClientId>>::empty(),
            b.seq_counter() == 0,
            b.pending_acks() == Set::<MessageId>::empty(),
            b.retry_timeout() == retry_timeout,
    {
        Self {
            seq_counter: 0,
            entries: Vec::new(),
            pending_acks: HashSet::new(),
            pub_retry_timeout: retry_timeout,
        }
    }

    /// Whether a topic has an entry (it had a subscriber once)
    pub fn has_topic(&self, topic: &String) -> (b: bool)
        requires
            self.well_formed(),
        ensures
            b == self.subscriptions().dom().contains(topic@),
    {
        match self.find_topic(topic) {
            Some(i) => {
                proof {
                    lemma_entries_map_dom(self.entries@, topic@);
                }
                true
            },
            None => false,
        }
    }

    fn find_topic(&self, topic: &String) -> (r: Option<usize>)
        requires
            self.well_formed(),
        ensures
            r matches Some(i) ==> i < self.entries@.len() && self.entries@[i as int].topic@
                == topic@,
            r is None ==> !self.subscriptions().dom().contains(topic@),
    {
        let mut i: usize = 0;
        while i < self.entries.len()
            invariant
                i <= self.entries@.len(),
                forall|j: int| 0 <= j < i ==> self.entries@[j].topic@ != topic@,
            decreases self.entries@.len() - i,
        {
            if self.entries[i].topic == *topic {
                return Some(i);
            }
            i = i + 1;
        }
        proof {
            lemma_entries_map_dom(self.entries@, topic@);
        }
        None
    }

    /// Hands out the sequence id of a new publication
    pub fn get_seq_id(&mut self) -> (s: SeqId)
        ensures
            s.0 == old(self).seq_counter(),
            final(self).seq_counter() == next_message_id(old(self).seq_counter()),
            final(self).subscriptions() == old(self).subscriptions(),
            final(self).pending_acks() == old(self).pending_acks(),
            final(self).well_formed() == old(self).well_formed(),
            final(self).retry_timeout() == old(self).retry_timeout(),
    {
        let id = self.seq_counter;
        self.seq_counter = if self.seq_counter == 65535 {
            0
        } else {
            self.seq_counter + 1
        };
        SeqId::new(id)
    }

    /// Changes the subscribers of a topic that has an entry
    fn update_entry(&mut self, i: usize, f_insert: bool, client_id: ClientId)
        requires
            old(self).well_formed(),
            i < old(self).entries@.len(),
        ensures
            final(self).well_formed(),
            final(self).subscriptions() == old(self).subscriptions().insert(
                old(self).entries@[i as int].topic@,
                if f_insert {
                    old(self).entries@[i as int].clients@.insert(client_id)
                } else {
                    old(self).entries@[i as int].clients@.remove(client_id)
                },
            ),
            final(self).seq_counter() == old(self).seq_counter(),
            final(self).pending_acks() == old(self).pending_acks(),
            final(self).retry_timeout() == old(self).retry_timeout(),
            final(self).entries@.len() == old(self).entries@.len(),
            final(self).entries@[i as int].topic@ == old(self).entries@[i as int].topic@,
    {
        let ghost old_entries = self.entries@;
        let mut entry = self.entries.remove(i);
        assert(entry == old_entries[i as int]);
        assert(entry.clients.well_formed());
        if f_insert {
            entry.clients.insert(client_id);
        } else {
            entry.clients.remove(client_id);
        }
        let ghost new_entry = entry;
        self.entries.insert(i, entry);
        assert(self.entries@ =~= old_entries.update(i as int, new_entry));
        proof {
            lemma_entries_map_update(old_entries, i as int, new_entry);
            assert forall|a: int, b: int| 0 <= a < b < self.entries@.len() implies self.entries@[a].topic@
                != self.entries@[b].topic@ by {
                assert(old_entries[a].topic@ != old_entries[b].topic@);
            }
            assert forall|a: int| 0 <= a < self.entries@.len() implies (
            #[trigger] self.entries@[a]).clients.well_formed() by {
                if a != i {
                    assert(self.entries@[a] == old_entries[a]);
                }
            }
        }
    }

    /// A client subscribes to a topic
    pub fn handle_subscribe(&mut self, client_id: ClientId, topic: String)
        requires
            old(self).well_formed(),
        ensures
            final(self).well_formed(),
            final(self).subscriptions() == old(self).subscriptions().insert(
                topic@,
                old(self).subscribers_of(topic@).insert(client_id),
            ),
            final(self).seq_counter() == old(self).seq_counter(),
            final(self).pending_acks() == old(self).pending_acks(),
            final(self).retry_timeout() == old(self).retry_timeout(),
    {
        match self.find_topic(&topic) {
            Some(i) => {
                proof {
                    lemma_entries_map_dom(self.entries@, topic@);
                }
                self.update_entry(i, true, client_id);
            },
            None => {
                let mut clients = ClientSet::new();
                clients.insert(client_id);
                let ghost old_entries = self.entries@;
                let entry = TopicEntry { topic, clients };
                self.entries.push(entry);
                proof {
                    assert(self.entries@.drop_last() =~= old_entries);
                    lemma_entries_map_dom(old_entries, topic@);
                    assert forall|a: int, b: int|
                        0 <= a < b < self.entries@.len() implies self.entries@[a].topic@
                        != self.entries@[b].topic@ by {
                        if b == old_entries.len() {
                            assert(self.entries@[a] == old_entries[a]);
                        } else {
                            assert(old_entries[a].topic@ != old_entries[b].topic@);
                        }
                    }
                    assert forall|a: int| 0 <= a < self.entries@.len() implies (
                    #[trigger] self.entries@[a]).clients.well_formed() by {
                        if a < old_entries.len() {
                            assert(self.entries@[a] == old_entries[a]);
                        }
                    }
                    assert(Set::<ClientId>::empty().insert(client_id) =~= self.entries@.last().clients@);
                }
            },
        }
    }

    /// A client unsubscribes from a topic; a topic without an entry is left alone
    pub fn handle_unsubscribe(&mut self, client_id: ClientId, topic: String)
        requires
            old(self).well_formed(),
        ensures
            final(self).well_formed(),
            old(self).subscriptions().dom().contains(topic@) ==> final(self).subscriptions()
                == old(self).subscriptions().insert(
                topic@,
                old(self).subscriptions()[topic@].remove(client_id),
            ),
            !old(self).subscriptions().dom().contains(topic@) ==> final(self).subscriptions()
                == old(self).subscriptions(),
            final(self).seq_counter() == old(self).seq_counter(),
            final(self).pending_acks() == old(self).pending_acks(),
            final(self).retry_timeout() == old(self).retry_timeout(),
    {
        if let Some(i) = self.find_topic(&topic) {
            proof {
                lemma_entries_map_dom(self.entries@, topic@);
            }
            self.update_entry(i, false, client_id);
        }
    }

    /// The subscribers a publication on a topic goes to, in increasing order
    /// of client id
    pub fn publication_targets(&self, topic: &String) -> (v: Vec<ClientId>)
        requires
            self.well_formed(),
        ensures
            v@.to_set() == self.subscribers_of(topic@),
            v@.no_duplicates(),
            strictly_increasing(v@),
    {
        match self.find_topic(topic) {
            Some(i) => {
                proof {
                    lemma_entries_map_dom(self.entries@, topic@);
                }
                self.entries[i].clients.to_vec()
            },
            None => {
                let v: Vec<ClientId> = Vec::new();
                assert(v@.to_set() =~= Set::<ClientId>::empty());
                v
            },
        }
    }

    /// After a publication was handed to its subscribers: the ones that were
    /// found gone are removed from the topic
    pub fn remove_disconnected(&mut self, topic: &String, gone: &Vec<ClientId>)
        requires
            old(self).well_formed(),
        ensures
            final(self).well_formed(),
            old(self).subscriptions().dom().contains(topic@) ==> final(self).subscriptions()
                == old(self).subscriptions().insert(
                topic@,
                old(self).subscriptions()[topic@].difference(gone@.to_set()),
            ),
            !old(self).subscriptions().dom().contains(topic@) ==> final(self).subscriptions()
                == old(self).subscriptions(),
            final(self).seq_counter() == old(self).seq_counter(),
            final(self).pending_acks() == old(self).pending_acks(),
            final(self).retry_timeout() == old(self).retry_timeout(),
    {
        let ghost old_map = self.subscriptions();
        if let Some(i) = self.find_topic(topic) {
            proof {
                lemma_entries_map_dom(self.entries@, topic@);
                assert(gone@.take(0).to_set() =~= Set::<ClientId>::empty());
                assert(old_map[topic@].difference(gone@.take(0).to_set()) =~= old_map[topic@]);
                assert(old_map.insert(topic@, old_map[topic@]) =~= old_map);
            }
            let mut k: usize = 0;
            while k < gone.len()
                invariant
                    self.well_formed(),
                    i < self.entries@.len(),
                    self.entries@[i as int].topic@ == topic@,
                    old_map.dom().contains(topic@),
                    self.subscriptions() == old_map.insert(
                        topic@,
                        old_map[topic@].difference(gone@.take(k as int).to_set()),
                    ),
                    k <= gone@.len(),
                    self.seq_counter() == old(self).seq_counter(),
                    self.pending_acks() == old(self).pending_acks(),
                    self.retry_timeout() == old(self).retry_timeout(),
                decreases gone@.len() - k,
            {
                proof {
                    lemma_entries_map_dom(self.entries@, topic@);
                }
                let ghost before = self.entries@[i as int].clients@;
                self.update_entry(i, false, gone[k]);
                k = k + 1;
                proof {
                    assert(gone@.take(k as int) =~= gone@.take(k - 1).push(gone@[k - 1]));
                    gone@.take(k - 1).lemma_push_to_set_commute(gone@[k - 1]);
                    assert(old_map[topic@].difference(gone@.take(k as int).to_set()) =~= before.remove(
                        gone@[k - 1],
                    ));
                    assert(self.subscriptions() =~= old_map.insert(
                        topic@,
                        old_map[topic@].difference(gone@.take(k as int).to_set()),
                    ));
                    lemma_entries_map_dom(self.entries@, topic@);
                }
            }
            assert(gone@.take(k as int) =~= gone@);
        }
    }

    /// The subscribers a publication is sent again to: those of the given
    /// clients that are still subscribed to the topic, in the given order
    pub fn retry_targets(&self, topic: &String, client_ids: &Vec<ClientId>) -> (v: Vec<ClientId>)
        requires
            self.well_formed(),
        ensures
            v@ == client_ids@.filter(|c: ClientId| self.subscribers_of(topic@).contains(c)),
    {
        let ghost subs = self.subscribers_of(topic@);
        let ghost pred = |c: ClientId| subs.contains(c);
        let mut v: Vec<ClientId> = Vec::new();
        match self.find_topic(topic) {
            Some(i) => {
                proof {
                    lemma_entries_map_dom(self.entries@, topic@);
                }
                let mut k: usize = 0;
                while k < client_ids.len()
                    invariant
                        self.well_formed(),
                        i < self.entries@.len(),
                        self.entries@[i as int].clients@ == subs,
                        forall|x: ClientId| #[trigger] pred(x) == subs.contains(x),
                        k <= client_ids@.len(),
                        v@ == client_ids@.take(k as int).filter(pred),
                    decreases client_ids@.len() - k,
                {
                    let c = client_ids[k];
                    proof {
                        reveal_with_fuel(Seq::<_>::filter, 1);
                        assert(client_ids@.take(k + 1).drop_last() =~= client_ids@.take(k as int));
                        assert(client_ids@.take(k + 1).last() == c);
                        assert(client_ids@.take(k + 1).filter(pred) == (if pred(c) {
                            client_ids@.take(k as int).filter(pred).push(c)
                        } else {
                            client_ids@.take(k as int).filter(pred)
                        }));
                    }
                    if self.entries[i].clients.contains(c) {
                        v.push(c);
                    }
                    k = k + 1;
                }
                assert(client_ids@.take(k as int) =~= client_ids@);
                v
            },
            None => {
                proof {
                    assert(subs =~= Set::<ClientId>::empty());
                    assert forall|n: int| 0 <= n <= client_ids@.len() implies client_ids@.take(
                        n,
                    ).filter(pred) =~= Seq::<ClientId>::empty() by {
                        lemma_filter_none(client_ids@.take(n), pred);
                    }
                    assert(client_ids@.take(client_ids@.len() as int) =~= client_ids@);
                }
                v
            },
        }
    }

    /// A publication now waits for the Acks of its subscribers
    pub fn add_pending_ack(&mut self, seq_id: SeqId)
        ensures
            final(self).pending_acks() == old(self).pending_acks().insert(seq_id.0),
            final(self).subscriptions() == old(self).subscriptions(),
            final(self).seq_counter() == old(self).seq_counter(),
            final(self).well_formed() == old(self).well_formed(),
            final(self).retry_timeout() == old(self).retry_timeout(),
    {
        self.pending_acks.insert(seq_id.0);
    }

    /// A publication no longer waits for Acks
    pub fn remove_pending_acks(&mut self, seq_id: SeqId)
        ensures
            final(self).pending_acks() == old(self).pending_acks().remove(seq_id.0),
            final(self).subscriptions() == old(self).subscriptions(),
            final(self).seq_counter() == old(self).seq_counter(),
            final(self).well_formed() == old(self).well_formed(),
            final(self).retry_timeout() == old(self).retry_timeout(),
    {
        self.pending_acks.remove(&seq_id.0);
    }

    /// Whether a publication waits for Acks
    pub fn is_pending(&self, seq_id: SeqId) -> (b: bool)
        ensures
            b == self.pending_acks().contains(seq_id.0),
    {
        self.pending_acks.contains(&seq_id.0)
    }

    /// What the publish/subscribe loop does for a message, and how the
    /// bookkeeping changes. A publication gets the next sequence id and goes to
    /// the topic's subscribers; the ones found gone are then dropped from the
    /// topic, and with `auto_ack` the publication waits for the Acks of the
    /// remaining ones (only when the topic has an entry). A timed-out wait sends
    /// again to those of the given clients still subscribed; an Ack goes to the
    /// wait of its publication when one is pending.
    pub fn op(&mut self, event: PubSubEvent, auto_ack: bool) -> (a: PubSubAction)
        requires
            old(self).well_formed(),
        ensures
            final(self).well_formed(),
            final(self).retry_timeout() == old(self).retry_timeout(),
            match event {
                PubSubEvent::Publish { topic, .. } => {
                    &&& a matches PubSubAction::Deliver { seq_id: s, topic: t, targets: v } && s.0
                        == old(self).seq_counter() && t@ == topic@ && v@.to_set() == old(self).subscribers_of(topic@) && strictly_increasing(v@)
                    &&& final(self).seq_counter() == next_message_id(old(self).seq_counter())
                    &&& final(self).subscriptions() == old(self).subscriptions()
                    &&& final(self).pending_acks() == old(self).pending_acks()
                },
                PubSubEvent::Delivered { seq_id, topic, gone } => {
                    &&& old(self).subscriptions().dom().contains(topic@) ==> final(self).subscriptions() == old(self).subscriptions().insert(
                        topic@,
                        old(self).subscriptions()[topic@].difference(gone@.to_set()),
                    )
                    &&& !old(self).subscriptions().dom().contains(topic@) ==> final(self).subscriptions() == old(self).subscriptions()
                    &&& final(self).seq_counter() == old(self).seq_counter()
                    &&& auto_ack ==> final(self).pending_acks() == old(self).pending_acks().insert(
                        seq_id.0,
                    )
                    &&& !auto_ack ==> final(self).pending_acks() == old(self).pending_acks()
                    &&& (auto_ack && old(self).subscriptions().dom().contains(topic@)) ==> (a matches PubSubAction::WaitForAcks { seq_id: s, topic: t, targets: v } && s
                        == seq_id && t@ == topic@ && v@.to_set() == final(self).subscribers_of(
                        topic@,
                    ) && strictly_increasing(v@))
                    &&& !(auto_ack && old(self).subscriptions().dom().contains(topic@)) ==> a is Nothing
                },
                PubSubEvent::PublishRetry { client_ids, seq_id, topic } => {
                    &&& a matches PubSubAction::Redeliver { seq_id: s, topic: t, targets: v } && s
                        == seq_id && t@ == topic@ && v@ == client_ids@.filter(
                        |c: ClientId| old(self).subscribers_of(topic@).contains(c),
                    )
                    &&& final(self).subscriptions() == old(self).subscriptions()
                    &&& final(self).seq_counter() == old(self).seq_counter()
                    &&& final(self).pending_acks() == old(self).pending_acks()
                },
                PubSubEvent::RemovePendingAcks { seq_id } => {
                    &&& a is Nothing
                    &&& final(self).pending_acks() == old(self).pending_acks().remove(seq_id.0)
                    &&& final(self).subscriptions() == old(self).subscriptions()
                    &&& final(self).seq_counter() == old(self).seq_counter()
                },
                PubSubEvent::Subscribe { client_id, topic } => {
                    &&& a is Nothing
                    &&& final(self).subscriptions() == old(self).subscriptions().insert(
                        topic@,
                        old(self).subscribers_of(topic@).insert(client_id),
                    )
                    &&& final(self).seq_counter() == old(self).seq_counter()
                    &&& final(self).pending_acks() == old(self).pending_acks()
                },
                PubSubEvent::Unsubscribe { client_id, topic } => {
                    &&& a is Nothing
                    &&& old(self).subscriptions().dom().contains(topic@) ==> final(self).subscriptions() == old(self).subscriptions().insert(
                        topic@,
                        old(self).subscriptions()[topic@].remove(client_id),
                    )
                    &&& !old(self).subscriptions().dom().contains(topic@) ==> final(self).subscriptions() == old(self).subscriptions()
                    &&& final(self).seq_counter() == old(self).seq_counter()
                    &&& final(self).pending_acks() == old(self).pending_acks()
                },
                PubSubEvent::Ack { seq_id, client_id } => {
                    &&& old(self).pending_acks().contains(seq_id.0) ==> (a matches PubSubAction::ForwardAck { seq_id: s, client_id: c } && s == seq_id && c == client_id)
                    &&& !old(self).pending_acks().contains(seq_id.0) ==> a is Nothing
                    &&& final(self).subscriptions() == old(self).subscriptions()
                    &&& final(self).seq_counter() == old(self).seq_counter()
                    &&& final(self).pending_acks() == old(self).pending_acks()
                },
                PubSubEvent::Stop => {
                    &&& a is Stop
                    &&& final(self).subscriptions() == old(self).subscriptions()
                    &&& final(self).seq_counter() == old(self).seq_counter()
                    &&& final(self).pending_acks() == old(self).pending_acks()
                },
            },
    {
        match event {
            PubSubEvent::Publish { topic, .. } => {
                let seq_id = self.get_seq_id();
                let targets = self.publication_targets(&topic);
                PubSubAction::Deliver { seq_id, topic, targets }
            },
            PubSubEvent::Delivered { seq_id, topic, gone } => {
                let had_topic = self.has_topic(&topic);
                self.remove_disconnected(&topic, &gone);
                if auto_ack {
                    self.add_pending_ack(seq_id);
                    if had_topic {
                        let targets = self.publication_targets(&topic);
                        return PubSubAction::WaitForAcks { seq_id, topic, targets };
                    }
                }
                PubSubAction::Nothing
            },
            PubSubEvent::PublishRetry { client_ids, seq_id, topic } => {
                let targets = self.retry_targets(&topic, &client_ids);
                PubSubAction::Redeliver { seq_id, topic, targets }
            },
            PubSubEvent::RemovePendingAcks { seq_id } => {
                self.remove_pending_acks(seq_id);
                PubSubAction::Nothing
            },
            PubSubEvent::Subscribe { client_id, topic } => {
                self.handle_subscribe(client_id, topic);
                PubSubAction::Nothing
            },
            PubSubEvent::Unsubscribe { client_id, topic } => {
                self.handle_unsubscribe(client_id, topic);
                PubSubAction::Nothing
            },
            PubSubEvent::Ack { seq_id, client_id } => {
                if self.is_pending(seq_id) {
                    PubSubAction::ForwardAck { seq_id, client_id }
                } else {
                    PubSubAction::Nothing
                }
            },
            PubSubEvent::Stop => PubSubAction::Stop,
        }
    }
}

/// A client that subscribes to a topic and then unsubscribes leaves the
/// topic's subscribers as they were, when it was not subscribed before.
pub proof fn lemma_subscribe_unsubscribe(subs: Set<ClientId>, client_id: ClientId)
    requires
        !subs.contains(client_id),
    ensures
        subs.insert(client_id).remove(client_id) == subs,
        subs.insert(client_id).contains(client_id),
{
    assert(subs.insert(client_id).remove(client_id) =~= subs);
}

proof fn lemma_filter_none(s: Seq<ClientId>, pred: spec_fn(ClientId) -> bool)
    requires
        forall|c: ClientId| !#[trigger] pred(c),
    ensures
        s.filter(pred) =~= Seq::<ClientId>::empty(),
    decreases s.len(),
{
    reveal_with_fuel(Seq::<_>::filter, 1);
    if s.len() > 0 {
        lemma_filter_none(s.drop_last(), pred);
    }
}

/// The subscribers whose Ack a publication still waits for
pub struct AckWaiter {
    remaining: ClientSet,
}

impl AckWaiter {
    /// The subscribers that have not acknowledged yet
    pub closed spec fn remaining(&self) -> Set<ClientId> {
        self.remaining@
    }

    /// The waiter is consistent
    pub closed spec fn well_formed(&self) -> bool {
        self.remaining.well_formed()
    }

    /// Waits for the Acks of the given subscribers
    pub fn new(targets: &Vec<ClientId>) -> (w: Self)
        ensures
            w.well_formed(),
            w.remaining() == targets@.to_set(),
    {
        let mut remaining = ClientSet::new();
        let mut k: usize = 0;
        while k < targets.len()
            invariant
                k <= targets@.len(),
                remaining.well_formed(),
                remaining@ == targets@.take(k as int).to_set(),
            decreases targets@.len() - k,
        {
            remaining.insert(targets[k]);
            k = k + 1;
            assert(targets@.take(k as int).to_set() =~= targets@.take(k - 1).to_set().insert(
                targets@[k - 1],
            )) by {
                assert(targets@.take(k as int) =~= targets@.take(k - 1).push(targets@[k - 1]));
                targets@.take(k - 1).lemma_push_to_set_commute(targets@[k - 1]);
            }
        }
        assert(targets@.take(k as int) =~= targets@);
        Self { remaining }
    }

    /// An Ack from a subscriber; `false` when it was not waited for
    pub fn ack(&mut self, client_id: ClientId) -> (found: bool)
        requires
            old(self).well_formed(),
        ensures
            final(self).well_formed(),
            found == old(self).remaining().contains(client_id),
            final(self).remaining() == old(self).remaining().remove(client_id),
    {
        let found = self.remaining.contains(client_id);
        self.remaining.remove(client_id);
        found
    }

    /// Whether every subscriber has acknowledged
    pub fn is_done(&self) -> (b: bool)
        requires
            self.well_formed(),
        ensures
            b == (self.remaining() == Set::<ClientId>::empty()),
    {
        self.remaining.is_empty()
    }

    /// The subscribers that have not acknowledged, in increasing order: the
    /// ones a publication is sent again to when its wait times out
    pub fn remaining_ids(&self) -> (v: Vec<ClientId>)
        requires
            self.well_formed(),
        ensures
            v@.to_set() == self.remaining(),
            strictly_increasing(v@),
    {
        self.remaining.to_vec()
    }
}

/// The subscribers a publication still waits for after Acks came from these
/// clients in turn, starting from `remaining` (each Ack is `AckWaiter::ack`)
pub open spec fn after_acks(remaining: Set<ClientId>, acks: Seq<ClientId>) -> Set<ClientId>
    decreases acks.len(),
{
    if acks.len() == 0 {
        remaining
    } else {
        after_acks(remaining, acks.drop_last()).remove(acks.last())
    }
}

/// Collecting Acks: after a waiter for `targets` (`AckWaiter::new`) got Acks
/// from the clients `acks`, in any order and with repeats or strangers among
/// them, it still waits for exactly the targets that did not acknowledge, and
/// it is done (`AckWaiter::is_done`) exactly when every target acknowledged.
pub proof fn lemma_acks_collected(targets: Set<ClientId>, acks: Seq<ClientId>)
    ensures
        after_acks(targets, acks) == targets.difference(acks.to_set()),
        (after_acks(targets, acks) == Set::<ClientId>::empty()) <==> targets.subset_of(
            acks.to_set(),
        ),
    decreases acks.len(),
{
    if acks.len() == 0 {
        assert(acks.to_set() =~= Set::<ClientId>::empty());
        assert(targets.difference(acks.to_set()) =~= targets);
    } else {
        let init = acks.drop_last();
        lemma_acks_collected(targets, init);
        assert(acks =~= init.push(acks.last()));
        init.lemma_push_to_set_commute(acks.last());
        assert(after_acks(targets, acks) =~= targets.difference(acks.to_set()));
    }
    let d = after_acks(targets, acks);
    if d == Set::<ClientId>::empty() {
        assert forall|x: ClientId| targets.contains(x) implies acks.to_set().contains(x) by {
            assert(!d.contains(x));
        }
    }
    if targets.subset_of(acks.to_set()) {
        assert(d =~= Set::<ClientId>::empty());
    }
}

} // verus!
