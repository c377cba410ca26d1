//! The client's own record of its subscribers: one local subscriber per
//! topic, identified by the type of item it reads.

use vstd::prelude::*;

use crate::error::Error;
use crate::numeral::{push_str, string_from_chars};

verus! {

/// The topics that have a local subscriber, each with the key of the type of
/// item its subscriber reads
pub struct LocalSubscriptions {
    entries: Vec<(String, u64)>,
}

/// The map from topics to type keys held by a list of entries
pub open spec fn local_map(s: Seq<(String, u64)>) -> Map<Seq<char>, u64>
    decreases s.len(),
{
    if s.len() == 0 {
        Map::empty()
    } else {
        local_map(s.drop_last()).insert(s.last().0@, s.last().1)
    }
}

/// Each topic is held once
pub open spec fn distinct_topics(s: Seq<(String, u64)>) -> bool {
    forall|i: int, j: int| 0 <= i < j < s.len() ==> s[i].0@ != s[j].0@
}

proof fn lemma_local_map(s: Seq<(String, u64)>, t: Seq<char>)
    requires
        distinct_topics(s),
    ensures
        local_map(s).dom().contains(t) <==> exists|i: int| 0 <= i < s.len() && s[i].0@ == t,
        forall|i: int| 0 <= i < s.len() && s[i].0@ == t ==> local_map(s)[t] == s[i].1,
    decreases s.len(),
{
    if s.len() > 0 {
        let init = s.drop_last();
        lemma_local_map(init, t);
        if exists|i: int| 0 <= i < s.len() && s[i].0@ == t {
            let i = choose|i: int| 0 <= i < s.len() && s[i].0@ == t;
            if i < s.len() - 1 {
                assert(init[i] == s[i]);
            }
        }
        if exists|i: int| 0 <= i < init.len() && init[i].0@ == t {
            let i = choose|i: int| 0 <= i < init.len() && init[i].0@ == t;
            assert(s[i] == init[i]);
        }
    }
}

proof fn lemma_local_map_remove(s: Seq<(String, u64)>, i: int)
    requires
        distinct_topics(s),
        0 <= i < s.len(),
    ensures
        local_map(s.remove(i)) == local_map(s).remove(s[i].0@),
        distinct_topics(s.remove(i)),
    decreases s.len(),
{
    let s2 = s.remove(i);
    let t = s[i].0@;
    assert forall|a: int, b: int| 0 <= a < b < s2.len() implies s2[a].0@ != s2[b].0@ by {
        let a2 = if a < i { a } else { a + 1 };
        let b2 = if b < i { b } else { b + 1 };
        assert(s2[a] == s[a2]);
        assert(s2[b] == s[b2]);
    }
    assert forall|t2: Seq<char>|
        local_map(s2).dom().contains(t2) <==> local_map(s).remove(t).dom().contains(t2) by {
        lemma_local_map(s, t2);
        lemma_local_map(s2, t2);
        if exists|k: int| 0 <= k < s2.len() && s2[k].0@ == t2 {
            let k = choose|k: int| 0 <= k < s2.len() && s2[k].0@ == t2;
            let k2 = if k < i { k } else { k + 1 };
            assert(s2[k] == s[k2]);
            assert(s[k2].0@ != s[i].0@);
        }
        if local_map(s).remove(t).dom().contains(t2) {
            let k = choose|k: int| 0 <= k < s.len() && s[k].0@ == t2;
            assert(k != i);
            if k < i {
                assert(s2[k] == s[k]);
            } else {
                assert(s2[k - 1] == s[k]);
            }
        }
    }
    assert forall|t2: Seq<char>| local_map(s2).dom().contains(t2) implies local_map(s2)[t2]
        == local_map(s).remove(t)[t2] by {
        lemma_local_map(s, t2);
        lemma_local_map(s2, t2);
        let k = choose|k: int| 0 <= k < s2.len() && s2[k].0@ == t2;
        let k2 = if k < i { k } else { k + 1 };
        assert(s2[k] == s[k2]);
    }
    assert(local_map(s2) =~= local_map(s).remove(t));
}

/// Whether a topic has a local subscriber whose items are of the given type
pub open spec fn has_subscriber_of(m: Map<Seq<char>, u64>, topic: Seq<char>, type_key: u64) -> bool {
    m.dom().contains(topic) && m[topic] == type_key
}

impl LocalSubscriptions {
    /// The topics with a local subscriber and the type keys of their items
    pub closed spec fn view_map(&self) -> Map<Seq<char>, u64> {
        local_map(self.entries@)
    }

    /// Each topic is held once
    pub closed spec fn well_formed(&self) -> bool {
        distinct_topics(self.entries@)
    }

    /// No topic has a local subscriber
    pub fn new() -> (s: Self)
        ensures
            s.well_formed(),
            s.view_map() == Map::<Seq<char>, u64>::empty(),
    {
        Self { entries: Vec::new() }
    }

    fn find(&self, topic: &String) -> (r: Option<usize>)
        requires
            self.well_formed(),
        ensures
            r matches Some(i) ==> i < self.entries@.len() && self.entries@[i as int].0@ == topic@,
            r is None ==> !self.view_map().dom().contains(topic@),
    {
        let mut i: usize = 0;
        while i < self.entries.len()
            invariant
                i <= self.entries@.len(),
                forall|j: int| 0 <= j < i ==> self.entries@[j].0@ != topic@,
            decreases self.entries@.len() - i,
        {
            if self.entries[i].0 == *topic {
                return Some(i);
            }
            i = i + 1;
        }
        proof {
            lemma_local_map(self.entries@, topic@);
        }
        None
    }

    /// Records a new local subscriber: only one local subscriber per topic is
    /// allowed
    pub fn create_subscriber(&mut self, topic: String, type_key: u64) -> (r: Result<(), Error>)
        requires
            old(self).well_formed(),
        ensures
            final(self).well_formed(),
            old(self).view_map().dom().contains(topic@) ==> {
                &&& r matches Err(Error::Internal(m)) && m@
                    == "Only one local subscriber per topic is allowed"@
                &&& final(self).view_map() == old(self).view_map()
            },
            !old(self).view_map().dom().contains(topic@) ==> {
                &&& r is Ok
                &&& final(self).view_map() == old(self).view_map().insert(topic@, type_key)
            },
    {
        if let Some(_i) = self.find(&topic) {
            proof {
                lemma_local_map(self.entries@, topic@);
            }
            return Err(
                Error::Internal(String::from_str("Only one local subscriber per topic is allowed")),
            );
        }
        let ghost old_entries = self.entries@;
        self.entries.push((topic, type_key));
        proof {
            assert(self.entries@.drop_last() =~= old_entries);
            assert forall|i: int, j: int| 0 <= i < j < self.entries@.len() implies self.entries@[i].0@
                != self.entries@[j].0@ by {
                if j == old_entries.len() {
                    lemma_local_map(old_entries, self.entries@[j].0@);
                    assert(self.entries@[i] == old_entries[i]);
                } else {
                    assert(old_entries[i].0@ != old_entries[j].0@);
                }
            }
        }
        Ok(())
    }

    /// Removes the local subscriber of a topic whose items are of the given
    /// type; any other topic is reported as not subscribed to
    pub fn unsubscribe(&mut self, topic: &String, type_key: u64) -> (r: Result<(), Error>)
        requires
            old(self).well_formed(),
        ensures
            final(self).well_formed(),
            has_subscriber_of(old(self).view_map(), topic@, type_key) ==> {
                &&& r is Ok
                &&& final(self).view_map() == old(self).view_map().remove(topic@)
            },
            !has_subscriber_of(old(self).view_map(), topic@, type_key) ==> {
                &&& r matches Err(Error::Internal(m)) && m@ == "Not registered to topic: "@
                    + topic@
                &&& final(self).view_map() == old(self).view_map()
            },
    {
        if let Some(i) = self.find(topic) {
            proof {
                lemma_local_map(self.entries@, topic@);
            }
            if self.entries[i].1 == type_key {
                let ghost old_entries = self.entries@;
                self.entries.remove(i);
                proof {
                    lemma_local_map_remove(old_entries, i as int);
                }
                return Ok(());
            }
        }
        let mut out: Vec<char> = Vec::new();
        push_str("Not registered to topic: ", &mut out);
        push_str(topic.as_str(), &mut out);
        assert(out@ =~= "Not registered to topic: "@ + topic@);
        Err(Error::Internal(string_from_chars(&out)))
    }

    /// Checks that a topic's local subscriber can be replaced by one whose
    /// items are of the given type
    pub fn replace_local_subscriber(&self, topic: &String, type_key: u64) -> (r: Result<(), Error>)
        requires
            self.well_formed(),
        ensures
            has_subscriber_of(self.view_map(), topic@, type_key) ==> r is Ok,
            self.view_map().dom().contains(topic@) && self.view_map()[topic@] != type_key ==> (
            r matches Err(Error::Internal(m)) && m@ == "TypeId mismatch"@),
            !self.view_map().dom().contains(topic@) ==> (r matches Err(Error::Internal(m)) && m@
                == "There is no existing local subscriber"@),
    {
        match self.find(topic) {
            Some(i) => {
                proof {
                    lemma_local_map(self.entries@, topic@);
                }
                if self.entries[i].1 == type_key {
                    Ok(())
                } else {
                    Err(Error::Internal(String::from_str("TypeId mismatch")))
                }
            },
            None => Err(Error::Internal(String::from_str("There is no existing local subscriber"))),
        }
    }

    /// Removes every local subscriber, giving their topics (as closing the
    /// client does, to unsubscribe from each)
    pub fn drain(&mut self) -> (topics: Vec<String>)
        requires
            old(self).well_formed(),
        ensures
            final(self).well_formed(),
            final(self).view_map() == Map::<Seq<char>, u64>::empty(),
            forall|t: Seq<char>|
                old(self).view_map().dom().contains(t) <==> exists|i: int|
                    0 <= i < topics@.len() && (#[trigger] topics@[i])@ == t,
    {
        let mut topics: Vec<String> = Vec::new();
        let ghost old_entries = self.entries@;
        let mut k: usize = 0;
        while k < self.entries.len()
            invariant
                k <= self.entries@.len(),
                self.entries@ == old_entries,
                topics@.len() == k,
                forall|i: int| 0 <= i < k ==> (#[trigger] topics@[i])@ == old_entries[i].0@,
            decreases self.entries@.len() - k,
        {
            topics.push(self.entries[k].0.clone());
            k = k + 1;
        }
        proof {
            assert forall|t: Seq<char>|
                local_map(old_entries).dom().contains(t) <==> exists|i: int|
                    0 <= i < topics@.len() && (#[trigger] topics@[i])@ == t by {
                lemma_local_map(old_entries, t);
                if exists|i: int| 0 <= i < old_entries.len() && old_entries[i].0@ == t {
                    let i = choose|i: int| 0 <= i < old_entries.len() && old_entries[i].0@ == t;
                    assert(topics@[i]@ == t);
                }
                if exists|i: int| 0 <= i < topics@.len() && (#[trigger] topics@[i])@ == t {
                    let i = choose|i: int| 0 <= i < topics@.len() && (#[trigger] topics@[i])@ == t;
                    assert(old_entries[i].0@ == t);
                }
            }
        }
        self.entries = Vec::new();
        assert(local_map(self.entries@) =~= Map::<Seq<char>, u64>::empty());
        topics
    }
}

} // verus!
