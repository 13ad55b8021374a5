//! An insertion-ordered collection of messages keyed by unique id.

use vstd::prelude::*;
use crate::ids::{fresh_id, lemma_remove_keeps_distinct};
use crate::system::message::{Content, PMessage, PMessageView};
use crate::system::sender::PSender;
use crate::UniqueId;

verus! {

/// The ids of a keyed message list, in insertion order.
pub open spec fn pmessage_ids_of(s: Seq<(UniqueId, PMessageView)>) -> Seq<UniqueId> {
    s.map_values(|e: (UniqueId, PMessageView)| e.0)
}

/// The one production keyed-message collection.
pub struct PMessages {
    messages: Vec<(UniqueId, PMessage)>,
}

impl View for PMessages {
    type V = Seq<(UniqueId, PMessageView)>;

    closed spec fn view(&self) -> Seq<(UniqueId, PMessageView)> {
        self.messages@.map_values(|e: (UniqueId, PMessage)| (e.0, e.1@))
    }
}

impl PMessages {
    /// The collection's ids, in insertion order.
    pub open spec fn ids(self) -> Seq<UniqueId> {
        pmessage_ids_of(self@)
    }

    /// Well-formed: the ids are unique.
    pub open spec fn wf(self) -> bool {
        self.ids().no_duplicates()
    }

    /// An empty collection.
    pub fn new() -> (s: Self)
        ensures
            s.wf(),
            s@.len() == 0,
    {
        let s = PMessages { messages: Vec::new() };
        s
    }

    /// How many messages the collection holds.
    pub fn len(&self) -> (n: usize)
        ensures
            n == self@.len(),
    {
        self.messages.len()
    }

    /// The insertion index of the message with id `id`, when present.
    fn index_of_id(&self, id: &UniqueId) -> (r: Option<usize>)
        ensures
            match r {
                Some(i) => i < self@.len() && self.ids()[i as int] == *id
                    && (forall|t: int| 0 <= t < i ==> self.ids()[t] != *id),
                None => !self.ids().contains(*id),
            },
    {
        let n = self.messages.len();
        let mut j: usize = 0;
        while j < n
            invariant
                0 <= j <= n,
                n == self.messages@.len(),
                forall|t: int| 0 <= t < j ==> self.ids()[t] != *id,
            decreases n - j,
        {
            if self.messages[j].0 == *id {
                proof {
                    assert(self.ids()[j as int] == *id);
                }
                return Some(j);
            }
            j += 1;
        }
        proof {
            assert(!self.ids().contains(*id)) by {
                if self.ids().contains(*id) {
                    let w = choose|w: int| 0 <= w < self.ids().len() && self.ids()[w] == *id;
                }
            }
        }
        None
    }

    /// Insert a message under `key`.  A fresh key is appended to the
    /// insertion order; an existing key has its message replaced in
    /// place, and the previous message is returned.
    pub fn insert(&mut self, key: UniqueId, value: PMessage) -> (prev: Option<PMessage>)
        requires
            old(self).wf(),
        ensures
            final(self).wf(),
            !old(self).ids().contains(key) ==> prev is None && final(self)@ == old(self)@.push(
                (key, value@),
            ),
            old(self).ids().contains(key) ==> ({
                let i = old(self).ids().index_of(key);
                &&& (prev matches Some(p) && p@ == old(self)@[i].1)
                &&& final(self)@ == old(self)@.update(i, (key, value@))
            }),
    {
        match self.index_of_id(&key) {
            Some(i) => {
                proof {
                    let ids = self.ids();
                    assert(ids.contains(key)) by {
                        assert(ids[i as int] == key);
                    }
                    let w = ids.index_of(key);
                    assert(0 <= w < ids.len() && ids[w] == key);
                    assert(w == i as int);
                }
                let mut pair = (key, value);
                let slot = &mut self.messages[i];
                core::mem::swap(slot, &mut pair);
                proof {
                    assert(final(self)@ =~= old(self)@.update(i as int, (
                        key,
                        old(self)@[i as int].1,
                    )).update(i as int, (key, final(self)@[i as int].1)));
                    assert(final(self)@ =~= old(self)@.update(i as int, final(self)@[i as int]));
                    assert(final(self).ids() =~= old(self).ids());
                }
                Some(pair.1)
            },
            None => {
                self.messages.push((key, value));
                proof {
                    assert(final(self)@ =~= old(self)@.push((key, value@)));
                    assert(final(self).ids() =~= old(self).ids().push(key));
                }
                None
            },
        }
    }

    /// Remove the message with id `id`, keeping the order of the rest;
    /// returns whether one was present.
    pub fn remove(&mut self, id: &UniqueId) -> (removed: bool)
        requires
            old(self).wf(),
        ensures
            final(self).wf(),
            removed == old(self).ids().contains(*id),
            removed ==> final(self)@ == old(self)@.remove(old(self).ids().index_of(*id))
                && !final(self).ids().contains(*id),
            !removed ==> final(self)@ == old(self)@,
    {
        match self.index_of_id(id) {
            Some(i) => {
                proof {
                    let ids = self.ids();
                    assert(ids.contains(*id)) by {
                        assert(ids[i as int] == *id);
                    }
                    let w = ids.index_of(*id);
                    assert(0 <= w < ids.len() && ids[w] == *id);
                    assert(w == i as int);
                }
                self.messages.remove(i);
                proof {
                    assert(final(self)@ =~= old(self)@.remove(i as int));
                    assert(final(self).ids() =~= old(self).ids().remove(i as int));
                    old(self).ids().remove_ensures(i as int);
                    lemma_remove_keeps_distinct(old(self).ids(), i as int);
                }
                true
            },
            None => false,
        }
    }

    /// The message with id `id`, when present.
    pub fn get(&self, id: &UniqueId) -> (r: Option<&PMessage>)
        requires
            self.wf(),
        ensures
            match r {
                Some(m) => self.ids().contains(*id) && m@ == self@[self.ids().index_of(*id)].1,
                None => !self.ids().contains(*id),
            },
    {
        match self.index_of_id(id) {
            Some(i) => {
                proof {
                    let ids = self.ids();
                    assert(ids.contains(*id)) by {
                        assert(ids[i as int] == *id);
                    }
                    let w = ids.index_of(*id);
                    assert(0 <= w < ids.len() && ids[w] == *id);
                    assert(w == i as int);
                }
                Some(&self.messages[i].1)
            },
            None => None,
        }
    }

    /// The most recently inserted entry, when any.
    pub fn last(&self) -> (r: Option<&(UniqueId, PMessage)>)
        ensures
            match r {
                Some(e) => self@.len() > 0 && (e.0, e.1@) == self@[self@.len() - 1],
                None => self@.len() == 0,
            },
    {
        let n = self.messages.len();
        if n == 0 {
            None
        } else {
            Some(&self.messages[n - 1])
        }
    }

    /// The entry at insertion position `index`, when in range.
    pub fn get_index(&self, index: usize) -> (r: Option<&(UniqueId, PMessage)>)
        ensures
            match r {
                Some(e) => index < self@.len() && (e.0, e.1@) == self@[index as int],
                None => index >= self@.len(),
            },
    {
        if index < self.messages.len() {
            Some(&self.messages[index])
        } else {
            None
        }
    }

    /// Replace the content of the message with id `id`, which must be
    /// present.
    pub fn update_content(&mut self, id: &UniqueId, content: Content)
        requires
            old(self).wf(),
            old(self).ids().contains(*id),
        ensures
            final(self).wf(),
            ({
                let i = old(self).ids().index_of(*id);
                final(self)@ == old(self)@.update(i, (*id, PMessageView {
                    content: content@,
                    ..old(self)@[i].1
                }))
            }),
    {
        match self.index_of_id(id) {
            Some(i) => {
                proof {
                    let ids = self.ids();
                    let w = ids.index_of(*id);
                    assert(0 <= w < ids.len() && ids[w] == *id);
                    assert(w == i as int);
                }
                let slot = &mut self.messages[i];
                slot.1.update_content(content);
                proof {
                    assert(final(self)@ =~= old(self)@.update(i as int, (
                        *id,
                        final(self)@[i as int].1,
                    )));
                    assert(final(self).ids() =~= old(self).ids());
                }
            },
            None => {
                proof {
                    assert(false);
                }
            },
        }
    }

    /// Replace the sender of the message with id `id`, which must be
    /// present.
    pub fn update_sender(&mut self, id: &UniqueId, sender: PSender)
        requires
            old(self).wf(),
            old(self).ids().contains(*id),
        ensures
            final(self).wf(),
            ({
                let i = old(self).ids().index_of(*id);
                final(self)@ == old(self)@.update(i, (*id, PMessageView {
                    sender: sender@,
                    ..old(self)@[i].1
                }))
            }),
    {
        match self.index_of_id(id) {
            Some(i) => {
                proof {
                    let ids = self.ids();
                    let w = ids.index_of(*id);
                    assert(0 <= w < ids.len() && ids[w] == *id);
                    assert(w == i as int);
                }
                let slot = &mut self.messages[i];
                slot.1.update_sender(sender);
                proof {
                    assert(final(self)@ =~= old(self)@.update(i as int, (
                        *id,
                        final(self)@[i as int].1,
                    )));
                    assert(final(self).ids() =~= old(self).ids());
                }
            },
            None => {
                proof {
                    assert(false);
                }
            },
        }
    }

    /// Insert under a freshly generated id, returning the id.
    pub fn insert_fresh(&mut self, value: PMessage) -> (id: UniqueId)
        requires
            old(self).wf(),
        ensures
            final(self).wf(),
            !old(self).ids().contains(id),
            final(self)@ == old(self)@.push((id, value@)),
    {
        let mut ids: Vec<UniqueId> = Vec::new();
        let n = self.messages.len();
        let mut j: usize = 0;
        while j < n
            invariant
                0 <= j <= n,
                n == self.messages@.len(),
                ids@ =~= self.ids().take(j as int),
            decreases n - j,
        {
            ids.push(self.messages[j].0);
            proof {
                assert(ids@ =~= self.ids().take(j + 1));
            }
            j += 1;
        }
        proof {
            assert(self.ids().take(n as int) =~= self.ids());
        }
        let id = fresh_id(&ids);
        self.insert(id, value);
        id
    }
}

} // verus!
