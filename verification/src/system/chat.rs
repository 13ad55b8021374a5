//! A chat over the capability-style model: a name and a keyed message
//! collection, with send, delete and in-place update by message id.

use vstd::prelude::*;
use crate::system::message::{Content, PMessage, PMessageView};
use crate::system::messages::PMessages;
use crate::system::sender::PSender;
use crate::UniqueId;

verus! {

/// The mathematical content of a `PChat`.
pub ghost struct PChatView {
    pub name: Seq<char>,
    pub messages: Seq<(UniqueId, PMessageView)>,
}

/// The one production chat shape of this model.
pub struct PChat {
    name: String,
    messages: PMessages,
}

impl View for PChat {
    type V = PChatView;

    closed spec fn view(&self) -> PChatView {
        PChatView { name: self.name@, messages: self.messages@ }
    }
}

impl PChat {
    /// The message ids, in insertion order.
    pub open spec fn ids(self) -> Seq<UniqueId> {
        crate::system::messages::pmessage_ids_of(self@.messages)
    }

    /// Well-formed: the message ids are unique.
    pub open spec fn wf(self) -> bool {
        self.ids().no_duplicates()
    }

    /// An empty, unnamed chat.
    pub fn new() -> (c: Self)
        ensures
            c.wf(),
            c@.name.len() == 0,
            c@.messages.len() == 0,
    {
        PChat { name: String::new(), messages: PMessages::new() }
    }

    pub fn name(&self) -> (r: &str)
        ensures
            r@ == self@.name,
    {
        self.name.as_str()
    }

    /// The name, for in-place editing.
    pub fn name_mut(&mut self) -> (r: &mut String)
        ensures
            (*r)@ == old(self)@.name,
            final(self)@.name == (*final(r))@,
            final(self)@.messages == old(self)@.messages,
    {
        &mut self.name
    }

    /// The most recently kept message, when any.
    pub fn last_message(&self) -> (r: Option<&PMessage>)
        ensures
            match r {
                Some(m) => self@.messages.len() > 0 && m@ == self@.messages[self@.messages.len()
                    - 1].1,
                None => self@.messages.len() == 0,
            },
    {
        match self.messages.last() {
            Some(e) => Some(&e.1),
            None => None,
        }
    }

    /// Keep a message under a freshly generated id, returning the id.
    pub fn send_message(&mut self, message: PMessage) -> (id: UniqueId)
        requires
            old(self).wf(),
        ensures
            final(self).wf(),
            !old(self).ids().contains(id),
            final(self)@.messages == old(self)@.messages.push((id, message@)),
            final(self)@.name == old(self)@.name,
    {
        self.messages.insert_fresh(message)
    }

    /// Delete the message with id `id`, keeping the order of the rest;
    /// returns whether one was deleted.
    pub fn delete_message(&mut self, id: &UniqueId) -> (deleted: bool)
        requires
            old(self).wf(),
        ensures
            final(self).wf(),
            final(self)@.name == old(self)@.name,
            deleted == old(self).ids().contains(*id),
            deleted ==> final(self)@.messages == old(self)@.messages.remove(
                old(self).ids().index_of(*id),
            ) && !final(self).ids().contains(*id),
            !deleted ==> final(self)@.messages == old(self)@.messages,
    {
        self.messages.remove(id)
    }

    /// Replace the content of the message with id `id`, which must be
    /// present.
    pub fn update_content(&mut self, id: &UniqueId, content: Content)
        requires
            old(self).wf(),
            old(self).ids().contains(*id),
        ensures
            final(self).wf(),
            final(self)@.name == old(self)@.name,
            ({
                let i = old(self).ids().index_of(*id);
                final(self)@.messages == old(self)@.messages.update(i, (*id, PMessageView {
                    content: content@,
                    ..old(self)@.messages[i].1
                }))
            }),
    {
        self.messages.update_content(id, content)
    }

    /// Replace the sender of the message with id `id`, which must be
    /// present.
    pub fn update_sender(&mut self, id: &UniqueId, sender: PSender)
        requires
            old(self).wf(),
            old(self).ids().contains(*id),
        ensures
            final(self).wf(),
            final(self)@.name == old(self)@.name,
            ({
                let i = old(self).ids().index_of(*id);
                final(self)@.messages == old(self)@.messages.update(i, (*id, PMessageView {
                    sender: sender@,
                    ..old(self)@.messages[i].1
                }))
            }),
    {
        self.messages.update_sender(id, sender)
    }

    /// The kept messages.
    pub fn messages(&self) -> (r: &PMessages)
        ensures
            r@ == self@.messages,
    {
        &self.messages
    }
}

} // verus!
