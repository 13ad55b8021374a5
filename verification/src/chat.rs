//! A chat: a named conversation owning an append-only message log, the
//! ordered set of personas added to it, the active persona composing, and
//! the draft text in progress.

use vstd::prelude::*;
use crate::UniqueId;
use crate::ids::{contains_id, fresh_id, has_duplicate_id};
use crate::persona_set::{
    id_set_contains, id_set_elems, id_set_get_index, id_set_get_index_of, id_set_insert,
    id_set_len, id_set_new, id_set_to_vec,
};

verus! {

/// One sent message: text plus the id of the sending persona, under its
/// own unique id.  Immutable once created.
#[derive(Clone, PartialEq, Debug)]
pub struct Message {
    pub uuid: UniqueId,
    pub msg: String,
    pub persona: UniqueId,
}

/// The mathematical content of a `Message`.
pub ghost struct MessageView {
    pub uuid: UniqueId,
    pub msg: Seq<char>,
    pub persona: UniqueId,
}

impl View for Message {
    type V = MessageView;

    open spec fn view(&self) -> MessageView {
        MessageView { uuid: self.uuid, msg: self.msg@, persona: self.persona }
    }
}

/// The views of a message log.
pub open spec fn messages_view(s: Seq<Message>) -> Seq<MessageView> {
    s.map_values(|m: Message| m@)
}

/// The ids of a message log, in send order.
pub open spec fn message_ids(s: Seq<MessageView>) -> Seq<UniqueId> {
    s.map_values(|m: MessageView| m.uuid)
}

/// Which neighbour `cycle_active_persona` moves to.
#[derive(Clone, Copy, PartialEq, Eq, Structural, Debug)]
pub enum CycleDirection {
    Next,
    Prev,
}

/// The mathematical content of a `Chat`.
pub ghost struct ChatView {
    pub uuid: UniqueId,
    pub name: Seq<char>,
    pub messages: Seq<MessageView>,
    pub active_persona: UniqueId,
    pub added_personas: Seq<UniqueId>,
    pub current_message: Seq<char>,
}

/// A named conversation.
pub struct Chat {
    uuid: UniqueId,
    name: String,
    messages: Vec<Message>,
    active_persona: UniqueId,
    added_personas: indexmap::IndexSet<UniqueId>,
    current_message: String,
}

impl View for Chat {
    type V = ChatView;

    closed spec fn view(&self) -> ChatView {
        ChatView {
            uuid: self.uuid,
            name: self.name@,
            messages: messages_view(self.messages@),
            active_persona: self.active_persona,
            added_personas: id_set_elems(self.added_personas),
            current_message: self.current_message@,
        }
    }
}

/// Relies on chrono::Utc::now and chrono::format::DelayedFormat: a short
/// readable date string naming a new chat.  The value depends on the
/// clock, so nothing is assumed of it.
#[verifier::external_body]
fn current_date_title() -> (r: String) {
    format!("{}", chrono::Utc::now().format("%a, %h %d, %Y"))
}

impl ChatView {
    /// Well-formed: the added personas are distinct and include the active
    /// one, and the message ids are distinct.
    pub open spec fn wf(self) -> bool {
        &&& self.added_personas.no_duplicates()
        &&& self.added_personas.contains(self.active_persona)
        &&& message_ids(self.messages).no_duplicates()
    }
}

impl Chat {
    /// Well-formed: see `ChatView::wf`.
    pub open spec fn wf(self) -> bool {
        self@.wf()
    }

    /// A new chat seeded with one persona: that persona is added and
    /// active, the log and the draft are empty, and the name is a date
    /// stamp taken from the clock.
    pub fn new(persona_id: UniqueId) -> (c: Chat)
        ensures
            c.wf(),
            c@.added_personas == seq![persona_id],
            c@.active_persona == persona_id,
            c@.messages.len() == 0,
            c@.current_message.len() == 0,
    {
        let mut added = id_set_new();
        id_set_insert(&mut added, persona_id);
        let no_ids: Vec<UniqueId> = Vec::new();
        let id = fresh_id(&no_ids);
        let c = Chat {
            uuid: id,
            name: current_date_title(),
            messages: Vec::new(),
            active_persona: persona_id,
            added_personas: added,
            current_message: String::new(),
        };
        proof {
            assert(c@.added_personas =~= seq![persona_id]);
            assert(c@.added_personas[0] == persona_id);
            assert(c@.added_personas.contains(persona_id));
            assert(c@.messages.len() == 0);
            assert(message_ids(c@.messages).len() == 0);
        }
        c
    }

    pub fn uuid(&self) -> (r: UniqueId)
        ensures
            r == self@.uuid,
    {
        self.uuid
    }

    pub fn name(&self) -> (r: &String)
        ensures
            r@ == self@.name,
    {
        &self.name
    }

    /// Replace the chat's name.
    pub fn rename(&mut self, new_name: String)
        ensures
            final(self)@ == (ChatView { name: new_name@, ..old(self)@ }),
    {
        self.name = new_name;
    }

    /// The message log, in send order.
    pub fn messages(&self) -> (r: &Vec<Message>)
        ensures
            messages_view(r@) == self@.messages,
    {
        &self.messages
    }

    pub fn active_persona(&self) -> (r: UniqueId)
        ensures
            r == self@.active_persona,
    {
        self.active_persona
    }

    /// The ids of the personas added to this chat, in insertion order.
    pub fn added_personas(&self) -> (r: Vec<UniqueId>)
        ensures
            r@ == self@.added_personas,
    {
        id_set_to_vec(&self.added_personas)
    }

    pub fn current_message(&self) -> (r: &String)
        ensures
            r@ == self@.current_message,
    {
        &self.current_message
    }

    /// Replace the draft text in progress.
    pub fn set_current_message(&mut self, text: String)
        ensures
            final(self)@ == (ChatView { current_message: text@, ..old(self)@ }),
    {
        self.current_message = text;
    }

    /// Send the draft: append one message stamped with the active persona
    /// under a fresh message id, and clear the draft.  Callers must not
    /// send an empty draft.
    pub fn send(&mut self) -> (m: Message)
        requires
            old(self).wf(),
            old(self)@.current_message.len() > 0,
        ensures
            final(self).wf(),
            m@.persona == old(self)@.active_persona,
            m@.msg == old(self)@.current_message,
            !message_ids(old(self)@.messages).contains(m@.uuid),
            final(self)@ == (ChatView {
                messages: old(self)@.messages.push(m@),
                current_message: Seq::<char>::empty(),
                ..old(self)@
            }),
    {
        let mut msg_ids: Vec<UniqueId> = Vec::new();
        let n = self.messages.len();
        let mut j: usize = 0;
        while j < n
            invariant
                0 <= j <= n,
                n == self.messages@.len(),
                msg_ids@ =~= message_ids(messages_view(self.messages@)).take(j as int),
            decreases n - j,
        {
            msg_ids.push(self.messages[j].uuid);
            proof {
                assert(msg_ids@ =~= message_ids(messages_view(self.messages@)).take(j + 1));
            }
            j += 1;
        }
        proof {
            assert(message_ids(messages_view(self.messages@)).take(n as int) =~= message_ids(
                messages_view(self.messages@),
            ));
        }
        let id = fresh_id(&msg_ids);
        let text = self.current_message.clone();
        let result_text = self.current_message.clone();
        let m = Message { uuid: id, msg: text, persona: self.active_persona };
        let result = Message { uuid: id, msg: result_text, persona: self.active_persona };
        self.messages.push(m);
        self.current_message = String::new();
        proof {
            assert(final(self)@.messages =~= old(self)@.messages.push(result@));
            assert(message_ids(final(self)@.messages) =~= message_ids(old(self)@.messages).push(
                result@.uuid,
            ));
        }
        result
    }

    /// Send only when a draft is present; an empty draft changes nothing.
    pub fn try_send(&mut self) -> (r: Option<Message>)
        requires
            old(self).wf(),
        ensures
            final(self).wf(),
            old(self)@.current_message.len() == 0 ==> r is None && final(self)@ == old(self)@,
            old(self)@.current_message.len() > 0 ==> (r matches Some(m)
                && m@.persona == old(self)@.active_persona
                && m@.msg == old(self)@.current_message
                && !message_ids(old(self)@.messages).contains(m@.uuid)
                && final(self)@ == (ChatView {
                    messages: old(self)@.messages.push(m@),
                    current_message: Seq::<char>::empty(),
                    ..old(self)@
                })),
    {
        if self.current_message.as_str().is_empty() {
            None
        } else {
            Some(self.send())
        }
    }

    /// Make `id` the active persona and add it to the chat's personas;
    /// returns whether it was newly added.  The switch happens even when
    /// the persona was already present.
    pub fn add_persona(&mut self, id: UniqueId) -> (newly: bool)
        requires
            old(self).wf(),
        ensures
            final(self).wf(),
            newly == !old(self)@.added_personas.contains(id),
            newly ==> final(self)@ == (ChatView {
                active_persona: id,
                added_personas: old(self)@.added_personas.push(id),
                ..old(self)@
            }),
            !newly ==> final(self)@ == (ChatView { active_persona: id, ..old(self)@ }),
    {
        self.active_persona = id;
        let newly = id_set_insert(&mut self.added_personas, id);
        proof {
            if newly {
                assert(final(self)@.added_personas[old(self)@.added_personas.len() as int] == id);
                assert(final(self)@.added_personas.contains(id));
            }
        }
        newly
    }

    /// Move the active persona to its neighbour in insertion order,
    /// wrapping around both ends; returns the new active persona's id.
    pub fn cycle_active_persona(&mut self, direction: CycleDirection) -> (id: UniqueId)
        requires
            old(self).wf(),
        ensures
            final(self).wf(),
            id == final(self)@.active_persona,
            ({
                let a = old(self)@.added_personas;
                let i = a.index_of(old(self)@.active_persona);
                match direction {
                    CycleDirection::Next => final(self)@ == (ChatView {
                        active_persona: if i + 1 == a.len() { a[0] } else { a[i + 1] },
                        ..old(self)@
                    }),
                    CycleDirection::Prev => final(self)@ == (ChatView {
                        active_persona: if i == 0 { a[a.len() - 1] } else { a[i - 1] },
                        ..old(self)@
                    }),
                }
            }),
    {
        let n = id_set_len(&self.added_personas);
        let i = match id_set_get_index_of(&self.added_personas, self.active_persona) {
            Some(i) => i,
            None => {
                proof {
                    assert(false);
                }
                0
            },
        };
        proof {
            let a = self@.added_personas;
            assert(a.index_of(self@.active_persona) == i as int) by {
                assert(a.contains(self@.active_persona)) by {
                    assert(a[i as int] == self@.active_persona);
                }
                let w = a.index_of(self@.active_persona);
                assert(0 <= w < a.len() && a[w] == self@.active_persona);
            }
        }
        let j = match direction {
            CycleDirection::Next => if i + 1 == n {
                0
            } else {
                i + 1
            },
            CycleDirection::Prev => if i == 0 {
                n - 1
            } else {
                i - 1
            },
        };
        let id = match id_set_get_index(&self.added_personas, j) {
            Some(v) => v,
            None => {
                proof {
                    assert(false);
                }
                0
            },
        };
        self.active_persona = id;
        proof {
            assert(final(self)@.added_personas.contains(id)) by {
                assert(final(self)@.added_personas[j as int] == id);
            }
        }
        id
    }

    /// Whether this chat is well-formed; stored records are re-checked
    /// through this before they are trusted.
    pub fn check_wf(&self) -> (r: bool)
        ensures
            r == self.wf(),
    {
        let added = id_set_to_vec(&self.added_personas);
        if has_duplicate_id(&added) {
            return false;
        }
        if !id_set_contains(&self.added_personas, self.active_persona) {
            return false;
        }
        let mut msg_ids: Vec<UniqueId> = Vec::new();
        let n = self.messages.len();
        let mut j: usize = 0;
        while j < n
            invariant
                0 <= j <= n,
                n == self.messages@.len(),
                msg_ids@ =~= message_ids(messages_view(self.messages@)).take(j as int),
            decreases n - j,
        {
            msg_ids.push(self.messages[j].uuid);
            proof {
                assert(msg_ids@ =~= message_ids(messages_view(self.messages@)).take(j + 1));
            }
            j += 1;
        }
        proof {
            assert(message_ids(messages_view(self.messages@)).take(n as int) =~= message_ids(
                messages_view(self.messages@),
            ));
        }
        !has_duplicate_id(&msg_ids)
    }

    /// Rebuild a chat from stored parts; fails when the parts do not form
    /// a well-formed chat.
    pub fn from_parts(
        uuid: UniqueId,
        name: String,
        messages: Vec<Message>,
        added_personas: Vec<UniqueId>,
        active_persona: UniqueId,
        current_message: String,
    ) -> (r: Option<Chat>)
        ensures
            match r {
                Some(c) => c.wf() && c@ == (ChatView {
                    uuid,
                    name: name@,
                    messages: messages_view(messages@),
                    active_persona,
                    added_personas: added_personas@,
                    current_message: current_message@,
                }),
                None => !(added_personas@.no_duplicates() && added_personas@.contains(
                    active_persona,
                ) && message_ids(messages_view(messages@)).no_duplicates()),
            },
    {
        if has_duplicate_id(&added_personas) {
            return None;
        }
        if !contains_id(&added_personas, active_persona) {
            return None;
        }
        let mut added = id_set_new();
        let n = added_personas.len();
        let mut j: usize = 0;
        while j < n
            invariant
                0 <= j <= n,
                n == added_personas@.len(),
                added_personas@.no_duplicates(),
                id_set_elems(added) =~= added_personas@.take(j as int),
            decreases n - j,
        {
            proof {
                assert(!added_personas@.take(j as int).contains(added_personas@[j as int])) by {
                    if added_personas@.take(j as int).contains(added_personas@[j as int]) {
                        let w = choose|w: int|
                            0 <= w < j && added_personas@.take(j as int)[w] == added_personas@[
                                j as int
                            ];
                    }
                }
            }
            id_set_insert(&mut added, added_personas[j]);
            proof {
                assert(id_set_elems(added) =~= added_personas@.take(j + 1));
            }
            j += 1;
        }
        proof {
            assert(added_personas@.take(n as int) =~= added_personas@);
        }
        let c = Chat {
            uuid,
            name,
            messages,
            active_persona,
            added_personas: added,
            current_message,
        };
        if c.check_wf() {
            Some(c)
        } else {
            None
        }
    }
}

} // verus!
