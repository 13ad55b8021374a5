//! The chat registry: chats in insertion order, keyed by their unique
//! ids, with an optional active-chat pointer and lifecycle operations.

use vstd::prelude::*;
use crate::UniqueId;
use crate::chat::{Chat, ChatView, Message};
use crate::ids::{contains_id, has_duplicate_id, lemma_remove_keeps_distinct};

verus! {

/// Error for operating on an id absent from a registry.  Such a lookup
/// is a stale UI action; callers recover by ignoring it.
#[derive(Clone, Copy, PartialEq, Eq, Structural, Debug)]
pub struct NotFoundError;

/// The mathematical content of the registry.
pub ghost struct ChatsView {
    pub chats: Seq<ChatView>,
    pub active_chat: Option<UniqueId>,
}

/// The ids of a chat list, in insertion order.
pub open spec fn chat_ids_of(s: Seq<ChatView>) -> Seq<UniqueId> {
    s.map_values(|c: ChatView| c.uuid)
}

/// Ordered mapping from unique id to chat, plus the active-chat pointer.
pub struct Chats {
    chats: Vec<Chat>,
    active_chat: Option<UniqueId>,
}

impl View for Chats {
    type V = ChatsView;

    closed spec fn view(&self) -> ChatsView {
        ChatsView {
            chats: self.chats@.map_values(|c: Chat| c@),
            active_chat: self.active_chat,
        }
    }
}

impl ChatsView {
    /// Well-formed: ids are unique, every chat is well-formed, and the
    /// active pointer, when set, refers to an existing entry.
    pub open spec fn wf(self) -> bool {
        &&& chat_ids_of(self.chats).no_duplicates()
        &&& forall|i: int| 0 <= i < self.chats.len() ==> (#[trigger] self.chats[i]).wf()
        &&& self.active_chat matches Some(id) ==> chat_ids_of(self.chats).contains(id)
    }
}

impl Chats {
    /// The registry's chat ids, in insertion order.
    pub open spec fn chat_ids(self) -> Seq<UniqueId> {
        chat_ids_of(self@.chats)
    }

    /// Well-formed: see `ChatsView::wf`.
    pub open spec fn wf(self) -> bool {
        self@.wf()
    }

    /// An empty registry with no active chat.
    pub fn new() -> (s: Self)
        ensures
            s.wf(),
            s@.chats.len() == 0,
            s@.active_chat is None,
    {
        Chats { chats: Vec::new(), active_chat: None }
    }

    /// The registry's chat ids as a vector, in insertion order.
    pub fn collect_ids(&self) -> (v: Vec<UniqueId>)
        ensures
            v@ == self.chat_ids(),
    {
        let mut v: Vec<UniqueId> = Vec::new();
        let n = self.chats.len();
        let mut j: usize = 0;
        while j < n
            invariant
                0 <= j <= n,
                n == self.chats@.len(),
                v@ =~= self.chat_ids().take(j as int),
            decreases n - j,
        {
            v.push(self.chats[j].uuid());
            proof {
                assert(v@ =~= self.chat_ids().take(j + 1));
            }
            j += 1;
        }
        proof {
            assert(self.chat_ids().take(n as int) =~= self.chat_ids());
        }
        v
    }

    /// The insertion index of the chat with id `id`, when present.
    fn index_of_id(&self, id: UniqueId) -> (r: Option<usize>)
        ensures
            match r {
                Some(i) => i < self@.chats.len() && self.chat_ids()[i as int] == id
                    && (forall|t: int| 0 <= t < i ==> self.chat_ids()[t] != id),
                None => !self.chat_ids().contains(id),
            },
    {
        let n = self.chats.len();
        let mut j: usize = 0;
        while j < n
            invariant
                0 <= j <= n,
                n == self.chats@.len(),
                forall|t: int| 0 <= t < j ==> self.chat_ids()[t] != id,
            decreases n - j,
        {
            if self.chats[j].uuid() == id {
                proof {
                    assert(self.chat_ids()[j as int] == id);
                }
                return Some(j);
            }
            j += 1;
        }
        proof {
            assert(!self.chat_ids().contains(id)) by {
                if self.chat_ids().contains(id) {
                    let w = choose|w: int|
                        0 <= w < self.chat_ids().len() && self.chat_ids()[w] == id;
                }
            }
        }
        None
    }

    /// Insert a chat and make it active.  A chat whose id is already
    /// present is not inserted again; the existing entry merely becomes
    /// active.
    pub fn new_chat(&mut self, chat: Chat)
        requires
            old(self).wf(),
            chat.wf(),
        ensures
            final(self).wf(),
            final(self)@.active_chat == Some(chat@.uuid),
            old(self).chat_ids().contains(chat@.uuid) ==> final(self)@.chats == old(self)@.chats,
            !old(self).chat_ids().contains(chat@.uuid) ==> final(self)@.chats == old(
                self,
            )@.chats.push(chat@),
    {
        let id = chat.uuid();
        match self.index_of_id(id) {
            Some(_) => {
                self.active_chat = Some(id);
            },
            None => {
                let ghost pre_ids = self.chat_ids();
                self.chats.push(chat);
                self.active_chat = Some(id);
                proof {
                    assert(final(self)@.chats =~= old(self)@.chats.push(chat@));
                    assert(final(self).chat_ids() =~= pre_ids.push(id));
                    assert(final(self).chat_ids()[pre_ids.len() as int] == id);
                    assert(final(self).chat_ids().contains(id));
                }
            },
        }
    }

    /// The chat at insertion position `index`, when in range.
    pub fn get_index(&self, index: usize) -> (r: Option<&Chat>)
        ensures
            match r {
                Some(c) => index < self@.chats.len() && c@ == self@.chats[index as int],
                None => index >= self@.chats.len(),
            },
    {
        if index < self.chats.len() {
            Some(&self.chats[index])
        } else {
            None
        }
    }

    /// Read access to the chats, in insertion order.
    pub fn chats(&self) -> (r: &Vec<Chat>)
        ensures
            r@.map_values(|c: Chat| c@) == self@.chats,
    {
        &self.chats
    }

    /// The id of the active chat, if one is selected.
    pub fn active_chat_uuid(&self) -> (r: Option<UniqueId>)
        ensures
            r == self@.active_chat,
    {
        self.active_chat
    }

    /// The active chat itself, if one is selected.
    pub fn active_chat(&self) -> (r: Option<&Chat>)
        requires
            self.wf(),
        ensures
            match r {
                Some(c) => self@.active_chat == Some(c@.uuid) && self@.chats.contains(c@),
                None => self@.active_chat is None,
            },
    {
        match self.active_chat {
            None => None,
            Some(id) => match self.index_of_id(id) {
                Some(i) => {
                    let c = &self.chats[i];
                    proof {
                        assert(self@.chats[i as int] == c@);
                        assert(self@.chats.contains(c@));
                    }
                    Some(c)
                },
                None => {
                    proof {
                        assert(false);
                    }
                    None
                },
            },
        }
    }

    /// The active chat, for mutation; a chat must be selected.  The
    /// registry stays well-formed as long as the caller's edits keep the
    /// chat well-formed and do not change its id — which no chat method
    /// does; see `lemma_update_chat_keeps_wf`.
    pub fn active_chat_mut(&mut self) -> (r: &mut Chat)
        requires
            old(self).wf(),
            old(self)@.active_chat is Some,
        ensures
            ({
                let id = old(self)@.active_chat.unwrap();
                let i = chat_ids_of(old(self)@.chats).index_of(id);
                &&& 0 <= i < old(self)@.chats.len()
                &&& (*r)@ == old(self)@.chats[i]
                &&& final(self)@.active_chat == old(self)@.active_chat
                &&& final(self)@.chats.len() == old(self)@.chats.len()
                &&& forall|t: int|
                    0 <= t < old(self)@.chats.len() && t != i
                        ==> final(self)@.chats[t] == old(self)@.chats[t]
                &&& final(self)@.chats[i] == (*final(r))@
            }),
    {
        let id = match self.active_chat {
            Some(id) => id,
            None => {
                proof {
                    assert(false);
                }
                0
            },
        };
        let i = match self.index_of_id(id) {
            Some(i) => i,
            None => {
                proof {
                    assert(false);
                }
                0
            },
        };
        proof {
            let ids = chat_ids_of(self@.chats);
            assert(ids.contains(id)) by {
                assert(ids[i as int] == id);
            }
            let w = ids.index_of(id);
            assert(0 <= w < ids.len() && ids[w] == id);
            assert(w == i as int);
        }
        &mut self.chats[i]
    }

    /// Select the chat with id `id`; an absent id is reported, and
    /// changes nothing.
    pub fn set_active_chat(&mut self, id: UniqueId) -> (r: Result<(), NotFoundError>)
        requires
            old(self).wf(),
        ensures
            final(self).wf(),
            r is Ok <==> old(self).chat_ids().contains(id),
            r is Ok ==> final(self)@ == (ChatsView { active_chat: Some(id), ..old(self)@ }),
            r is Err ==> final(self)@ == old(self)@,
    {
        match self.index_of_id(id) {
            Some(_) => {
                proof {
                    assert(self.chat_ids().contains(id));
                }
                self.active_chat = Some(id);
                Ok(())
            },
            None => Err(NotFoundError),
        }
    }

    /// Send the active chat's draft, if a chat is selected and its draft
    /// is non-empty; returns the message that was appended.
    pub fn send_message(&mut self) -> (r: Option<Message>)
        requires
            old(self).wf(),
        ensures
            final(self).wf(),
            final(self)@.active_chat == old(self)@.active_chat,
            old(self)@.active_chat is None ==> r is None && final(self)@ == old(self)@,
            old(self)@.active_chat matches Some(id) ==> ({
                let i = chat_ids_of(old(self)@.chats).index_of(id);
                let c0 = old(self)@.chats[i];
                &&& final(self)@.chats.len() == old(self)@.chats.len()
                &&& forall|t: int|
                    0 <= t < old(self)@.chats.len() && t != i
                        ==> final(self)@.chats[t] == old(self)@.chats[t]
                &&& c0.current_message.len() == 0 ==> r is None && final(self)@.chats[i] == c0
                &&& c0.current_message.len() > 0 ==> (r matches Some(m)
                    && m@.persona == c0.active_persona && m@.msg == c0.current_message
                    && final(self)@.chats[i] == (ChatView {
                    messages: c0.messages.push(m@),
                    current_message: Seq::<char>::empty(),
                    ..c0
                }))
            }),
    {
        match self.active_chat {
            None => None,
            Some(id) => match self.index_of_id(id) {
                Some(i) => {
                    proof {
                        let ids = chat_ids_of(self@.chats);
                        assert(ids.contains(id)) by {
                            assert(ids[i as int] == id);
                        }
                        let w = ids.index_of(id);
                        assert(0 <= w < ids.len() && ids[w] == id);
                        assert(w == i as int);
                    }
                    let c = &mut self.chats[i];
                    let r = c.try_send();
                    proof {
                        assert(final(self)@.chats =~= old(self)@.chats.update(
                            i as int,
                            final(self)@.chats[i as int],
                        ));
                        assert(final(self).chat_ids() =~= old(self).chat_ids());
                    }
                    r
                },
                None => {
                    proof {
                        assert(false);
                    }
                    None
                },
            },
        }
    }

    /// Remove the active chat, if any, and clear the active pointer; the
    /// removed chat no longer appears among the registry's chats.
    pub fn delete_active(&mut self)
        requires
            old(self).wf(),
        ensures
            final(self).wf(),
            final(self)@.active_chat is None,
            old(self)@.active_chat is None ==> final(self)@ == old(self)@,
            old(self)@.active_chat matches Some(id) ==> ({
                let i = chat_ids_of(old(self)@.chats).index_of(id);
                &&& final(self)@.chats == old(self)@.chats.remove(i)
                &&& !chat_ids_of(final(self)@.chats).contains(id)
            }),
    {
        match self.active_chat {
            None => {},
            Some(id) => {
                match self.index_of_id(id) {
                    Some(i) => {
                        proof {
                            let ids = chat_ids_of(self@.chats);
                            assert(ids.contains(id)) by {
                                assert(ids[i as int] == id);
                            }
                            let w = ids.index_of(id);
                            assert(0 <= w < ids.len() && ids[w] == id);
                            assert(w == i as int);
                        }
                        self.chats.remove(i);
                        self.active_chat = None;
                        proof {
                            let pre = old(self)@.chats;
                            let ids = chat_ids_of(pre);
                            assert(final(self)@.chats =~= pre.remove(i as int));
                            assert(chat_ids_of(final(self)@.chats) =~= ids.remove(i as int));
                            ids.remove_ensures(i as int);
                            lemma_remove_keeps_distinct(ids, i as int);
                        }
                    },
                    None => {
                        proof {
                            assert(false);
                        }
                    },
                }
            },
        }
    }

    /// Rebuild a registry from stored parts; fails when the parts do not
    /// form a well-formed registry.
    pub fn from_parts(chats: Vec<Chat>, active_chat: Option<UniqueId>) -> (r: Option<Chats>)
        ensures
            match r {
                Some(s) => s.wf() && s@.chats == chats@.map_values(|c: Chat| c@)
                    && s@.active_chat == active_chat,
                None => !({
                    let views = chats@.map_values(|c: Chat| c@);
                    &&& chat_ids_of(views).no_duplicates()
                    &&& forall|i: int| 0 <= i < views.len() ==> (#[trigger] views[i]).wf()
                    &&& active_chat matches Some(id) ==> chat_ids_of(views).contains(id)
                }),
            },
    {
        let ghost views = chats@.map_values(|c: Chat| c@);
        let n = chats.len();
        let mut ids: Vec<UniqueId> = Vec::new();
        let mut j: usize = 0;
        while j < n
            invariant
                0 <= j <= n,
                n == chats@.len(),
                views == chats@.map_values(|c: Chat| c@),
                ids@ =~= chat_ids_of(views).take(j as int),
            decreases n - j,
        {
            ids.push(chats[j].uuid());
            proof {
                assert(ids@ =~= chat_ids_of(views).take(j + 1));
            }
            j += 1;
        }
        proof {
            assert(chat_ids_of(views).take(n as int) =~= chat_ids_of(views));
        }
        if has_duplicate_id(&ids) {
            return None;
        }
        let mut j: usize = 0;
        while j < n
            invariant
                0 <= j <= n,
                n == chats@.len(),
                views == chats@.map_values(|c: Chat| c@),
                forall|t: int| 0 <= t < j ==> (#[trigger] views[t]).wf(),
            decreases n - j,
        {
            if !chats[j].check_wf() {
                proof {
                    assert(!(views[j as int]).wf());
                }
                return None;
            }
            j += 1;
        }
        match active_chat {
            None => {},
            Some(id) => {
                if !contains_id(&ids, id) {
                    return None;
                }
            },
        }
        let s = Chats { chats, active_chat };
        proof {
            assert(s@.chats == views);
        }
        Some(s)
    }
}

/// Replacing one chat by a well-formed chat with the same id keeps the
/// registry well-formed: editing a chat in place cannot break it.
pub proof fn lemma_update_chat_keeps_wf(pre: ChatsView, post: ChatsView, i: int, c: ChatView)
    requires
        pre.wf(),
        0 <= i < pre.chats.len(),
        post.chats == pre.chats.update(i, c),
        post.active_chat == pre.active_chat,
        c.uuid == pre.chats[i].uuid,
        c.wf(),
    ensures
        post.wf(),
{
    assert(chat_ids_of(post.chats) =~= chat_ids_of(pre.chats));
    assert(forall|t: int| 0 <= t < post.chats.len() ==> (#[trigger] post.chats[t]).wf()) by {
        assert(forall|t: int|
            0 <= t < post.chats.len() && t != i ==> post.chats[t] == pre.chats[t]);
    }
}

} // verus!
