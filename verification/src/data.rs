//! The application-state container: the persona registry and the chat
//! registry, built once at start-up and passed by handle to whichever
//! layer needs them.

use vstd::prelude::*;
use crate::chat::Chat;
use crate::chats::{Chats, ChatsView, NotFoundError};
use crate::personas::{default_persona, personas_wf, Personas, PersonaView};
use crate::UniqueId;

verus! {

/// The mathematical content of the application state.
pub ghost struct AppStateView {
    pub personas: Seq<(UniqueId, PersonaView)>,
    pub chats: ChatsView,
}

/// Ties the registries together.
pub struct AppState {
    personas: Personas,
    chats: Chats,
}

impl View for AppState {
    type V = AppStateView;

    closed spec fn view(&self) -> AppStateView {
        AppStateView { personas: self.personas@, chats: self.chats@ }
    }
}

impl AppState {
    /// Well-formed: both registries are.
    pub open spec fn wf(self) -> bool {
        &&& personas_wf(self@.personas)
        &&& self@.chats.wf()
    }

    /// Build the state at start-up from whatever the storage held: each
    /// restored registry is used as it is; a missing persona registry is
    /// seeded with the default persona, and a missing chat registry
    /// starts empty with no chat selected.
    pub fn load(personas: Option<Personas>, chats: Option<Chats>) -> (s: AppState)
        requires
            personas matches Some(p) ==> p.wf(),
            chats matches Some(c) ==> c.wf(),
        ensures
            s.wf(),
            personas matches Some(p) ==> s@.personas == p@,
            personas is None ==> s@.personas.len() == 1 && s@.personas[0].1.name == "Me"@,
            chats matches Some(c) ==> s@.chats == c@,
            chats is None ==> s@.chats.chats.len() == 0 && s@.chats.active_chat is None,
    {
        let personas = match personas {
            Some(p) => p,
            None => Personas::new(default_persona()),
        };
        let chats = match chats {
            Some(c) => c,
            None => Chats::new(),
        };
        AppState { personas, chats }
    }

    /// The persona registry.
    pub fn personas(&self) -> (r: &Personas)
        ensures
            r@ == self@.personas,
    {
        &self.personas
    }

    /// The persona registry, for mutation.
    pub fn personas_mut(&mut self) -> (r: &mut Personas)
        ensures
            (*r)@ == old(self)@.personas,
            final(self)@.personas == (*final(r))@,
            final(self)@.chats == old(self)@.chats,
    {
        &mut self.personas
    }

    /// The chat registry.
    pub fn chats(&self) -> (r: &Chats)
        ensures
            r@ == self@.chats,
    {
        &self.chats
    }

    /// The chat registry, for mutation.
    pub fn chats_mut(&mut self) -> (r: &mut Chats)
        ensures
            (*r)@ == old(self)@.chats,
            final(self)@.chats == (*final(r))@,
            final(self)@.personas == old(self)@.personas,
    {
        &mut self.chats
    }

    /// The active chat, if one is selected.
    pub fn active_chat(&self) -> (r: Option<&Chat>)
        requires
            self.wf(),
        ensures
            match r {
                Some(c) => self@.chats.active_chat == Some(c@.uuid) && self@.chats.chats.contains(
                    c@,
                ),
                None => self@.chats.active_chat is None,
            },
    {
        self.chats.active_chat()
    }

    /// Select the chat with id `uuid`; an absent id is reported, and
    /// changes nothing.
    pub fn set_active_chat(&mut self, uuid: UniqueId) -> (r: Result<(), NotFoundError>)
        requires
            old(self).wf(),
        ensures
            final(self).wf(),
            final(self)@.personas == old(self)@.personas,
            r is Ok <==> crate::chats::chat_ids_of(old(self)@.chats.chats).contains(uuid),
            r is Ok ==> final(self)@.chats == (ChatsView {
                active_chat: Some(uuid),
                ..old(self)@.chats
            }),
            r is Err ==> final(self)@ == old(self)@,
    {
        self.chats.set_active_chat(uuid)
    }

    /// Remove the active chat, if any, and leave no chat selected.
    pub fn delete_active_chat(&mut self)
        requires
            old(self).wf(),
        ensures
            final(self).wf(),
            final(self)@.personas == old(self)@.personas,
            final(self)@.chats.active_chat is None,
            old(self)@.chats.active_chat is None ==> final(self)@ == old(self)@,
            old(self)@.chats.active_chat matches Some(id) ==> ({
                let i = crate::chats::chat_ids_of(old(self)@.chats.chats).index_of(id);
                &&& final(self)@.chats.chats == old(self)@.chats.chats.remove(i)
                &&& !crate::chats::chat_ids_of(final(self)@.chats.chats).contains(id)
            }),
    {
        self.chats.delete_active()
    }

    /// Insert a chat and make it active.
    pub fn new_chat(&mut self, chat: Chat)
        requires
            old(self).wf(),
            chat.wf(),
        ensures
            final(self).wf(),
            final(self)@.personas == old(self)@.personas,
            final(self)@.chats.active_chat == Some(chat@.uuid),
            !crate::chats::chat_ids_of(old(self)@.chats.chats).contains(chat@.uuid)
                ==> final(self)@.chats.chats == old(self)@.chats.chats.push(chat@),
            crate::chats::chat_ids_of(old(self)@.chats.chats).contains(chat@.uuid)
                ==> final(self)@.chats.chats == old(self)@.chats.chats,
    {
        self.chats.new_chat(chat)
    }
}

} // verus!
