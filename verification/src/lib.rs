//! A verified data model for a multi-persona chat application.
//!
//! A user defines named, coloured personas and converses as any of them
//! inside one or more chats.  The library holds the colour parsing and
//! formatting rules, the persona and chat registries, the per-chat message
//! log, and the key scheme under which the application persists its state.

pub mod chat;
pub mod chats;
pub mod colours;
pub mod data;
pub mod decimal;
pub mod ids;
pub mod persona_set;
pub mod personas;
pub mod storage;
pub mod system;
pub mod web;

use vstd::prelude::*;

verus! {

/// A stable key for personas, chats and messages.
pub type UniqueId = u128;

} // verus!
