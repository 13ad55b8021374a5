//! The key scheme under which application state is persisted.
//!
//! One key holds the persona registry, one the chat registry's metadata
//! (ids and active pointer), and one key per chat holds that chat's full
//! state, so that sending a message rewrites one chat's record rather
//! than the whole chat list.  The storage backend itself is supplied by
//! the application around this library.

use vstd::prelude::*;
use vstd::string::StringExecFns;
use crate::UniqueId;
use crate::decimal::{decimal_string, spec_decimal};

verus! {

/// The key under which the persona registry is stored.
pub fn personas_key() -> (s: String)
    ensures
        s@ == "ifs_personas"@,
{
    String::from_str("ifs_personas")
}

/// The key under which the chat registry's metadata is stored.
pub fn chats_key() -> (s: String)
    ensures
        s@ == "ifs_chats"@,
{
    String::from_str("ifs_chats")
}

/// The key under which one chat's full state is stored.
pub fn chat_key(id: UniqueId) -> (s: String)
    ensures
        s@ == "ifs_chat_"@ + spec_decimal(id as nat),
{
    let mut s = String::from_str("ifs_chat_");
    let digits = decimal_string(id);
    s.append(digits.as_str());
    s
}

} // verus!
