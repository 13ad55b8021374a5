//! Message content and the message record pairing content with a sender.

use vstd::prelude::*;
use crate::system::sender::{PSender, PSenderView};

verus! {

/// What a message holds; plain text is the only content kind.
#[derive(Clone, PartialEq, Debug)]
pub enum Content {
    Text(String),
}

impl View for Content {
    type V = Seq<char>;

    open spec fn view(&self) -> Seq<char> {
        match self {
            Content::Text(s) => s@,
        }
    }
}

impl Content {
    /// Text content.
    pub fn text(text: &str) -> (c: Content)
        ensures
            c@ == text@,
    {
        Content::Text(text.to_owned())
    }
}

/// The one production message shape.
#[derive(Clone, PartialEq, Debug)]
pub struct PMessage {
    sender: PSender,
    content: Content,
}

/// The mathematical content of a `PMessage`.
pub ghost struct PMessageView {
    pub sender: PSenderView,
    pub content: Seq<char>,
}

impl View for PMessage {
    type V = PMessageView;

    closed spec fn view(&self) -> PMessageView {
        PMessageView { sender: self.sender@, content: self.content@ }
    }
}

impl PMessage {
    pub fn new(sender: PSender, content: Content) -> (m: Self)
        ensures
            m@.sender == sender@,
            m@.content == content@,
    {
        Self { sender, content }
    }

    pub fn sender(&self) -> (r: &PSender)
        ensures
            r@ == self@.sender,
    {
        &self.sender
    }

    pub fn content(&self) -> (r: &Content)
        ensures
            r@ == self@.content,
    {
        &self.content
    }

    /// Replace the message's content.
    pub fn update_content(&mut self, content: Content)
        ensures
            final(self)@ == (PMessageView { content: content@, ..old(self)@ }),
    {
        self.content = content;
    }

    /// Replace the message's sender.
    pub fn update_sender(&mut self, sender: PSender)
        ensures
            final(self)@ == (PMessageView { sender: sender@, ..old(self)@ }),
    {
        self.sender = sender;
    }
}

} // verus!
