//! The unit of broadcast: an immutable chat message.

use vstd::prelude::*;

verus! {

/// Mathematical model of a [`Message`]: the three fields as character
/// sequences.
pub struct MessageView {
    pub room: Seq<char>,
    pub username: Seq<char>,
    pub text: Seq<char>,
}

/// The longest room or username the bus accepts; anything longer must be
/// rejected by the gateway before a `Message` is built.
pub const NAME_LIMIT: usize = 30;

/// An immutable chat message. Equality is structural; the bus hands each
/// subscriber an independent copy and never inspects the contents.
#[derive(Debug, PartialEq, Eq)]
pub struct Message {
    pub room: String,
    pub username: String,
    pub text: String,
}

impl View for Message {
    type V = MessageView;

    open spec fn view(&self) -> MessageView {
        MessageView { room: self.room@, username: self.username@, text: self.text@ }
    }
}

impl Clone for Message {
    /// The copy handed to each subscriber carries exactly the same fields.
    fn clone(&self) -> (res: Message)
        ensures
            res == *self,
    {
        Message {
            room: self.room.clone(),
            username: self.username.clone(),
            text: self.text.clone(),
        }
    }
}

impl Message {
    /// Builds an already-validated message: the gateway has checked the
    /// bounded fields before calling.
    pub fn new(room: String, username: String, text: String) -> (m: Message)
        requires
            room@.len() <= NAME_LIMIT,
            username@.len() <= NAME_LIMIT,
        ensures
            m@ == (MessageView { room: room@, username: username@, text: text@ }),
    {
        Message { room, username, text }
    }
}

} // verus!
