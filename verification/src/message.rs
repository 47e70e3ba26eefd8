//! Role-tagged conversation messages.

use vstd::prelude::*;

verus! {

/// Who spoke a turn of the conversation.
#[derive(Clone, Copy, Debug, PartialEq, Eq, Structural)]
pub enum Role {
    User,
    Assistant,
}

/// One turn of the conversation. It cannot be changed once it is made.
#[derive(Debug, PartialEq, Eq)]
pub struct ConversationMessage {
    role: Role,
    text: String,
}

/// The mathematical content of a [`ConversationMessage`].
pub ghost struct MessageView {
    pub role: Role,
    pub text: Seq<char>,
}

impl View for ConversationMessage {
    type V = MessageView;

    closed spec fn view(&self) -> MessageView {
        MessageView { role: self.role, text: self.text@ }
    }
}

/// The contents of a sequence of messages, turn by turn.
pub open spec fn views(turns: Seq<ConversationMessage>) -> Seq<MessageView> {
    turns.map_values(|m: ConversationMessage| m@)
}

impl ConversationMessage {
    /// A turn spoken by `role` with the given text.
    pub fn new(role: Role, text: String) -> (message: Self)
        ensures
            message@ == (MessageView { role, text: text@ }),
    {
        ConversationMessage { role, text }
    }

    /// Who spoke this turn.
    pub fn role(&self) -> (role: Role)
        ensures
            role == self@.role,
    {
        self.role
    }

    /// What was said.
    pub fn text(&self) -> (text: &str)
        ensures
            text@ == self@.text,
    {
        self.text.as_str()
    }
}

impl Clone for ConversationMessage {
    /// A copy with the same role and text.
    fn clone(&self) -> (copy: Self)
        ensures
            copy@ == self@,
    {
        ConversationMessage { role: self.role, text: self.text.clone() }
    }
}

} // verus!
