//! The messages of a chat, in order.
use crate::open_ai::message::Message;
use crate::open_ai::role::Role;
use vstd::prelude::*;

verus! {

/// The messages of a chat, in order.
pub struct History {
    pub messages: Vec<Message>,
}

impl History {
    /// An empty history.
    pub fn new() -> (res: Self)
        ensures
            res.messages@.len() == 0,
    {
        History { messages: Vec::new() }
    }

    /// Appends a message.
    pub fn add_message(&mut self, role: Role, content: &str)
        ensures
            final(self).messages@.len() == old(self).messages@.len() + 1,
            final(self).messages@.drop_last() == old(self).messages@,
            final(self).messages@.last().role == role,
            final(self).messages@.last().content@ == content@,
    {
        self.messages.push(Message::new(role, content));
        assert(self.messages@.drop_last() =~= old(self).messages@);
    }

    /// The messages, in order.
    pub fn get_messages(&self) -> (res: &[Message])
        ensures
            res@ == self.messages@,
    {
        self.messages.as_slice()
    }
}

} // verus!
