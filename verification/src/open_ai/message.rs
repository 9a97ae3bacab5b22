//! One message of a chat history.
use crate::open_ai::role::Role;
use vstd::prelude::*;
use vstd::string::*;

verus! {

/// One message of a chat history.
pub struct Message {
    pub role: Role,
    pub content: String,
}

impl Message {
    /// The message of `role` with the given content.
    pub fn new(role: Role, content: &str) -> (res: Self)
        ensures
            res.role == role,
            res.content@ == content@,
    {
        Message { role, content: String::from_str(content) }
    }

    /// Who speaks.
    pub fn role(&self) -> (res: &Role)
        ensures
            *res == self.role,
    {
        &self.role
    }

    /// What is said.
    pub fn content(&self) -> (res: &str)
        ensures
            res@ == self.content@,
    {
        self.content.as_str()
    }
}

} // verus!
