//! Who speaks in a chat history.
use vstd::prelude::*;

verus! {

/// Who speaks in a chat history.
#[derive(Debug, Clone, Copy, PartialEq, Eq, Structural)]
pub enum Role {
    System,
    User,
    Assistant,
}

/// The name of a role in a request.
pub open spec fn role_name(r: Role) -> Seq<char> {
    match r {
        Role::System => "system"@,
        Role::User => "user"@,
        Role::Assistant => "assistant"@,
    }
}

impl Role {
    /// The name of the role in a request.
    pub fn to_str(&self) -> (res: &str)
        ensures
            res@ == role_name(*self),
    {
        match self {
            Role::System => "system",
            Role::User => "user",
            Role::Assistant => "assistant",
        }
    }
}

} // verus!
