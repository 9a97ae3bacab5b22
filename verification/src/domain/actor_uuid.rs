//! Who acts in a scene: an AI person or the real-world user.
use crate::domain::person_uuid::PersonUuid;
use crate::ident::{uuid_string, uuid_text};
use vstd::prelude::*;
use vstd::string::*;

verus! {

/// Who acts in a scene.
#[derive(Debug, Clone, Copy, PartialEq, Eq, Structural)]
pub enum ActorUuid {
    AiPerson(PersonUuid),
    RealWorldUser,
}

/// The label of an actor.
pub open spec fn actor_label(actor: ActorUuid) -> Seq<char> {
    match actor {
        ActorUuid::AiPerson(p) => "AI Person "@ + uuid_text(p.0),
        ActorUuid::RealWorldUser => "Real World User"@,
    }
}

impl ActorUuid {
    /// `AI Person <uuid>` or `Real World User`.
    pub fn to_label(&self) -> (res: String)
        ensures
            res@ == actor_label(*self),
    {
        match self {
            ActorUuid::AiPerson(person_uuid) => {
                let mut s = String::from_str("AI Person ");
                let u = uuid_string(person_uuid.0);
                s.append(u.as_str());
                s
            },
            ActorUuid::RealWorldUser => String::from_str("Real World User"),
        }
    }

    /// The actor that is the given AI person.
    pub fn from_person_uuid(person_uuid: PersonUuid) -> (res: Self)
        ensures
            res == ActorUuid::AiPerson(person_uuid),
    {
        ActorUuid::AiPerson(person_uuid)
    }
}

} // verus!
