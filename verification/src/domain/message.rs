//! A message said in a scene.
use super::message_uuid::MessageUuid;
use super::person_uuid::PersonUuid;
use super::scene_uuid::SceneUuid;
use crate::ident::{uuid_string, uuid_text};
use vstd::prelude::*;
use vstd::string::*;

verus! {

/// A message said in a scene; `sent_at` is in microseconds since the Unix
/// epoch (UTC).
#[derive(Debug, Clone)]
pub struct Message {
    pub uuid: MessageUuid,
    pub sender: MessageSender,
    pub scene_uuid: SceneUuid,
    pub content: String,
    pub sent_at: i64,
}

/// Who sent a message.
#[derive(Debug, Clone, Copy, PartialEq, Eq, Structural)]
pub enum MessageSender {
    AiPerson(PersonUuid),
    RealWorldUser,
}

/// The display form of a sender.
pub open spec fn sender_text(s: MessageSender) -> Seq<char> {
    match s {
        MessageSender::AiPerson(p) => "AI Person "@ + uuid_text(p.0),
        MessageSender::RealWorldUser => "Real World User"@,
    }
}

impl MessageSender {
    /// `AI Person <uuid>` or `Real World User`.
    pub fn to_string(&self) -> (res: String)
        ensures
            res@ == sender_text(*self),
    {
        match self {
            MessageSender::AiPerson(person_uuid) => {
                let mut s = String::from_str("AI Person ");
                let u = uuid_string(person_uuid.0);
                s.append(u.as_str());
                s
            },
            MessageSender::RealWorldUser => String::from_str("Real World User"),
        }
    }
}

impl Message {
    /// A copy of the message.
    pub fn copy(&self) -> (res: Self)
        ensures
            res == *self,
    {
        Message {
            uuid: self.uuid,
            sender: self.sender,
            scene_uuid: self.scene_uuid,
            content: self.content.clone(),
            sent_at: self.sent_at,
        }
    }
}

/// A copy of the messages.
pub fn copy_messages(ms: &Vec<Message>) -> (res: Vec<Message>)
    ensures
        res@ == ms@,
{
    let mut res: Vec<Message> = Vec::new();
    let mut i: usize = 0;
    while i < ms.len()
        invariant
            i <= ms.len(),
            res@ == ms@.take(i as int),
        decreases ms.len() - i,
    {
        res.push(ms[i].copy());
        proof {
            assert(ms@.take(i + 1) =~= ms@.take(i as int).push(ms@[i as int]));
        }
        i = i + 1;
    }
    proof {
        assert(ms@.take(ms.len() as int) =~= ms@);
    }
    res
}

} // verus!
