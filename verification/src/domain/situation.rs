//! What a person perceives of a scene: who is there and what was said.
use crate::text::{join_seq, join_texts, string_views};
use vstd::prelude::*;
use vstd::string::*;

verus! {

/// What a person perceives of a scene.
#[derive(Clone, Debug)]
pub struct Situation {
    pub person_name: String,
    pub scene_name: Option<String>,
    pub scene_description: Option<String>,
    pub participants: Vec<String>,
    pub messages: Vec<String>,
}

/// What a situation is made from.
pub struct Input {
    pub person_name: String,
    pub scene_name: Option<String>,
    pub scene_description: Option<String>,
    pub particpants: Vec<String>,
    pub messages: Vec<String>,
}

/// The view of an optional string.
pub open spec fn opt_view(o: Option<String>) -> Option<Seq<char>> {
    match o {
        Some(s) => Some(s@),
        None => None,
    }
}

/// Where the person is and who is present.
pub open spec fn people_present_text(
    person_name: Seq<char>,
    scene_name: Option<Seq<char>>,
    scene_description: Option<Seq<char>>,
    participants: Seq<Seq<char>>,
) -> Seq<char> {
    let participant_list = if participants.len() == 0 {
        "none"@
    } else {
        join_seq(participants, ", "@)
    };
    let scene_text = match scene_name {
        Some(name) => match scene_description {
            None => person_name + " is in the scene \""@ + name + "\"."@,
            Some(d) => person_name + " is in the scene \""@ + name + "\". "@ + d,
        },
        None => Seq::empty(),
    };
    scene_text + "\n\nPeople present (complete list): "@ + participant_list
}

/// The full situation: who is present, then the new messages, oldest first.
pub open spec fn situation_full_text(people_present: Seq<char>, messages: Seq<Seq<char>>) -> Seq<
    char,
> {
    let messages_block = if messages.len() == 0 {
        "no new messages"@
    } else {
        join_seq(messages, "\n"@)
    };
    people_present + "\n\nNew messages received (oldest to newest):\n"@ + messages_block
}

impl Situation {
    /// The situation made of the given parts.
    pub fn new(input: Input) -> (res: Self)
        ensures
            res.person_name@ == input.person_name@,
            opt_view(res.scene_name) == opt_view(input.scene_name),
            opt_view(res.scene_description) == opt_view(input.scene_description),
            string_views(res.participants@) == string_views(input.particpants@),
            string_views(res.messages@) == string_views(input.messages@),
    {
        Situation {
            person_name: input.person_name,
            scene_name: input.scene_name,
            scene_description: input.scene_description,
            participants: input.particpants,
            messages: input.messages,
        }
    }

    /// The spec form of `to_people_present_text`.
    pub open spec fn people_present_spec(&self) -> Seq<char> {
        people_present_text(
            self.person_name@,
            opt_view(self.scene_name),
            opt_view(self.scene_description),
            string_views(self.participants@),
        )
    }

    /// The spec form of `to_string`.
    pub open spec fn text_spec(&self) -> Seq<char> {
        situation_full_text(self.people_present_spec(), string_views(self.messages@))
    }

    /// Where the person is and who is present.
    pub fn to_people_present_text(&self) -> (res: String)
        ensures
            res@ == self.people_present_spec(),
    {
        let participant_list = if self.participants.len() == 0 {
            String::from_str("none")
        } else {
            join_texts(&self.participants, ", ")
        };
        let mut s = String::new();
        match &self.scene_name {
            Some(name) => {
                s.append(self.person_name.as_str());
                s.append(" is in the scene \"");
                s.append(name.as_str());
                match &self.scene_description {
                    None => {
                        s.append("\".");
                    },
                    Some(scene_description) => {
                        s.append("\". ");
                        s.append(scene_description.as_str());
                    },
                }
            },
            None => {},
        }
        s.append("\n\nPeople present (complete list): ");
        s.append(participant_list.as_str());
        proof {
            assert(s@ =~= self.people_present_spec());
        }
        s
    }

    /// The full situation: who is present, then the new messages.
    pub fn to_string(&self) -> (res: String)
        ensures
            res@ == self.text_spec(),
    {
        let messages_block = if self.messages.len() == 0 {
            String::from_str("no new messages")
        } else {
            join_texts(&self.messages, "\n")
        };
        let mut s = self.to_people_present_text();
        s.append("\n\nNew messages received (oldest to newest):\n");
        s.append(messages_block.as_str());
        s
    }

    /// A copy of the situation.
    pub fn copy(&self) -> (res: Self)
        ensures
            res.person_name@ == self.person_name@,
            opt_view(res.scene_name) == opt_view(self.scene_name),
            opt_view(res.scene_description) == opt_view(self.scene_description),
            string_views(res.participants@) == string_views(self.participants@),
            string_views(res.messages@) == string_views(self.messages@),
    {
        Situation {
            person_name: self.person_name.clone(),
            scene_name: match &self.scene_name { Some(n) => Some(n.clone()), None => None },
            scene_description: match &self.scene_description {
                Some(d) => Some(d.clone()),
                None => None,
            },
            participants: self.participants.clone(),
            messages: self.messages.clone(),
        }
    }
}

} // verus!
