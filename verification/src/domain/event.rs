//! Events a person witnessed and their prompt lines.
use crate::domain::message_uuid::MessageUuid;
use crate::text::join_seq;
use vstd::prelude::*;
use vstd::string::*;

verus! {

/// An event; `timestamp` is in microseconds since the Unix epoch (UTC).
#[derive(Clone, Debug)]
pub struct Event {
    pub timestamp: i64,
    pub event_type: EventType,
}

/// What happened.
#[derive(Clone, Debug)]
pub enum EventType {
    Said { scene_name: String, speaker_name: String, comment: String, message_uuid: MessageUuid },
    Entered { person_name: String, scene_name: String },
    Left { person_name: String, scene_name: String },
}

/// The prompt line of an event.
pub open spec fn event_text(e: Event) -> Seq<char> {
    match e.event_type {
        EventType::Said { scene_name, speaker_name, comment, .. } => "In scene "@ + scene_name@
            + ", "@ + speaker_name@ + " said: \""@ + comment@ + "\""@,
        EventType::Entered { person_name, scene_name } => person_name@ + " entered scene "@
            + scene_name@,
        EventType::Left { person_name, scene_name } => person_name@ + " left scene "@
            + scene_name@,
    }
}

/// The prompt lines of events, in order.
pub open spec fn event_texts(es: Seq<Event>) -> Seq<Seq<char>> {
    es.map_values(|e: Event| event_text(e))
}

/// How many of the newest events a prompt list shows.
pub open spec fn prompt_list_window() -> nat {
    8
}

/// The prompt list of events: `None.`, or the lines of the newest eight events,
/// oldest first.
pub open spec fn events_prompt_list(es: Seq<Event>) -> Seq<char> {
    if es.len() == 0 {
        "None."@
    } else if es.len() <= prompt_list_window() {
        join_seq(event_texts(es), "\n"@)
    } else {
        join_seq(event_texts(es.skip(es.len() - prompt_list_window())), "\n"@)
    }
}

impl Event {
    /// The event at the given time.
    pub fn new(timestamp: i64, event_type: EventType) -> (res: Self)
        ensures
            res.timestamp == timestamp,
            res.event_type == event_type,
    {
        Event { timestamp, event_type }
    }

    /// A copy of the event.
    pub fn copy(&self) -> (res: Self)
        ensures
            res == *self,
    {
        let event_type = match &self.event_type {
            EventType::Said { scene_name, speaker_name, comment, message_uuid } => EventType::Said {
                scene_name: scene_name.clone(),
                speaker_name: speaker_name.clone(),
                comment: comment.clone(),
                message_uuid: *message_uuid,
            },
            EventType::Entered { person_name, scene_name } => EventType::Entered {
                person_name: person_name.clone(),
                scene_name: scene_name.clone(),
            },
            EventType::Left { person_name, scene_name } => EventType::Left {
                person_name: person_name.clone(),
                scene_name: scene_name.clone(),
            },
        };
        Event { timestamp: self.timestamp, event_type }
    }

    /// The prompt line of the event.
    pub fn to_text(&self) -> (res: String)
        ensures
            res@ == event_text(*self),
    {
        let mut s = String::new();
        match &self.event_type {
            EventType::Said { scene_name, speaker_name, comment, message_uuid: _ } => {
                s.append("In scene ");
                s.append(scene_name.as_str());
                s.append(", ");
                s.append(speaker_name.as_str());
                s.append(" said: \"");
                s.append(comment.as_str());
                s.append("\"");
            },
            EventType::Entered { person_name, scene_name } => {
                s.append(person_name.as_str());
                s.append(" entered scene ");
                s.append(scene_name.as_str());
            },
            EventType::Left { person_name, scene_name } => {
                s.append(person_name.as_str());
                s.append(" left scene ");
                s.append(scene_name.as_str());
            },
        }
        proof {
            assert(s@ =~= event_text(*self));
        }
        s
    }

    /// `None.`, or the lines of the newest eight events, oldest first.
    pub fn many_to_prompt_list(events: Vec<Event>) -> (res: String)
        ensures
            res@ == events_prompt_list(events@),
    {
        let n = events.len();
        if n == 0 {
            return String::from_str("None.");
        }
        let start: usize = if n > 8 { n - 8 } else { 0 };
        let ghost shown = events@.skip(start as int);
        let ghost lines = event_texts(shown);
        let mut res = String::new();
        let mut i: usize = start;
        while i < n
            invariant
                n == events@.len(),
                start <= i <= n,
                shown == events@.skip(start as int),
                lines == event_texts(shown),
                res@ == join_seq(lines.take(i - start), "\n"@),
            decreases n - i,
        {
            proof {
                assert(lines.take(i - start + 1).drop_last() =~= lines.take(i - start));
                assert(lines[i - start] == event_text(events@[i as int]));
            }
            if i != start {
                res.append("\n");
            }
            let line = events[i].to_text();
            res.append(line.as_str());
            i = i + 1;
        }
        proof {
            assert(lines.take(n - start) =~= lines);
            if n <= 8 {
                assert(shown =~= events@);
            }
        }
        res
    }
}

} // verus!
