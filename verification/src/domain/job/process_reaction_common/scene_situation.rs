//! The situation of a person in a scene: who they are, who is present, where
//! they are (for a look at the scene), and the messages they are shown, each
//! labelled with its sender's name.
use crate::capability::SceneParticipant;
use crate::domain::job::effects::{Next, Reply, WorkerCall};
use crate::domain::job::process_reaction_common::{
    message_event_line, message_event_line_text, real_world_user_label, situation_message_line,
    situation_message_line_text, Error,
};
use crate::domain::message::{Message, MessageSender};
use crate::domain::person_name::PersonName;
use crate::domain::person_uuid::PersonUuid;
use crate::domain::scene_uuid::SceneUuid;
use crate::domain::situation::{opt_view, Input, Situation};
use crate::text::string_views;
use vstd::prelude::*;
use vstd::string::*;

verus! {

/// How a message is written.
#[derive(Debug, Clone, Copy, PartialEq, Eq, Structural)]
pub enum LineStyle {
    Situation,
    NewMessageEvent,
}

/// The line of a message from the sender labelled `label`.
pub open spec fn styled_line(style: LineStyle, label: Seq<char>, content: Seq<char>) -> Seq<char> {
    match style {
        LineStyle::Situation => situation_message_line(label, content),
        LineStyle::NewMessageEvent => message_event_line(label, content),
    }
}

fn styled_line_text(style: LineStyle, label: &str, content: &str) -> (res: String)
    ensures
        res@ == styled_line(style, label@, content@),
{
    match style {
        LineStyle::Situation => situation_message_line_text(label, content),
        LineStyle::NewMessageEvent => message_event_line_text(label, content),
    }
}

/// Whether the message was sent by an AI person other than `person_uuid`,
/// whose name must be looked up.
pub open spec fn needs_sender_name(m: Message, person_uuid: PersonUuid) -> bool {
    match m.sender {
        MessageSender::AiPerson(s) => s.0 != person_uuid.0,
        MessageSender::RealWorldUser => false,
    }
}

/// The first message from `i` on whose sender's name must be looked up, or
/// the number of messages.
pub open spec fn first_named(ms: Seq<Message>, person_uuid: PersonUuid, i: int) -> int
    decreases ms.len() - i,
{
    if i >= ms.len() {
        ms.len() as int
    } else if needs_sender_name(ms[i], person_uuid) {
        i
    } else {
        first_named(ms, person_uuid, i + 1)
    }
}

/// The lines of the messages in `[i, j)` that need no name: the person's own
/// messages are left out, and those of the real-world user are labelled with
/// the user's name.
pub open spec fn unnamed_lines(style: LineStyle, ms: Seq<Message>, i: int, j: int) -> Seq<Seq<char>>
    decreases j - i,
{
    if j <= i {
        Seq::empty()
    } else {
        let rest = unnamed_lines(style, ms, i, j - 1);
        match ms[j - 1].sender {
            MessageSender::RealWorldUser => rest.push(styled_line(style, real_world_user_label(), ms[j - 1].content@)),
            MessageSender::AiPerson(_) => rest,
        }
    }
}

/// Labelling the messages, one sender's name at a time.
#[derive(Debug)]
pub enum LabelledLines {
    AwaitingSender {
        style: LineStyle,
        person_uuid: PersonUuid,
        messages: Vec<Message>,
        next: usize,
        lines: Vec<String>,
    },
    Finished,
}

/// The result type of a step of labelling.
pub type LinesStep = (LabelledLines, Next<Result<Vec<String>, Error>>);

/// Goes on from message `i` with the lines `lines` written so far: the
/// messages that need no name are written, up to the next one that does,
/// whose sender's name is asked for; with none left, the lines are done.
pub open spec fn lines_from(
    style: LineStyle,
    ms: Seq<Message>,
    person_uuid: PersonUuid,
    i: int,
    lines: Seq<Seq<char>>,
    res: LinesStep,
) -> bool {
    let j = first_named(ms, person_uuid, i);
    let written = lines + unnamed_lines(style, ms, i, j);
    if j < ms.len() {
        &&& match res.0 {
            LabelledLines::AwaitingSender { style: st, person_uuid: p, messages, next, lines: ls } => st == style
                && p == person_uuid && messages@ == ms && next == j && string_views(ls@) == written,
            _ => false,
        }
        &&& needs_sender_name(ms[j], person_uuid)
        &&& match ms[j].sender {
            MessageSender::AiPerson(sender) => res.1 == Next::<Result<Vec<String>, Error>>::Call(
                WorkerCall::GetPersonsName { person_uuid: sender },
            ),
            MessageSender::RealWorldUser => false,
        }
    } else {
        match res.1 {
            Next::Done(Ok(ls)) => string_views(ls@) == written,
            _ => false,
        }
    }
}

proof fn lemma_first_named_skip(ms: Seq<Message>, person_uuid: PersonUuid, i: int)
    requires
        0 <= i < ms.len(),
        !needs_sender_name(ms[i], person_uuid),
    ensures
        first_named(ms, person_uuid, i) == first_named(ms, person_uuid, i + 1),
{
}

proof fn lemma_first_named_bounds(ms: Seq<Message>, person_uuid: PersonUuid, i: int)
    requires
        0 <= i <= ms.len(),
    ensures
        i <= first_named(ms, person_uuid, i) <= ms.len(),
        first_named(ms, person_uuid, i) < ms.len() ==> needs_sender_name(
            ms[first_named(ms, person_uuid, i)],
            person_uuid,
        ),
    decreases ms.len() - i,
{
    if i < ms.len() && !needs_sender_name(ms[i], person_uuid) {
        lemma_first_named_bounds(ms, person_uuid, i + 1);
    }
}

fn sender_name_needed(m: &Message, person_uuid: PersonUuid) -> (res: bool)
    ensures
        res == needs_sender_name(*m, person_uuid),
{
    match m.sender {
        MessageSender::AiPerson(s) => s.0 != person_uuid.0,
        MessageSender::RealWorldUser => false,
    }
}

/// Writes the lines of the messages from `start` that need no name, up to the
/// next one that does.
fn continue_lines(
    style: LineStyle,
    person_uuid: PersonUuid,
    messages: Vec<Message>,
    start: usize,
    lines: Vec<String>,
) -> (res: LinesStep)
    requires
        start <= messages.len(),
    ensures
        lines_from(style, messages@, person_uuid, start as int, string_views(lines@), res),
{
    let ghost before = string_views(lines@);
    let mut lines = lines;
    let mut i: usize = start;
    while i < messages.len() && !sender_name_needed(&messages[i], person_uuid)
        invariant
            start <= i <= messages.len(),
            first_named(messages@, person_uuid, start as int) == first_named(messages@, person_uuid, i as int),
            string_views(lines@) == before + unnamed_lines(style, messages@, start as int, i as int),
        decreases messages.len() - i,
    {
        proof {
            lemma_first_named_skip(messages@, person_uuid, i as int);
        }
        let ghost prev = lines@;
        match messages[i].sender {
            MessageSender::RealWorldUser => {
                let line = styled_line_text(style, "Chadtech", messages[i].content.as_str());
                lines.push(line);
                proof {
                    reveal_strlit("Chadtech");
                    assert(string_views(lines@) =~= string_views(prev).push(line@));
                }
            },
            MessageSender::AiPerson(_) => {},
        }
        i = i + 1;
    }
    proof {
        lemma_first_named_bounds(messages@, person_uuid, i as int);
        if i < messages.len() {
            assert(needs_sender_name(messages@[i as int], person_uuid));
        }
        assert(first_named(messages@, person_uuid, i as int) == i);
    }
    if i < messages.len() {
        match messages[i].sender {
            MessageSender::AiPerson(sender) => (
                LabelledLines::AwaitingSender { style, person_uuid, messages, next: i, lines },
                Next::Call(WorkerCall::GetPersonsName { person_uuid: sender }),
            ),
            MessageSender::RealWorldUser => (LabelledLines::Finished, Next::Done(Ok(lines))),
        }
    } else {
        (LabelledLines::Finished, Next::Done(Ok(lines)))
    }
}

impl LabelledLines {
    /// Starts labelling the messages for `person_uuid`.
    pub fn begin(style: LineStyle, person_uuid: PersonUuid, messages: Vec<Message>) -> (res: LinesStep)
        ensures
            lines_from(style, messages@, person_uuid, 0, Seq::empty(), res),
    {
        let lines: Vec<String> = Vec::new();
        proof {
            assert(string_views(lines@) =~= Seq::<Seq<char>>::empty());
        }
        continue_lines(style, person_uuid, messages, 0, lines)
    }

    /// The reply each stage waits for.
    pub open spec fn awaits(self, reply: Reply) -> bool {
        match self {
            LabelledLines::AwaitingSender { person_uuid, messages, next, .. } => reply is Name && next
                < messages.len() && needs_sender_name(messages@[next as int], person_uuid),
            LabelledLines::Finished => false,
        }
    }

    /// One step of labelling: with the sender's name, the message's line is
    /// written and the labelling goes on.
    pub open spec fn step(self, reply: Reply, res: LinesStep) -> bool {
        match (self, reply) {
            (LabelledLines::AwaitingSender { style, person_uuid, messages, next, lines }, Reply::Name(r)) => match r {
                Err(e) => match messages@[next as int].sender {
                    MessageSender::AiPerson(sender) => res.1 == Next::<Result<Vec<String>, Error>>::Done(
                        Err(Error::FailedToGetSendersName { person_uuid: sender, details: e }),
                    ),
                    MessageSender::RealWorldUser => false,
                },
                Ok(name) => lines_from(
                    style,
                    messages@,
                    person_uuid,
                    next + 1,
                    string_views(lines@).push(styled_line(style, name.0@, messages@[next as int].content@)),
                    res,
                ),
            },
            _ => false,
        }
    }

    /// Goes on with the reply.
    pub fn resume(self, reply: Reply) -> (res: LinesStep)
        requires
            self.awaits(reply),
        ensures
            self.step(reply, res),
    {
        match self {
            LabelledLines::AwaitingSender { style, person_uuid, messages, next, lines } => match reply {
                Reply::Name(Ok(name)) => {
                    let mut lines = lines;
                    let ghost prev = lines@;
                    let line = styled_line_text(style, name.0.as_str(), messages[next].content.as_str());
                    lines.push(line);
                    proof {
                        assert(string_views(lines@) =~= string_views(prev).push(line@));
                    }
                    continue_lines(style, person_uuid, messages, next + 1, lines)
                },
                Reply::Name(Err(e)) => match messages[next].sender {
                    MessageSender::AiPerson(sender) => (
                        LabelledLines::Finished,
                        Next::Done(Err(Error::FailedToGetSendersName { person_uuid: sender, details: e })),
                    ),
                    MessageSender::RealWorldUser => (LabelledLines::Finished, Next::Done(Ok(Vec::new()))),
                },
                _ => (LabelledLines::Finished, Next::Done(Ok(Vec::new()))),
            },
            LabelledLines::Finished => (LabelledLines::Finished, Next::Done(Ok(Vec::new()))),
        }
    }
}


/// The names of the people present, in order.
pub open spec fn participant_names(ps: Seq<SceneParticipant>) -> Seq<Seq<char>> {
    ps.map_values(|p: SceneParticipant| p.person_name.0@)
}

/// The names of the people present, in order.
pub fn participant_names_of(ps: &Vec<SceneParticipant>) -> (res: Vec<String>)
    ensures
        string_views(res@) == participant_names(ps@),
{
    let mut res: Vec<String> = Vec::new();
    let mut i: usize = 0;
    while i < ps.len()
        invariant
            i <= ps.len(),
            string_views(res@) == participant_names(ps@.take(i as int)),
        decreases ps.len() - i,
    {
        let ghost prev = res@;
        res.push(ps[i].person_name.to_string());
        proof {
            assert(string_views(res@) =~= string_views(prev).push(ps@[i as int].person_name.0@));
            assert(participant_names(ps@.take(i + 1)) =~= participant_names(ps@.take(i as int)).push(
                ps@[i as int].person_name.0@,
            ));
        }
        i = i + 1;
    }
    proof {
        assert(ps@.take(ps.len() as int) =~= ps@);
    }
    res
}

/// What a situation is built for.
#[derive(Debug, Clone, Copy)]
pub struct SituationContext {
    pub scene_uuid: SceneUuid,
    pub person_uuid: PersonUuid,
    pub include_scene_context: bool,
}

/// Where building a situation stands.
#[derive(Debug)]
pub enum SceneSituation {
    AwaitingName { ctx: SituationContext, messages: Vec<Message> },
    AwaitingParticipants { ctx: SituationContext, messages: Vec<Message>, person_name: PersonName },
    AwaitingSceneName {
        ctx: SituationContext,
        messages: Vec<Message>,
        person_name: PersonName,
        participants: Vec<String>,
    },
    AwaitingSceneDescription {
        ctx: SituationContext,
        messages: Vec<Message>,
        person_name: PersonName,
        participants: Vec<String>,
        scene_name: Option<String>,
    },
    Labelling {
        lines: LabelledLines,
        person_name: PersonName,
        participants: Vec<String>,
        scene_name: Option<String>,
        scene_description: Option<String>,
    },
    Finished,
}

/// The result type of a step of building a situation.
pub type SituationStep = (SceneSituation, Next<Result<Situation, Error>>);

/// Whether `sit` is made of the given parts.
pub open spec fn situation_of(
    sit: Situation,
    person_name: Seq<char>,
    scene_name: Option<Seq<char>>,
    scene_description: Option<Seq<char>>,
    participants: Seq<Seq<char>>,
    lines: Seq<Seq<char>>,
) -> bool {
    &&& sit.person_name@ == person_name
    &&& opt_view(sit.scene_name) == scene_name
    &&& opt_view(sit.scene_description) == scene_description
    &&& string_views(sit.participants@) == participants
    &&& string_views(sit.messages@) == lines
}

/// What follows a step of labelling the messages.
pub open spec fn after_lines(
    sub: LinesStep,
    person_name: PersonName,
    participants: Vec<String>,
    scene_name: Option<String>,
    scene_description: Option<String>,
    res: SituationStep,
) -> bool {
    match sub.1 {
        Next::Call(call) => {
            &&& res.0 == (SceneSituation::Labelling {
                lines: sub.0,
                person_name,
                participants,
                scene_name,
                scene_description,
            })
            &&& res.1 == Next::<Result<Situation, Error>>::Call(call)
        },
        Next::Done(Err(e)) => res.1 == Next::<Result<Situation, Error>>::Done(Err(e)),
        Next::Done(Ok(ls)) => match res.1 {
            Next::Done(Ok(sit)) => situation_of(
                sit,
                person_name.0@,
                opt_view(scene_name),
                opt_view(scene_description),
                string_views(participants@),
                string_views(ls@),
            ),
            _ => false,
        },
    }
}

/// Labelling the messages begins.
pub open spec fn labelling_begins(
    ctx: SituationContext,
    messages: Seq<Message>,
    person_name: PersonName,
    participants: Vec<String>,
    scene_name: Option<String>,
    scene_description: Option<String>,
    res: SituationStep,
) -> bool {
    exists|sub: LinesStep|
        #[trigger] lines_from(LineStyle::Situation, messages, ctx.person_uuid, 0, Seq::empty(), sub)
            && after_lines(sub, person_name, participants, scene_name, scene_description, res)
}

fn finish_lines(
    sub: LinesStep,
    person_name: PersonName,
    participants: Vec<String>,
    scene_name: Option<String>,
    scene_description: Option<String>,
) -> (res: SituationStep)
    ensures
        after_lines(sub, person_name, participants, scene_name, scene_description, res),
{
    let (lines, n) = sub;
    match n {
        Next::Call(call) => (
            SceneSituation::Labelling { lines, person_name, participants, scene_name, scene_description },
            Next::Call(call),
        ),
        Next::Done(Err(e)) => (SceneSituation::Finished, Next::Done(Err(e))),
        Next::Done(Ok(ls)) => {
            let sit = Situation::new(
                Input {
                    person_name: person_name.0,
                    scene_name,
                    scene_description,
                    particpants: participants,
                    messages: ls,
                },
            );
            (SceneSituation::Finished, Next::Done(Ok(sit)))
        },
    }
}

fn begin_labelling(
    ctx: SituationContext,
    messages: Vec<Message>,
    person_name: PersonName,
    participants: Vec<String>,
    scene_name: Option<String>,
    scene_description: Option<String>,
) -> (res: SituationStep)
    ensures
        labelling_begins(ctx, messages@, person_name, participants, scene_name, scene_description, res),
{
    let ghost ms = messages@;
    let sub = LabelledLines::begin(LineStyle::Situation, ctx.person_uuid, messages);
    let ghost sub_g = sub;
    let res = finish_lines(sub, person_name, participants, scene_name, scene_description);
    assert(lines_from(LineStyle::Situation, ms, ctx.person_uuid, 0, Seq::empty(), sub_g));
    res
}

impl SceneSituation {
    /// Starts by asking for the person's name.
    pub fn start(ctx: SituationContext, messages: Vec<Message>) -> (res: (SceneSituation, WorkerCall))
        ensures
            res.0 == (SceneSituation::AwaitingName { ctx, messages }),
            res.1 == (WorkerCall::GetPersonsName { person_uuid: ctx.person_uuid }),
    {
        (SceneSituation::AwaitingName { ctx, messages }, WorkerCall::GetPersonsName { person_uuid: ctx.person_uuid })
    }

    /// The reply each stage waits for.
    pub open spec fn awaits(self, reply: Reply) -> bool {
        match self {
            SceneSituation::AwaitingName { .. } => reply is Name,
            SceneSituation::AwaitingParticipants { .. } => reply is Participants,
            SceneSituation::AwaitingSceneName { .. } => reply is MaybeText,
            SceneSituation::AwaitingSceneDescription { .. } => reply is MaybeText,
            SceneSituation::Labelling { lines, .. } => lines.awaits(reply),
            SceneSituation::Finished => false,
        }
    }

    /// One step of building a situation: the person's name, then who is
    /// present, then (for a look at the scene) its name and description, then
    /// the labelled messages.
    pub open spec fn step(self, reply: Reply, res: SituationStep) -> bool {
        match (self, reply) {
            (SceneSituation::AwaitingName { ctx, messages }, Reply::Name(r)) => match r {
                Err(e) => res.1 == Next::<Result<Situation, Error>>::Done(Err(Error::FailedToGetPersonsName(e))),
                Ok(person_name) => {
                    &&& res.0 == (SceneSituation::AwaitingParticipants { ctx, messages, person_name })
                    &&& res.1 == Next::<Result<Situation, Error>>::Call(
                        WorkerCall::GetSceneCurrentParticipants { scene_uuid: ctx.scene_uuid },
                    )
                },
            },
            (SceneSituation::AwaitingParticipants { ctx, messages, person_name }, Reply::Participants(r)) => match r {
                Err(e) => res.1 == Next::<Result<Situation, Error>>::Done(
                    Err(Error::FailedToGetSceneParticipants { scene_uuid: ctx.scene_uuid, details: e }),
                ),
                Ok(ps) => if ctx.include_scene_context {
                    &&& match res.0 {
                        SceneSituation::AwaitingSceneName { ctx: c, messages: m, person_name: n, participants } =>
                            c == ctx && m == messages && n == person_name && string_views(participants@)
                                == participant_names(ps@),
                        _ => false,
                    }
                    &&& res.1 == Next::<Result<Situation, Error>>::Call(WorkerCall::GetSceneName { scene_uuid: ctx.scene_uuid })
                } else {
                    exists|participants: Vec<String>|
                        string_views(participants@) == participant_names(ps@) && #[trigger] labelling_begins(
                            ctx,
                            messages@,
                            person_name,
                            participants,
                            None,
                            None,
                            res,
                        )
                },
            },
            (SceneSituation::AwaitingSceneName { ctx, messages, person_name, participants }, Reply::MaybeText(r)) => match r {
                Err(e) => res.1 == Next::<Result<Situation, Error>>::Done(Err(Error::GetPersonReaction(e))),
                Ok(scene_name) => {
                    &&& res.0 == (SceneSituation::AwaitingSceneDescription { ctx, messages, person_name, participants, scene_name })
                    &&& res.1 == Next::<Result<Situation, Error>>::Call(
                        WorkerCall::GetSceneDescription { scene_uuid: ctx.scene_uuid },
                    )
                },
            },
            (SceneSituation::AwaitingSceneDescription { ctx, messages, person_name, participants, scene_name }, Reply::MaybeText(r)) => match r {
                Err(e) => res.1 == Next::<Result<Situation, Error>>::Done(Err(Error::GetPersonReaction(e))),
                Ok(scene_description) => labelling_begins(
                    ctx,
                    messages@,
                    person_name,
                    participants,
                    scene_name,
                    scene_description,
                    res,
                ),
            },
            (SceneSituation::Labelling { lines, person_name, participants, scene_name, scene_description }, _) =>
                exists|sub: LinesStep|
                    #[trigger] lines.step(reply, sub) && after_lines(
                        sub,
                        person_name,
                        participants,
                        scene_name,
                        scene_description,
                        res,
                    ),
            _ => false,
        }
    }

    /// Goes on with the reply.
    pub fn resume(self, reply: Reply) -> (res: SituationStep)
        requires
            self.awaits(reply),
        ensures
            self.step(reply, res),
    {
        match self {
            SceneSituation::AwaitingName { ctx, messages } => match reply {
                Reply::Name(Ok(person_name)) => (
                    SceneSituation::AwaitingParticipants { ctx, messages, person_name },
                    Next::Call(WorkerCall::GetSceneCurrentParticipants { scene_uuid: ctx.scene_uuid }),
                ),
                Reply::Name(Err(e)) => (SceneSituation::Finished, Next::Done(Err(Error::FailedToGetPersonsName(e)))),
                _ => (SceneSituation::Finished, Next::Done(Err(Error::FailedToGetPersonsName(String::new())))),
            },
            SceneSituation::AwaitingParticipants { ctx, messages, person_name } => match reply {
                Reply::Participants(Ok(ps)) => {
                    let participants = participant_names_of(&ps);
                    if ctx.include_scene_context {
                        (
                            SceneSituation::AwaitingSceneName { ctx, messages, person_name, participants },
                            Next::Call(WorkerCall::GetSceneName { scene_uuid: ctx.scene_uuid }),
                        )
                    } else {
                        let ghost p_g = participants;
                        let res = begin_labelling(ctx, messages, person_name, participants, None, None);
                        assert(labelling_begins(ctx, messages@, person_name, p_g, None, None, res));
                        res
                    }
                },
                Reply::Participants(Err(e)) => (
                    SceneSituation::Finished,
                    Next::Done(Err(Error::FailedToGetSceneParticipants { scene_uuid: ctx.scene_uuid, details: e })),
                ),
                _ => (SceneSituation::Finished, Next::Done(Err(Error::FailedToGetPersonsName(String::new())))),
            },
            SceneSituation::AwaitingSceneName { ctx, messages, person_name, participants } => match reply {
                Reply::MaybeText(Ok(scene_name)) => (
                    SceneSituation::AwaitingSceneDescription { ctx, messages, person_name, participants, scene_name },
                    Next::Call(WorkerCall::GetSceneDescription { scene_uuid: ctx.scene_uuid }),
                ),
                Reply::MaybeText(Err(e)) => (SceneSituation::Finished, Next::Done(Err(Error::GetPersonReaction(e)))),
                _ => (SceneSituation::Finished, Next::Done(Err(Error::FailedToGetPersonsName(String::new())))),
            },
            SceneSituation::AwaitingSceneDescription { ctx, messages, person_name, participants, scene_name } => match reply {
                Reply::MaybeText(Ok(scene_description)) => begin_labelling(
                    ctx,
                    messages,
                    person_name,
                    participants,
                    scene_name,
                    scene_description,
                ),
                Reply::MaybeText(Err(e)) => (SceneSituation::Finished, Next::Done(Err(Error::GetPersonReaction(e)))),
                _ => (SceneSituation::Finished, Next::Done(Err(Error::FailedToGetPersonsName(String::new())))),
            },
            SceneSituation::Labelling { lines, person_name, participants, scene_name, scene_description } => {
                let ghost lines_g = lines;
                let sub = lines.resume(reply);
                let ghost sub_g = sub;
                let res = finish_lines(sub, person_name, participants, scene_name, scene_description);
                assert(lines_g.step(reply, sub_g));
                res
            },
            SceneSituation::Finished => (SceneSituation::Finished, Next::Done(Err(Error::FailedToGetPersonsName(String::new())))),
        }
    }
}

} // verus!
