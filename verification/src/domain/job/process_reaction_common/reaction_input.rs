//! Preparing a reaction: the person's situation, the situation shown with the
//! new events, what the person brings to it, a summary of older events, and
//! the new events themselves.
use crate::capability::GetArgs;
use crate::domain::event::{events_prompt_list, Event};
use crate::domain::job::effects::{Next, Reply, WorkerCall};
use crate::domain::job::process_reaction_common::reflection_input::{
    InputStep, ReflectionInput, ReflectionInputBuild,
};
use crate::domain::job::process_reaction_common::scene_situation::{
    lines_from, LabelledLines, LineStyle, LinesStep, SceneSituation, SituationContext, SituationStep,
};
use crate::domain::job::process_reaction_common::{
    description_prefix, description_prefix_text, filter_reaction_events, gaze_event, gaze_event_text,
    join_event, join_event_text, kept_reaction_events, message_section, message_section_text,
    reaction_situation, reaction_situation_text, Error, SceneReactionTrigger,
};
use crate::domain::message::{copy_messages, Message};
use crate::domain::person_uuid::PersonUuid;
use crate::domain::scene_uuid::SceneUuid;
use crate::domain::situation::{opt_view, Situation};
use crate::text::string_views;
use vstd::prelude::*;

verus! {

/// Everything a reaction is carried out with.
#[derive(Debug)]
pub struct ReactionExecutionInput {
    pub situation: Situation,
    pub reflection_input: ReflectionInput,
    pub reaction_situation: String,
    pub description_prefix: Option<String>,
}

/// Whom a reaction is prepared for, and why.
#[derive(Debug, Clone, Copy)]
pub struct InputContext {
    pub person_uuid: PersonUuid,
    pub scene_uuid: SceneUuid,
    pub trigger: SceneReactionTrigger,
}

/// What has been gathered before the new events are written.
#[derive(Debug)]
pub struct Gathered {
    pub situation: Situation,
    pub prompt_situation: String,
    pub reflection_input: ReflectionInput,
    pub recent_events_summary: String,
}

/// Where preparing a reaction stands.
#[derive(Debug)]
pub enum ReactionInputBuild {
    Situating { sub: SceneSituation, ctx: InputContext, pending: Vec<Message> },
    PromptSituating { sub: SceneSituation, ctx: InputContext, pending: Vec<Message>, situation: Situation },
    Reflecting {
        sub: ReflectionInputBuild,
        ctx: InputContext,
        pending: Vec<Message>,
        situation: Situation,
        prompt_situation: String,
    },
    AwaitingEvents {
        ctx: InputContext,
        pending: Vec<Message>,
        situation: Situation,
        prompt_situation: String,
        reflection_input: ReflectionInput,
    },
    AwaitingSummary {
        ctx: InputContext,
        pending: Vec<Message>,
        situation: Situation,
        prompt_situation: String,
        reflection_input: ReflectionInput,
    },
    MessageLines { sub: LabelledLines, ctx: InputContext, gathered: Gathered },
    AwaitingJoinedName { ctx: InputContext, gathered: Gathered },
    AwaitingGazeName { ctx: InputContext, gathered: Gathered },
    AwaitingGazeDescription { ctx: InputContext, gathered: Gathered, scene_name: String },
    Finished,
}

/// The result type of a step of preparing a reaction.
pub type ReactionInputStep = (ReactionInputBuild, Next<Result<ReactionExecutionInput, Error>>);

/// What a situation is built from for the given trigger.
pub open spec fn situation_context(ctx: InputContext) -> SituationContext {
    SituationContext {
        scene_uuid: ctx.scene_uuid,
        person_uuid: ctx.person_uuid,
        include_scene_context: ctx.trigger is SceneDescriptionGaze,
    }
}

/// The messages shown with the new events: the pending ones for a join,
/// none otherwise.
pub open spec fn prompt_messages(trigger: SceneReactionTrigger, pending: Seq<Message>) -> Seq<Message> {
    match trigger {
        SceneReactionTrigger::PersonJoined { .. } => pending,
        _ => Seq::empty(),
    }
}

/// The situation text shown with the new events: the whole situation for a
/// join, who is present otherwise.
pub open spec fn prompt_situation_text(trigger: SceneReactionTrigger, sit: Situation) -> Seq<char> {
    match trigger {
        SceneReactionTrigger::PersonJoined { .. } => sit.text_spec(),
        _ => sit.people_present_spec(),
    }
}

/// The reaction is prepared, with `section` as its new events.
pub open spec fn finished_with(ctx: InputContext, g: Gathered, section: Seq<char>, res: ReactionInputStep) -> bool {
    match res.1 {
        Next::Done(Ok(input)) => {
            &&& input.situation == g.situation
            &&& input.reflection_input == g.reflection_input
            &&& input.reaction_situation@ == reaction_situation_text(
                ctx.trigger,
                g.recent_events_summary@,
                section,
                g.prompt_situation@,
            )
            &&& opt_view(input.description_prefix) == description_prefix_text(ctx.trigger, section)
        },
        _ => false,
    }
}

fn finish(ctx: InputContext, g: Gathered, section: String) -> (res: ReactionInputStep)
    ensures
        finished_with(ctx, g, section@, res),
{
    let reaction = reaction_situation(
        ctx.trigger,
        g.recent_events_summary.as_str(),
        section.as_str(),
        g.prompt_situation.as_str(),
    );
    let prefix = description_prefix(ctx.trigger, section.as_str());
    (
        ReactionInputBuild::Finished,
        Next::Done(
            Ok(
                ReactionExecutionInput {
                    situation: g.situation,
                    reflection_input: g.reflection_input,
                    reaction_situation: reaction,
                    description_prefix: prefix,
                },
            ),
        ),
    )
}

/// What follows a step of building the person's situation.
pub open spec fn after_situation(sub: SituationStep, ctx: InputContext, pending: Vec<Message>, res: ReactionInputStep) -> bool {
    match sub.1 {
        Next::Call(call) => {
            &&& res.0 == (ReactionInputBuild::Situating { sub: sub.0, ctx, pending })
            &&& res.1 == Next::<Result<ReactionExecutionInput, Error>>::Call(call)
        },
        Next::Done(Err(e)) => res.1 == Next::<Result<ReactionExecutionInput, Error>>::Done(Err(e)),
        Next::Done(Ok(situation)) => {
            &&& match res.0 {
                ReactionInputBuild::PromptSituating { sub: s, ctx: c, pending: p, situation: t } => c == ctx && p == pending
                    && t == situation && match s {
                    SceneSituation::AwaitingName { ctx: sc, messages } => sc == situation_context(ctx)
                        && messages@ == prompt_messages(ctx.trigger, pending@),
                    _ => false,
                },
                _ => false,
            }
            &&& res.1 == Next::<Result<ReactionExecutionInput, Error>>::Call(
                WorkerCall::GetPersonsName { person_uuid: ctx.person_uuid },
            )
        },
    }
}

/// What follows a step of building the situation shown with the new events.
pub open spec fn after_prompt_situation(
    sub: SituationStep,
    ctx: InputContext,
    pending: Vec<Message>,
    situation: Situation,
    res: ReactionInputStep,
) -> bool {
    match sub.1 {
        Next::Call(call) => {
            &&& res.0 == (ReactionInputBuild::PromptSituating { sub: sub.0, ctx, pending, situation })
            &&& res.1 == Next::<Result<ReactionExecutionInput, Error>>::Call(call)
        },
        Next::Done(Err(e)) => res.1 == Next::<Result<ReactionExecutionInput, Error>>::Done(Err(e)),
        Next::Done(Ok(shown)) => {
            &&& match res.0 {
                ReactionInputBuild::Reflecting { sub: s, ctx: c, pending: p, situation: t, prompt_situation } => c == ctx
                    && p == pending && t == situation && prompt_situation@ == prompt_situation_text(ctx.trigger, shown)
                    && match s {
                    ReflectionInputBuild::AwaitingName { person_uuid, scene_uuid, situation: text } => person_uuid
                        == ctx.person_uuid && scene_uuid == ctx.scene_uuid && text@ == situation.text_spec(),
                    _ => false,
                },
                _ => false,
            }
            &&& res.1 == Next::<Result<ReactionExecutionInput, Error>>::Call(
                WorkerCall::GetPersonsName { person_uuid: ctx.person_uuid },
            )
        },
    }
}

/// What follows a step of gathering what the person brings.
pub open spec fn after_reflection_input(
    sub: InputStep,
    ctx: InputContext,
    pending: Vec<Message>,
    situation: Situation,
    prompt_situation: String,
    res: ReactionInputStep,
) -> bool {
    match sub.1 {
        Next::Call(call) => {
            &&& res.0 == (ReactionInputBuild::Reflecting { sub: sub.0, ctx, pending, situation, prompt_situation })
            &&& res.1 == Next::<Result<ReactionExecutionInput, Error>>::Call(call)
        },
        Next::Done(Err(e)) => res.1 == Next::<Result<ReactionExecutionInput, Error>>::Done(Err(e)),
        Next::Done(Ok(reflection_input)) => {
            &&& res.0 == (ReactionInputBuild::AwaitingEvents { ctx, pending, situation, prompt_situation, reflection_input })
            &&& res.1 == Next::<Result<ReactionExecutionInput, Error>>::Call(
                WorkerCall::GetEvents { args: GetArgs { person_uuid: Some(ctx.person_uuid), scene_uuid: None } },
            )
        },
    }
}

/// What follows a step of writing the new message lines.
pub open spec fn after_message_lines(sub: LinesStep, ctx: InputContext, gathered: Gathered, res: ReactionInputStep) -> bool {
    match sub.1 {
        Next::Call(call) => {
            &&& res.0 == (ReactionInputBuild::MessageLines { sub: sub.0, ctx, gathered })
            &&& res.1 == Next::<Result<ReactionExecutionInput, Error>>::Call(call)
        },
        Next::Done(Err(e)) => res.1 == Next::<Result<ReactionExecutionInput, Error>>::Done(Err(e)),
        Next::Done(Ok(lines)) => finished_with(ctx, gathered, message_section_text(string_views(lines@)), res),
    }
}

fn continue_situation(sub: SituationStep, ctx: InputContext, pending: Vec<Message>) -> (res: ReactionInputStep)
    ensures
        after_situation(sub, ctx, pending, res),
{
    let (s, n) = sub;
    match n {
        Next::Call(call) => (ReactionInputBuild::Situating { sub: s, ctx, pending }, Next::Call(call)),
        Next::Done(Err(e)) => (ReactionInputBuild::Finished, Next::Done(Err(e))),
        Next::Done(Ok(situation)) => {
            let messages = match ctx.trigger {
                SceneReactionTrigger::PersonJoined { .. } => copy_messages(&pending),
                _ => Vec::new(),
            };
            let sctx = SituationContext {
                scene_uuid: ctx.scene_uuid,
                person_uuid: ctx.person_uuid,
                include_scene_context: match ctx.trigger {
                    SceneReactionTrigger::SceneDescriptionGaze => true,
                    _ => false,
                },
            };
            let (sub2, call) = SceneSituation::start(sctx, messages);
            (ReactionInputBuild::PromptSituating { sub: sub2, ctx, pending, situation }, Next::Call(call))
        },
    }
}

fn continue_prompt_situation(sub: SituationStep, ctx: InputContext, pending: Vec<Message>, situation: Situation) -> (res: ReactionInputStep)
    ensures
        after_prompt_situation(sub, ctx, pending, situation, res),
{
    let (s, n) = sub;
    match n {
        Next::Call(call) => (ReactionInputBuild::PromptSituating { sub: s, ctx, pending, situation }, Next::Call(call)),
        Next::Done(Err(e)) => (ReactionInputBuild::Finished, Next::Done(Err(e))),
        Next::Done(Ok(shown)) => {
            let prompt_situation = match ctx.trigger {
                SceneReactionTrigger::PersonJoined { .. } => shown.to_string(),
                _ => shown.to_people_present_text(),
            };
            let text = situation.to_string();
            let (sub2, call) = ReflectionInputBuild::start(ctx.person_uuid, ctx.scene_uuid, text);
            (ReactionInputBuild::Reflecting { sub: sub2, ctx, pending, situation, prompt_situation }, Next::Call(call))
        },
    }
}

fn continue_reflection_input(
    sub: InputStep,
    ctx: InputContext,
    pending: Vec<Message>,
    situation: Situation,
    prompt_situation: String,
) -> (res: ReactionInputStep)
    ensures
        after_reflection_input(sub, ctx, pending, situation, prompt_situation, res),
{
    let (s, n) = sub;
    match n {
        Next::Call(call) => (
            ReactionInputBuild::Reflecting { sub: s, ctx, pending, situation, prompt_situation },
            Next::Call(call),
        ),
        Next::Done(Err(e)) => (ReactionInputBuild::Finished, Next::Done(Err(e))),
        Next::Done(Ok(reflection_input)) => {
            let args = GetArgs::new().with_person_uuid(ctx.person_uuid);
            (
                ReactionInputBuild::AwaitingEvents { ctx, pending, situation, prompt_situation, reflection_input },
                Next::Call(WorkerCall::GetEvents { args }),
            )
        },
    }
}

fn continue_message_lines(sub: LinesStep, ctx: InputContext, gathered: Gathered) -> (res: ReactionInputStep)
    ensures
        after_message_lines(sub, ctx, gathered, res),
{
    let (s, n) = sub;
    match n {
        Next::Call(call) => (ReactionInputBuild::MessageLines { sub: s, ctx, gathered }, Next::Call(call)),
        Next::Done(Err(e)) => (ReactionInputBuild::Finished, Next::Done(Err(e))),
        Next::Done(Ok(lines)) => {
            let section = message_section(&lines);
            finish(ctx, gathered, section)
        },
    }
}

impl ReactionInputBuild {
    /// Starts preparing a reaction of `ctx.person_uuid` to the pending
    /// messages, or to the trigger: the person's situation comes first.
    pub fn start(ctx: InputContext, pending: Vec<Message>) -> (res: (ReactionInputBuild, WorkerCall))
        ensures
            match res.0 {
                ReactionInputBuild::Situating { sub, ctx: c, pending: p } => c == ctx && p == pending && match sub {
                    SceneSituation::AwaitingName { ctx: sc, messages } => sc == situation_context(ctx) && messages@
                        == pending@,
                    _ => false,
                },
                _ => false,
            },
            res.1 == (WorkerCall::GetPersonsName { person_uuid: ctx.person_uuid }),
    {
        let sctx = SituationContext {
            scene_uuid: ctx.scene_uuid,
            person_uuid: ctx.person_uuid,
            include_scene_context: match ctx.trigger {
                SceneReactionTrigger::SceneDescriptionGaze => true,
                _ => false,
            },
        };
        let (sub, call) = SceneSituation::start(sctx, copy_messages(&pending));
        (ReactionInputBuild::Situating { sub, ctx, pending }, call)
    }

    /// The reply each stage waits for.
    pub open spec fn awaits(self, reply: Reply) -> bool {
        match self {
            ReactionInputBuild::Situating { sub, .. } => sub.awaits(reply),
            ReactionInputBuild::PromptSituating { sub, .. } => sub.awaits(reply),
            ReactionInputBuild::Reflecting { sub, .. } => sub.awaits(reply),
            ReactionInputBuild::AwaitingEvents { .. } => reply is Events,
            ReactionInputBuild::AwaitingSummary { .. } => reply is Text,
            ReactionInputBuild::MessageLines { sub, .. } => sub.awaits(reply),
            ReactionInputBuild::AwaitingJoinedName { .. } => reply is Name,
            ReactionInputBuild::AwaitingGazeName { .. } => reply is MaybeText,
            ReactionInputBuild::AwaitingGazeDescription { .. } => reply is MaybeText,
            ReactionInputBuild::Finished => false,
        }
    }

    /// One step of preparing a reaction. After the situations and what the
    /// person brings, the person's recent events, less those that record the
    /// pending messages, are summarized; then the new events are written: the
    /// pending messages, the person who joined, or the scene's name and
    /// description.
    pub open spec fn step(self, reply: Reply, res: ReactionInputStep) -> bool {
        match (self, reply) {
            (ReactionInputBuild::Situating { sub, ctx, pending }, _) => exists|s: SituationStep|
                #[trigger] sub.step(reply, s) && after_situation(s, ctx, pending, res),
            (ReactionInputBuild::PromptSituating { sub, ctx, pending, situation }, _) => exists|s: SituationStep|
                #[trigger] sub.step(reply, s) && after_prompt_situation(s, ctx, pending, situation, res),
            (ReactionInputBuild::Reflecting { sub, ctx, pending, situation, prompt_situation }, _) => exists|s: InputStep|
                #[trigger] sub.step(reply, s) && after_reflection_input(s, ctx, pending, situation, prompt_situation, res),
            (ReactionInputBuild::AwaitingEvents { ctx, pending, situation, prompt_situation, reflection_input }, Reply::Events(r)) => match r {
                Err(e) => res.1 == Next::<Result<ReactionExecutionInput, Error>>::Done(Err(Error::FailedToGetEvents(e))),
                Ok(events) => {
                    &&& res.0 == (ReactionInputBuild::AwaitingSummary { ctx, pending, situation, prompt_situation, reflection_input })
                    &&& match res.1 {
                        Next::Call(WorkerCall::SummarizeReactionEvents { events_text }) => events_text@ == events_prompt_list(
                            kept_reaction_events(events@, pending@),
                        ),
                        _ => false,
                    }
                },
            },
            (ReactionInputBuild::AwaitingSummary { ctx, pending, situation, prompt_situation, reflection_input }, Reply::Text(r)) => match r {
                Err(e) => res.1 == Next::<Result<ReactionExecutionInput, Error>>::Done(Err(Error::GetPersonReaction(e))),
                Ok(recent_events_summary) => {
                    let gathered = Gathered { situation, prompt_situation, reflection_input, recent_events_summary };
                    match ctx.trigger {
                        SceneReactionTrigger::NewMessages => exists|s: LinesStep|
                            #[trigger] lines_from(LineStyle::NewMessageEvent, pending@, ctx.person_uuid, 0, Seq::empty(), s)
                                && after_message_lines(s, ctx, gathered, res),
                        SceneReactionTrigger::PersonJoined { joined_person_uuid } => {
                            &&& res.0 == (ReactionInputBuild::AwaitingJoinedName { ctx, gathered })
                            &&& res.1 == Next::<Result<ReactionExecutionInput, Error>>::Call(
                                WorkerCall::GetPersonsName { person_uuid: joined_person_uuid },
                            )
                        },
                        SceneReactionTrigger::SceneDescriptionGaze => {
                            &&& res.0 == (ReactionInputBuild::AwaitingGazeName { ctx, gathered })
                            &&& res.1 == Next::<Result<ReactionExecutionInput, Error>>::Call(
                                WorkerCall::GetSceneName { scene_uuid: ctx.scene_uuid },
                            )
                        },
                    }
                },
            },
            (ReactionInputBuild::MessageLines { sub, ctx, gathered }, _) => exists|s: LinesStep|
                #[trigger] sub.step(reply, s) && after_message_lines(s, ctx, gathered, res),
            (ReactionInputBuild::AwaitingJoinedName { ctx, gathered }, Reply::Name(r)) => match r {
                Err(e) => res.1 == Next::<Result<ReactionExecutionInput, Error>>::Done(Err(Error::FailedToGetPersonsName(e))),
                Ok(name) => finished_with(ctx, gathered, join_event_text(name.0@), res),
            },
            (ReactionInputBuild::AwaitingGazeName { ctx, gathered }, Reply::MaybeText(r)) => match r {
                Err(e) => res.1 == Next::<Result<ReactionExecutionInput, Error>>::Done(
                    Err(Error::FailedToGetSceneName { scene_uuid: ctx.scene_uuid, details: e }),
                ),
                Ok(None) => res.1 == Next::<Result<ReactionExecutionInput, Error>>::Done(
                    Err(Error::SceneNameNotFound { scene_uuid: ctx.scene_uuid }),
                ),
                Ok(Some(scene_name)) => {
                    &&& res.0 == (ReactionInputBuild::AwaitingGazeDescription { ctx, gathered, scene_name })
                    &&& res.1 == Next::<Result<ReactionExecutionInput, Error>>::Call(
                        WorkerCall::GetSceneDescription { scene_uuid: ctx.scene_uuid },
                    )
                },
            },
            (ReactionInputBuild::AwaitingGazeDescription { ctx, gathered, scene_name }, Reply::MaybeText(r)) => match r {
                Err(e) => res.1 == Next::<Result<ReactionExecutionInput, Error>>::Done(
                    Err(Error::FailedToGetSceneDescription { scene_uuid: ctx.scene_uuid, details: e }),
                ),
                Ok(None) => res.1 == Next::<Result<ReactionExecutionInput, Error>>::Done(
                    Err(Error::SceneDescriptionNotFound { scene_uuid: ctx.scene_uuid }),
                ),
                Ok(Some(description)) => finished_with(ctx, gathered, gaze_event_text(scene_name@, description@), res),
            },
            _ => false,
        }
    }

    /// Goes on with the reply.
    pub fn resume(self, reply: Reply) -> (res: ReactionInputStep)
        requires
            self.awaits(reply),
        ensures
            self.step(reply, res),
    {
        match self {
            ReactionInputBuild::Situating { sub, ctx, pending } => {
                let ghost sub_g = sub;
                let s = sub.resume(reply);
                let ghost s_g = s;
                let res = continue_situation(s, ctx, pending);
                assert(sub_g.step(reply, s_g));
                res
            },
            ReactionInputBuild::PromptSituating { sub, ctx, pending, situation } => {
                let ghost sub_g = sub;
                let s = sub.resume(reply);
                let ghost s_g = s;
                let res = continue_prompt_situation(s, ctx, pending, situation);
                assert(sub_g.step(reply, s_g));
                res
            },
            ReactionInputBuild::Reflecting { sub, ctx, pending, situation, prompt_situation } => {
                let ghost sub_g = sub;
                let s = sub.resume(reply);
                let ghost s_g = s;
                let res = continue_reflection_input(s, ctx, pending, situation, prompt_situation);
                assert(sub_g.step(reply, s_g));
                res
            },
            ReactionInputBuild::AwaitingEvents { ctx, pending, situation, prompt_situation, reflection_input } => match reply {
                Reply::Events(Ok(events)) => {
                    let kept = filter_reaction_events(events, &pending);
                    let events_text = Event::many_to_prompt_list(kept);
                    (
                        ReactionInputBuild::AwaitingSummary { ctx, pending, situation, prompt_situation, reflection_input },
                        Next::Call(WorkerCall::SummarizeReactionEvents { events_text }),
                    )
                },
                Reply::Events(Err(e)) => (ReactionInputBuild::Finished, Next::Done(Err(Error::FailedToGetEvents(e)))),
                _ => (ReactionInputBuild::Finished, Next::Done(Err(Error::FailedToGetEvents(String::new())))),
            },
            ReactionInputBuild::AwaitingSummary { ctx, pending, situation, prompt_situation, reflection_input } => match reply {
                Reply::Text(Ok(recent_events_summary)) => {
                    let gathered = Gathered { situation, prompt_situation, reflection_input, recent_events_summary };
                    match ctx.trigger {
                        SceneReactionTrigger::NewMessages => {
                            let ghost ms = pending@;
                            let s = LabelledLines::begin(LineStyle::NewMessageEvent, ctx.person_uuid, pending);
                            let ghost s_g = s;
                            let ghost g_g = gathered;
                            let res = continue_message_lines(s, ctx, gathered);
                            assert(lines_from(LineStyle::NewMessageEvent, ms, ctx.person_uuid, 0, Seq::empty(), s_g));
                            assert(after_message_lines(s_g, ctx, g_g, res));
                            res
                        },
                        SceneReactionTrigger::PersonJoined { joined_person_uuid } => (
                            ReactionInputBuild::AwaitingJoinedName { ctx, gathered },
                            Next::Call(WorkerCall::GetPersonsName { person_uuid: joined_person_uuid }),
                        ),
                        SceneReactionTrigger::SceneDescriptionGaze => (
                            ReactionInputBuild::AwaitingGazeName { ctx, gathered },
                            Next::Call(WorkerCall::GetSceneName { scene_uuid: ctx.scene_uuid }),
                        ),
                    }
                },
                Reply::Text(Err(e)) => (ReactionInputBuild::Finished, Next::Done(Err(Error::GetPersonReaction(e)))),
                _ => (ReactionInputBuild::Finished, Next::Done(Err(Error::GetPersonReaction(String::new())))),
            },
            ReactionInputBuild::MessageLines { sub, ctx, gathered } => {
                let ghost sub_g = sub;
                let s = sub.resume(reply);
                let ghost s_g = s;
                let res = continue_message_lines(s, ctx, gathered);
                assert(sub_g.step(reply, s_g));
                res
            },
            ReactionInputBuild::AwaitingJoinedName { ctx, gathered } => match reply {
                Reply::Name(Ok(name)) => {
                    let section = join_event(name.0.as_str());
                    finish(ctx, gathered, section)
                },
                Reply::Name(Err(e)) => (ReactionInputBuild::Finished, Next::Done(Err(Error::FailedToGetPersonsName(e)))),
                _ => (ReactionInputBuild::Finished, Next::Done(Err(Error::GetPersonReaction(String::new())))),
            },
            ReactionInputBuild::AwaitingGazeName { ctx, gathered } => match reply {
                Reply::MaybeText(Ok(Some(scene_name))) => (
                    ReactionInputBuild::AwaitingGazeDescription { ctx, gathered, scene_name },
                    Next::Call(WorkerCall::GetSceneDescription { scene_uuid: ctx.scene_uuid }),
                ),
                Reply::MaybeText(Ok(None)) => (
                    ReactionInputBuild::Finished,
                    Next::Done(Err(Error::SceneNameNotFound { scene_uuid: ctx.scene_uuid })),
                ),
                Reply::MaybeText(Err(e)) => (
                    ReactionInputBuild::Finished,
                    Next::Done(Err(Error::FailedToGetSceneName { scene_uuid: ctx.scene_uuid, details: e })),
                ),
                _ => (ReactionInputBuild::Finished, Next::Done(Err(Error::GetPersonReaction(String::new())))),
            },
            ReactionInputBuild::AwaitingGazeDescription { ctx, gathered, scene_name } => match reply {
                Reply::MaybeText(Ok(Some(description))) => {
                    let section = gaze_event(scene_name.as_str(), description.as_str());
                    finish(ctx, gathered, section)
                },
                Reply::MaybeText(Ok(None)) => (
                    ReactionInputBuild::Finished,
                    Next::Done(Err(Error::SceneDescriptionNotFound { scene_uuid: ctx.scene_uuid })),
                ),
                Reply::MaybeText(Err(e)) => (
                    ReactionInputBuild::Finished,
                    Next::Done(Err(Error::FailedToGetSceneDescription { scene_uuid: ctx.scene_uuid, details: e })),
                ),
                _ => (ReactionInputBuild::Finished, Next::Done(Err(Error::GetPersonReaction(String::new())))),
            },
            ReactionInputBuild::Finished => (ReactionInputBuild::Finished, Next::Done(Err(Error::GetPersonReaction(String::new())))),
        }
    }
}

} // verus!
