//! The actions a person can choose, the choice tool offered to the model, and
//! the reading of the model's choice.
use crate::json::{as_str_spec, as_u64_spec, json_compact_text, json_to_text, member_views, Json, JsonV};
use crate::nice_display::NiceDisplay;
use crate::open_ai::tool::{Tool, ToolFunction, ToolFunctionParameter};
use crate::open_ai::tool_call::{ToolCall, ToolCallV};
use crate::text::{decimal_text, str_eq, u64_text};
use vstd::prelude::*;
use vstd::string::*;

verus! {

/// The kinds of action a person can choose.
#[derive(Debug, Clone, Copy, PartialEq, Eq, Structural)]
pub enum PersonActionKind {
    Wait,
    Hibernate,
    Idle,
    SayInScene,
    MoveToScene,
}

/// Whether a person reflects after acting.
#[derive(Debug, Clone, Copy, PartialEq, Eq, Structural)]
pub enum ReflectionDecision {
    Reflection,
    NoReflection,
}

/// The name of a reflection decision in the choice tool.
pub open spec fn reflection_name(r: ReflectionDecision) -> Seq<char> {
    match r {
        ReflectionDecision::Reflection => "reflection"@,
        ReflectionDecision::NoReflection => "no_reflection"@,
    }
}

/// The name of an action kind in the choice tool.
pub open spec fn action_kind_name(k: PersonActionKind) -> Seq<char> {
    match k {
        PersonActionKind::Wait => "wait"@,
        PersonActionKind::Hibernate => "hibernate"@,
        PersonActionKind::Idle => "idle"@,
        PersonActionKind::SayInScene => "say in scene"@,
        PersonActionKind::MoveToScene => "move to scene"@,
    }
}

/// The names of all action kinds, in the order offered to the model.
pub open spec fn all_action_names_spec() -> Seq<Seq<char>> {
    seq!["wait"@, "hibernate"@, "idle"@, "say in scene"@, "move to scene"@]
}

/// The names of both reflection decisions, in the order offered to the model.
pub open spec fn all_reflection_names_spec() -> Seq<Seq<char>> {
    seq!["no_reflection"@, "reflection"@]
}

/// Whether `p` is a string-choice parameter with the given name, requiredness
/// and values.
pub open spec fn is_string_enum_param(p: ToolFunctionParameter, name: Seq<char>, required: bool, values: Seq<Seq<char>>) -> bool {
    match p {
        ToolFunctionParameter::StringEnum { name: n, required: r, values: v, .. } => n@ == name && r
            == required && crate::text::string_views(v@) == values,
        _ => false,
    }
}

/// Whether `p` is a free-text parameter with the given name and requiredness.
pub open spec fn is_plain_param(p: ToolFunctionParameter, name: Seq<char>, required: bool) -> bool {
    match p {
        ToolFunctionParameter::String { name: n, required: r, .. } => n@ == name && r == required,
        _ => false,
    }
}

/// Whether `p` is an integer parameter with the given name and requiredness.
pub open spec fn is_integer_param(p: ToolFunctionParameter, name: Seq<char>, required: bool) -> bool {
    match p {
        ToolFunctionParameter::Integer { name: n, required: r, .. } => n@ == name && r == required,
        _ => false,
    }
}

impl ReflectionDecision {
    /// The name of the decision in the choice tool.
    pub fn to_name(&self) -> (res: String)
        ensures
            res@ == reflection_name(*self),
    {
        match self {
            ReflectionDecision::Reflection => String::from_str("reflection"),
            ReflectionDecision::NoReflection => String::from_str("no_reflection"),
        }
    }

    /// `no_reflection` and `reflection`.
    pub fn all_names() -> (res: Vec<String>)
        ensures
            crate::text::string_views(res@) == all_reflection_names_spec(),
    {
        let res = vec![
            ReflectionDecision::NoReflection.to_name(),
            ReflectionDecision::Reflection.to_name(),
        ];
        proof {
            assert(crate::text::string_views(res@) =~= all_reflection_names_spec());
        }
        res
    }
}

impl PersonActionKind {
    /// The name of the action kind in the choice tool.
    pub fn to_name(&self) -> (res: String)
        ensures
            res@ == action_kind_name(*self),
    {
        match self {
            PersonActionKind::Wait => String::from_str("wait"),
            PersonActionKind::Hibernate => String::from_str("hibernate"),
            PersonActionKind::Idle => String::from_str("idle"),
            PersonActionKind::SayInScene => String::from_str("say in scene"),
            PersonActionKind::MoveToScene => String::from_str("move to scene"),
        }
    }

    /// The names of all action kinds, in order.
    pub fn all_action_names() -> (res: Vec<String>)
        ensures
            crate::text::string_views(res@) == all_action_names_spec(),
    {
        let res = vec![
            PersonActionKind::Wait.to_name(),
            PersonActionKind::Hibernate.to_name(),
            PersonActionKind::Idle.to_name(),
            PersonActionKind::SayInScene.to_name(),
            PersonActionKind::MoveToScene.to_name(),
        ];
        proof {
            assert(crate::text::string_views(res@) =~= all_action_names_spec());
        }
        res
    }

    /// The `choose_action` tool: a required reflection choice, a required
    /// action, and the optional comment, destination scene, scene and duration.
    pub fn to_choice_tool() -> (res: Tool)
        ensures
            match res {
                Tool::FunctionCall(f) => {
                    &&& f.name@ == "choose_action"@
                    &&& f.parameters@.len() == 6
                    &&& is_string_enum_param(f.parameters@[0], "reflection"@, true, all_reflection_names_spec())
                    &&& is_string_enum_param(f.parameters@[1], "action"@, true, all_action_names_spec())
                    &&& is_plain_param(f.parameters@[2], "comment"@, false)
                    &&& is_plain_param(f.parameters@[3], "destination_scene_name"@, false)
                    &&& is_plain_param(f.parameters@[4], "scene_name"@, false)
                    &&& is_integer_param(f.parameters@[5], "duration"@, false)
                },
            },
    {
        let parameters = vec![
            ToolFunctionParameter::StringEnum {
                name: String::from_str("reflection"),
                description: String::from_str("Whether the person should reflect after acting."),
                required: true,
                values: ReflectionDecision::all_names(),
            },
            ToolFunctionParameter::StringEnum {
                name: String::from_str("action"),
                description: String::from_str("The single action to take."),
                required: true,
                values: PersonActionKind::all_action_names(),
            },
            ToolFunctionParameter::String {
                name: String::from_str("comment"),
                description: String::from_str(
                    "What to say if action is say in scene. Write like spoken dialogue, not a document: avoid bullet points, numbered lists, headings, and list-like enumeration.",
                ),
                required: false,
            },
            ToolFunctionParameter::String {
                name: String::from_str("destination_scene_name"),
                description: String::from_str(
                    "Optional destination scene if action is say in scene and the person should leave immediately after speaking.",
                ),
                required: false,
            },
            ToolFunctionParameter::String {
                name: String::from_str("scene_name"),
                description: String::from_str("Scene name to move to if action is move to scene."),
                required: false,
            },
            ToolFunctionParameter::Integer {
                name: String::from_str("duration"),
                description: String::from_str(
                    "How long to wait or hibernate in milliseconds if action is wait or hibernate.",
                ),
                required: false,
            },
        ];
        Tool::FunctionCall(
            ToolFunction::new(
                String::from_str("choose_action"),
                String::from_str(
                    "Choose a single action for the person. Only one action is allowed. Use idle when the person decides to do nothing. Use hibernate for long, uninterrupted sleep. If action is say in scene, the comment should resemble natural speech rather than a document or list. You may also provide destination_scene_name to leave right after speaking.",
                ),
                parameters,
            ),
        )
    }
}

/// An action a person chose.
#[derive(Debug)]
pub enum PersonAction {
    Wait { duration: u64 },
    Hibernate { duration: u64 },
    Idle,
    SayInScene { comment: String, destination_scene_name: Option<String> },
    MoveToScene { scene_name: String },
}

/// The spec form of an action.
pub enum PersonActionV {
    Wait { duration: u64 },
    Hibernate { duration: u64 },
    Idle,
    SayInScene { comment: Seq<char>, destination_scene_name: Option<Seq<char>> },
    MoveToScene { scene_name: Seq<char> },
}

impl View for PersonAction {
    type V = PersonActionV;

    open spec fn view(&self) -> PersonActionV {
        match self {
            PersonAction::Wait { duration } => PersonActionV::Wait { duration: *duration },
            PersonAction::Hibernate { duration } => PersonActionV::Hibernate { duration: *duration },
            PersonAction::Idle => PersonActionV::Idle,
            PersonAction::SayInScene { comment, destination_scene_name } => PersonActionV::SayInScene {
                comment: comment@,
                destination_scene_name: match destination_scene_name {
                    Some(d) => Some(d@),
                    None => None,
                },
            },
            PersonAction::MoveToScene { scene_name } => PersonActionV::MoveToScene {
                scene_name: scene_name@,
            },
        }
    }
}

/// The one-line summary of an action.
pub open spec fn action_summary(a: PersonActionV) -> Seq<char> {
    match a {
        PersonActionV::Wait { duration } => "Waited for "@ + decimal_text(duration as nat)
            + " seconds."@,
        PersonActionV::Hibernate { duration } => "Hibernated for "@ + decimal_text(duration as nat)
            + " seconds."@,
        PersonActionV::Idle => "Did nothing."@,
        PersonActionV::SayInScene { comment, destination_scene_name } => match destination_scene_name {
            Some(scene_name) => "Spoke in scene then left for "@ + scene_name + ": "@ + comment,
            None => "Spoke in scene: "@ + comment,
        },
        PersonActionV::MoveToScene { scene_name } => "Moved to scene: "@ + scene_name,
    }
}

impl PersonAction {
    /// The one-line summary of the action.
    pub fn summarize(&self) -> (res: String)
        ensures
            res@ == action_summary(self@),
    {
        match self {
            PersonAction::Wait { duration } => {
                let mut s = String::from_str("Waited for ");
                let d = u64_text(*duration);
                s.append(d.as_str());
                s.append(" seconds.");
                s
            },
            PersonAction::Hibernate { duration } => {
                let mut s = String::from_str("Hibernated for ");
                let d = u64_text(*duration);
                s.append(d.as_str());
                s.append(" seconds.");
                s
            },
            PersonAction::Idle => String::from_str("Did nothing."),
            PersonAction::SayInScene { comment, destination_scene_name } => match destination_scene_name {
                Some(scene_name) => {
                    let mut s = String::from_str("Spoke in scene then left for ");
                    s.append(scene_name.as_str());
                    s.append(": ");
                    s.append(comment.as_str());
                    s
                },
                None => {
                    let mut s = String::from_str("Spoke in scene: ");
                    s.append(comment.as_str());
                    s
                },
            },
            PersonAction::MoveToScene { scene_name } => {
                let mut s = String::from_str("Moved to scene: ");
                s.append(scene_name.as_str());
                s
            },
        }
    }

    /// A copy of the action.
    pub fn copy(&self) -> (res: Self)
        ensures
            res@ == self@,
    {
        match self {
            PersonAction::Wait { duration } => PersonAction::Wait { duration: *duration },
            PersonAction::Hibernate { duration } => PersonAction::Hibernate { duration: *duration },
            PersonAction::Idle => PersonAction::Idle,
            PersonAction::SayInScene { comment, destination_scene_name } => PersonAction::SayInScene {
                comment: comment.clone(),
                destination_scene_name: match destination_scene_name {
                    Some(d) => Some(d.clone()),
                    None => None,
                },
            },
            PersonAction::MoveToScene { scene_name } => PersonAction::MoveToScene {
                scene_name: scene_name.clone(),
            },
        }
    }
}

/// What a person decided: an action, and whether to reflect.
#[derive(Debug)]
pub struct PersonReaction {
    pub action: PersonAction,
    pub reflection: ReflectionDecision,
}

/// Why the model's choice could not be read. `arguments` holds the compact
/// JSON text of the arguments object.
#[derive(Debug)]
pub enum PersonActionError {
    UnrecognizedAction { action_name: String },
    UnrecognizedParameter { action_name: String, parameter_name: String },
    ParameterMissing { action_name: String, parameter_name: String, arguments: String },
    UnexpectedType { action_name: String, parameter_name: String, wanted_type: String },
    UnrecognizedReflection { reflection_name: String },
}

/// The spec form of a reading error.
pub enum PersonActionErrorV {
    UnrecognizedAction { action_name: Seq<char> },
    UnrecognizedParameter { action_name: Seq<char>, parameter_name: Seq<char> },
    ParameterMissing { action_name: Seq<char>, parameter_name: Seq<char>, arguments: Seq<char> },
    UnexpectedType { action_name: Seq<char>, parameter_name: Seq<char>, wanted_type: Seq<char> },
    UnrecognizedReflection { reflection_name: Seq<char> },
}

impl View for PersonActionError {
    type V = PersonActionErrorV;

    open spec fn view(&self) -> PersonActionErrorV {
        match self {
            PersonActionError::UnrecognizedAction { action_name } =>
                PersonActionErrorV::UnrecognizedAction { action_name: action_name@ },
            PersonActionError::UnrecognizedParameter { action_name, parameter_name } =>
                PersonActionErrorV::UnrecognizedParameter {
                action_name: action_name@,
                parameter_name: parameter_name@,
            },
            PersonActionError::ParameterMissing { action_name, parameter_name, arguments } =>
                PersonActionErrorV::ParameterMissing {
                action_name: action_name@,
                parameter_name: parameter_name@,
                arguments: arguments@,
            },
            PersonActionError::UnexpectedType { action_name, parameter_name, wanted_type } =>
                PersonActionErrorV::UnexpectedType {
                action_name: action_name@,
                parameter_name: parameter_name@,
                wanted_type: wanted_type@,
            },
            PersonActionError::UnrecognizedReflection { reflection_name } =>
                PersonActionErrorV::UnrecognizedReflection { reflection_name: reflection_name@ },
        }
    }
}

/// The explanation of a reading error.
pub open spec fn person_action_error_text(e: PersonActionErrorV) -> Seq<char> {
    match e {
        PersonActionErrorV::UnrecognizedAction { action_name } => "Unrecognized action: "@
            + action_name,
        PersonActionErrorV::UnrecognizedParameter { action_name, parameter_name } =>
            "Unrecognized parameter '"@ + parameter_name + "' for action '"@ + action_name + "'"@,
        PersonActionErrorV::ParameterMissing { action_name, parameter_name, arguments } =>
            "Missing required parameter '"@ + parameter_name + "' for action '"@ + action_name
                + "'. Arguments: "@ + arguments,
        PersonActionErrorV::UnexpectedType { action_name, parameter_name, wanted_type } =>
            "Unexpected type for parameter '"@ + parameter_name + "' in action '"@ + action_name
                + "'. Expected type: "@ + wanted_type,
        PersonActionErrorV::UnrecognizedReflection { reflection_name } =>
            "Unrecognized reflection value: "@ + reflection_name,
    }
}

impl NiceDisplay for PersonActionError {
    open spec fn message_spec(&self) -> Seq<char> {
        person_action_error_text(self@)
    }

    fn message(&self) -> (res: String) {
        let r = self.explain();
        assert(r@ == person_action_error_text(self@));
        assert(self.message_spec() == person_action_error_text(self@));
        r
    }
}

impl PersonActionError {
    /// The explanation of the error.
    pub fn explain(&self) -> (res: String)
        ensures
            res@ == person_action_error_text(self@),
    {
        match self {
            PersonActionError::UnrecognizedAction { action_name } => {
                let mut s = String::from_str("Unrecognized action: ");
                s.append(action_name.as_str());
                s
            },
            PersonActionError::UnrecognizedParameter { action_name, parameter_name } => {
                let mut s = String::from_str("Unrecognized parameter '");
                s.append(parameter_name.as_str());
                s.append("' for action '");
                s.append(action_name.as_str());
                s.append("'");
                s
            },
            PersonActionError::ParameterMissing { action_name, parameter_name, arguments } => {
                let mut s = String::from_str("Missing required parameter '");
                s.append(parameter_name.as_str());
                s.append("' for action '");
                s.append(action_name.as_str());
                s.append("'. Arguments: ");
                s.append(arguments.as_str());
                s
            },
            PersonActionError::UnexpectedType { action_name, parameter_name, wanted_type } => {
                let mut s = String::from_str("Unexpected type for parameter '");
                s.append(parameter_name.as_str());
                s.append("' in action '");
                s.append(action_name.as_str());
                s.append("'. Expected type: ");
                s.append(wanted_type.as_str());
                s
            },
            PersonActionError::UnrecognizedReflection { reflection_name } => {
                let mut s = String::from_str("Unrecognized reflection value: ");
                s.append(reflection_name.as_str());
                s
            },
        }
    }
}
/// The arguments of the choice tool, as read so far.
pub struct ChoiceArgsV {
    pub reflection: Option<Seq<char>>,
    pub action: Option<Seq<char>>,
    pub comment: Option<Seq<char>>,
    pub destination_scene_name: Option<Seq<char>>,
    pub scene_name: Option<Seq<char>>,
    pub duration: Option<u64>,
}

/// Reads the arguments in order: each known name sets its slot (a string slot
/// becomes empty when the value is no string), a `duration` that is no
/// non-negative integer and an unknown name are errors.
pub open spec fn scan_choice_args(tool_name: Seq<char>, args: Seq<(Seq<char>, JsonV)>) -> Result<
    ChoiceArgsV,
    PersonActionErrorV,
>
    decreases args.len(),
{
    if args.len() == 0 {
        Ok(
            ChoiceArgsV {
                reflection: None,
                action: None,
                comment: None,
                destination_scene_name: None,
                scene_name: None,
                duration: None,
            },
        )
    } else {
        match scan_choice_args(tool_name, args.drop_last()) {
            Err(e) => Err(e),
            Ok(a) => {
                let (key, value) = args.last();
                if key == "reflection"@ {
                    Ok(ChoiceArgsV { reflection: as_str_spec(value), ..a })
                } else if key == "action"@ {
                    Ok(ChoiceArgsV { action: as_str_spec(value), ..a })
                } else if key == "comment"@ {
                    Ok(ChoiceArgsV { comment: as_str_spec(value), ..a })
                } else if key == "destination_scene_name"@ {
                    Ok(ChoiceArgsV { destination_scene_name: as_str_spec(value), ..a })
                } else if key == "scene_name"@ {
                    Ok(ChoiceArgsV { scene_name: as_str_spec(value), ..a })
                } else if key == "duration"@ {
                    match as_u64_spec(value) {
                        Some(d) => Ok(ChoiceArgsV { duration: Some(d), ..a }),
                        None => Err(
                            PersonActionErrorV::UnexpectedType {
                                action_name: tool_name,
                                parameter_name: "duration"@,
                                wanted_type: "u64"@,
                            },
                        ),
                    }
                } else {
                    Err(
                        PersonActionErrorV::UnrecognizedParameter {
                            action_name: tool_name,
                            parameter_name: key,
                        },
                    )
                }
            },
        }
    }
}

/// The error for a missing required argument.
pub open spec fn missing_arg(tool_name: Seq<char>, parameter: Seq<char>, args: Seq<(Seq<char>, JsonV)>) -> PersonActionErrorV {
    PersonActionErrorV::ParameterMissing {
        action_name: tool_name,
        parameter_name: parameter,
        arguments: json_compact_text(JsonV::Object(args)),
    }
}

/// The reaction chosen through a `choose_action` tool call.
pub open spec fn reaction_from_tool_call(c: ToolCallV) -> Result<(PersonActionV, ReflectionDecision), PersonActionErrorV> {
    if c.name != "choose_action"@ {
        Err(PersonActionErrorV::UnrecognizedAction { action_name: c.name })
    } else {
        match scan_choice_args(c.name, c.arguments) {
            Err(e) => Err(e),
            Ok(a) => {
                let reflection = match a.reflection {
                    Some(r) => if r == "reflection"@ {
                        Ok(ReflectionDecision::Reflection)
                    } else if r == "no_reflection"@ {
                        Ok(ReflectionDecision::NoReflection)
                    } else {
                        Err(PersonActionErrorV::UnrecognizedReflection { reflection_name: r })
                    },
                    None => Err(missing_arg(c.name, "reflection"@, c.arguments)),
                };
                match reflection {
                    Err(e) => Err(e),
                    Ok(reflection) => match a.action {
                        None => Err(missing_arg(c.name, "action"@, c.arguments)),
                        Some(action) => if action == "say in scene"@ {
                            match a.comment {
                                None => Err(missing_arg(c.name, "comment"@, c.arguments)),
                                Some(comment) => Ok(
                                    (
                                        PersonActionV::SayInScene {
                                            comment,
                                            destination_scene_name: a.destination_scene_name,
                                        },
                                        reflection,
                                    ),
                                ),
                            }
                        } else if action == "wait"@ {
                            match a.duration {
                                None => Err(missing_arg(c.name, "duration"@, c.arguments)),
                                Some(d) => Ok((PersonActionV::Wait { duration: d }, reflection)),
                            }
                        } else if action == "hibernate"@ {
                            match a.duration {
                                None => Err(missing_arg(c.name, "duration"@, c.arguments)),
                                Some(d) => Ok((PersonActionV::Hibernate { duration: d }, reflection)),
                            }
                        } else if action == "idle"@ {
                            Ok((PersonActionV::Idle, reflection))
                        } else if action == "move to scene"@ {
                            match a.scene_name {
                                None => Err(missing_arg(c.name, "scene_name"@, c.arguments)),
                                Some(s) => Ok((PersonActionV::MoveToScene { scene_name: s }, reflection)),
                            }
                        } else {
                            Err(PersonActionErrorV::UnrecognizedAction { action_name: action })
                        },
                    },
                }
            },
        }
    }
}

fn opt_string(o: Option<&str>) -> (res: Option<String>)
    ensures
        match o {
            Some(s) => res matches Some(r) && r@ == s@,
            None => res is None,
        },
{
    match o {
        Some(s) => Some(String::from_str(s)),
        None => None,
    }
}

/// The spec form of an optional string.
pub open spec fn opt_str_view(o: Option<String>) -> Option<Seq<char>> {
    match o {
        Some(s) => Some(s@),
        None => None,
    }
}

fn missing_error(tool_name: &String, parameter: &str, arguments: Vec<(String, Json)>) -> (res: PersonActionError)
    ensures
        res@ == missing_arg(tool_name@, parameter@, member_views(arguments@)),
{
    PersonActionError::ParameterMissing {
        action_name: tool_name.clone(),
        parameter_name: String::from_str(parameter),
        arguments: tool_args_text(arguments),
    }
}

/// The compact JSON text of the arguments object.
fn tool_args_text(args: Vec<(String, Json)>) -> (res: String)
    ensures
        res@ == json_compact_text(JsonV::Object(member_views(args@))),
{
    let obj = Json::Object(args);
    json_to_text(&obj)
}

impl PersonReaction {
    /// Reads the person's reaction from a `choose_action` tool call.
    pub fn from_open_ai_tool_call(tool_call: ToolCall) -> (res: Result<Self, PersonActionError>)
        ensures
            match res {
                Ok(r) => reaction_from_tool_call(tool_call@) == Ok::<
                    (PersonActionV, ReflectionDecision),
                    PersonActionErrorV,
                >((r.action@, r.reflection)),
                Err(e) => reaction_from_tool_call(tool_call@) == Err::<
                    (PersonActionV, ReflectionDecision),
                    PersonActionErrorV,
                >(e@),
            },
    {
        let tool_call_name = tool_call.name;
        let arguments = tool_call.arguments;
        let ghost args_v = member_views(arguments@);
        if !str_eq(tool_call_name.as_str(), "choose_action") {
            return Err(PersonActionError::UnrecognizedAction { action_name: tool_call_name });
        }
        let mut maybe_reflection: Option<String> = None;
        let mut maybe_action: Option<String> = None;
        let mut maybe_comment: Option<String> = None;
        let mut maybe_destination_scene_name: Option<String> = None;
        let mut maybe_scene_name: Option<String> = None;
        let mut maybe_duration: Option<u64> = None;
        proof {
            crate::json::lemma_member_views(arguments@);
            assert(args_v.take(0) =~= Seq::<(Seq<char>, JsonV)>::empty());
        }
        let mut i: usize = 0;
        while i < arguments.len()
            invariant
                i <= arguments.len(),
                args_v == member_views(arguments@),
                tool_call@ == (ToolCallV { name: tool_call_name@, arguments: args_v }),
                tool_call_name@ == "choose_action"@,
                args_v.len() == arguments@.len(),
                forall|k: int|
                    0 <= k < arguments@.len() ==> #[trigger] args_v[k] == (
                        arguments@[k].0@,
                        crate::json::json_view(arguments@[k].1),
                    ),
                scan_choice_args(tool_call_name@, args_v.take(i as int)) == Ok::<
                    ChoiceArgsV,
                    PersonActionErrorV,
                >(
                    ChoiceArgsV {
                        reflection: opt_str_view(maybe_reflection),
                        action: opt_str_view(maybe_action),
                        comment: opt_str_view(maybe_comment),
                        destination_scene_name: opt_str_view(maybe_destination_scene_name),
                        scene_name: opt_str_view(maybe_scene_name),
                        duration: maybe_duration,
                    },
                ),
            decreases arguments.len() - i,
        {
            proof {
                assert(args_v.take(i + 1).drop_last() =~= args_v.take(i as int));
                assert(args_v.take(i + 1).last() == args_v[i as int]);
            }
            let key = arguments[i].0.as_str();
            let value = &arguments[i].1;
            if str_eq(key, "reflection") {
                maybe_reflection = opt_string(value.as_str());
            } else if str_eq(key, "action") {
                maybe_action = opt_string(value.as_str());
            } else if str_eq(key, "comment") {
                maybe_comment = opt_string(value.as_str());
            } else if str_eq(key, "destination_scene_name") {
                maybe_destination_scene_name = opt_string(value.as_str());
            } else if str_eq(key, "scene_name") {
                maybe_scene_name = opt_string(value.as_str());
            } else if str_eq(key, "duration") {
                match value.as_u64() {
                    Some(dur) => {
                        maybe_duration = Some(dur);
                    },
                    None => {
                        proof {
                            lemma_scan_err_extends(tool_call_name@, args_v, i + 1);
                        }
                        return Err(
                            PersonActionError::UnexpectedType {
                                action_name: tool_call_name,
                                parameter_name: String::from_str("duration"),
                                wanted_type: String::from_str("u64"),
                            },
                        );
                    },
                }
            } else {
                proof {
                    lemma_scan_err_extends(tool_call_name@, args_v, i + 1);
                }
                return Err(
                    PersonActionError::UnrecognizedParameter {
                        action_name: tool_call_name,
                        parameter_name: String::from_str(key),
                    },
                );
            }
            i = i + 1;
        }
        proof {
            assert(args_v.take(arguments.len() as int) =~= args_v);
        }
        let reflection = match maybe_reflection {
            Some(value) => {
                if str_eq(value.as_str(), "reflection") {
                    ReflectionDecision::Reflection
                } else if str_eq(value.as_str(), "no_reflection") {
                    ReflectionDecision::NoReflection
                } else {
                    return Err(PersonActionError::UnrecognizedReflection { reflection_name: value });
                }
            },
            None => {
                return Err(missing_error(&tool_call_name, "reflection", arguments));
            },
        };
        let action = match maybe_action {
            Some(a) => a,
            None => {
                return Err(missing_error(&tool_call_name, "action", arguments));
            },
        };
        let action = if str_eq(action.as_str(), "say in scene") {
            match maybe_comment {
                Some(comment) => PersonAction::SayInScene {
                    comment,
                    destination_scene_name: maybe_destination_scene_name,
                },
                None => {
                    return Err(missing_error(&tool_call_name, "comment", arguments));
                },
            }
        } else if str_eq(action.as_str(), "wait") {
            match maybe_duration {
                Some(duration) => PersonAction::Wait { duration },
                None => {
                    return Err(missing_error(&tool_call_name, "duration", arguments));
                },
            }
        } else if str_eq(action.as_str(), "hibernate") {
            match maybe_duration {
                Some(duration) => PersonAction::Hibernate { duration },
                None => {
                    return Err(missing_error(&tool_call_name, "duration", arguments));
                },
            }
        } else if str_eq(action.as_str(), "idle") {
            PersonAction::Idle
        } else if str_eq(action.as_str(), "move to scene") {
            match maybe_scene_name {
                Some(scene_name) => PersonAction::MoveToScene { scene_name },
                None => {
                    return Err(missing_error(&tool_call_name, "scene_name", arguments));
                },
            }
        } else {
            return Err(PersonActionError::UnrecognizedAction { action_name: action });
        };
        Ok(PersonReaction { action, reflection })
    }
}

proof fn lemma_scan_err_extends(name: Seq<char>, s: Seq<(Seq<char>, JsonV)>, k: int)
    requires
        0 <= k <= s.len(),
        scan_choice_args(name, s.take(k)) is Err,
    ensures
        scan_choice_args(name, s) == scan_choice_args(name, s.take(k)),
    decreases s.len() - k,
{
    if k == s.len() {
        assert(s.take(k) =~= s);
    } else {
        assert(s.take(k + 1).drop_last() =~= s.take(k));
        lemma_scan_err_extends(name, s, k + 1);
    }
}

} // verus!
