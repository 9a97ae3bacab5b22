//! Chat completion requests and the reading of their responses. Sending the
//! request over the network happens in the application.
use crate::json::{
    as_str_spec, get_index, get_key, json_compact_text, json_pretty_text, json_to_pretty_text,
    json_to_text, json_parse, json_views, member_views, parse_json_text, push_item, push_member,
    Json, JsonV,
};
use crate::nice_display::NiceDisplay;
use crate::open_ai::history::History;
use crate::open_ai::message::Message;
use crate::open_ai::model::{model_name, Model};
use crate::open_ai::role::{role_name, Role};
use crate::open_ai::tool::{tool_json, Tool};
use crate::open_ai::tool_call::{
    decode_error_text, decode_first_choice, decode_tool_calls, first_choice, tool_call_views,
    DecodeErrorV, ToolCall, ToolCallDecodeError, ToolCallV,
};
use crate::person_actions::{person_action_error_text, PersonActionError};
use vstd::prelude::*;
use vstd::string::*;

verus! {

/// A chat completion request under construction.
pub struct Completion {
    pub model: String,
    pub history: History,
    pub tool_call: Vec<Tool>,
}

/// A chat completion response.
pub struct Response {
    pub json: Json,
}

/// Why the message of a response could not be read. `json` holds the
/// pretty-printed JSON text of the whole response.
#[derive(Debug)]
pub enum MessageError {
    MissingField { field: String, json: String },
    NoChoices { json: String },
    NotString { what: String, json: String },
}

/// Why a completion failed.
#[derive(Debug)]
pub enum CompletionError {
    Request(String),
    Response(String),
    ResponseJsonDecode(String),
    Message(MessageError),
    ToolCallDecode(ToolCallDecodeError),
    PersonAction(PersonActionError),
}

/// The spec form of a message error.
pub enum MessageErrorV {
    MissingField { field: Seq<char>, json: Seq<char> },
    NoChoices { json: Seq<char> },
    NotString { what: Seq<char>, json: Seq<char> },
}

impl View for MessageError {
    type V = MessageErrorV;

    open spec fn view(&self) -> MessageErrorV {
        match self {
            MessageError::MissingField { field, json } => MessageErrorV::MissingField {
                field: field@,
                json: json@,
            },
            MessageError::NoChoices { json } => MessageErrorV::NoChoices { json: json@ },
            MessageError::NotString { what, json } => MessageErrorV::NotString {
                what: what@,
                json: json@,
            },
        }
    }
}

/// The explanation of a message error.
pub open spec fn message_error_text(e: MessageErrorV) -> Seq<char> {
    match e {
        MessageErrorV::MissingField { field, json } => "Missing field: "@ + field
            + "\nResponse JSON:\n"@ + json,
        MessageErrorV::NoChoices { json } => "No choices in response\nResponse JSON:\n"@ + json,
        MessageErrorV::NotString { what, json } => "Field is not a string: "@ + what
            + "\nResponse JSON:\n"@ + json,
    }
}

/// The text that `{:?}` writes for a string: quoted, with escapes.
pub uninterp spec fn debug_text(s: Seq<char>) -> Seq<char>;

/// The `Debug` form of a string; wraps `<str as core::fmt::Debug>::fmt`
/// through `format!`.
#[verifier::external_body]
pub(crate) fn debug_string(s: &str) -> (res: String)
    ensures
        res@ == debug_text(s@),
{
    format!("{:?}", s)
}

/// The explanation of a completion error.
pub open spec fn completion_error_text(e: CompletionError) -> Seq<char> {
    match e {
        CompletionError::Request(err) => "I had trouble making a request to open ai: "@ + err@,
        CompletionError::Response(err) => "I had trouble with the response from open ai: "@
            + err@,
        CompletionError::ResponseJsonDecode(err) =>
            "I had trouble decoding the response from open ai: "@ + err@,
        CompletionError::Message(err) =>
            "I had trouble extracting the message from the response:\n"@ + debug_text(
                message_error_text(err@),
            ),
        CompletionError::ToolCallDecode(err) =>
            "I had trouble decoding the tool calls from the response:\n"@ + decode_error_text(
                err@,
            ),
        CompletionError::PersonAction(err) => "I had trouble interpreting the action: "@
            + person_action_error_text(err@),
    }
}

impl NiceDisplay for MessageError {
    open spec fn message_spec(&self) -> Seq<char> {
        message_error_text(self@)
    }

    fn message(&self) -> (res: String) {
        self.explain()
    }
}

impl MessageError {
    /// The explanation of the error.
    pub fn explain(&self) -> (res: String)
        ensures
            res@ == message_error_text(self@),
    {
        match self {
            MessageError::MissingField { field, json } => {
                let mut s = String::from_str("Missing field: ");
                s.append(field.as_str());
                s.append("\nResponse JSON:\n");
                s.append(json.as_str());
                s
            },
            MessageError::NoChoices { json } => {
                let mut s = String::from_str("No choices in response\nResponse JSON:\n");
                s.append(json.as_str());
                s
            },
            MessageError::NotString { what, json } => {
                let mut s = String::from_str("Field is not a string: ");
                s.append(what.as_str());
                s.append("\nResponse JSON:\n");
                s.append(json.as_str());
                s
            },
        }
    }
}
impl NiceDisplay for CompletionError {
    open spec fn message_spec(&self) -> Seq<char> {
        completion_error_text(*self)
    }

    fn message(&self) -> (res: String) {
        self.explain()
    }
}

impl CompletionError {
    /// The explanation of the error.
    pub fn explain(&self) -> (res: String)
        ensures
            res@ == completion_error_text(*self),
    {
        match self {
            CompletionError::Request(err) => {
                let mut s = String::from_str("I had trouble making a request to open ai: ");
                s.append(err.as_str());
                s
            },
            CompletionError::Response(err) => {
                let mut s = String::from_str("I had trouble with the response from open ai: ");
                s.append(err.as_str());
                s
            },
            CompletionError::ResponseJsonDecode(err) => {
                let mut s = String::from_str("I had trouble decoding the response from open ai: ");
                s.append(err.as_str());
                s
            },
            CompletionError::Message(err) => {
                let mut s = String::from_str(
                    "I had trouble extracting the message from the response:\n",
                );
                let m = err.message();
                let d = debug_string(m.as_str());
                s.append(d.as_str());
                s
            },
            CompletionError::ToolCallDecode(err) => {
                let mut s = String::from_str(
                    "I had trouble decoding the tool calls from the response:\n",
                );
                let m = err.message();
                s.append(m.as_str());
                s
            },
            CompletionError::PersonAction(err) => {
                let mut s = String::from_str("I had trouble interpreting the action: ");
                let m = err.message();
                s.append(m.as_str());
                s
            },
        }
    }
}
/// The JSON form of the messages of a request, in order.
pub open spec fn messages_json(ms: Seq<Message>) -> Seq<JsonV> {
    ms.map_values(
        |m: Message|
            JsonV::Object(
                seq![("role"@, JsonV::Str(role_name(m.role))), ("content"@, JsonV::Str(m.content@))],
            ),
    )
}

/// The body of a completion request: the model and the messages, and where
/// any tool is offered, the tools and `parallel_tool_calls: false`.
pub open spec fn completion_body(c: Completion) -> JsonV {
    let base = seq![
        ("model"@, JsonV::Str(c.model@)),
        ("messages"@, JsonV::Array(messages_json(c.history.messages@))),
    ];
    if c.tool_call@.len() == 0 {
        JsonV::Object(base)
    } else {
        JsonV::Object(
            base + seq![
                ("tools"@, JsonV::Array(c.tool_call@.map_values(|t: Tool| tool_json(t)))),
                ("parallel_tool_calls"@, JsonV::Bool(false)),
            ],
        )
    }
}

/// The message of the first choice of a response.
pub open spec fn response_message(j: JsonV) -> Result<Seq<char>, MessageErrorV> {
    match get_key(j, "choices"@) {
        None => Err(MessageErrorV::MissingField { field: "choices"@, json: json_pretty_text(j) }),
        Some(c) => match get_index(c, 0) {
            None => Err(MessageErrorV::NoChoices { json: json_pretty_text(j) }),
            Some(c0) => match get_key(c0, "message"@) {
                None => Err(
                    MessageErrorV::MissingField { field: "message"@, json: json_pretty_text(j) },
                ),
                Some(m) => match get_key(m, "content"@) {
                    None => Err(
                        MessageErrorV::MissingField {
                            field: "content"@,
                            json: json_pretty_text(j),
                        },
                    ),
                    Some(ct) => match as_str_spec(ct) {
                        None => Err(
                            MessageErrorV::NotString { what: "content"@, json: json_pretty_text(j) },
                        ),
                        Some(s) => Ok(s),
                    },
                },
            },
        },
    }
}

/// The tool calls of a response, or none where its message has no
/// `tool_calls` member or that member is `null`.
pub open spec fn response_maybe_tool_calls(j: JsonV) -> Result<Option<Seq<ToolCallV>>, DecodeErrorV> {
    match decode_first_choice(j) {
        Err(e) => Err(e),
        Ok(choice) => match get_key(choice, "message"@) {
            None => Err(
                DecodeErrorV::MissingField { field: "message"@, json: json_compact_text(choice) },
            ),
            Some(m) => match get_key(m, "tool_calls"@) {
                None => Ok(None),
                Some(JsonV::Null) => Ok(None),
                Some(JsonV::Array(_)) => match decode_tool_calls(j) {
                    Err(e) => Err(e),
                    Ok(cs) => Ok(Some(cs)),
                },
                Some(_) => Err(
                    DecodeErrorV::FieldWasNotArray {
                        field: "tool_calls"@,
                        json: json_compact_text(m),
                    },
                ),
            },
        },
    }
}

impl Completion {
    /// An empty request for the given model.
    pub fn new(model: Model) -> (res: Self)
        ensures
            res.model@ == model_name(model),
            res.history.messages@.len() == 0,
            res.tool_call@.len() == 0,
    {
        Completion { model: model.to_string(), history: History::new(), tool_call: Vec::new() }
    }

    /// Appends a message to the request.
    pub fn add_message(&mut self, role: Role, content: &str)
        ensures
            final(self).model == old(self).model,
            final(self).tool_call == old(self).tool_call,
            final(self).history.messages@.len() == old(self).history.messages@.len() + 1,
            final(self).history.messages@.drop_last() == old(self).history.messages@,
            final(self).history.messages@.last().role == role,
            final(self).history.messages@.last().content@ == content@,
    {
        self.history.add_message(role, content);
    }

    /// Offers a tool in the request.
    pub fn add_tool_call(&mut self, tool: Tool)
        ensures
            final(self).model == old(self).model,
            final(self).history == old(self).history,
            final(self).tool_call@ == old(self).tool_call@.push(tool),
    {
        self.tool_call.push(tool);
    }

    /// The JSON body of the request.
    pub fn request_body(&self) -> (res: Json)
        ensures
            res@ == completion_body(*self),
    {
        let msgs = self.history.get_messages();
        let mut items: Vec<Json> = Vec::new();
        proof {
            crate::json::lemma_json_views(items@);
            assert(json_views(items@) =~= messages_json(msgs@.take(0)));
        }
        let mut i: usize = 0;
        while i < msgs.len()
            invariant
                i <= msgs@.len(),
                json_views(items@) == messages_json(msgs@.take(i as int)),
            decreases msgs@.len() - i,
        {
            let mut m: Vec<(String, Json)> = Vec::new();
            proof {
                crate::json::lemma_member_views(m@);
            }
            push_member(&mut m, "role", Json::string(msgs[i].role().to_str()));
            push_member(&mut m, "content", Json::string(msgs[i].content()));
            let ghost mv = member_views(m@);
            push_item(&mut items, Json::Object(m));
            proof {
                assert(mv =~= seq![
                    ("role"@, JsonV::Str(role_name(msgs@[i as int].role))),
                    ("content"@, JsonV::Str(msgs@[i as int].content@)),
                ]);
                assert(messages_json(msgs@.take(i + 1)) =~= messages_json(msgs@.take(i as int)).push(
                    JsonV::Object(mv),
                ));
            }
            i = i + 1;
        }
        proof {
            assert(msgs@.take(msgs@.len() as int) =~= msgs@);
        }
        let mut body: Vec<(String, Json)> = Vec::new();
        proof {
            crate::json::lemma_member_views(body@);
        }
        push_member(&mut body, "model", Json::string(self.model.as_str()));
        push_member(&mut body, "messages", Json::Array(items));
        if self.tool_call.len() != 0 {
            let mut tools: Vec<Json> = Vec::new();
            proof {
                crate::json::lemma_json_views(tools@);
                assert(json_views(tools@) =~= self.tool_call@.take(0).map_values(|t: Tool| tool_json(t)));
            }
            let mut k: usize = 0;
            while k < self.tool_call.len()
                invariant
                    k <= self.tool_call@.len(),
                    json_views(tools@) == self.tool_call@.take(k as int).map_values(
                        |t: Tool| tool_json(t),
                    ),
                decreases self.tool_call@.len() - k,
            {
                push_item(&mut tools, self.tool_call[k].to_json());
                proof {
                    assert(self.tool_call@.take(k + 1).map_values(|t: Tool| tool_json(t)) =~= self.tool_call@.take(
                        k as int,
                    ).map_values(|t: Tool| tool_json(t)).push(tool_json(self.tool_call@[k as int])));
                }
                k = k + 1;
            }
            proof {
                assert(self.tool_call@.take(self.tool_call@.len() as int) =~= self.tool_call@);
            }
            push_member(&mut body, "tools", Json::Array(tools));
            push_member(&mut body, "parallel_tool_calls", Json::Bool(false));
        }
        proof {
            assert(member_views(body@) =~= match completion_body(*self) {
                JsonV::Object(m) => m,
                _ => Seq::empty(),
            });
        }
        Json::Object(body)
    }

    /// Reads the text of a completion response: its JSON, or a decoding error.
    pub fn parse_response(text: &str) -> (res: Result<Response, CompletionError>)
        ensures
            match res {
                Ok(r) => json_parse(text@) == Ok::<JsonV, Seq<char>>(r.json@),
                Err(e) => e matches CompletionError::ResponseJsonDecode(m) && json_parse(text@)
                    == Err::<JsonV, Seq<char>>(m@),
            },
    {
        match parse_json_text(text) {
            Ok(json) => Ok(Response::new(json)),
            Err(e) => Err(CompletionError::ResponseJsonDecode(e)),
        }
    }
}

impl Response {
    /// The response with the given JSON.
    pub fn new(json: Json) -> (res: Self)
        ensures
            res.json == json,
    {
        Response { json }
    }

    /// The pretty-printed JSON of the response.
    pub fn as_pretty_json(&self) -> (res: String)
        ensures
            res@ == json_pretty_text(self.json@),
    {
        json_to_pretty_text(&self.json)
    }

    /// The message content of the first choice.
    pub fn as_message(&self) -> (res: Result<String, MessageError>)
        ensures
            match res {
                Ok(s) => response_message(self.json@) == Ok::<Seq<char>, MessageErrorV>(s@),
                Err(e) => response_message(self.json@) == Err::<Seq<char>, MessageErrorV>(e@),
            },
    {
        let choices = match self.json.get_key("choices") {
            Some(c) => c,
            None => {
                return Err(
                    MessageError::MissingField {
                        field: String::from_str("choices"),
                        json: json_to_pretty_text(&self.json),
                    },
                );
            },
        };
        let first = match choices.get_index(0) {
            Some(c) => c,
            None => {
                return Err(MessageError::NoChoices { json: json_to_pretty_text(&self.json) });
            },
        };
        let message = match first.get_key("message") {
            Some(m) => m,
            None => {
                return Err(
                    MessageError::MissingField {
                        field: String::from_str("message"),
                        json: json_to_pretty_text(&self.json),
                    },
                );
            },
        };
        let content = match message.get_key("content") {
            Some(c) => c,
            None => {
                return Err(
                    MessageError::MissingField {
                        field: String::from_str("content"),
                        json: json_to_pretty_text(&self.json),
                    },
                );
            },
        };
        match content.as_str() {
            Some(s) => Ok(String::from_str(s)),
            None => Err(
                MessageError::NotString {
                    what: String::from_str("content"),
                    json: json_to_pretty_text(&self.json),
                },
            ),
        }
    }

    /// The tool calls of the first choice.
    pub fn as_tool_calls(&self) -> (res: Result<Vec<ToolCall>, ToolCallDecodeError>)
        ensures
            match res {
                Ok(calls) => decode_tool_calls(self.json@) == Ok::<Seq<ToolCallV>, DecodeErrorV>(
                    tool_call_views(calls@),
                ),
                Err(e) => decode_tool_calls(self.json@) == Err::<Seq<ToolCallV>, DecodeErrorV>(
                    e@,
                ),
            },
    {
        ToolCall::from_json(&self.json)
    }

    /// The tool calls of the first choice, or none where the message has no
    /// (or a `null`) `tool_calls` member.
    pub fn maybe_tool_calls(&self) -> (res: Result<Option<Vec<ToolCall>>, ToolCallDecodeError>)
        ensures
            match res {
                Ok(Some(calls)) => response_maybe_tool_calls(self.json@) == Ok::<
                    Option<Seq<ToolCallV>>,
                    DecodeErrorV,
                >(Some(tool_call_views(calls@))),
                Ok(None) => response_maybe_tool_calls(self.json@) == Ok::<
                    Option<Seq<ToolCallV>>,
                    DecodeErrorV,
                >(None),
                Err(e) => response_maybe_tool_calls(self.json@) == Err::<
                    Option<Seq<ToolCallV>>,
                    DecodeErrorV,
                >(e@),
            },
    {
        let choice = match first_choice(&self.json) {
            Ok(c) => c,
            Err(e) => {
                return Err(e);
            },
        };
        let message = match choice.get_key("message") {
            Some(m) => m,
            None => {
                return Err(
                    ToolCallDecodeError::MissingField {
                        field: String::from_str("message"),
                        json: json_to_text(choice),
                    },
                );
            },
        };
        match message.get_key("tool_calls") {
            None => Ok(None),
            Some(value) => {
                if value.is_null() {
                    return Ok(None);
                }
                if value.as_array().is_none() {
                    return Err(
                        ToolCallDecodeError::FieldWasNotArray {
                            field: String::from_str("tool_calls"),
                            json: json_to_text(message),
                        },
                    );
                }
                match ToolCall::from_json(&self.json) {
                    Ok(calls) => Ok(Some(calls)),
                    Err(e) => Err(e),
                }
            },
        }
    }
}

} // verus!
