//! The tool calls of a chat response, decoded from its JSON.
use crate::json::{
    as_str_spec, get_key, json_compact_text, json_parse, json_to_text, member_views,
    parse_json_text, Json, JsonV,
};
use crate::nice_display::NiceDisplay;
use vstd::prelude::*;
use vstd::string::*;

verus! {

/// One call of a tool: its name and its arguments, in the order in which
/// `serde_json` yields the members of the arguments object.
pub struct ToolCall {
    pub name: String,
    pub arguments: Vec<(String, Json)>,
}

/// Why the tool calls of a response could not be read. The `json` fields hold
/// the compact JSON text of the value in which the problem was found.
#[derive(Debug)]
pub enum ToolCallDecodeError {
    MissingField { field: String, json: String },
    FieldWasNotArray { field: String, json: String },
    FieldWasNotObject { field: String, json: String },
    ArrayWasEmpty { which: String },
    FieldWasNotString { field: String, json: String },
    CouldParseString(String),
}

/// The spec form of a decoding error.
pub enum DecodeErrorV {
    MissingField { field: Seq<char>, json: Seq<char> },
    FieldWasNotArray { field: Seq<char>, json: Seq<char> },
    FieldWasNotObject { field: Seq<char>, json: Seq<char> },
    ArrayWasEmpty { which: Seq<char> },
    FieldWasNotString { field: Seq<char>, json: Seq<char> },
    CouldParseString(Seq<char>),
}

/// The spec form of a tool call.
pub struct ToolCallV {
    pub name: Seq<char>,
    pub arguments: Seq<(Seq<char>, JsonV)>,
}

impl View for ToolCallDecodeError {
    type V = DecodeErrorV;

    open spec fn view(&self) -> DecodeErrorV {
        match self {
            ToolCallDecodeError::MissingField { field, json } => DecodeErrorV::MissingField {
                field: field@,
                json: json@,
            },
            ToolCallDecodeError::FieldWasNotArray { field, json } =>
                DecodeErrorV::FieldWasNotArray { field: field@, json: json@ },
            ToolCallDecodeError::FieldWasNotObject { field, json } =>
                DecodeErrorV::FieldWasNotObject { field: field@, json: json@ },
            ToolCallDecodeError::ArrayWasEmpty { which } => DecodeErrorV::ArrayWasEmpty {
                which: which@,
            },
            ToolCallDecodeError::FieldWasNotString { field, json } =>
                DecodeErrorV::FieldWasNotString { field: field@, json: json@ },
            ToolCallDecodeError::CouldParseString(e) => DecodeErrorV::CouldParseString(e@),
        }
    }
}

impl View for ToolCall {
    type V = ToolCallV;

    open spec fn view(&self) -> ToolCallV {
        ToolCallV { name: self.name@, arguments: member_views(self.arguments@) }
    }
}

/// The spec forms of tool calls.
pub open spec fn tool_call_views(v: Seq<ToolCall>) -> Seq<ToolCallV> {
    v.map_values(|c: ToolCall| c@)
}

/// The first choice of a response.
pub open spec fn decode_first_choice(j: JsonV) -> Result<JsonV, DecodeErrorV> {
    match get_key(j, "choices"@) {
        None => Err(DecodeErrorV::MissingField { field: "choices"@, json: json_compact_text(j) }),
        Some(c) => match c {
            JsonV::Array(items) => if items.len() == 0 {
                Err(DecodeErrorV::ArrayWasEmpty { which: "choices"@ })
            } else {
                Ok(items[0])
            },
            _ => Err(
                DecodeErrorV::FieldWasNotArray { field: "choices"@, json: json_compact_text(j) },
            ),
        },
    }
}

/// The tool-call values of a choice.
pub open spec fn decode_tool_call_values(choice: JsonV) -> Result<Seq<JsonV>, DecodeErrorV> {
    match get_key(choice, "message"@) {
        None => Err(
            DecodeErrorV::MissingField { field: "message"@, json: json_compact_text(choice) },
        ),
        Some(m) => match get_key(m, "tool_calls"@) {
            None => Err(
                DecodeErrorV::MissingField {
                    field: "tool_calls"@,
                    json: json_compact_text(choice),
                },
            ),
            Some(t) => match t {
                JsonV::Array(items) => Ok(items),
                _ => Err(
                    DecodeErrorV::FieldWasNotArray {
                        field: "tool_calls"@,
                        json: json_compact_text(choice),
                    },
                ),
            },
        },
    }
}

/// A required string member of a function-call value.
pub open spec fn decode_string_member(f: JsonV, key: Seq<char>) -> Result<Seq<char>, DecodeErrorV> {
    match get_key(f, key) {
        None => Err(DecodeErrorV::MissingField { field: key, json: json_compact_text(f) }),
        Some(v) => match as_str_spec(v) {
            None => Err(DecodeErrorV::FieldWasNotString { field: key, json: json_compact_text(f) }),
            Some(s) => Ok(s),
        },
    }
}

/// One tool call decoded from its value.
pub open spec fn decode_tool_call(t: JsonV) -> Result<ToolCallV, DecodeErrorV> {
    match get_key(t, "function"@) {
        None => Err(DecodeErrorV::MissingField { field: "function"@, json: json_compact_text(t) }),
        Some(f) => match decode_string_member(f, "name"@) {
            Err(e) => Err(e),
            Ok(name) => match decode_string_member(f, "arguments"@) {
                Err(e) => Err(e),
                Ok(args_text) => match json_parse(args_text) {
                    Err(e) => Err(DecodeErrorV::CouldParseString(e)),
                    Ok(args) => match args {
                        JsonV::Object(members) => Ok(ToolCallV { name, arguments: members }),
                        _ => Err(
                            DecodeErrorV::FieldWasNotObject {
                                field: "arguments"@,
                                json: json_compact_text(f),
                            },
                        ),
                    },
                },
            },
        },
    }
}

/// The tool calls decoded in order; the first failure wins.
pub open spec fn decode_tool_calls_seq(ts: Seq<JsonV>) -> Result<Seq<ToolCallV>, DecodeErrorV>
    decreases ts.len(),
{
    if ts.len() == 0 {
        Ok(Seq::empty())
    } else {
        match decode_tool_calls_seq(ts.drop_last()) {
            Err(e) => Err(e),
            Ok(prefix) => match decode_tool_call(ts.last()) {
                Err(e) => Err(e),
                Ok(c) => Ok(prefix.push(c)),
            },
        }
    }
}

/// The tool calls of a response.
pub open spec fn decode_tool_calls(j: JsonV) -> Result<Seq<ToolCallV>, DecodeErrorV> {
    match decode_first_choice(j) {
        Err(e) => Err(e),
        Ok(choice) => match decode_tool_call_values(choice) {
            Err(e) => Err(e),
            Ok(ts) => decode_tool_calls_seq(ts),
        },
    }
}

/// The explanation of a decoding error.
pub open spec fn decode_error_text(e: DecodeErrorV) -> Seq<char> {
    match e {
        DecodeErrorV::MissingField { field, json } => "Missing field: "@ + field
            + "\nHere is the json:\n "@ + json,
        DecodeErrorV::FieldWasNotArray { field, json } => "Field was not an array: "@ + field
            + "\nHere is the json:\n"@ + json,
        DecodeErrorV::ArrayWasEmpty { which } => "Array was empty: "@ + which,
        DecodeErrorV::FieldWasNotString { field, json } => "Field was not a string: "@ + field
            + "\nHere is the json:\n"@ + json,
        DecodeErrorV::FieldWasNotObject { field, json } => "Field was not an object: "@ + field
            + "\nHere is the json:\n"@ + json,
        DecodeErrorV::CouldParseString(err) => "Could not parse string with serde:\n"@ + err,
    }
}

impl NiceDisplay for ToolCallDecodeError {
    open spec fn message_spec(&self) -> Seq<char> {
        decode_error_text(self@)
    }

    fn message(&self) -> (res: String) {
        let r = self.explain();
        assert(r@ == decode_error_text(self@));
        assert(self.message_spec() == decode_error_text(self@));
        r
    }
}

impl ToolCallDecodeError {
    /// The explanation of the error.
    pub fn explain(&self) -> (res: String)
        ensures
            res@ == decode_error_text(self@),
    {
        match self {
            ToolCallDecodeError::MissingField { field, json } => {
                let mut s = String::from_str("Missing field: ");
                s.append(field.as_str());
                s.append("\nHere is the json:\n ");
                s.append(json.as_str());
                s
            },
            ToolCallDecodeError::FieldWasNotArray { field, json } => {
                let mut s = String::from_str("Field was not an array: ");
                s.append(field.as_str());
                s.append("\nHere is the json:\n");
                s.append(json.as_str());
                s
            },
            ToolCallDecodeError::ArrayWasEmpty { which } => {
                let mut s = String::from_str("Array was empty: ");
                s.append(which.as_str());
                s
            },
            ToolCallDecodeError::FieldWasNotString { field, json } => {
                let mut s = String::from_str("Field was not a string: ");
                s.append(field.as_str());
                s.append("\nHere is the json:\n");
                s.append(json.as_str());
                s
            },
            ToolCallDecodeError::FieldWasNotObject { field, json } => {
                let mut s = String::from_str("Field was not an object: ");
                s.append(field.as_str());
                s.append("\nHere is the json:\n");
                s.append(json.as_str());
                s
            },
            ToolCallDecodeError::CouldParseString(err) => {
                let mut s = String::from_str("Could not parse string with serde:\n");
                s.append(err.as_str());
                s
            },
        }
    }
}
/// The first choice of a response (shared by the decoders of tool calls).
pub fn first_choice(json: &Json) -> (res: Result<&Json, ToolCallDecodeError>)
    ensures
        match res {
            Ok(c) => decode_first_choice(json@) == Ok::<JsonV, DecodeErrorV>(c@),
            Err(e) => decode_first_choice(json@) == Err::<JsonV, DecodeErrorV>(e@),
        },
{
    let choices = match json.get_key("choices") {
        Some(c) => c,
        None => {
            return Err(
                ToolCallDecodeError::MissingField {
                    field: String::from_str("choices"),
                    json: json_to_text(json),
                },
            );
        },
    };
    let items = match choices.as_array() {
        Some(items) => items,
        None => {
            return Err(
                ToolCallDecodeError::FieldWasNotArray {
                    field: String::from_str("choices"),
                    json: json_to_text(json),
                },
            );
        },
    };
    proof {
        crate::json::lemma_json_views(items@);
    }
    if items.len() == 0 {
        return Err(ToolCallDecodeError::ArrayWasEmpty { which: String::from_str("choices") });
    }
    Ok(&items[0])
}

fn string_member(f: &Json, key: &str) -> (res: Result<String, ToolCallDecodeError>)
    ensures
        match res {
            Ok(s) => decode_string_member(f@, key@) == Ok::<Seq<char>, DecodeErrorV>(s@),
            Err(e) => decode_string_member(f@, key@) == Err::<Seq<char>, DecodeErrorV>(e@),
        },
{
    match f.get_key(key) {
        None => Err(
            ToolCallDecodeError::MissingField { field: String::from_str(key), json: json_to_text(f) },
        ),
        Some(v) => match v.as_str() {
            None => Err(
                ToolCallDecodeError::FieldWasNotString {
                    field: String::from_str(key),
                    json: json_to_text(f),
                },
            ),
            Some(s) => Ok(String::from_str(s)),
        },
    }
}

fn decode_one(t: &Json) -> (res: Result<ToolCall, ToolCallDecodeError>)
    ensures
        match res {
            Ok(c) => decode_tool_call(t@) == Ok::<ToolCallV, DecodeErrorV>(c@),
            Err(e) => decode_tool_call(t@) == Err::<ToolCallV, DecodeErrorV>(e@),
        },
{
    let f = match t.get_key("function") {
        Some(f) => f,
        None => {
            return Err(
                ToolCallDecodeError::MissingField {
                    field: String::from_str("function"),
                    json: json_to_text(t),
                },
            );
        },
    };
    let name = match string_member(f, "name") {
        Ok(n) => n,
        Err(e) => {
            return Err(e);
        },
    };
    let args_text = match string_member(f, "arguments") {
        Ok(a) => a,
        Err(e) => {
            return Err(e);
        },
    };
    let parsed = match parse_json_text(args_text.as_str()) {
        Ok(p) => p,
        Err(e) => {
            return Err(ToolCallDecodeError::CouldParseString(e));
        },
    };
    match parsed {
        Json::Object(members) => Ok(ToolCall { name, arguments: members }),
        _ => Err(
            ToolCallDecodeError::FieldWasNotObject {
                field: String::from_str("arguments"),
                json: json_to_text(f),
            },
        ),
    }
}

proof fn lemma_decode_err_extends(s: Seq<JsonV>, k: int)
    requires
        0 <= k <= s.len(),
        decode_tool_calls_seq(s.take(k)) is Err,
    ensures
        decode_tool_calls_seq(s) == decode_tool_calls_seq(s.take(k)),
    decreases s.len() - k,
{
    if k == s.len() {
        assert(s.take(k) =~= s);
    } else {
        assert(s.take(k + 1).drop_last() =~= s.take(k));
        lemma_decode_err_extends(s, k + 1);
    }
}

impl ToolCall {
    /// The tool calls of the first choice of a chat response, in order.
    pub fn from_json(json: &Json) -> (res: Result<Vec<ToolCall>, ToolCallDecodeError>)
        ensures
            match res {
                Ok(calls) => decode_tool_calls(json@) == Ok::<Seq<ToolCallV>, DecodeErrorV>(
                    tool_call_views(calls@),
                ),
                Err(e) => decode_tool_calls(json@) == Err::<Seq<ToolCallV>, DecodeErrorV>(e@),
            },
    {
        let choice = match first_choice(json) {
            Ok(c) => c,
            Err(e) => {
                return Err(e);
            },
        };
        let message = match choice.get_key("message") {
            Some(m) => m,
            None => {
                return Err(
                    ToolCallDecodeError::MissingField {
                        field: String::from_str("message"),
                        json: json_to_text(choice),
                    },
                );
            },
        };
        let tool_calls = match message.get_key("tool_calls") {
            Some(t) => t,
            None => {
                return Err(
                    ToolCallDecodeError::MissingField {
                        field: String::from_str("tool_calls"),
                        json: json_to_text(choice),
                    },
                );
            },
        };
        let items = match tool_calls.as_array() {
            Some(items) => items,
            None => {
                return Err(
                    ToolCallDecodeError::FieldWasNotArray {
                        field: String::from_str("tool_calls"),
                        json: json_to_text(choice),
                    },
                );
            },
        };
        let ghost views = crate::json::json_views(items@);
        proof {
            crate::json::lemma_json_views(items@);
            assert(decode_tool_call_values(choice@) == Ok::<Seq<JsonV>, DecodeErrorV>(views));
            assert(decode_tool_calls(json@) == decode_tool_calls_seq(views));
            assert(views.take(0) =~= Seq::<JsonV>::empty());
        }
        let mut res: Vec<ToolCall> = Vec::new();
        proof {
            assert(tool_call_views(res@) =~= Seq::<ToolCallV>::empty());
        }
        let mut i: usize = 0;
        while i < items.len()
            invariant
                i <= items.len(),
                decode_tool_calls(json@) == decode_tool_calls_seq(views),
                views == crate::json::json_views(items@),
                views.len() == items@.len(),
                forall|k: int|
                    0 <= k < items@.len() ==> #[trigger] views[k] == crate::json::json_view(
                        items@[k],
                    ),
                decode_tool_calls_seq(views.take(i as int)) == Ok::<Seq<ToolCallV>, DecodeErrorV>(
                    tool_call_views(res@),
                ),
            decreases items.len() - i,
        {
            proof {
                assert(views.take(i + 1).drop_last() =~= views.take(i as int));
                assert(views.take(i + 1).last() == items@[i as int]@);
            }
            let ghost prev = res@;
            match decode_one(&items[i]) {
                Ok(c) => {
                    res.push(c);
                    proof {
                        assert(tool_call_views(res@) =~= tool_call_views(prev).push(c@));
                    }
                },
                Err(e) => {
                    proof {
                        assert(decode_tool_calls_seq(views.take(i + 1)) == Err::<
                            Seq<ToolCallV>,
                            DecodeErrorV,
                        >(e@));
                        lemma_decode_err_extends(views, i + 1);
                    }
                    return Err(e);
                },
            }
            i = i + 1;
        }
        proof {
            assert(views.take(items.len() as int) =~= views);
        }
        Ok(res)
    }
}

} // verus!
