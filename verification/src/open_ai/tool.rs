//! Tools offered to the model, and their JSON schema.
use crate::json::{member_views, json_views, push_item, push_member, set_member, set_member_v, Json, JsonV};
use vstd::prelude::*;
use vstd::string::*;

verus! {

/// A tool offered to the model.
pub enum Tool {
    FunctionCall(ToolFunction),
}

/// A function the model may call.
pub struct ToolFunction {
    pub name: String,
    pub description: String,
    pub parameters: Vec<ToolFunctionParameter>,
}

/// A parameter of a function tool.
pub enum ToolFunctionParameter {
    String { name: String, description: String, required: bool },
    StringEnum { name: String, description: String, required: bool, values: Vec<String> },
    Integer { name: String, description: String, required: bool },
    StringArray { name: String, description: String, required: bool },
}

/// The name of a parameter.
pub open spec fn param_name(p: ToolFunctionParameter) -> Seq<char> {
    match p {
        ToolFunctionParameter::String { name, .. } => name@,
        ToolFunctionParameter::StringEnum { name, .. } => name@,
        ToolFunctionParameter::Integer { name, .. } => name@,
        ToolFunctionParameter::StringArray { name, .. } => name@,
    }
}

/// Whether a parameter is required.
pub open spec fn param_required(p: ToolFunctionParameter) -> bool {
    match p {
        ToolFunctionParameter::String { required, .. } => required,
        ToolFunctionParameter::StringEnum { required, .. } => required,
        ToolFunctionParameter::Integer { required, .. } => required,
        ToolFunctionParameter::StringArray { required, .. } => required,
    }
}

/// The JSON strings of a list of texts.
pub open spec fn str_items(v: Seq<String>) -> Seq<JsonV> {
    v.map_values(|s: String| JsonV::Str(s@))
}

/// The schema of one parameter.
pub open spec fn param_schema(p: ToolFunctionParameter) -> JsonV {
    match p {
        ToolFunctionParameter::String { description, .. } => JsonV::Object(
            seq![("type"@, JsonV::Str("string"@)), ("description"@, JsonV::Str(description@))],
        ),
        ToolFunctionParameter::StringEnum { description, values, .. } => JsonV::Object(
            seq![
                ("type"@, JsonV::Str("string"@)),
                ("description"@, JsonV::Str(description@)),
                ("enum"@, JsonV::Array(str_items(values@))),
            ],
        ),
        ToolFunctionParameter::Integer { description, .. } => JsonV::Object(
            seq![("type"@, JsonV::Str("integer"@)), ("description"@, JsonV::Str(description@))],
        ),
        ToolFunctionParameter::StringArray { description, .. } => JsonV::Object(
            seq![
                ("type"@, JsonV::Str("array"@)),
                ("items"@, JsonV::Object(seq![("type"@, JsonV::Str("string"@))])),
                ("description"@, JsonV::Str(description@)),
            ],
        ),
    }
}

/// The `properties` object: each parameter's schema set under its name, in order.
pub open spec fn properties_v(ps: Seq<ToolFunctionParameter>) -> Seq<(Seq<char>, JsonV)>
    decreases ps.len(),
{
    if ps.len() == 0 {
        Seq::empty()
    } else {
        set_member_v(properties_v(ps.drop_last()), param_name(ps.last()), param_schema(ps.last()))
    }
}

/// The names of the required parameters, in order.
pub open spec fn required_names(ps: Seq<ToolFunctionParameter>) -> Seq<JsonV>
    decreases ps.len(),
{
    if ps.len() == 0 {
        Seq::empty()
    } else if param_required(ps.last()) {
        required_names(ps.drop_last()).push(JsonV::Str(param_name(ps.last())))
    } else {
        required_names(ps.drop_last())
    }
}

/// The JSON form of a tool in a request.
pub open spec fn tool_json(t: Tool) -> JsonV {
    match t {
        Tool::FunctionCall(f) => JsonV::Object(
            seq![
                ("type"@, JsonV::Str("function"@)),
                (
                    "function"@,
                    JsonV::Object(
                        seq![
                            ("name"@, JsonV::Str(f.name@)),
                            ("description"@, JsonV::Str(f.description@)),
                            (
                                "parameters"@,
                                JsonV::Object(
                                    seq![
                                        ("type"@, JsonV::Str("object"@)),
                                        ("properties"@, JsonV::Object(properties_v(f.parameters@))),
                                        ("required"@, JsonV::Array(required_names(f.parameters@))),
                                    ],
                                ),
                            ),
                        ],
                    ),
                ),
            ],
        ),
    }
}

impl ToolFunction {
    /// The function with the given name, description and parameters.
    pub fn new(name: String, description: String, parameters: Vec<ToolFunctionParameter>) -> (res: Self)
        ensures
            res.name@ == name@,
            res.description@ == description@,
            res.parameters@ == parameters@,
    {
        ToolFunction { name, description, parameters }
    }
}

impl ToolFunctionParameter {
    /// Whether the parameter is required.
    pub fn required(&self) -> (res: bool)
        ensures
            res == param_required(*self),
    {
        match self {
            ToolFunctionParameter::String { required, .. } => *required,
            ToolFunctionParameter::StringEnum { required, .. } => *required,
            ToolFunctionParameter::Integer { required, .. } => *required,
            ToolFunctionParameter::StringArray { required, .. } => *required,
        }
    }

    /// The name of the parameter.
    pub fn name(&self) -> (res: &str)
        ensures
            res@ == param_name(*self),
    {
        match self {
            ToolFunctionParameter::String { name, .. } => name.as_str(),
            ToolFunctionParameter::StringEnum { name, .. } => name.as_str(),
            ToolFunctionParameter::Integer { name, .. } => name.as_str(),
            ToolFunctionParameter::StringArray { name, .. } => name.as_str(),
        }
    }

    /// The schema of the parameter.
    pub fn schema(&self) -> (res: Json)
        ensures
            res@ == param_schema(*self),
    {
        let mut ms: Vec<(String, Json)> = Vec::new();
        proof {
            crate::json::lemma_member_views(ms@);
        }
        match self {
            ToolFunctionParameter::String { description, .. } => {
                push_member(&mut ms, "type", Json::string("string"));
                push_member(&mut ms, "description", Json::string(description.as_str()));
            },
            ToolFunctionParameter::StringEnum { description, values, .. } => {
                push_member(&mut ms, "type", Json::string("string"));
                push_member(&mut ms, "description", Json::string(description.as_str()));
                let mut items: Vec<Json> = Vec::new();
                proof {
                    crate::json::lemma_json_views(items@);
                    assert(json_views(items@) =~= str_items(values@.take(0)));
                }
                let mut i: usize = 0;
                while i < values.len()
                    invariant
                        i <= values.len(),
                        json_views(items@) == str_items(values@.take(i as int)),
                    decreases values.len() - i,
                {
                    push_item(&mut items, Json::string(values[i].as_str()));
                    proof {
                        assert(str_items(values@.take(i + 1)) =~= str_items(values@.take(i as int)).push(
                            JsonV::Str(values@[i as int]@),
                        ));
                    }
                    i = i + 1;
                }
                proof {
                    assert(values@.take(values.len() as int) =~= values@);
                }
                push_member(&mut ms, "enum", Json::Array(items));
            },
            ToolFunctionParameter::Integer { description, .. } => {
                push_member(&mut ms, "type", Json::string("integer"));
                push_member(&mut ms, "description", Json::string(description.as_str()));
            },
            ToolFunctionParameter::StringArray { description, .. } => {
                push_member(&mut ms, "type", Json::string("array"));
                let mut inner: Vec<(String, Json)> = Vec::new();
                proof {
                    crate::json::lemma_member_views(inner@);
                }
                push_member(&mut inner, "type", Json::string("string"));
                proof {
                    assert(member_views(inner@) =~= seq![("type"@, JsonV::Str("string"@))]);
                }
                push_member(&mut ms, "items", Json::Object(inner));
                push_member(&mut ms, "description", Json::string(description.as_str()));
            },
        }
        let res = Json::Object(ms);
        proof {
            assert(member_views(ms@) =~= match param_schema(*self) {
                JsonV::Object(m) => m,
                _ => Seq::empty(),
            });
        }
        res
    }
}

impl Tool {
    /// The tool calling the given function.
    pub fn from_function(val: ToolFunction) -> (res: Tool)
        ensures
            res == Tool::FunctionCall(val),
    {
        Tool::FunctionCall(val)
    }

    /// The JSON form of the tool in a request.
    pub fn to_json(&self) -> (res: Json)
        ensures
            res@ == tool_json(*self),
    {
        match self {
            Tool::FunctionCall(func) => {
                let ps = &func.parameters;
                let mut properties: Vec<(String, Json)> = Vec::new();
                let mut required: Vec<Json> = Vec::new();
                proof {
                    crate::json::lemma_member_views(properties@);
                    crate::json::lemma_json_views(required@);
                    assert(ps@.take(0) =~= Seq::<ToolFunctionParameter>::empty());
                    assert(member_views(properties@) =~= properties_v(ps@.take(0)));
                    assert(json_views(required@) =~= required_names(ps@.take(0)));
                }
                let mut i: usize = 0;
                while i < ps.len()
                    invariant
                        i <= ps.len(),
                        member_views(properties@) == properties_v(ps@.take(i as int)),
                        json_views(required@) == required_names(ps@.take(i as int)),
                    decreases ps.len() - i,
                {
                    proof {
                        assert(ps@.take(i + 1).drop_last() =~= ps@.take(i as int));
                        assert(ps@.take(i + 1).last() == ps@[i as int]);
                    }
                    let p = &ps[i];
                    set_member(&mut properties, p.name(), p.schema());
                    if p.required() {
                        push_item(&mut required, Json::string(p.name()));
                    }
                    i = i + 1;
                }
                proof {
                    assert(ps@.take(ps.len() as int) =~= ps@);
                }
                let mut parameters: Vec<(String, Json)> = Vec::new();
                proof {
                    crate::json::lemma_member_views(parameters@);
                }
                push_member(&mut parameters, "type", Json::string("object"));
                push_member(&mut parameters, "properties", Json::Object(properties));
                push_member(&mut parameters, "required", Json::Array(required));
                let mut function: Vec<(String, Json)> = Vec::new();
                proof {
                    crate::json::lemma_member_views(function@);
                }
                push_member(&mut function, "name", Json::string(func.name.as_str()));
                push_member(&mut function, "description", Json::string(func.description.as_str()));
                push_member(&mut function, "parameters", Json::Object(parameters));
                let mut top: Vec<(String, Json)> = Vec::new();
                proof {
                    crate::json::lemma_member_views(top@);
                }
                push_member(&mut top, "type", Json::string("function"));
                push_member(&mut top, "function", Json::Object(function));
                proof {
                    assert(member_views(parameters@) =~= seq![
                        ("type"@, JsonV::Str("object"@)),
                        ("properties"@, JsonV::Object(properties_v(func.parameters@))),
                        ("required"@, JsonV::Array(required_names(func.parameters@))),
                    ]);
                    assert(member_views(function@) =~= seq![
                        ("name"@, JsonV::Str(func.name@)),
                        ("description"@, JsonV::Str(func.description@)),
                        ("parameters"@, JsonV::Object(member_views(parameters@))),
                    ]);
                    assert(member_views(top@) =~= seq![
                        ("type"@, JsonV::Str("function"@)),
                        ("function"@, JsonV::Object(member_views(function@))),
                    ]);
                }
                Json::Object(top)
            },
        }
    }
}

} // verus!
