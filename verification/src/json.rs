//! The library's model of a JSON value, its accessors, and the calls into
//! `serde_json` that parse and render it.
use crate::text::str_eq;
use vstd::prelude::*;

verus! {

/// A JSON value. Numbers are kept as `serde_json` keeps them: a non-negative
/// integer, a negative integer, or a float (held by its JSON text). Objects
/// keep their members in the order `serde_json` yields them.
#[derive(Debug)]
pub enum Json {
    Null,
    Bool(bool),
    PosInt(u64),
    NegInt(i64),
    Float(String),
    Str(String),
    Array(Vec<Json>),
    Object(Vec<(String, Json)>),
}

#[verifier::external_type_specification]
#[verifier::external_body]
pub struct ExSerdeJsonValue(serde_json::Value);


/// The spec form of a JSON value, with strings as character sequences.
pub enum JsonV {
    Null,
    Bool(bool),
    PosInt(u64),
    NegInt(i64),
    Float(Seq<char>),
    Str(Seq<char>),
    Array(Seq<JsonV>),
    Object(Seq<(Seq<char>, JsonV)>),
}

/// The spec form of a JSON value.
pub open spec fn json_view(j: Json) -> JsonV
    decreases j,
{
    match j {
        Json::Null => JsonV::Null,
        Json::Bool(b) => JsonV::Bool(b),
        Json::PosInt(n) => JsonV::PosInt(n),
        Json::NegInt(n) => JsonV::NegInt(n),
        Json::Float(t) => JsonV::Float(t@),
        Json::Str(s) => JsonV::Str(s@),
        Json::Array(items) => JsonV::Array(json_views(items@)),
        Json::Object(members) => JsonV::Object(member_views(members@)),
    }
}

/// The spec forms of a sequence of JSON values.
pub open spec fn json_views(s: Seq<Json>) -> Seq<JsonV>
    decreases s,
{
    if s.len() == 0 {
        Seq::empty()
    } else {
        seq![json_view(s[0])] + json_views(s.drop_first())
    }
}

/// The spec forms of object members.
pub open spec fn member_views(s: Seq<(String, Json)>) -> Seq<(Seq<char>, JsonV)>
    decreases s,
{
    if s.len() == 0 {
        Seq::empty()
    } else {
        seq![(s[0].0@, json_view(s[0].1))] + member_views(s.drop_first())
    }
}


/// The compact text of a JSON value as `serde_json` writes it.
pub uninterp spec fn json_compact_text(j: JsonV) -> Seq<char>;

/// The pretty-printed text of a JSON value as `serde_json` writes it.
pub uninterp spec fn json_pretty_text(j: JsonV) -> Seq<char>;

/// What `serde_json` makes of a text: a value, or the text of its error.
pub uninterp spec fn json_parse(text: Seq<char>) -> Result<JsonV, Seq<char>>;

proof fn lemma_json_views_len(s: Seq<Json>)
    ensures
        json_views(s).len() == s.len(),
    decreases s.len(),
{
    if s.len() > 0 {
        lemma_json_views_len(s.drop_first());
    }
}

proof fn lemma_json_views_index(s: Seq<Json>, i: int)
    requires
        0 <= i < s.len(),
    ensures
        json_views(s).len() == s.len(),
        json_views(s)[i] == json_view(s[i]),
    decreases s.len(),
{
    lemma_json_views_len(s);
    lemma_json_views_len(s.drop_first());
    if i > 0 {
        lemma_json_views_index(s.drop_first(), i - 1);
    }
}

/// The length and elements of the spec forms of a sequence of values.
pub proof fn lemma_json_views(s: Seq<Json>)
    ensures
        json_views(s).len() == s.len(),
        forall|i: int| 0 <= i < s.len() ==> #[trigger] json_views(s)[i] == json_view(s[i]),
{
    lemma_json_views_len(s);
    assert forall|i: int| 0 <= i < s.len() implies #[trigger] json_views(s)[i] == json_view(s[i]) by {
        lemma_json_views_index(s, i);
    }
}

proof fn lemma_member_views_len(s: Seq<(String, Json)>)
    ensures
        member_views(s).len() == s.len(),
    decreases s.len(),
{
    if s.len() > 0 {
        lemma_member_views_len(s.drop_first());
    }
}

proof fn lemma_member_views_index(s: Seq<(String, Json)>, i: int)
    requires
        0 <= i < s.len(),
    ensures
        member_views(s).len() == s.len(),
        member_views(s)[i] == (s[i].0@, json_view(s[i].1)),
    decreases s.len(),
{
    lemma_member_views_len(s);
    lemma_member_views_len(s.drop_first());
    if i > 0 {
        lemma_member_views_index(s.drop_first(), i - 1);
    }
}

/// The length and elements of the spec forms of object members.
pub proof fn lemma_member_views(s: Seq<(String, Json)>)
    ensures
        member_views(s).len() == s.len(),
        forall|i: int|
            0 <= i < s.len() ==> #[trigger] member_views(s)[i] == (s[i].0@, json_view(s[i].1)),
{
    lemma_member_views_len(s);
    assert forall|i: int| 0 <= i < s.len() implies #[trigger] member_views(s)[i] == (
        s[i].0@,
        json_view(s[i].1),
    ) by {
        lemma_member_views_index(s, i);
    }
}

/// The value of the first member named `key`.
pub open spec fn member_value(members: Seq<(Seq<char>, JsonV)>, key: Seq<char>) -> Option<JsonV>
    decreases members.len(),
{
    if members.len() == 0 {
        None
    } else if members[0].0 == key {
        Some(members[0].1)
    } else {
        member_value(members.drop_first(), key)
    }
}

/// `Value::get` with a key: the member of an object, `None` for anything else.
pub open spec fn get_key(j: JsonV, key: Seq<char>) -> Option<JsonV> {
    match j {
        JsonV::Object(members) => member_value(members, key),
        _ => None,
    }
}

/// `Value::get` with an index: the element of an array, `None` for anything else.
pub open spec fn get_index(j: JsonV, i: int) -> Option<JsonV> {
    match j {
        JsonV::Array(items) => if 0 <= i < items.len() {
            Some(items[i])
        } else {
            None
        },
        _ => None,
    }
}

/// `Value::as_str`.
pub open spec fn as_str_spec(j: JsonV) -> Option<Seq<char>> {
    match j {
        JsonV::Str(s) => Some(s),
        _ => None,
    }
}

/// `Value::as_u64`.
pub open spec fn as_u64_spec(j: JsonV) -> Option<u64> {
    match j {
        JsonV::PosInt(n) => Some(n),
        _ => None,
    }
}

/// `Value::as_i64`.
pub open spec fn as_i64_spec(j: JsonV) -> Option<i64> {
    match j {
        JsonV::PosInt(n) => if n <= i64::MAX {
            Some(n as i64)
        } else {
            None
        },
        JsonV::NegInt(n) => Some(n),
        _ => None,
    }
}

impl View for Json {
    type V = JsonV;

    open spec fn view(&self) -> JsonV {
        json_view(*self)
    }
}

impl Json {
    /// The member named `key` of an object; `None` for a missing member or a
    /// value that is no object.
    pub fn get_key(&self, key: &str) -> (res: Option<&Json>)
        ensures
            match res {
                Some(r) => get_key(self@, key@) == Some(r@),
                None => get_key(self@, key@) is None,
            },
    {
        match self {
            Json::Object(members) => {
                let ghost mv = member_views(members@);
                proof {
                    lemma_member_views(members@);
                    assert(mv.skip(0) =~= mv);
                }
                let mut i: usize = 0;
                while i < members.len()
                    invariant
                        i <= members.len(),
                        mv == member_views(members@),
                        mv.len() == members@.len(),
                        forall|k: int|
                            0 <= k < members@.len() ==> #[trigger] mv[k] == (
                                members@[k].0@,
                                json_view(members@[k].1),
                            ),
                        get_key(self@, key@) == member_value(mv, key@),
                        member_value(mv, key@) == member_value(mv.skip(i as int), key@),
                    decreases members.len() - i,
                {
                    proof {
                        assert(mv.skip(i as int).drop_first() =~= mv.skip(i + 1));
                        assert(mv.skip(i as int)[0] == mv[i as int]);
                    }
                    if str_eq(members[i].0.as_str(), key) {
                        return Some(&members[i].1);
                    }
                    i = i + 1;
                }
                assert(mv.skip(i as int).len() == 0);
                None
            },
            _ => None,
        }
    }

    /// The element at `i` of an array; `None` out of bounds or for a value
    /// that is no array.
    pub fn get_index(&self, i: usize) -> (res: Option<&Json>)
        ensures
            match res {
                Some(r) => get_index(self@, i as int) == Some(r@),
                None => get_index(self@, i as int) is None,
            },
    {
        match self {
            Json::Array(items) => if i < items.len() {
                proof {
                    lemma_json_views(items@);
                    assert(self@ == JsonV::Array(json_views(items@)));
                    assert(json_views(items@)[i as int] == json_view(items@[i as int]));
                }
                Some(&items[i])
            } else {
                proof {
                    lemma_json_views(items@);
                }
                None
            },
            _ => None,
        }
    }

    /// The text of a string value.
    pub fn as_str(&self) -> (res: Option<&str>)
        ensures
            match res {
                Some(s) => as_str_spec(self@) == Some(s@),
                None => as_str_spec(self@) is None,
            },
    {
        match self {
            Json::Str(s) => Some(s.as_str()),
            _ => None,
        }
    }

    /// The elements of an array value.
    pub fn as_array(&self) -> (res: Option<&Vec<Json>>)
        ensures
            match res {
                Some(v) => *self == Json::Array(*v),
                None => !(*self is Array),
            },
    {
        match self {
            Json::Array(items) => Some(items),
            _ => None,
        }
    }

    /// The members of an object value.
    pub fn as_object(&self) -> (res: Option<&Vec<(String, Json)>>)
        ensures
            match res {
                Some(v) => *self == Json::Object(*v),
                None => !(*self is Object),
            },
    {
        match self {
            Json::Object(members) => Some(members),
            _ => None,
        }
    }

    /// A non-negative integer value.
    pub fn as_u64(&self) -> (res: Option<u64>)
        ensures
            res == as_u64_spec(self@),
    {
        match self {
            Json::PosInt(n) => Some(*n),
            _ => None,
        }
    }

    /// An integer value that fits in `i64`.
    pub fn as_i64(&self) -> (res: Option<i64>)
        ensures
            res == as_i64_spec(self@),
    {
        match self {
            Json::PosInt(n) => if *n <= 9223372036854775807u64 {
                Some(*n as i64)
            } else {
                None
            },
            Json::NegInt(n) => Some(*n),
            _ => None,
        }
    }

    /// Whether the value is `null`.
    pub fn is_null(&self) -> (res: bool)
        ensures
            res == (*self is Null),
    {
        match self {
            Json::Null => true,
            _ => false,
        }
    }
}

impl Json {
    /// Parses a JSON text as `serde_json` does, or gives the text of the parse
    /// error.
    pub fn parse(text: &str) -> (res: Result<Json, String>)
        ensures
            match res {
                Ok(j) => json_parse(text@) == Ok::<JsonV, Seq<char>>(j@),
                Err(e) => json_parse(text@) == Err::<JsonV, Seq<char>>(e@),
            },
    {
        parse_json_text(text)
    }

    /// The compact JSON text of the value.
    pub fn to_text(&self) -> (res: String)
        ensures
            res@ == json_compact_text(self@),
    {
        json_to_text(self)
    }

    /// The pretty-printed JSON text of the value.
    pub fn to_pretty_text(&self) -> (res: String)
        ensures
            res@ == json_pretty_text(self@),
    {
        json_to_pretty_text(self)
    }
}

/// The compact text of a value; converts it to a `serde_json::Value` and
/// wraps that type's `Display`.
#[verifier::external_body]
pub(crate) fn json_to_text(j: &Json) -> (res: String)
    ensures
        res@ == json_compact_text(j@),
{
    to_serde_value(j).to_string()
}

/// The pretty-printed text of a value; converts it to a `serde_json::Value`
/// and wraps `serde_json::to_string_pretty`, falling back to the compact text
/// where that call fails.
#[verifier::external_body]
pub(crate) fn json_to_pretty_text(j: &Json) -> (res: String)
    ensures
        res@ == json_pretty_text(j@),
{
    let v = to_serde_value(j);
    serde_json::to_string_pretty(&v).unwrap_or_else(|_| v.to_string())
}

/// Parses a JSON text; wraps `serde_json::from_str` into a
/// `serde_json::Value`, converted to the library's model, or the text of the
/// parse error.
#[verifier::external_body]
pub(crate) fn parse_json_text(text: &str) -> (res: Result<Json, String>)
    ensures
        match res {
            Ok(j) => json_parse(text@) == Ok::<JsonV, Seq<char>>(j@),
            Err(e) => json_parse(text@) == Err::<JsonV, Seq<char>>(e@),
        },
{
    match serde_json::from_str::<serde_json::Value>(text) {
        Ok(v) => Ok(from_serde_value(&v)),
        Err(e) => Err(e.to_string()),
    }
}

#[verifier::external_body]
fn to_serde_value(j: &Json) -> serde_json::Value {
    match j {
        Json::Null => serde_json::Value::Null,
        Json::Bool(b) => serde_json::Value::Bool(*b),
        Json::PosInt(n) => serde_json::Value::from(*n),
        Json::NegInt(n) => serde_json::Value::from(*n),
        Json::Float(t) => t.parse::<serde_json::Number>().map(serde_json::Value::Number).unwrap_or(serde_json::Value::Null),
        Json::Str(s) => serde_json::Value::String(s.clone()),
        Json::Array(items) => serde_json::Value::Array(items.iter().map(to_serde_value).collect()),
        Json::Object(members) => serde_json::Value::Object(members.iter().map(|(k, v)| (k.clone(), to_serde_value(v))).collect()),
    }
}

#[verifier::external_body]
fn from_serde_value(v: &serde_json::Value) -> Json {
    match v {
        serde_json::Value::Null => Json::Null,
        serde_json::Value::Bool(b) => Json::Bool(*b),
        serde_json::Value::Number(n) => match (n.as_u64(), n.as_i64()) {
            (Some(u), _) => Json::PosInt(u),
            (None, Some(i)) => Json::NegInt(i),
            _ => Json::Float(n.to_string()),
        },
        serde_json::Value::String(s) => Json::Str(s.clone()),
        serde_json::Value::Array(items) => Json::Array(items.iter().map(from_serde_value).collect()),
        serde_json::Value::Object(map) => Json::Object(map.iter().map(|(k, v)| (k.clone(), from_serde_value(v))).collect()),
    }
}

} // verus!


verus! {

/// The position of the first member named `key`.
pub open spec fn member_index(ms: Seq<(Seq<char>, JsonV)>, key: Seq<char>) -> Option<int>
    decreases ms.len(),
{
    if ms.len() == 0 {
        None
    } else if ms[0].0 == key {
        Some(0)
    } else {
        match member_index(ms.drop_first(), key) {
            Some(i) => Some(i + 1),
            None => None,
        }
    }
}

/// The members after `key` is set to `v` (as `value[key] = v` does on a
/// `serde_json` object): the first member of that name is replaced, or the
/// member is added at the end.
pub open spec fn set_member_v(ms: Seq<(Seq<char>, JsonV)>, key: Seq<char>, v: JsonV) -> Seq<
    (Seq<char>, JsonV),
> {
    match member_index(ms, key) {
        Some(i) => ms.update(i, (key, v)),
        None => ms.push((key, v)),
    }
}

impl Json {
    /// A string value.
    pub fn string(s: &str) -> (res: Json)
        ensures
            res@ == JsonV::Str(s@),
    {
        Json::Str(String::from_str(s))
    }
}

/// Appends an element to an array under construction.
pub fn push_item(items: &mut Vec<Json>, v: Json)
    ensures
        json_views(final(items)@) == json_views(old(items)@).push(v@),
{
    let ghost before = items@;
    items.push(v);
    proof {
        lemma_json_views(before);
        lemma_json_views(items@);
        assert(json_views(items@) =~= json_views(before).push(v@));
    }
}

/// Appends a member to an object under construction.
pub fn push_member(members: &mut Vec<(String, Json)>, key: &str, v: Json)
    ensures
        member_views(final(members)@) == member_views(old(members)@).push((key@, v@)),
{
    let ghost before = members@;
    members.push((String::from_str(key), v));
    proof {
        lemma_member_views(before);
        lemma_member_views(members@);
        assert(member_views(members@) =~= member_views(before).push((key@, v@)));
    }
}

/// Sets the member `key` of an object under construction.
pub fn set_member(members: &mut Vec<(String, Json)>, key: &str, v: Json)
    ensures
        member_views(final(members)@) == set_member_v(member_views(old(members)@), key@, v@),
{
    let ghost before = members@;
    let ghost mv = member_views(before);
    proof {
        lemma_member_views(before);
        assert(mv.skip(0) =~= mv);
    }
    let mut i: usize = 0;
    while i < members.len()
        invariant
            i <= members.len(),
            members@ == before,
            old(members)@ == before,
            mv == member_views(before),
            mv.len() == before.len(),
            forall|k: int|
                0 <= k < before.len() ==> #[trigger] mv[k] == (before[k].0@, json_view(before[k].1)),
            forall|k: int| 0 <= k < i ==> mv[k].0 != key@,
            member_index(mv, key@) == match member_index(mv.skip(i as int), key@) {
                Some(j) => Some(j + i),
                None => None::<int>,
            },
        decreases members.len() - i,
    {
        proof {
            assert(mv.skip(i as int).drop_first() =~= mv.skip(i + 1));
            assert(mv.skip(i as int)[0] == mv[i as int]);
        }
        if crate::text::str_eq(members[i].0.as_str(), key) {
            let ghost old_members = members@;
            proof {
                assert(mv[i as int].0 == key@);
                assert(member_index(mv.skip(i as int), key@) == Some(0int));
            }
            members.set(i, (String::from_str(key), v));
            proof {
                lemma_member_views(members@);
                assert(member_views(members@) =~= mv.update(i as int, (key@, v@)));
            }
            return;
        }
        i = i + 1;
    }
    proof {
        assert(mv.skip(i as int).len() == 0);
    }
    members.push((String::from_str(key), v));
    proof {
        lemma_member_views(members@);
        assert(member_views(members@) =~= mv.push((key@, v@)));
    }
}

} // verus!
