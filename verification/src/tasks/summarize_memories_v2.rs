//! Distilling each person's raw memories into a few consolidated memory
//! records: the memories are split into sections, each section is summarized
//! by a model through a tool call, and the results are cleaned up before they
//! are stored.
use crate::json::{as_i64_spec, as_str_spec, member_value, member_views, Json, JsonV};
use crate::nice_display::NiceDisplay;
use crate::open_ai::completion::{completion_error_text, Completion, CompletionError, Response};
use crate::open_ai::model::{model_name, Model};
use crate::open_ai::role::Role;
use crate::open_ai::tool::{Tool, ToolFunction, ToolFunctionParameter};
use crate::open_ai::tool_call::{
    decode_error_text, decode_tool_calls, tool_call_views, ToolCall, ToolCallDecodeError, ToolCallV,
};
use crate::text::{
    char_is_white_space, decimal_text, i64_text, is_white_space, join_seq, push_char, signed_decimal_text,
    str_eq, string_views, trim_chars, trim_text, u64_text,
};
use vstd::prelude::*;
use vstd::string::*;

verus! {

/// How many sections a person's memories are split into at most.
pub const TARGET_SECTION_COUNT: usize = 7;

/// How many times a section's summary is asked for at most.
pub const MAX_SECTION_SUMMARY_ATTEMPTS: usize = 4;

/// Why summarizing memories failed; each holds the text of the underlying
/// failure.
#[derive(Debug)]
pub enum Error {
    WorkerInit(String),
    FetchPeople(String),
    FetchPersonMemories(String),
    Completion(String),
    ToolCallDecode(String),
    MissingToolArgument(String),
    InvalidResponseShape { person_name: String, details: String },
    CreateEmbedding(String),
    InsertMemory(String),
}

/// The explanation of an error.
pub open spec fn summarize_error_text(e: Error) -> Seq<char> {
    match e {
        Error::WorkerInit(d) => "Worker initialization failed: "@ + d@,
        Error::FetchPeople(d) => "Failed to fetch people: "@ + d@,
        Error::FetchPersonMemories(d) => "Failed to fetch person memories: "@ + d@,
        Error::Completion(d) => "Failed to summarize memories with LLM: "@ + d@,
        Error::ToolCallDecode(d) => "Failed to decode LLM tool call: "@ + d@,
        Error::MissingToolArgument(d) => "Missing expected tool argument: "@ + d@,
        Error::InvalidResponseShape { person_name, details } => "LLM output shape invalid for person "@
            + person_name@ + ": "@ + details@,
        Error::CreateEmbedding(d) => "Failed creating embedding: "@ + d@,
        Error::InsertMemory(d) => "Failed inserting summarized memory: "@ + d@,
    }
}

fn prefixed(prefix: &str, d: &str) -> (res: String)
    ensures
        res@ == prefix@ + d@,
{
    let mut s = String::from_str(prefix);
    s.append(d);
    s
}

impl Error {
    /// The explanation of the error.
    pub fn explain(&self) -> (res: String)
        ensures
            res@ == summarize_error_text(*self),
    {
        match self {
            Error::WorkerInit(d) => prefixed("Worker initialization failed: ", d.as_str()),
            Error::FetchPeople(d) => prefixed("Failed to fetch people: ", d.as_str()),
            Error::FetchPersonMemories(d) => prefixed("Failed to fetch person memories: ", d.as_str()),
            Error::Completion(d) => prefixed("Failed to summarize memories with LLM: ", d.as_str()),
            Error::ToolCallDecode(d) => prefixed("Failed to decode LLM tool call: ", d.as_str()),
            Error::MissingToolArgument(d) => prefixed("Missing expected tool argument: ", d.as_str()),
            Error::InvalidResponseShape { person_name, details } => {
                let mut s = prefixed("LLM output shape invalid for person ", person_name.as_str());
                s.append(": ");
                s.append(details.as_str());
                s
            },
            Error::CreateEmbedding(d) => prefixed("Failed creating embedding: ", d.as_str()),
            Error::InsertMemory(d) => prefixed("Failed inserting summarized memory: ", d.as_str()),
        }
    }
}

impl NiceDisplay for Error {
    open spec fn message_spec(&self) -> Seq<char> {
        summarize_error_text(*self)
    }

    fn message(&self) -> (res: String) {
        let r = self.explain();
        assert(self.message_spec() == summarize_error_text(*self));
        r
    }
}

/// The number of sections `len` memories are split into.
pub open spec fn section_count(len: nat, target_sections: nat) -> nat {
    if len <= target_sections {
        len
    } else {
        target_sections
    }
}

/// Where section `i` of `n` starts among `len` memories.
pub open spec fn section_start(len: nat, n: nat, i: nat) -> nat {
    (i * len / n) as nat
}

/// Section `i` of `n`.
pub open spec fn section_of(ms: Seq<String>, n: nat, i: nat) -> Seq<String> {
    ms.subrange(section_start(ms.len(), n, i) as int, section_start(ms.len(), n, i + 1) as int)
}

proof fn lemma_section_bounds(len: nat, n: nat, i: nat)
    requires
        0 < n,
        i < n,
    ensures
        section_start(len, n, i) <= section_start(len, n, i + 1) <= len,
{
    assert(i * len <= (i + 1) * len) by (nonlinear_arith);
    assert((i + 1) * len <= n * len) by (nonlinear_arith)
        requires
            i + 1 <= n,
    ;
    assert(i * len / n <= (i + 1) * len / n) by (nonlinear_arith)
        requires
            i * len <= (i + 1) * len,
            0 < n,
    ;
    assert((i + 1) * len / n <= n * len / n) by (nonlinear_arith)
        requires
            (i + 1) * len <= n * len,
            0 < n,
    ;
    assert(n * len / n == len) by (nonlinear_arith)
        requires
            0 < n,
    ;
}

fn copy_range(ms: &Vec<String>, start: usize, end: usize) -> (res: Vec<String>)
    requires
        start <= end <= ms.len(),
    ensures
        res@ == ms@.subrange(start as int, end as int),
{
    let mut res: Vec<String> = Vec::new();
    let mut i: usize = start;
    while i < end
        invariant
            start <= i <= end <= ms.len(),
            res@ == ms@.subrange(start as int, i as int),
        decreases end - i,
    {
        res.push(ms[i].clone());
        proof {
            assert(ms@.subrange(start as int, i + 1) =~= ms@.subrange(start as int, i as int).push(ms@[i as int]));
        }
        i = i + 1;
    }
    res
}

proof fn lemma_boundary_within(len: nat, n: nat, i: nat)
    requires
        0 < n,
        i <= n,
    ensures
        i * len / n <= len,
{
    assert(i * len <= n * len) by (nonlinear_arith)
        requires
            i <= n,
    ;
    assert(i * len / n <= n * len / n) by (nonlinear_arith)
        requires
            i * len <= n * len,
            0 < n,
    ;
    assert(n * len / n == len) by (nonlinear_arith)
        requires
            0 < n,
    ;
}

fn section_boundary(len: usize, n: usize, i: usize) -> (res: usize)
    requires
        0 < n,
        i <= n,
    ensures
        res == section_start(len as nat, n as nat, i as nat),
        res <= len,
{
    proof {
        lemma_boundary_within(len as nat, n as nat, i as nat);
        assert((i as int) * (len as int) <= 0xffff_ffff_ffff_ffff_ffff_ffff_ffff_ffffint) by (nonlinear_arith)
            requires
                i <= 0xffff_ffff_ffff_ffffint,
                len <= 0xffff_ffff_ffff_ffffint,
        ;
    }
    let p: u128 = (i as u128) * (len as u128);
    (p / (n as u128)) as usize
}

/// Splits the memories, in order, into at most `target_sections` sections of
/// nearly equal size: section `i` of `n` holds the memories from `i * len / n`
/// up to `(i + 1) * len / n`.
pub fn split_memories_into_sections(memories: &Vec<String>, target_sections: usize) -> (res: Vec<Vec<String>>)
    ensures
        res.len() == section_count(memories.len() as nat, target_sections as nat),
        forall|i: int|
            0 <= i < res.len() ==> #[trigger] res@[i]@ == section_of(memories@, res.len() as nat, i as nat),
{
    let len = memories.len();
    if len == 0 {
        return Vec::new();
    }
    let n: usize = if len <= target_sections { len } else { target_sections };
    let mut sections: Vec<Vec<String>> = Vec::new();
    let mut i: usize = 0;
    while i < n
        invariant
            n == section_count(len as nat, target_sections as nat),
            len == memories.len(),
            i <= n,
            sections.len() == i,
            forall|k: int| 0 <= k < i ==> #[trigger] sections@[k]@ == section_of(memories@, n as nat, k as nat),
        decreases n - i,
    {
        proof {
            lemma_section_bounds(len as nat, n as nat, i as nat);
        }
        let start = section_boundary(len, n, i);
        let end = section_boundary(len, n, i + 1);
        let section = copy_range(memories, start, end);
        sections.push(section);
        i = i + 1;
    }
    sections
}

/// The code of a character, with ASCII capitals read as their lower case.
pub open spec fn ascii_lower(c: char) -> int {
    if 'A' <= c <= 'Z' {
        (c as int) + 32
    } else {
        c as int
    }
}

/// Equality up to the case of ASCII letters.
pub open spec fn eq_ignore_ascii_case(a: Seq<char>, b: Seq<char>) -> bool {
    a.len() == b.len() && forall|i: int| 0 <= i < a.len() ==> #[trigger] ascii_lower(a[i]) == ascii_lower(b[i])
}

fn lower_ascii_char(c: char) -> (res: u32)
    ensures
        res == ascii_lower(c),
{
    if 'A' <= c && c <= 'Z' {
        (c as u32) + 32
    } else {
        c as u32
    }
}

/// Whether two texts are equal up to the case of ASCII letters.
pub fn str_eq_ignore_ascii_case(a: &str, b: &str) -> (res: bool)
    ensures
        res == eq_ignore_ascii_case(a@, b@),
{
    let n = a.unicode_len();
    if n != b.unicode_len() {
        return false;
    }
    let mut i: usize = 0;
    while i < n
        invariant
            n == a@.len() == b@.len(),
            i <= n,
            forall|k: int| 0 <= k < i ==> #[trigger] ascii_lower(a@[k]) == ascii_lower(b@[k]),
        decreases n - i,
    {
        if lower_ascii_char(a.get_char(i)) != lower_ascii_char(b.get_char(i)) {
            return false;
        }
        i = i + 1;
    }
    true
}

/// Whether some entry equals `t` up to the case of ASCII letters.
pub open spec fn has_like(entries: Seq<Seq<char>>, t: Seq<char>) -> bool {
    exists|i: int| 0 <= i < entries.len() && #[trigger] eq_ignore_ascii_case(entries[i], t)
}

/// The values trimmed, without the empty ones, and without those equal to an
/// earlier one up to the case of ASCII letters; in order.
pub open spec fn normalized_list(values: Seq<Seq<char>>) -> Seq<Seq<char>>
    decreases values.len(),
{
    if values.len() == 0 {
        Seq::empty()
    } else {
        let kept = normalized_list(values.drop_last());
        let t = trim_chars(values.last());
        if t.len() == 0 || has_like(kept, t) {
            kept
        } else {
            kept.push(t)
        }
    }
}

/// Trims each value and drops the empty ones and those equal to an earlier
/// one up to the case of ASCII letters.
pub fn normalize_string_list(values: Vec<String>) -> (res: Vec<String>)
    ensures
        string_views(res@) == normalized_list(string_views(values@)),
{
    let ghost vs = string_views(values@);
    let mut ret: Vec<String> = Vec::new();
    let mut i: usize = 0;
    while i < values.len()
        invariant
            i <= values.len(),
            vs == string_views(values@),
            string_views(ret@) == normalized_list(vs.take(i as int)),
        decreases values.len() - i,
    {
        proof {
            assert(vs.take(i + 1).drop_last() =~= vs.take(i as int));
            assert(vs.take(i + 1).last() == values@[i as int]@);
        }
        let trimmed = trim_text(values[i].as_str());
        if trimmed.as_str().unicode_len() != 0 {
            let ghost kept = string_views(ret@);
            let mut found = false;
            let mut j: usize = 0;
            while j < ret.len()
                invariant
                    j <= ret.len(),
                    kept == string_views(ret@),
                    found == exists|k: int| 0 <= k < j && #[trigger] eq_ignore_ascii_case(kept[k], trimmed@),
                decreases ret.len() - j,
            {
                let same = str_eq_ignore_ascii_case(ret[j].as_str(), trimmed.as_str());
                proof {
                    assert(kept[j as int] == ret@[j as int]@);
                }
                found = found || same;
                j = j + 1;
            }
            if !found {
                let ghost before = ret@;
                ret.push(trimmed);
                proof {
                    assert(string_views(ret@) =~= string_views(before).push(trimmed@));
                }
            }
        }
        i = i + 1;
    }
    proof {
        assert(vs.take(values.len() as int) =~= vs);
    }
    ret
}

/// The words of a text: its maximal runs of characters other than white
/// space, in order.
pub open spec fn words(s: Seq<char>) -> Seq<Seq<char>>
    decreases s.len(),
{
    if s.len() == 0 {
        Seq::empty()
    } else {
        let p = s.drop_last();
        let c = s.last();
        if is_white_space(c) {
            words(p)
        } else if p.len() > 0 && !is_white_space(p.last()) {
            let w = words(p);
            w.drop_last().push(w.last().push(c))
        } else {
            words(p).push(seq![c])
        }
    }
}

pub(crate) proof fn lemma_words_nonempty(s: Seq<char>)
    requires
        s.len() > 0,
        !is_white_space(s.last()),
    ensures
        words(s).len() > 0,
    decreases s.len(),
{
    let p = s.drop_last();
    if p.len() > 0 && !is_white_space(p.last()) {
        lemma_words_nonempty(p);
    }
}

/// The text cut to its first `max_words` words, joined by single spaces; a
/// text with no more words is only trimmed.
pub open spec fn clamped_words(input: Seq<char>, max_words: nat) -> Seq<char> {
    let ws = words(input);
    if ws.len() <= max_words {
        trim_chars(input)
    } else {
        join_seq(ws.take(max_words as int), " "@)
    }
}

/// The words of a text.
pub fn split_words(input: &str) -> (res: Vec<String>)
    ensures
        string_views(res@) == words(input@),
{
    let n = input.unicode_len();
    let mut res: Vec<String> = Vec::new();
    let mut prev_in_word = false;
    let mut i: usize = 0;
    while i < n
        invariant
            n == input@.len(),
            i <= n,
            string_views(res@) == words(input@.take(i as int)),
            prev_in_word == (i > 0 && !is_white_space(input@[i - 1])),
        decreases n - i,
    {
        let c = input.get_char(i);
        let ghost s = input@.take(i + 1);
        proof {
            assert(s.drop_last() =~= input@.take(i as int));
            assert(s.last() == c);
            if i > 0 {
                assert(input@.take(i as int).last() == input@[i - 1]);
            }
        }
        if char_is_white_space(c) {
            prev_in_word = false;
        } else if prev_in_word {
            proof {
                lemma_words_nonempty(input@.take(i as int));
            }
            let ghost before = string_views(res@);
            let mut last = res.pop().unwrap();
            push_char(&mut last, c);
            res.push(last);
            proof {
                assert(string_views(res@) =~= before.drop_last().push(before.last().push(c)));
            }
        } else {
            let ghost before = string_views(res@);
            let mut w = String::new();
            push_char(&mut w, c);
            res.push(w);
            proof {
                assert(w@ =~= seq![c]);
                assert(string_views(res@) =~= before.push(seq![c]));
            }
            prev_in_word = true;
        }
        i = i + 1;
    }
    proof {
        assert(input@.take(n as int) =~= input@);
    }
    res
}

/// Cuts a text to its first `max_words` words.
pub fn clamp_to_max_words(input: &str, max_words: usize) -> (res: String)
    ensures
        res@ == clamped_words(input@, max_words as nat),
{
    let ws = split_words(input);
    if ws.len() <= max_words {
        return trim_text(input);
    }
    let mut first: Vec<String> = Vec::new();
    let mut i: usize = 0;
    while i < max_words
        invariant
            i <= max_words < ws.len(),
            first@ == ws@.take(i as int),
        decreases max_words - i,
    {
        first.push(ws[i].clone());
        proof {
            assert(ws@.take(i + 1) =~= ws@.take(i as int).push(ws@[i as int]));
        }
        i = i + 1;
    }
    proof {
        assert(string_views(first@) =~= string_views(ws@).take(max_words as int));
    }
    crate::text::join_texts(&first, " ")
}

/// Whether `p` is a text parameter with the given name, description and
/// requiredness.
pub open spec fn is_text_param(p: ToolFunctionParameter, name: Seq<char>, description: Seq<char>, required: bool) -> bool {
    match p {
        ToolFunctionParameter::String { name: n, description: d, required: r } => n@ == name && d@ == description
            && r == required,
        _ => false,
    }
}

/// Whether `p` is an integer parameter with the given name, description and
/// requiredness.
pub open spec fn is_number_param(p: ToolFunctionParameter, name: Seq<char>, description: Seq<char>, required: bool) -> bool {
    match p {
        ToolFunctionParameter::Integer { name: n, description: d, required: r } => n@ == name && d@ == description
            && r == required,
        _ => false,
    }
}

/// Whether `p` is a list-of-texts parameter with the given name, description
/// and requiredness.
pub open spec fn is_text_list_param(p: ToolFunctionParameter, name: Seq<char>, description: Seq<char>, required: bool) -> bool {
    match p {
        ToolFunctionParameter::StringArray { name: n, description: d, required: r } => n@ == name && d@
            == description && r == required,
        _ => false,
    }
}

/// Whether `f` is the `add_v2_memory` tool.
pub open spec fn is_v2_memory_tool(f: ToolFunction) -> bool {
    &&& f.name@ == "add_v2_memory"@
    &&& f.description@ == "Create one consolidated v2 memory."@
    &&& f.parameters@.len() == 7
    &&& is_text_param(f.parameters@[0], "third_person_memory"@, "Neutral third-person version of the memory."@, true)
    &&& is_text_param(
        f.parameters@[1],
        "third_person_summary"@,
        "Very short one-sentence summary (max 18 words), much shorter than third_person_memory."@,
        true,
    )
    &&& is_text_param(f.parameters@[2], "first_person_memory"@, "First-person version of the same memory."@, true)
    &&& is_text_param(
        f.parameters@[3],
        "significance_comment"@,
        "Short explanation of why this memory is significant."@,
        true,
    )
    &&& is_number_param(f.parameters@[4], "emotional_score"@, "0-100 emotional score."@, true)
    &&& is_text_list_param(f.parameters@[5], "people_names"@, "People involved in the memory."@, true)
    &&& is_text_list_param(f.parameters@[6], "subject_tags"@, "Short lowercase tags for the memory subjects."@, true)
}

/// The `add_v2_memory` tool: seven required parameters, one for each part of a
/// consolidated memory.
pub fn v2_memory_tool_definition() -> (res: ToolFunction)
    ensures
        is_v2_memory_tool(res),
{
    let parameters = vec![
        ToolFunctionParameter::String {
            name: String::from_str("third_person_memory"),
            description: String::from_str("Neutral third-person version of the memory."),
            required: true,
        },
        ToolFunctionParameter::String {
            name: String::from_str("third_person_summary"),
            description: String::from_str(
                "Very short one-sentence summary (max 18 words), much shorter than third_person_memory.",
            ),
            required: true,
        },
        ToolFunctionParameter::String {
            name: String::from_str("first_person_memory"),
            description: String::from_str("First-person version of the same memory."),
            required: true,
        },
        ToolFunctionParameter::String {
            name: String::from_str("significance_comment"),
            description: String::from_str("Short explanation of why this memory is significant."),
            required: true,
        },
        ToolFunctionParameter::Integer {
            name: String::from_str("emotional_score"),
            description: String::from_str("0-100 emotional score."),
            required: true,
        },
        ToolFunctionParameter::StringArray {
            name: String::from_str("people_names"),
            description: String::from_str("People involved in the memory."),
            required: true,
        },
        ToolFunctionParameter::StringArray {
            name: String::from_str("subject_tags"),
            description: String::from_str("Short lowercase tags for the memory subjects."),
            required: true,
        },
    ];
    ToolFunction::new(String::from_str("add_v2_memory"), String::from_str("Create one consolidated v2 memory."), parameters)
}

/// A consolidated memory as the model gave it.
#[derive(Debug)]
pub struct V2MemoryCandidate {
    pub third_person_memory: String,
    pub third_person_summary: String,
    pub first_person_memory: String,
    pub significance_comment: String,
    pub emotional_score: i32,
    pub people_names: Vec<String>,
    pub subject_tags: Vec<String>,
}

/// The spec form of a consolidated memory.
pub struct CandidateV {
    pub third_person_memory: Seq<char>,
    pub third_person_summary: Seq<char>,
    pub first_person_memory: Seq<char>,
    pub significance_comment: Seq<char>,
    pub emotional_score: i32,
    pub people_names: Seq<Seq<char>>,
    pub subject_tags: Seq<Seq<char>>,
}

impl View for V2MemoryCandidate {
    type V = CandidateV;

    open spec fn view(&self) -> CandidateV {
        CandidateV {
            third_person_memory: self.third_person_memory@,
            third_person_summary: self.third_person_summary@,
            first_person_memory: self.first_person_memory@,
            significance_comment: self.significance_comment@,
            emotional_score: self.emotional_score,
            people_names: string_views(self.people_names@),
            subject_tags: string_views(self.subject_tags@),
        }
    }
}

/// The message of a missing argument.
pub open spec fn missing_argument_text(key: Seq<char>) -> Seq<char> {
    "Missing '"@ + key + "' in tool arguments"@
}

/// The message of an argument of the wrong kind.
pub open spec fn argument_kind_text(key: Seq<char>, requirement: Seq<char>) -> Seq<char> {
    "'"@ + key + "' "@ + requirement
}

/// A required text argument, or the message of what is wrong with it.
pub open spec fn string_arg(args: Seq<(Seq<char>, JsonV)>, key: Seq<char>) -> Result<Seq<char>, Seq<char>> {
    match member_value(args, key) {
        None => Err(missing_argument_text(key)),
        Some(v) => match as_str_spec(v) {
            Some(t) => Ok(t),
            None => Err(argument_kind_text(key, "must be a string"@)),
        },
    }
}

/// A required integer argument that fits in `i32`, or the message of what is
/// wrong with it.
pub open spec fn integer_arg(args: Seq<(Seq<char>, JsonV)>, key: Seq<char>) -> Result<i32, Seq<char>> {
    match member_value(args, key) {
        None => Err(missing_argument_text(key)),
        Some(v) => match as_i64_spec(v) {
            None => Err(argument_kind_text(key, "must be an integer"@)),
            Some(x) => if x < i32::MIN || x > i32::MAX {
                Err(argument_kind_text(key, "integer out of range: "@ + signed_decimal_text(x as int)))
            } else {
                Ok(x as i32)
            },
        },
    }
}

/// Whether every item is a text.
pub open spec fn all_texts(items: Seq<JsonV>) -> bool {
    forall|i: int| 0 <= i < items.len() ==> #[trigger] items[i] is Str
}

/// The texts of text items.
pub open spec fn text_payloads(items: Seq<JsonV>) -> Seq<Seq<char>> {
    items.map_values(|j: JsonV| j->Str_0)
}

/// A required list-of-texts argument, or the message of what is wrong with it.
pub open spec fn string_array_arg(args: Seq<(Seq<char>, JsonV)>, key: Seq<char>) -> Result<Seq<Seq<char>>, Seq<char>> {
    match member_value(args, key) {
        None => Err(missing_argument_text(key)),
        Some(JsonV::Array(items)) => if all_texts(items) {
            Ok(text_payloads(items))
        } else {
            Err(argument_kind_text(key, "must contain only strings"@))
        },
        Some(_) => Err(argument_kind_text(key, "must be an array"@)),
    }
}

/// The consolidated memory of a tool call's arguments, or the message of the
/// first argument (in the order of the memory's parts) that is wrong.
pub open spec fn candidate_from_args(args: Seq<(Seq<char>, JsonV)>) -> Result<CandidateV, Seq<char>> {
    match string_arg(args, "third_person_memory"@) {
        Err(e) => Err(e),
        Ok(third_person_memory) => match string_arg(args, "third_person_summary"@) {
            Err(e) => Err(e),
            Ok(third_person_summary) => match string_arg(args, "first_person_memory"@) {
                Err(e) => Err(e),
                Ok(first_person_memory) => match string_arg(args, "significance_comment"@) {
                    Err(e) => Err(e),
                    Ok(significance_comment) => match integer_arg(args, "emotional_score"@) {
                        Err(e) => Err(e),
                        Ok(emotional_score) => match string_array_arg(args, "people_names"@) {
                            Err(e) => Err(e),
                            Ok(people_names) => match string_array_arg(args, "subject_tags"@) {
                                Err(e) => Err(e),
                                Ok(subject_tags) => Ok(
                                    CandidateV {
                                        third_person_memory,
                                        third_person_summary,
                                        first_person_memory,
                                        significance_comment,
                                        emotional_score,
                                        people_names,
                                        subject_tags,
                                    },
                                ),
                            },
                        },
                    },
                },
            },
        },
    }
}

/// The error of a wrong argument: its message, or the candidate.
pub open spec fn arg_result<T>(r: Result<T, Error>, expected: Result<T, Seq<char>>) -> bool {
    match (r, expected) {
        (Ok(v), Ok(w)) => v == w,
        (Err(Error::MissingToolArgument(m)), Err(e)) => m@ == e,
        _ => false,
    }
}

fn quoted_key(key: &str, requirement: &str) -> (res: String)
    ensures
        res@ == argument_kind_text(key@, requirement@),
{
    let mut s = String::from_str("'");
    s.append(key);
    s.append("' ");
    s.append(requirement);
    s
}

/// The value of the argument named `key`.
pub fn find_required_argument_value<'a>(call: &'a ToolCall, key: &str) -> (res: Result<&'a Json, Error>)
    ensures
        match res {
            Ok(v) => member_value(call@.arguments, key@) == Some(v@),
            Err(Error::MissingToolArgument(m)) => member_value(call@.arguments, key@) is None && m@
                == missing_argument_text(key@),
            Err(_) => false,
        },
{
    let ghost ms = member_views(call.arguments@);
    proof {
        crate::json::lemma_member_views(call.arguments@);
        assert(ms.skip(0) =~= ms);
    }
    let mut i: usize = 0;
    while i < call.arguments.len()
        invariant
            i <= call.arguments.len(),
            ms == member_views(call.arguments@),
            ms.len() == call.arguments@.len(),
            forall|k: int| 0 <= k < ms.len() ==> #[trigger] ms[k] == (call.arguments@[k].0@, call.arguments@[k].1@),
            member_value(ms, key@) == member_value(ms.skip(i as int), key@),
        decreases call.arguments.len() - i,
    {
        proof {
            assert(ms.skip(i as int)[0] == ms[i as int]);
            assert(ms.skip(i as int).drop_first() =~= ms.skip(i + 1));
        }
        if str_eq(call.arguments[i].0.as_str(), key) {
            return Ok(&call.arguments[i].1);
        }
        i = i + 1;
    }
    proof {
        assert(ms.skip(i as int).len() == 0);
    }
    let mut m = String::from_str("Missing '");
    m.append(key);
    m.append("' in tool arguments");
    Err(Error::MissingToolArgument(m))
}

/// A required text argument.
pub fn find_required_string_argument(call: &ToolCall, key: &str) -> (res: Result<String, Error>)
    ensures
        match (res, string_arg(call@.arguments, key@)) {
            (Ok(v), Ok(w)) => v@ == w,
            (Err(Error::MissingToolArgument(m)), Err(e)) => m@ == e,
            _ => false,
        },
{
    let v = match find_required_argument_value(call, key) {
        Ok(v) => v,
        Err(e) => return Err(e),
    };
    match v.as_str() {
        Some(t) => Ok(String::from_str(t)),
        None => Err(Error::MissingToolArgument(quoted_key(key, "must be a string"))),
    }
}

/// A required integer argument that fits in `i32`.
pub fn find_required_integer_argument(call: &ToolCall, key: &str) -> (res: Result<i32, Error>)
    ensures
        arg_result(res, integer_arg(call@.arguments, key@)),
{
    let v = match find_required_argument_value(call, key) {
        Ok(v) => v,
        Err(e) => return Err(e),
    };
    let value = match v.as_i64() {
        Some(x) => x,
        None => return Err(Error::MissingToolArgument(quoted_key(key, "must be an integer"))),
    };
    if value < -2147483648i64 || value > 2147483647i64 {
        let mut m = quoted_key(key, "integer out of range: ");
        let n = i64_text(value);
        m.append(n.as_str());
        proof {
            assert(m@ =~= argument_kind_text(key@, "integer out of range: "@ + signed_decimal_text(value as int)));
        }
        return Err(Error::MissingToolArgument(m));
    }
    Ok(value as i32)
}

/// A required list-of-texts argument.
pub fn find_required_string_array_argument(call: &ToolCall, key: &str) -> (res: Result<Vec<String>, Error>)
    ensures
        match (res, string_array_arg(call@.arguments, key@)) {
            (Ok(v), Ok(w)) => string_views(v@) == w,
            (Err(Error::MissingToolArgument(m)), Err(e)) => m@ == e,
            _ => false,
        },
{
    let v = match find_required_argument_value(call, key) {
        Ok(v) => v,
        Err(e) => return Err(e),
    };
    let items = match v.as_array() {
        Some(items) => items,
        None => return Err(Error::MissingToolArgument(quoted_key(key, "must be an array"))),
    };
    let ghost views = crate::json::json_views(items@);
    proof {
        crate::json::lemma_json_views(items@);
        assert(v@ == JsonV::Array(views));
    }
    let mut out: Vec<String> = Vec::new();
    let mut i: usize = 0;
    while i < items.len()
        invariant
            i <= items.len(),
            views == crate::json::json_views(items@),
            views.len() == items@.len(),
            forall|k: int| 0 <= k < views.len() ==> #[trigger] views[k] == items@[k]@,
            forall|k: int| 0 <= k < i ==> #[trigger] views[k] is Str,
            string_views(out@) == text_payloads(views.take(i as int)),
            v@ == JsonV::Array(views),
            member_value(call@.arguments, key@) == Some(v@),
        decreases items.len() - i,
    {
        match items[i].as_str() {
            Some(t) => {
                let ghost before = out@;
                out.push(String::from_str(t));
                proof {
                    assert(views[i as int] == JsonV::Str(t@));
                    assert(views.take(i + 1) =~= views.take(i as int).push(views[i as int]));
                    assert(text_payloads(views.take(i + 1)) =~= text_payloads(views.take(i as int)).push(t@));
                    assert(string_views(out@) =~= string_views(before).push(t@));
                }
            },
            None => {
                proof {
                    assert(!(views[i as int] is Str));
                    assert(!all_texts(views));
                }
                return Err(Error::MissingToolArgument(quoted_key(key, "must contain only strings")));
            },
        }
        i = i + 1;
    }
    proof {
        assert(views.take(items.len() as int) =~= views);
        assert(all_texts(views));
    }
    Ok(out)
}

/// The consolidated memory of a tool call.
pub fn v2_memory_candidate_from_tool_call(call: &ToolCall) -> (res: Result<V2MemoryCandidate, Error>)
    ensures
        match (res, candidate_from_args(call@.arguments)) {
            (Ok(v), Ok(w)) => v@ == w,
            (Err(Error::MissingToolArgument(m)), Err(e)) => m@ == e,
            _ => false,
        },
{
    let third_person_memory = match find_required_string_argument(call, "third_person_memory") {
        Ok(v) => v,
        Err(e) => return Err(e),
    };
    let third_person_summary = match find_required_string_argument(call, "third_person_summary") {
        Ok(v) => v,
        Err(e) => return Err(e),
    };
    let first_person_memory = match find_required_string_argument(call, "first_person_memory") {
        Ok(v) => v,
        Err(e) => return Err(e),
    };
    let significance_comment = match find_required_string_argument(call, "significance_comment") {
        Ok(v) => v,
        Err(e) => return Err(e),
    };
    let emotional_score = match find_required_integer_argument(call, "emotional_score") {
        Ok(v) => v,
        Err(e) => return Err(e),
    };
    let people_names = match find_required_string_array_argument(call, "people_names") {
        Ok(v) => v,
        Err(e) => return Err(e),
    };
    let subject_tags = match find_required_string_array_argument(call, "subject_tags") {
        Ok(v) => v,
        Err(e) => return Err(e),
    };
    Ok(
        V2MemoryCandidate {
            third_person_memory,
            third_person_summary,
            first_person_memory,
            significance_comment,
            emotional_score,
            people_names,
            subject_tags,
        },
    )
}

/// The candidates of the `add_v2_memory` calls, in order, or the message of
/// the first call whose arguments are wrong.
pub open spec fn v2_candidates(calls: Seq<ToolCallV>) -> Result<Seq<CandidateV>, Seq<char>>
    decreases calls.len(),
{
    if calls.len() == 0 {
        Ok(Seq::empty())
    } else {
        match v2_candidates(calls.drop_last()) {
            Err(e) => Err(e),
            Ok(prev) => if calls.last().name != "add_v2_memory"@ {
                Ok(prev)
            } else {
                match candidate_from_args(calls.last().arguments) {
                    Err(e) => Err(e),
                    Ok(c) => Ok(prev.push(c)),
                }
            },
        }
    }
}

/// What an attempt at a section's summary comes to.
#[derive(Debug)]
pub enum AttemptOutcome {
    Done(Result<V2MemoryCandidate, Error>),
    Retry { last_count: usize },
}

/// Judges the tool calls of an attempt: undecodable calls or wrong
/// arguments fail the section; exactly one `add_v2_memory` call is its
/// summary; any other number calls for another attempt.
pub fn after_section_attempt(tool_calls: Result<Vec<ToolCall>, ToolCallDecodeError>) -> (res: AttemptOutcome)
    ensures
        match tool_calls {
            Err(e) => match res {
                AttemptOutcome::Done(Err(Error::ToolCallDecode(m))) => m@ == decode_error_text(e@),
                _ => false,
            },
            Ok(calls) => match v2_candidates(tool_call_views(calls@)) {
                Err(e) => match res {
                    AttemptOutcome::Done(Err(Error::MissingToolArgument(m))) => m@ == e,
                    _ => false,
                },
                Ok(cs) => if cs.len() == 1 {
                    match res {
                        AttemptOutcome::Done(Ok(c)) => c@ == cs[0],
                        _ => false,
                    }
                } else {
                    res == AttemptOutcome::Retry { last_count: cs.len() as usize }
                },
            },
        },
{
    let calls = match tool_calls {
        Err(e) => return AttemptOutcome::Done(Err(Error::ToolCallDecode(e.message()))),
        Ok(calls) => calls,
    };
    let ghost views = tool_call_views(calls@);
    let mut candidates: Vec<V2MemoryCandidate> = Vec::new();
    let mut i: usize = 0;
    while i < calls.len()
        invariant
            i <= calls.len(),
            tool_calls == Ok::<Vec<ToolCall>, ToolCallDecodeError>(calls),
            views == tool_call_views(calls@),
            v2_candidates(views.take(i as int)) is Ok,
            v2_candidates(views.take(i as int))->Ok_0 == candidates@.map_values(|c: V2MemoryCandidate| c@),
        decreases calls.len() - i,
    {
        proof {
            assert(views.take(i + 1).drop_last() =~= views.take(i as int));
            assert(views.take(i + 1).last() == calls@[i as int]@);
        }
        if str_eq(calls[i].name.as_str(), "add_v2_memory") {
            match v2_memory_candidate_from_tool_call(&calls[i]) {
                Ok(c) => {
                    let ghost before = candidates@;
                    candidates.push(c);
                    proof {
                        assert(candidates@.map_values(|c: V2MemoryCandidate| c@) =~= before.map_values(
                            |c: V2MemoryCandidate| c@,
                        ).push(c@));
                    }
                },
                Err(e) => {
                    proof {
                        assert(calls@[i as int]@.name == "add_v2_memory"@);
                        assert(candidate_from_args(calls@[i as int]@.arguments) is Err);
                        assert(v2_candidates(views.take(i + 1)) == Err::<Seq<CandidateV>, Seq<char>>(
                            candidate_from_args(calls@[i as int]@.arguments)->Err_0,
                        ));
                        lemma_v2_candidates_error_stays(views, i as int + 1);
                    }
                    return AttemptOutcome::Done(Err(e));
                },
            }
        }
        i = i + 1;
    }
    proof {
        assert(views.take(calls.len() as int) =~= views);
    }
    if candidates.len() == 1 {
        let c = candidates.pop().unwrap();
        AttemptOutcome::Done(Ok(c))
    } else {
        AttemptOutcome::Retry { last_count: candidates.len() }
    }
}

proof fn lemma_v2_candidates_error_stays(calls: Seq<ToolCallV>, k: int)
    requires
        0 <= k <= calls.len(),
        v2_candidates(calls.take(k)) is Err,
    ensures
        v2_candidates(calls) == v2_candidates(calls.take(k)),
    decreases calls.len() - k,
{
    if k < calls.len() {
        assert(calls.take(k + 1).drop_last() =~= calls.take(k));
        lemma_v2_candidates_error_stays(calls, k + 1);
    } else {
        assert(calls.take(k) =~= calls);
    }
}

/// The message of a section whose summary never came in one piece.
pub open spec fn exhausted_text(section_index: nat, total_sections: nat, last_count: nat) -> Seq<char> {
    "section "@ + decimal_text(section_index) + " of "@ + decimal_text(total_sections) + " expected 1 memory, got "@
        + decimal_text(last_count) + " after "@ + decimal_text(MAX_SECTION_SUMMARY_ATTEMPTS as nat) + " attempts"@
}

/// The failure of a section whose summary never came in one piece.
pub fn attempts_exhausted(person_name: &str, section_index: usize, total_sections: usize, last_count: usize) -> (res: Error)
    ensures
        match res {
            Error::InvalidResponseShape { person_name: p, details } => p@ == person_name@ && details@ == exhausted_text(
                section_index as nat,
                total_sections as nat,
                last_count as nat,
            ),
            _ => false,
        },
{
    let mut d = String::from_str("section ");
    let a = u64_text(section_index as u64);
    d.append(a.as_str());
    d.append(" of ");
    let b = u64_text(total_sections as u64);
    d.append(b.as_str());
    d.append(" expected 1 memory, got ");
    let c = u64_text(last_count as u64);
    d.append(c.as_str());
    d.append(" after ");
    let m = u64_text(MAX_SECTION_SUMMARY_ATTEMPTS as u64);
    d.append(m.as_str());
    d.append(" attempts");
    Error::InvalidResponseShape { person_name: String::from_str(person_name), details: d }
}

/// A text with each line break turned into a space.
pub open spec fn newlines_as_spaces(s: Seq<char>) -> Seq<char> {
    s.map_values(|c: char| if c == '\n' { ' ' } else { c })
}

/// The numbered line of memory `k` (counted from zero) of a section.
pub open spec fn numbered_memory_line(k: nat, m: Seq<char>) -> Seq<char> {
    decimal_text(k + 1) + ". "@ + newlines_as_spaces(trim_chars(m))
}

/// The numbered lines of a section's memories.
pub open spec fn numbered_memory_lines(ms: Seq<Seq<char>>) -> Seq<Seq<char>> {
    Seq::new(ms.len(), |k: int| numbered_memory_line(k as nat, ms[k]))
}

fn spaces_for_newlines(s: &str) -> (res: String)
    ensures
        res@ == newlines_as_spaces(s@),
{
    let n = s.unicode_len();
    let mut out = String::new();
    let mut i: usize = 0;
    while i < n
        invariant
            n == s@.len(),
            i <= n,
            out@ == newlines_as_spaces(s@.take(i as int)),
        decreases n - i,
    {
        let c = s.get_char(i);
        let ghost before = out@;
        if c == '\n' {
            push_char(&mut out, ' ');
        } else {
            push_char(&mut out, c);
        }
        proof {
            assert(newlines_as_spaces(s@.take(i + 1)) =~= newlines_as_spaces(s@.take(i as int)).push(
                if c == '\n' { ' ' } else { c },
            ));
        }
        i = i + 1;
    }
    proof {
        assert(s@.take(n as int) =~= s@);
    }
    out
}

/// The numbered list of a section's memories, one per line.
pub fn section_memory_list(section_memories: &Vec<String>) -> (res: String)
    ensures
        res@ == join_seq(numbered_memory_lines(string_views(section_memories@)), "\n"@),
{
    let ghost ms = string_views(section_memories@);
    let mut lines: Vec<String> = Vec::new();
    let mut k: usize = 0;
    while k < section_memories.len()
        invariant
            k <= section_memories.len(),
            ms == string_views(section_memories@),
            string_views(lines@) == numbered_memory_lines(ms).take(k as int),
        decreases section_memories.len() - k,
    {
        let mut line = u64_text((k as u64) + 1);
        line.append(". ");
        let t = trim_text(section_memories[k].as_str());
        let body = spaces_for_newlines(t.as_str());
        line.append(body.as_str());
        let ghost before = string_views(lines@);
        lines.push(line);
        proof {
            assert(ms[k as int] == section_memories@[k as int]@);
            assert(line@ =~= numbered_memory_line(k as nat, ms[k as int]));
            assert(numbered_memory_lines(ms).take(k + 1) =~= numbered_memory_lines(ms).take(k as int).push(
                numbered_memory_line(k as nat, ms[k as int]),
            ));
            assert(string_views(lines@) =~= before.push(line@));
        }
        k = k + 1;
    }
    proof {
        assert(numbered_memory_lines(ms).take(section_memories.len() as int) =~= numbered_memory_lines(ms));
    }
    crate::text::join_texts(&lines, "\n")
}

/// The instructions for summarizing a section.
pub open spec fn section_system_prompt() -> Seq<char> {
    "You summarize raw memories into one distilled memory record. Use only the provided tool call and call it exactly once. Do not output plain text. The person's name is exactly the provided Person value. 'Arizona2' is a system/project name, not a person name. Never treat 'Arizona2' as the person unless the Person value is literally 'Arizona2'."@
}

/// The request for a section's summary.
pub open spec fn section_user_prompt(person_name: Seq<char>, section_index: nat, total_sections: nat, list: Seq<char>) -> Seq<char> {
    "Person: "@ + person_name + "\n\nSection "@ + decimal_text(section_index) + "/"@ + decimal_text(total_sections)
        + " source memories:\n"@ + list
        + "\n\nCreate exactly one consolidated memory for this section. Provide: third_person_memory, third_person_summary, first_person_memory, significance_comment, emotional_score, people_names, and subject_tags. third_person_summary must be much shorter than third_person_memory (max 18 words, one sentence). Do not invent details not supported by source memories."@
}

/// Whether `c` asks for the summary of a section: the default model, the
/// `add_v2_memory` tool, the instructions, and the request with the numbered
/// memories.
pub open spec fn is_section_request(
    c: Completion,
    person_name: Seq<char>,
    section_memories: Seq<Seq<char>>,
    section_index: nat,
    total_sections: nat,
) -> bool {
    &&& c.model@ == model_name(Model::DEFAULT)
    &&& c.tool_call@.len() == 1
    &&& c.tool_call@[0] matches Tool::FunctionCall(f) && is_v2_memory_tool(f)
    &&& c.history.messages@.len() == 2
    &&& c.history.messages@[0].role == Role::System
    &&& c.history.messages@[0].content@ == section_system_prompt()
    &&& c.history.messages@[1].role == Role::User
    &&& c.history.messages@[1].content@ == section_user_prompt(
        person_name,
        section_index,
        total_sections,
        join_seq(numbered_memory_lines(section_memories), "\n"@),
    )
}

/// The completion request for a section's summary.
pub fn section_completion(
    person_name: &str,
    section_memories: &Vec<String>,
    section_index: usize,
    total_sections: usize,
) -> (res: Completion)
    ensures
        is_section_request(res, person_name@, string_views(section_memories@), section_index as nat, total_sections as nat),
{
    let list = section_memory_list(section_memories);
    let mut completion = Completion::new(Model::DEFAULT);
    completion.add_tool_call(Tool::from_function(v2_memory_tool_definition()));
    completion.add_message(
        Role::System,
        "You summarize raw memories into one distilled memory record. Use only the provided tool call and call it exactly once. Do not output plain text. The person's name is exactly the provided Person value. 'Arizona2' is a system/project name, not a person name. Never treat 'Arizona2' as the person unless the Person value is literally 'Arizona2'.",
    );
    let mut user = String::from_str("Person: ");
    user.append(person_name);
    user.append("\n\nSection ");
    let a = u64_text(section_index as u64);
    user.append(a.as_str());
    user.append("/");
    let b = u64_text(total_sections as u64);
    user.append(b.as_str());
    user.append(" source memories:\n");
    user.append(list.as_str());
    user.append(
        "\n\nCreate exactly one consolidated memory for this section. Provide: third_person_memory, third_person_summary, first_person_memory, significance_comment, emotional_score, people_names, and subject_tags. third_person_summary must be much shorter than third_person_memory (max 18 words, one sentence). Do not invent details not supported by source memories.",
    );
    completion.add_message(Role::User, user.as_str());
    completion
}

/// The text by which a consolidated memory is found: the trimmed memory and
/// its trimmed significance.
pub open spec fn retrieval_summary_text(third_person_memory: Seq<char>, significance_comment: Seq<char>) -> Seq<char> {
    trim_chars(third_person_memory) + " Significance: "@ + trim_chars(significance_comment)
}

/// The text by which a consolidated memory is found.
pub fn retrieval_summary(third_person_memory: &str, significance_comment: &str) -> (res: String)
    ensures
        res@ == retrieval_summary_text(third_person_memory@, significance_comment@),
{
    let mut s = trim_text(third_person_memory);
    s.append(" Significance: ");
    let t = trim_text(significance_comment);
    s.append(t.as_str());
    s
}

/// The lower-case form of a text as `str::to_lowercase` gives it.
pub uninterp spec fn lowercase(s: Seq<char>) -> Seq<char>;

/// The lower-case form of a text; wraps `str::to_lowercase`.
#[verifier::external_body]
fn to_lowercase(s: &str) -> (res: String)
    ensures
        res@ == lowercase(s@),
{
    s.to_lowercase()
}

/// The people indexed by their lower-case names, in order.
pub open spec fn name_index_entries(people: Seq<(String, u128)>) -> Seq<(Seq<char>, u128)> {
    people.map_values(|p: (String, u128)| (lowercase(p.0@), p.1))
}

/// The identifier of the last entry with the key, as a map filled entry by
/// entry keeps it.
pub open spec fn index_lookup(entries: Seq<(Seq<char>, u128)>, key: Seq<char>) -> Option<u128>
    decreases entries.len(),
{
    if entries.len() == 0 {
        None
    } else if entries.last().0 == key {
        Some(entries.last().1)
    } else {
        index_lookup(entries.drop_last(), key)
    }
}

/// The identifiers of the named people who are known, each once, in the
/// order of their first mention.
pub open spec fn mapped_uuids(names: Seq<Seq<char>>, entries: Seq<(Seq<char>, u128)>) -> Seq<u128>
    decreases names.len(),
{
    if names.len() == 0 {
        Seq::empty()
    } else {
        let prev = mapped_uuids(names.drop_last(), entries);
        match index_lookup(entries, lowercase(names.last())) {
            Some(u) => if prev.contains(u) {
                prev
            } else {
                prev.push(u)
            },
            None => prev,
        }
    }
}

/// The people indexed by their lower-case names.
pub fn name_index(people: &Vec<(String, u128)>) -> (res: Vec<(String, u128)>)
    ensures
        res@.map_values(|e: (String, u128)| (e.0@, e.1)) == name_index_entries(people@),
{
    let mut res: Vec<(String, u128)> = Vec::new();
    let mut i: usize = 0;
    while i < people.len()
        invariant
            i <= people.len(),
            res@.map_values(|e: (String, u128)| (e.0@, e.1)) == name_index_entries(people@.take(i as int)),
        decreases people.len() - i,
    {
        let key = to_lowercase(people[i].0.as_str());
        let ghost before = res@;
        res.push((key, people[i].1));
        proof {
            assert(res@.map_values(|e: (String, u128)| (e.0@, e.1)) =~= before.map_values(
                |e: (String, u128)| (e.0@, e.1),
            ).push((lowercase(people@[i as int].0@), people@[i as int].1)));
            assert(name_index_entries(people@.take(i + 1)) =~= name_index_entries(people@.take(i as int)).push(
                (lowercase(people@[i as int].0@), people@[i as int].1),
            ));
        }
        i = i + 1;
    }
    proof {
        assert(people@.take(people.len() as int) =~= people@);
    }
    res
}

fn lookup(entries: &Vec<(String, u128)>, key: &str) -> (res: Option<u128>)
    ensures
        res == index_lookup(entries@.map_values(|e: (String, u128)| (e.0@, e.1)), key@),
{
    let ghost es = entries@.map_values(|e: (String, u128)| (e.0@, e.1));
    let mut i: usize = entries.len();
    proof {
        assert(es.take(i as int) =~= es);
    }
    while i > 0
        invariant
            i <= entries.len(),
            es == entries@.map_values(|e: (String, u128)| (e.0@, e.1)),
            index_lookup(es, key@) == index_lookup(es.take(i as int), key@),
        decreases i,
    {
        proof {
            assert(es.take(i as int).drop_last() =~= es.take(i - 1));
            assert(es.take(i as int).last() == (entries@[i - 1].0@, entries@[i - 1].1));
        }
        if str_eq(entries[i - 1].0.as_str(), key) {
            return Some(entries[i - 1].1);
        }
        i = i - 1;
    }
    None
}

/// The identifiers of the named people who are known, each once.
pub fn map_people_names_to_uuids(people_names: &Vec<String>, name_to_uuid: &Vec<(String, u128)>) -> (res: Vec<u128>)
    ensures
        res@ == mapped_uuids(string_views(people_names@), name_to_uuid@.map_values(|e: (String, u128)| (e.0@, e.1))),
{
    let ghost es = name_to_uuid@.map_values(|e: (String, u128)| (e.0@, e.1));
    let ghost names = string_views(people_names@);
    let mut ret: Vec<u128> = Vec::new();
    let mut i: usize = 0;
    while i < people_names.len()
        invariant
            i <= people_names.len(),
            es == name_to_uuid@.map_values(|e: (String, u128)| (e.0@, e.1)),
            names == string_views(people_names@),
            ret@ == mapped_uuids(names.take(i as int), es),
        decreases people_names.len() - i,
    {
        proof {
            assert(names.take(i + 1).drop_last() =~= names.take(i as int));
            assert(names.take(i + 1).last() == people_names@[i as int]@);
        }
        let key = to_lowercase(people_names[i].as_str());
        match lookup(name_to_uuid, key.as_str()) {
            Some(u) => {
                let mut seen = false;
                let mut j: usize = 0;
                while j < ret.len()
                    invariant
                        j <= ret.len(),
                        seen == exists|k: int| 0 <= k < j && ret@[k] == u,
                    decreases ret.len() - j,
                {
                    if ret[j] == u {
                        seen = true;
                    }
                    j = j + 1;
                }
                proof {
                    if seen {
                        let k = choose|k: int| 0 <= k < ret.len() && ret@[k] == u;
                        assert(ret@.contains(u));
                    } else {
                        assert(!ret@.contains(u));
                    }
                }
                if !seen {
                    ret.push(u);
                }
            },
            None => {},
        }
        i = i + 1;
    }
    proof {
        assert(names.take(people_names.len() as int) =~= names);
    }
    ret
}

proof fn lemma_v2_candidates_len(calls: Seq<ToolCallV>)
    ensures
        v2_candidates(calls) matches Ok(cs) ==> cs.len() <= calls.len(),
    decreases calls.len(),
{
    if calls.len() > 0 {
        lemma_v2_candidates_len(calls.drop_last());
    }
}

/// What summarizing a section asks for next: a completion to send, or the
/// section's memory (or why there is none).
pub enum SectionStep {
    Ask(Completion),
    Done(Result<V2MemoryCandidate, Error>),
}

/// The summary of one section under way: whose it is, the section's
/// memories, its place among the sections, and how many completions have been
/// asked for so far.
pub struct SectionSummary {
    pub person_name: String,
    pub section_memories: Vec<String>,
    pub section_index: usize,
    pub total_sections: usize,
    pub attempts_made: usize,
}

/// What follows the answer to a section's request: a failed request or
/// undecodable tool calls or wrong arguments end the section with that error;
/// exactly one `add_v2_memory` call is the section's memory; any other number
/// asks again, up to `MAX_SECTION_SUMMARY_ATTEMPTS` requests in all, and then
/// ends the section with the count of the last answer.
pub open spec fn section_answer(
    s: SectionSummary,
    answer: Result<Response, CompletionError>,
    res: (SectionSummary, SectionStep),
) -> bool {
    match answer {
        Err(e) => match res.1 {
            SectionStep::Done(Err(Error::Completion(m))) => m@ == completion_error_text(e),
            _ => false,
        },
        Ok(r) => match decode_tool_calls(r.json@) {
            Err(de) => match res.1 {
                SectionStep::Done(Err(Error::ToolCallDecode(m))) => m@ == decode_error_text(de),
                _ => false,
            },
            Ok(calls) => match v2_candidates(calls) {
                Err(m) => match res.1 {
                    SectionStep::Done(Err(Error::MissingToolArgument(t))) => t@ == m,
                    _ => false,
                },
                Ok(cs) => if cs.len() == 1 {
                    match res.1 {
                        SectionStep::Done(Ok(c)) => c@ == cs[0],
                        _ => false,
                    }
                } else if s.attempts_made < MAX_SECTION_SUMMARY_ATTEMPTS {
                    &&& res.0 == (SectionSummary {
                        person_name: s.person_name,
                        section_memories: s.section_memories,
                        section_index: s.section_index,
                        total_sections: s.total_sections,
                        attempts_made: (s.attempts_made + 1) as usize,
                    })
                    &&& res.1 matches SectionStep::Ask(c) && res.0.asks(c)
                } else {
                    match res.1 {
                        SectionStep::Done(Err(Error::InvalidResponseShape { person_name, details })) => person_name@
                            == s.person_name@ && details@ == exhausted_text(
                            s.section_index as nat,
                            s.total_sections as nat,
                            cs.len(),
                        ),
                        _ => false,
                    }
                },
            },
        },
    }
}

impl SectionSummary {
    /// Whether `c` is this section's request.
    pub open spec fn asks(self, c: Completion) -> bool {
        is_section_request(
            c,
            self.person_name@,
            string_views(self.section_memories@),
            self.section_index as nat,
            self.total_sections as nat,
        )
    }

    /// Starts a section's summary with its first request.
    pub fn start(person_name: String, section_memories: Vec<String>, section_index: usize, total_sections: usize) -> (res: (
        SectionSummary,
        Completion,
    ))
        ensures
            res.0 == (SectionSummary { person_name, section_memories, section_index, total_sections, attempts_made: 1 }),
            res.0.asks(res.1),
    {
        let c = section_completion(person_name.as_str(), &section_memories, section_index, total_sections);
        (SectionSummary { person_name, section_memories, section_index, total_sections, attempts_made: 1 }, c)
    }

    /// Goes on with the answer to the last request.
    pub fn resume(self, answer: Result<Response, CompletionError>) -> (res: (SectionSummary, SectionStep))
        ensures
            section_answer(self, answer, res),
    {
        let response = match answer {
            Err(e) => {
                let m = e.explain();
                return (self, SectionStep::Done(Err(Error::Completion(m))));
            },
            Ok(r) => r,
        };
        let calls = response.as_tool_calls();
        proof {
            if calls is Ok {
                let cs = calls->Ok_0;
                assert(cs.len() == cs@.len());
                lemma_v2_candidates_len(tool_call_views(cs@));
            }
        }
        match after_section_attempt(calls) {
            AttemptOutcome::Done(d) => (self, SectionStep::Done(d)),
            AttemptOutcome::Retry { last_count } => {
                if self.attempts_made < MAX_SECTION_SUMMARY_ATTEMPTS {
                    let c = section_completion(
                        self.person_name.as_str(),
                        &self.section_memories,
                        self.section_index,
                        self.total_sections,
                    );
                    let next = SectionSummary {
                        person_name: self.person_name,
                        section_memories: self.section_memories,
                        section_index: self.section_index,
                        total_sections: self.total_sections,
                        attempts_made: self.attempts_made + 1,
                    };
                    (next, SectionStep::Ask(c))
                } else {
                    let e = attempts_exhausted(self.person_name.as_str(), self.section_index, self.total_sections, last_count);
                    (self, SectionStep::Done(Err(e)))
                }
            },
        }
    }
}

fn clone_strings(v: &Vec<String>) -> (res: Vec<String>)
    ensures
        res@ == v@,
{
    let mut res: Vec<String> = Vec::new();
    let mut i: usize = 0;
    while i < v.len()
        invariant
            i <= v.len(),
            res@ == v@.take(i as int),
        decreases v.len() - i,
    {
        res.push(v[i].clone());
        proof {
            assert(res@ =~= v@.take(i + 1));
        }
        i = i + 1;
    }
    proof {
        assert(v@.take(v.len() as int) =~= v@);
    }
    res
}

/// What summarizing a person's memories asks for next: a completion to send,
/// or the consolidated memories, one per section in order (or why there are
/// none).
pub enum SummaryStep {
    Ask(Completion),
    Done(Result<Vec<V2MemoryCandidate>, Error>),
}

/// The summary of a person's memories under way: the sections, the memories
/// of the sections done, and the section under way.
pub enum PersonSummary {
    Summarizing {
        person_name: String,
        sections: Vec<Vec<String>>,
        done: Vec<V2MemoryCandidate>,
        current: SectionSummary,
    },
    Finished,
}

/// Whether `cur` is the fresh summary of section `k` (counted from zero).
pub open spec fn fresh_section(cur: SectionSummary, person_name: String, sections: Seq<Vec<String>>, k: int) -> bool {
    &&& cur.person_name == person_name
    &&& cur.section_memories@ == sections[k]@
    &&& cur.section_index == k + 1
    &&& cur.total_sections == sections.len()
    &&& cur.attempts_made == 1
}

/// What follows a step of the section under way: its request goes out; its
/// error ends the summary; its memory is kept, and the next section starts,
/// or, after the last one, the memories are the result.
pub open spec fn after_section(
    sub: (SectionSummary, SectionStep),
    person_name: String,
    sections: Vec<Vec<String>>,
    done: Vec<V2MemoryCandidate>,
    res: (PersonSummary, SummaryStep),
) -> bool {
    match sub.1 {
        SectionStep::Ask(c) => {
            &&& res.0 == (PersonSummary::Summarizing { person_name, sections, done, current: sub.0 })
            &&& res.1 == SummaryStep::Ask(c)
        },
        SectionStep::Done(Err(e)) => res.1 == SummaryStep::Done(Err(e)),
        SectionStep::Done(Ok(c)) => if done@.len() + 1 < sections@.len() {
            match (res.0, res.1) {
                (PersonSummary::Summarizing { person_name: p, sections: ss, done: d, current }, SummaryStep::Ask(a)) => {
                    &&& p == person_name
                    &&& ss == sections
                    &&& d@ == done@.push(c)
                    &&& fresh_section(current, person_name, sections@, d@.len() as int)
                    &&& current.asks(a)
                },
                _ => false,
            }
        } else {
            match res.1 {
                SummaryStep::Done(Ok(v)) => v@ == done@.push(c),
                _ => false,
            }
        },
    }
}

impl PersonSummary {
    /// Whether the summary is on the section after the ones done.
    pub open spec fn wf(self) -> bool {
        match self {
            PersonSummary::Summarizing { person_name, sections, done, current } => {
                &&& done@.len() < sections@.len()
                &&& current.person_name == person_name
                &&& current.section_memories@ == sections@[done@.len() as int]@
                &&& current.section_index == done@.len() + 1
                &&& current.total_sections == sections@.len()
            },
            PersonSummary::Finished => true,
        }
    }

    /// One step of the summary.
    pub open spec fn step(self, answer: Result<Response, CompletionError>, res: (PersonSummary, SummaryStep)) -> bool {
        match self {
            PersonSummary::Summarizing { person_name, sections, done, current } => exists|sub: (SectionSummary, SectionStep)|
                #[trigger] section_answer(current, answer, sub) && after_section(sub, person_name, sections, done, res),
            PersonSummary::Finished => false,
        }
    }

    /// Starts summarizing a person's memories: they are split into at most
    /// `TARGET_SECTION_COUNT` sections, and the first section is asked for;
    /// without memories there is nothing to summarize.
    pub fn start(person_name: String, memories: &Vec<String>) -> (res: (PersonSummary, SummaryStep))
        ensures
            res.0.wf(),
            section_count(memories@.len(), TARGET_SECTION_COUNT as nat) == 0 ==> (res.1 matches SummaryStep::Done(Ok(v))
                && v@.len() == 0),
            section_count(memories@.len(), TARGET_SECTION_COUNT as nat) > 0 ==> match (res.0, res.1) {
                (PersonSummary::Summarizing { person_name: p, sections, done, current }, SummaryStep::Ask(a)) => {
                    &&& p == person_name
                    &&& sections@.len() == section_count(memories@.len(), TARGET_SECTION_COUNT as nat)
                    &&& forall|i: int|
                        0 <= i < sections@.len() ==> #[trigger] sections@[i]@ == section_of(
                            memories@,
                            sections@.len(),
                            i as nat,
                        )
                    &&& done@.len() == 0
                    &&& fresh_section(current, person_name, sections@, 0)
                    &&& current.asks(a)
                },
                _ => false,
            },
    {
        let sections = split_memories_into_sections(memories, TARGET_SECTION_COUNT);
        if sections.len() == 0 {
            return (PersonSummary::Finished, SummaryStep::Done(Ok(Vec::new())));
        }
        let first = clone_strings(&sections[0]);
        let total = sections.len();
        let (current, c) = SectionSummary::start(person_name.clone(), first, 1, total);
        (PersonSummary::Summarizing { person_name, sections, done: Vec::new(), current }, SummaryStep::Ask(c))
    }

    /// Goes on with the answer to the last request.
    pub fn resume(self, answer: Result<Response, CompletionError>) -> (res: (PersonSummary, SummaryStep))
        requires
            self is Summarizing,
            self.wf(),
        ensures
            self.step(answer, res),
            res.0.wf(),
    {
        match self {
            PersonSummary::Summarizing { person_name, sections, done, current } => {
                let ghost current_g = current;
                let sub = current.resume(answer);
                let ghost sub_g = sub;
                let (s2, st) = sub;
                match st {
                    SectionStep::Ask(c) => {
                        proof {
                            assert(section_answer(current_g, answer, sub_g));
                        }
                        (PersonSummary::Summarizing { person_name, sections, done, current: s2 }, SummaryStep::Ask(c))
                    },
                    SectionStep::Done(Err(e)) => (PersonSummary::Finished, SummaryStep::Done(Err(e))),
                    SectionStep::Done(Ok(c)) => {
                        let ghost done_g = done@;
                        let mut done = done;
                        done.push(c);
                        if done.len() < sections.len() {
                            let k = done.len();
                            let mems = clone_strings(&sections[k]);
                            let total = sections.len();
                            let (cur, a) = SectionSummary::start(person_name.clone(), mems, k + 1, total);
                            (PersonSummary::Summarizing { person_name, sections, done, current: cur }, SummaryStep::Ask(a))
                        } else {
                            (PersonSummary::Finished, SummaryStep::Done(Ok(done)))
                        }
                    },
                }
            },
            PersonSummary::Finished => (PersonSummary::Finished, SummaryStep::Done(Ok(Vec::new()))),
        }
    }
}

/// How many words the short summary of a stored memory has at most.
pub const SUMMARY_MAX_WORDS: usize = 18;

/// A consolidated memory as it is stored: the third-person memory as its
/// content, the short summary cut to `SUMMARY_MAX_WORDS` words, the text by
/// which it is found, the first-person memory, and the cleaned-up lists of
/// people and subjects, with the identifiers of the people who are known.
pub struct V2MemoryRecord {
    pub content: String,
    pub summary: String,
    pub emotional_score: i32,
    pub retrieval_summary: String,
    pub summary_first_person: String,
    pub people_names: Vec<String>,
    pub people_uuids: Vec<u128>,
    pub subject_tags: Vec<String>,
}

/// The record stored for a consolidated memory, given the people indexed by
/// their lower-case names.
pub fn v2_memory_record(candidate: V2MemoryCandidate, name_to_uuid: &Vec<(String, u128)>) -> (res: V2MemoryRecord)
    ensures
        res.content@ == candidate.third_person_memory@,
        res.summary@ == clamped_words(candidate.third_person_summary@, SUMMARY_MAX_WORDS as nat),
        res.emotional_score == candidate.emotional_score,
        res.retrieval_summary@ == retrieval_summary_text(
            candidate.third_person_memory@,
            candidate.significance_comment@,
        ),
        res.summary_first_person@ == candidate.first_person_memory@,
        string_views(res.people_names@) == normalized_list(string_views(candidate.people_names@)),
        res.people_uuids@ == mapped_uuids(
            normalized_list(string_views(candidate.people_names@)),
            name_to_uuid@.map_values(|e: (String, u128)| (e.0@, e.1)),
        ),
        string_views(res.subject_tags@) == normalized_list(string_views(candidate.subject_tags@)),
{
    let people_names = normalize_string_list(candidate.people_names);
    let subject_tags = normalize_string_list(candidate.subject_tags);
    let people_uuids = map_people_names_to_uuids(&people_names, name_to_uuid);
    let summary = clamp_to_max_words(candidate.third_person_summary.as_str(), SUMMARY_MAX_WORDS);
    let retrieval = retrieval_summary(candidate.third_person_memory.as_str(), candidate.significance_comment.as_str());
    V2MemoryRecord {
        content: candidate.third_person_memory,
        summary,
        emotional_score: candidate.emotional_score,
        retrieval_summary: retrieval,
        summary_first_person: candidate.first_person_memory,
        people_names,
        people_uuids,
        subject_tags,
    }
}

} // verus!
