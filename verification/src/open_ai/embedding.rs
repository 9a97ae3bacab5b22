//! Embeddings of texts: the request, and the reading of the service's answer.
use crate::json::{get_index, get_key, json_compact_text, json_to_text, member_views, push_member, Json, JsonV};
use crate::nice_display::NiceDisplay;
use crate::text::{char_is_white_space, push_char, trim_chars, trim_text};
use vstd::prelude::*;
use vstd::string::*;

verus! {

/// A request for the embedding of a text.
pub struct EmbeddingRequest {
    content: String,
}

impl View for EmbeddingRequest {
    type V = Seq<char>;

    closed spec fn view(&self) -> Seq<char> {
        self.content@
    }
}

/// Why an embedding could not be had.
#[derive(Debug)]
pub enum EmbeddingError {
    Request(String),
    Response(String),
    ResponseJsonDecode(String),
}

/// The explanation of an embedding error.
pub open spec fn embedding_error_text(e: EmbeddingError) -> Seq<char> {
    match e {
        EmbeddingError::Request(d) => "I had trouble making a request to open ai\n"@ + d@,
        EmbeddingError::Response(d) => "I had trouble with the response from open ai\n"@ + d@,
        EmbeddingError::ResponseJsonDecode(d) => "I had trouble decoding the response from open ai\n"@ + d@,
    }
}

fn prefixed(prefix: &str, d: &str) -> (res: String)
    ensures
        res@ == prefix@ + d@,
{
    let mut s = String::from_str(prefix);
    s.append(d);
    s
}

impl EmbeddingError {
    /// The explanation of the error.
    pub fn explain(&self) -> (res: String)
        ensures
            res@ == embedding_error_text(*self),
    {
        match self {
            EmbeddingError::Request(d) => prefixed("I had trouble making a request to open ai\n", d.as_str()),
            EmbeddingError::Response(d) => prefixed("I had trouble with the response from open ai\n", d.as_str()),
            EmbeddingError::ResponseJsonDecode(d) => prefixed(
                "I had trouble decoding the response from open ai\n",
                d.as_str(),
            ),
        }
    }
}

impl NiceDisplay for EmbeddingError {
    open spec fn message_spec(&self) -> Seq<char> {
        embedding_error_text(*self)
    }

    fn message(&self) -> (res: String) {
        let r = self.explain();
        assert(self.message_spec() == embedding_error_text(*self));
        r
    }
}

/// The body of an embedding request for `content`.
pub open spec fn embedding_body(content: Seq<char>) -> JsonV {
    JsonV::Object(
        seq![("input"@, JsonV::Str(content)), ("model"@, JsonV::Str("text-embedding-3-small"@))],
    )
}

impl EmbeddingRequest {
    /// A request for the embedding of `content`.
    pub fn new(content: String) -> (res: Self)
        ensures
            res@ == content@,
    {
        EmbeddingRequest { content }
    }

    /// The JSON body of the request: the text and the embedding model.
    pub fn request_body(&self) -> (res: Json)
        ensures
            res@ == embedding_body(self@),
    {
        let mut ms: Vec<(String, Json)> = Vec::new();
        proof {
            assert(member_views(ms@) =~= Seq::<(Seq<char>, JsonV)>::empty());
        }
        push_member(&mut ms, "input", Json::Str(self.content.clone()));
        push_member(&mut ms, "model", Json::Str(String::from_str("text-embedding-3-small")));
        proof {
            assert(member_views(ms@) =~= seq![
                ("input"@, JsonV::Str(self@)),
                ("model"@, JsonV::Str("text-embedding-3-small"@)),
            ]);
        }
        Json::Object(ms)
    }
}

/// How many characters of a body a preview shows.
pub open spec fn preview_limit() -> nat {
    200
}

/// A character of a preview: line breaks and tabs as spaces.
pub open spec fn preview_char(c: char) -> char {
    if c == '\n' || c == '\r' || c == '\t' {
        ' '
    } else {
        c
    }
}

/// The preview of a response body: `<empty>` for a blank body; otherwise the
/// first 200 characters of the trimmed body, line breaks and tabs as spaces,
/// followed by `...` where more follows.
pub open spec fn body_preview(body: Seq<char>) -> Seq<char> {
    let t = trim_chars(body);
    if t.len() == 0 {
        "<empty>"@
    } else if t.len() <= preview_limit() {
        t.map_values(|c: char| preview_char(c))
    } else {
        t.take(preview_limit() as int).map_values(|c: char| preview_char(c)) + "..."@
    }
}

/// The preview of a response body.
pub fn preview_response_body(response_body: &str) -> (res: String)
    ensures
        res@ == body_preview(response_body@),
{
    let trimmed = trim_text(response_body);
    let n = trimmed.as_str().unicode_len();
    if n == 0 {
        return String::from_str("<empty>");
    }
    let ghost t = trimmed@;
    let mut preview = String::new();
    let mut i: usize = 0;
    while i < n && i < 200
        invariant
            n == t.len(),
            t == trimmed@,
            i <= n,
            i <= 200,
            preview@ == t.take(i as int).map_values(|c: char| preview_char(c)),
        decreases n - i,
    {
        let c = trimmed.as_str().get_char(i);
        let ghost before = preview@;
        if c == '\n' || c == '\r' || c == '\t' {
            push_char(&mut preview, ' ');
        } else {
            push_char(&mut preview, c);
        }
        proof {
            assert(t.take(i + 1).map_values(|c: char| preview_char(c)) =~= t.take(i as int).map_values(
                |c: char| preview_char(c),
            ).push(preview_char(c)));
        }
        i = i + 1;
    }
    if n > 200 {
        preview.append("...");
    } else {
        proof {
            assert(t.take(n as int) =~= t);
        }
    }
    preview
}

/// How a decoding failure is told: the error, the content type, and a
/// preview of the body.
pub open spec fn decode_failure_text(content_type: Option<Seq<char>>, body: Seq<char>, serde_error: Seq<char>) -> Seq<char> {
    let content_type_text = match content_type {
        Some(v) => "content-type `"@ + v + "`"@,
        None => "missing content-type"@,
    };
    serde_error + "; "@ + content_type_text + "; body preview: "@ + body_preview(body)
}

/// The view of an optional text.
pub open spec fn opt_str_view(o: Option<&str>) -> Option<Seq<char>> {
    match o {
        Some(s) => Some(s@),
        None => None,
    }
}

/// How a decoding failure is told.
pub fn describe_json_decode_failure(content_type: Option<&str>, response_body: &str, serde_error: &str) -> (res: String)
    ensures
        res@ == decode_failure_text(opt_str_view(content_type), response_body@, serde_error@),
{
    let mut s = String::from_str(serde_error);
    s.append("; ");
    match content_type {
        Some(v) => {
            s.append("content-type `");
            s.append(v);
            s.append("`");
        },
        None => s.append("missing content-type"),
    }
    s.append("; body preview: ");
    let p = preview_response_body(response_body);
    s.append(p.as_str());
    proof {
        assert(s@ =~= decode_failure_text(opt_str_view(content_type), response_body@, serde_error@));
    }
    s
}

/// Whether a value is a JSON number.
pub open spec fn is_number(j: JsonV) -> bool {
    j is PosInt || j is NegInt || j is Float
}

/// The numbers of the embedding in a successful answer, or the message of
/// what is missing.
pub open spec fn embedding_values(j: JsonV) -> Result<Seq<JsonV>, Seq<char>> {
    match get_key(j, "data"@) {
        None => Err("Missing data field"@),
        Some(data) => match get_index(data, 0) {
            None => Err("Missing first data element"@),
            Some(first) => match get_key(first, "embedding"@) {
                None => Err("Missing embedding field"@),
                Some(JsonV::Array(items)) => if forall|i: int| 0 <= i < items.len() ==> #[trigger] is_number(items[i]) {
                    Ok(items)
                } else {
                    Err("Embedding value not a number"@)
                },
                Some(_) => Err("Embedding not array"@),
            },
        },
    }
}

/// What an answer of the service comes to, given whether its status is a
/// success, the text of the status, its content type, its body, and what
/// parsing the body as JSON gave.
pub open spec fn embedding_answer(
    success: bool,
    status_text: Seq<char>,
    content_type: Option<Seq<char>>,
    body: Seq<char>,
    parsed: Result<JsonV, Seq<char>>,
) -> Result<Seq<JsonV>, EmbeddingErrorV> {
    if !success {
        match parsed {
            Ok(j) => Err(EmbeddingErrorV::Response("open ai returned HTTP "@ + status_text + ": "@ + json_compact_text(j))),
            Err(e) => Err(
                EmbeddingErrorV::Response(
                    "open ai returned HTTP "@ + status_text + " with a non-JSON body: "@ + decode_failure_text(
                        content_type,
                        body,
                        e,
                    ),
                ),
            ),
        }
    } else {
        match parsed {
            Err(e) => Err(EmbeddingErrorV::ResponseJsonDecode(decode_failure_text(content_type, body, e))),
            Ok(j) => match embedding_values(j) {
                Ok(items) => Ok(items),
                Err(m) => Err(EmbeddingErrorV::ResponseJsonDecode(m)),
            },
        }
    }
}

/// The spec form of an embedding error.
pub enum EmbeddingErrorV {
    Request(Seq<char>),
    Response(Seq<char>),
    ResponseJsonDecode(Seq<char>),
}

impl View for EmbeddingError {
    type V = EmbeddingErrorV;

    open spec fn view(&self) -> EmbeddingErrorV {
        match self {
            EmbeddingError::Request(d) => EmbeddingErrorV::Request(d@),
            EmbeddingError::Response(d) => EmbeddingErrorV::Response(d@),
            EmbeddingError::ResponseJsonDecode(d) => EmbeddingErrorV::ResponseJsonDecode(d@),
        }
    }
}

fn decode_error(m: &str) -> (res: EmbeddingError)
    ensures
        res@ == EmbeddingErrorV::ResponseJsonDecode(m@),
{
    EmbeddingError::ResponseJsonDecode(String::from_str(m))
}

/// The numbers of the embedding in a successful answer.
pub fn embedding_numbers(j: &Json) -> (res: Result<&Vec<Json>, EmbeddingError>)
    ensures
        match (res, embedding_values(j@)) {
            (Ok(items), Ok(vs)) => crate::json::json_views(items@) == vs,
            (Err(e), Err(m)) => e@ == EmbeddingErrorV::ResponseJsonDecode(m),
            _ => false,
        },
{
    let data = match j.get_key("data") {
        Some(d) => d,
        None => return Err(decode_error("Missing data field")),
    };
    let first = match data.get_index(0) {
        Some(f) => f,
        None => return Err(decode_error("Missing first data element")),
    };
    let embedding = match first.get_key("embedding") {
        Some(e) => e,
        None => return Err(decode_error("Missing embedding field")),
    };
    let items = match embedding.as_array() {
        Some(items) => items,
        None => return Err(decode_error("Embedding not array")),
    };
    let ghost views = crate::json::json_views(items@);
    proof {
        crate::json::lemma_json_views(items@);
        assert(embedding@ == JsonV::Array(views));
    }
    let mut i: usize = 0;
    while i < items.len()
        invariant
            i <= items.len(),
            views == crate::json::json_views(items@),
            views.len() == items@.len(),
            forall|k: int| 0 <= k < views.len() ==> #[trigger] views[k] == items@[k]@,
            forall|k: int| 0 <= k < i ==> #[trigger] is_number(views[k]),
            get_key(j@, "data"@) == Some(data@),
            get_index(data@, 0) == Some(first@),
            get_key(first@, "embedding"@) == Some(embedding@),
            embedding@ == JsonV::Array(views),
        decreases items.len() - i,
    {
        let number = match &items[i] {
            Json::PosInt(_) => true,
            Json::NegInt(_) => true,
            Json::Float(_) => true,
            _ => false,
        };
        if !number {
            proof {
                assert(!is_number(views[i as int]));
            }
            return Err(decode_error("Embedding value not a number"));
        }
        i = i + 1;
    }
    Ok(items)
}

/// Reads an answer of the service, with the body already parsed as JSON.
pub fn read_parsed_embedding_answer<'a>(
    success: bool,
    status_text: &str,
    content_type: Option<&str>,
    body: &str,
    parsed: &'a Result<Json, String>,
) -> (res: Result<&'a Vec<Json>, EmbeddingError>)
    ensures
        ({
            let p = match parsed {
                Ok(j) => Ok::<JsonV, Seq<char>>(j@),
                Err(e) => Err::<JsonV, Seq<char>>(e@),
            };
            match (res, embedding_answer(success, status_text@, opt_str_view(content_type), body@, p)) {
                (Ok(items), Ok(vs)) => crate::json::json_views(items@) == vs,
                (Err(e), Err(ev)) => e@ == ev,
                _ => false,
            }
        }),
{
    if !success {
        match parsed {
            Ok(j) => {
                let mut m = String::from_str("open ai returned HTTP ");
                m.append(status_text);
                m.append(": ");
                let t = json_to_text(j);
                m.append(t.as_str());
                Err(EmbeddingError::Response(m))
            },
            Err(e) => {
                let mut m = String::from_str("open ai returned HTTP ");
                m.append(status_text);
                m.append(" with a non-JSON body: ");
                let d = describe_json_decode_failure(content_type, body, e.as_str());
                m.append(d.as_str());
                Err(EmbeddingError::Response(m))
            },
        }
    } else {
        match parsed {
            Err(e) => Err(
                EmbeddingError::ResponseJsonDecode(describe_json_decode_failure(content_type, body, e.as_str())),
            ),
            Ok(j) => embedding_numbers(j),
        }
    }
}

} // verus!
