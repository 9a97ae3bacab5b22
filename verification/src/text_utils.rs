//! Cleaning up the text of a chat message.
use crate::text::{trim_chars, trim_text};
use vstd::prelude::*;
use vstd::string::*;

verus! {

/// The content without surrounding white space, and without one pair of
/// enclosing double quotes (and the white space inside them).
pub open spec fn normalized_content(content: Seq<char>) -> Seq<char> {
    let t = trim_chars(content);
    if t.len() >= 2 && t[0] == '"' && t[t.len() - 1] == '"' {
        trim_chars(t.subrange(1, t.len() - 1))
    } else {
        t
    }
}

/// Trims the content and strips one pair of enclosing double quotes.
pub fn normalize_message_content(content: &str) -> (res: String)
    ensures
        res@ == normalized_content(content@),
{
    let t = trim_text(content);
    let n = t.as_str().unicode_len();
    if n >= 2 && t.as_str().get_char(0) == '"' && t.as_str().get_char(n - 1) == '"' {
        let inner = t.as_str().substring_char(1, n - 1);
        trim_text(inner)
    } else {
        t
    }
}

} // verus!
