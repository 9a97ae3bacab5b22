//! The key by which requests to the model service are authorized.
use vstd::prelude::*;
use vstd::string::*;

verus! {

/// A secret key for the model service.
#[derive(Clone)]
pub struct OpenAiKey {
    key: String,
}

impl View for OpenAiKey {
    type V = Seq<char>;

    closed spec fn view(&self) -> Seq<char> {
        self.key@
    }
}

impl OpenAiKey {
    /// The key with the given text.
    pub fn from_value(key: String) -> (res: Self)
        ensures
            res@ == key@,
    {
        OpenAiKey { key }
    }

    /// The value of the `Authorization` header: `Bearer ` and the key.
    pub fn to_header(&self) -> (res: String)
        ensures
            res@ == "Bearer "@ + self@,
    {
        let mut s = String::from_str("Bearer ");
        s.append(self.key.as_str());
        s
    }
}

} // verus!
