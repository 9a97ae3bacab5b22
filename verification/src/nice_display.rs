//! Errors that can explain themselves in plain words.
use vstd::prelude::*;

verus! {

/// An error message ready to be shown.
pub struct NiceError {
    pub content: String,
}

impl NiceError {
    /// The message (its display form).
    pub fn to_string(&self) -> (res: String)
        ensures
            res@ == self.content@,
    {
        self.content.clone()
    }
}

/// An error that can explain itself in plain words.
pub trait NiceDisplay {
    /// What `message` returns.
    spec fn message_spec(&self) -> Seq<char>;

    /// The explanation of the error.
    fn message(&self) -> (res: String)
        ensures
            res@ == self.message_spec(),
    ;

    /// The explanation, ready to be shown.
    fn to_nice_error(&self) -> (res: NiceError)
        ensures
            res.content@ == self.message_spec(),
    {
        NiceError { content: self.message() }
    }
}

} // verus!
