//! The name of a person.
use vstd::prelude::*;
use vstd::string::*;

verus! {

/// The name of a person.
#[derive(Debug, Clone)]
pub struct PersonName(pub String);

impl PersonName {
    /// The name made of the given text.
    pub fn from_string(name: String) -> (res: Self)
        ensures
            res.0@ == name@,
    {
        PersonName(name)
    }

    /// The text of the name.
    pub fn as_str(&self) -> (res: &str)
        ensures
            res@ == self.0@,
    {
        self.0.as_str()
    }

    /// A copy of the name (its display form).
    pub fn to_string(&self) -> (res: String)
        ensures
            res@ == self.0@,
    {
        self.0.clone()
    }

    /// A copy of the name.
    pub fn copy(&self) -> (res: Self)
        ensures
            res == *self,
    {
        PersonName(self.0.clone())
    }
}

} // verus!
