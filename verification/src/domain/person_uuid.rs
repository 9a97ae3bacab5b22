//! Identifies a person.
use crate::ident::{fresh_v7_uuid, is_v7_uuid, uuid_string, uuid_text};
use vstd::prelude::*;
use vstd::string::*;

verus! {

/// Identifies a person.
#[derive(Debug, Clone, Copy, PartialEq, Eq, Structural, Hash)]
pub struct PersonUuid(pub u128);

impl PersonUuid {
    /// A fresh time-ordered identifier.
    pub fn new() -> (res: Self)
        ensures
            is_v7_uuid(res.0),
    {
        PersonUuid(fresh_v7_uuid())
    }

    /// The 128-bit value of the identifier.
    pub fn to_uuid(&self) -> (res: u128)
        ensures
            res == self.0,
    {
        self.0
    }

    /// The identifier with the given 128-bit value.
    pub fn from_uuid(uuid: u128) -> (res: Self)
        ensures
            res.0 == uuid,
    {
        PersonUuid(uuid)
    }

    /// The display form `Person/<uuid>`.
    pub fn to_string(&self) -> (res: String)
        ensures
            res@ == "Person/"@ + uuid_text(self.0),
    {
        let mut s = String::from_str("Person/");
        let u = uuid_string(self.0);
        s.append(u.as_str());
        s
    }
}

} // verus!
