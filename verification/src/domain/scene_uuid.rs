//! Identifies a scene.
use crate::ident::{fresh_v7_uuid, is_v7_uuid, uuid_string, uuid_text};
use vstd::prelude::*;

verus! {

/// Identifies a scene.
#[derive(Debug, Clone, Copy, PartialEq, Eq, Structural, Hash)]
pub struct SceneUuid(pub u128);

impl SceneUuid {
    /// A fresh time-ordered identifier.
    pub fn new() -> (res: Self)
        ensures
            is_v7_uuid(res.0),
    {
        SceneUuid(fresh_v7_uuid())
    }

    /// The 128-bit value of the identifier.
    pub fn to_uuid(&self) -> (res: u128)
        ensures
            res == self.0,
    {
        self.0
    }

    /// The identifier with the given 128-bit value.
    pub fn from_uuid(uuid: u128) -> (res: Self)
        ensures
            res.0 == uuid,
    {
        SceneUuid(uuid)
    }

    /// The hyphenated form of the identifier (its display form).
    pub fn to_string(&self) -> (res: String)
        ensures
            res@ == uuid_text(self.0),
    {
        uuid_string(self.0)
    }
}

} // verus!
