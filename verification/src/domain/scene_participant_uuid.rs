//! Identifies a scene participation record.
use crate::ident::{fresh_v7_uuid, is_v7_uuid};
use vstd::prelude::*;

verus! {

/// Identifies a scene participation record.
#[derive(Debug, Clone, Copy, PartialEq, Eq, Structural, Hash)]
pub struct SceneParticipantUuid(pub u128);

impl SceneParticipantUuid {
    /// A fresh time-ordered identifier.
    pub fn new() -> (res: Self)
        ensures
            is_v7_uuid(res.0),
    {
        SceneParticipantUuid(fresh_v7_uuid())
    }

    /// The 128-bit value of the identifier.
    pub fn to_uuid(&self) -> (res: u128)
        ensures
            res == self.0,
    {
        self.0
    }

    /// The identifier with the given 128-bit value.
    pub fn from_uuid(uuid: u128) -> (res: Self)
        ensures
            res.0 == uuid,
    {
        SceneParticipantUuid(uuid)
    }
}

} // verus!
