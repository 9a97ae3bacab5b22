//! One-off maintenance tasks over stored people and memories.
pub mod summarize_memories_v2;
pub mod summarize_person_identities;
