//! The latest state of mind of a person.
use vstd::prelude::*;

verus! {

/// The latest state of mind of a person.
#[derive(Debug, Clone)]
pub struct StateOfMind {
    pub content: String,
}

} // verus!
