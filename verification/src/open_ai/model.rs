//! The language models that requests name.
use vstd::prelude::*;
use vstd::string::*;

verus! {

/// A language model.
#[derive(Debug, Clone, Copy, PartialEq, Eq, Structural)]
pub enum Model {
    Gpt4o,
    Gpt5Mini,
    Gpt5p5,
}

/// The identifier of a model in a request.
pub open spec fn model_name(m: Model) -> Seq<char> {
    match m {
        Model::Gpt4o => "gpt-4o-2024-08-06"@,
        Model::Gpt5Mini => "gpt-5-mini"@,
        Model::Gpt5p5 => "gpt-5.5"@,
    }
}

impl Model {
    /// The model used where none is chosen.
    pub const DEFAULT: Model = Model::Gpt5p5;

    /// The identifier of the model in a request (its display form).
    pub fn to_string(&self) -> (res: String)
        ensures
            res@ == model_name(*self),
    {
        match self {
            Model::Gpt4o => String::from_str("gpt-4o-2024-08-06"),
            Model::Gpt5Mini => String::from_str("gpt-5-mini"),
            Model::Gpt5p5 => String::from_str("gpt-5.5"),
        }
    }
}

} // verus!
