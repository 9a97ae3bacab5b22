pub mod completion;
pub mod embedding;
pub mod history;
pub mod message;
pub mod model;
pub mod role;
pub mod tool;
pub mod tool_call;
