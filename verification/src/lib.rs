pub mod capability;
pub mod clock;
pub mod command;
pub mod domain;
pub mod ident;
pub mod job_runner;
pub mod json;
pub mod laws;
pub mod migrations;
pub mod nice_display;
pub mod num;
pub mod open_ai;
pub mod open_ai_key;
pub mod person_actions;
pub mod tasks;
pub mod temporary_event_cutoff;
pub mod text;
pub mod text_utils;
