pub mod actor_uuid;
pub mod event;
pub mod goal;
pub mod goal_uuid;
pub mod job;
pub mod job_uuid;
pub mod logger;
pub mod memory;
pub mod memory_uuid;
pub mod message;
pub mod message_uuid;
pub mod motivation;
pub mod motivation_uuid;
pub mod person_identity_uuid;
pub mod person_name;
pub mod person_task;
pub mod person_task_uuid;
pub mod person_uuid;
pub mod random_seed;
pub mod scene_participant_uuid;
pub mod scene_uuid;
pub mod situation;
pub mod state_of_mind;
pub mod state_of_mind_uuid;
