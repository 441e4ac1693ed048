//! In-memory representation of the commands of a small task tracker —
//! adding a task, marking one done, and searching — together with the
//! canonical text rendering of each command.

pub mod text;
pub mod types;
