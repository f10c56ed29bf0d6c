//! A small task manager: tasks with a status and a creation time, a manager that
//! resolves tasks by a prefix of their identifier, and two interchangeable
//! file formats for keeping the collection between runs.

pub mod text;
pub mod timestamp;
pub mod random;
pub mod task;
pub mod cli;
pub mod storage;
pub mod manager;
