//! A terminal dashboard's background process supervisor: task descriptors,
//! bounded per-task logs, lifecycle status cells, the runner's decision
//! logic, and the list/log view state machine of the task-control panel.
//!
//! All process, terminal and file I/O lives outside this crate; the crate
//! holds the data structures and decisions and proves their contracts.

pub mod config;
pub mod constants;
pub mod db;
pub mod log_buffer;
pub mod message;
pub mod paths;
pub mod render;
pub mod runner;
pub mod task;
pub mod task_control;
pub mod status;
pub mod text;
