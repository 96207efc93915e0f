//! The operations that the platform offers to its callers, one module each.

pub mod admin;
pub mod get_tasks;
