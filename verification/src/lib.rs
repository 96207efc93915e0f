//! Task visibility and completion status for a quest platform.
//!
//! The engine joins a task catalog with per-address completion records and the
//! visibility flag of the parent quest, and puts the visible tasks in display order.

pub mod address;
pub mod aggregation;
pub mod display_order;
pub mod errors;
pub mod records;
pub mod endpoints;
