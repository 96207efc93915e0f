//! Operations on the boost of a quest.

pub mod update_boost;
