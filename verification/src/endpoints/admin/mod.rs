//! Operations reserved to administrators.

pub mod quest_boost;
