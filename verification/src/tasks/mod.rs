//! Decisions of the background tasks, as functions of what the outside
//! world answered.

pub mod pipeline;
pub mod registry;
pub mod waybar;
