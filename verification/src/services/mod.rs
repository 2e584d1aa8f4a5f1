//! Services that act on the bar's files, as functions of their contents.

pub mod paths;
pub mod preferences;
pub mod waybar_config;
pub mod waybar_style;
