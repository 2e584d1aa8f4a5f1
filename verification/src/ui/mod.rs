//! What the pages show, as functions of the data behind them.

pub mod browse;
pub mod installed;
