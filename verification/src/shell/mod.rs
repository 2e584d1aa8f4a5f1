//! The state of the user interface and what each user action does to it.
//!
//! Handlers change the state and name the work that the caller is to do;
//! they do none of it themselves.

pub mod handlers;
pub mod state;
