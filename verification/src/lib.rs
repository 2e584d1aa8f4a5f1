//! Trust-boundary logic for a status-bar module manager: identity parsing,
//! registry mapping, security gates, and configuration wiring.

pub mod api;
pub mod api_models;
pub mod domain;
pub mod error;
pub mod json;
pub mod security;
pub mod services;
pub mod shell;
pub mod tasks;
pub mod text;
pub mod ui;
pub mod widget;
