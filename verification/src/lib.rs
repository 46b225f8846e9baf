//! Presence detection: identity model, detection engine, discovery helpers and
//! the state behind the interactive configuration screens.
pub mod text;
pub mod config;
pub mod location;
pub mod path;
pub mod error;
pub mod cli;
pub mod clock;
pub mod detection;
pub mod discovery;
pub mod health;
pub mod hooks;
pub mod agent_settings;
pub mod state;
