//! Configuration model: application settings (`config.toml`), the legacy
//! device map and the hierarchical presence identity model (`presence.toml`).
pub mod app;
pub mod devices;
pub mod presence;
pub mod loader;
pub mod migrate;
pub mod templates;
