//! Presence detection: debounce timers and the detection engine.
pub mod debounce;
pub mod engine;
pub mod laws;
pub mod loops;
