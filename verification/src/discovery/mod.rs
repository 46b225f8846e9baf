//! Discovery of identifiers that belong together, from how often they are
//! seen in the same time windows.
pub mod correlator;
pub mod clusters;
pub mod report;
pub mod runtime;
