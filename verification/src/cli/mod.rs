//! Command-line helpers: formatting, input expansion, limits, mode selection,
//! the no-args summary and the state of the interactive screens.
pub mod completion;
pub mod confirm;
pub mod export;
pub mod format;
pub mod glob;
pub mod hooks;
pub mod install;
pub mod listing;
pub mod logging;
pub mod keys;
pub mod limits;
pub mod mode;
pub mod noargs;
pub mod pager;
pub mod skill;
pub mod tui;
