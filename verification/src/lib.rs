//! Work-day tracking: how long has been worked since the day started, what is left of the
//! daily target, and what the worker should be doing right now according to a schedule of pauses.
pub mod commands;
pub mod config;
pub mod core_logic;
pub mod notifications;
pub mod tray;
pub mod utils;
