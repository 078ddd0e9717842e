pub mod calculator;
pub mod clock;
pub mod schedule;
pub mod state;
pub mod time_format;
pub mod timer;
