pub mod default_timer;
