pub mod get_status;
pub mod reset_day;
