pub mod format_status;
pub mod format_work_state;
pub mod text;
