pub mod handlers;
pub mod tray_icon;
