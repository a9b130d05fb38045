//! Windows-side bookkeeping of the bar: power notifications, the app-bar
//! registration and the position monitor that keeps the bar docked.
pub mod app_bar;
pub mod config;
pub mod position_monitor;
pub mod power;
pub mod media;
