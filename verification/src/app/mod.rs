//! The status bar's widgets: their state, and the decisions they take on
//! each event.
pub mod battery;
pub mod notification;
pub mod media;
pub mod volume;
pub mod time;
pub mod processes;
pub mod workspaces;
pub mod tray;
pub mod control_center;
pub mod gif;
