//! Verified core of the barrita status bar: configuration defaults and
//! colour parsing, notification queueing, battery and power tracking,
//! workspace bookkeeping, tray icon selection, desktop-entry parsing and
//! icon-theme lookup, app-bar geometry, and the formatting helpers they share.

pub mod app;
pub mod backend;
pub mod config;
pub mod data;
pub mod imaging;
pub mod input;
pub mod media;
pub mod platform;
pub mod spell;
pub mod status_updater;
pub mod text;
pub mod vault;
