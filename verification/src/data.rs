//! Plain records that the widgets fill and the bar displays.
use vstd::prelude::*;

verus! {

/// Network state as shown by the network widget.
pub struct NetworkInfo {
    pub status: String,
    pub connected: bool,
    pub icon: String,
}

/// Output volume as shown by the volume widget.
pub struct VolumeInfo {
    pub volume: u8,
    pub muted: bool,
    pub icon: String,
}

/// The busiest process and its CPU share.
pub struct ProcessInfo {
    pub top_process: String,
    pub cpu_usage: u32,
}

/// The clock's two labels.
pub struct TimeInfo {
    pub time: String,
    pub date: String,
}

} // verus!
