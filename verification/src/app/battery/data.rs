//! Battery state as a serialized record carries it.
use vstd::prelude::*;

verus! {

/// Battery level in percent with its charging and low flags.
pub struct BatteryStatusInfo {
    pub percentage: u8,
    pub is_charging: bool,
    pub is_low: bool,
}

} // verus!
