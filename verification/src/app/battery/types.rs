//! The battery state as the bar shows it.
use vstd::prelude::*;

verus! {

/// Battery state read from UPower: the label, the level clamped to 0..=100,
/// whether the battery charges, and whether it counts as low.
pub struct BatteryStatusInfo {
    pub percentage: String,
    pub level: i32,
    pub charging: bool,
    pub low: bool,
}

impl BatteryStatusInfo {
    /// Field-wise equality of two readings.
    pub open spec fn same(self, other: BatteryStatusInfo) -> bool {
        &&& self.percentage@ == other.percentage@
        &&& self.level == other.level
        &&& self.charging == other.charging
        &&& self.low == other.low
    }

    /// Compares two readings field by field.
    pub fn equals(&self, other: &BatteryStatusInfo) -> (r: bool)
        ensures
            r == self.same(*other),
    {
        self.percentage == other.percentage && self.level == other.level
            && self.charging == other.charging && self.low == other.low
    }

    /// A copy of this reading.
    pub fn duplicate(&self) -> (r: BatteryStatusInfo)
        ensures
            r == *self,
    {
        BatteryStatusInfo {
            percentage: self.percentage.clone(),
            level: self.level,
            charging: self.charging,
            low: self.low,
        }
    }
}

} // verus!
