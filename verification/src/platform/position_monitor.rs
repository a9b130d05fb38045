//! The position monitor: a periodic check that the bar still sits at the
//! top-left corner and still reserves its strip of the work area, with the
//! decisions to move it back and to register it again.
use vstd::prelude::*;

verus! {

/// Sleep between checks while the bar has not been stable for long.
pub const SHORT_SLEEP_MS: u64 = 500;

/// Sleep between checks once the bar has been stable for 10 checks.
pub const LONG_SLEEP_MS: u64 = 30000;

/// What one check asks of the caller.
#[derive(PartialEq, Eq, Structural, Clone, Copy, Debug)]
pub struct CheckActions {
    /// Move the window back to (0, 0).
    pub reposition: bool,
    /// Unregister and register the app bar again, move the window back, then
    /// report the new work-area top through `after_reregister`.
    pub reregister: bool,
}

/// Counters of the position monitor.
pub struct PositionMonitor {
    pub config_height: i32,
    pub failures: i32,
    pub re_register_attempts: i32,
    pub stable_cycles: i32,
}

/// The transition of one check: the monitor's counters (failures, attempts,
/// stable cycles) after a check that found the window at the origin or not and
/// the work area's top at `work_area_top`, with the actions it asks for.
pub open spec fn check_spec(
    config_height: i32,
    failures: i32,
    attempts: i32,
    stable: i32,
    window_at_origin: bool,
    work_area_top: i32,
) -> (i32, i32, i32, CheckActions) {
    let work_area_ok = work_area_top == config_height;
    let reposition = !window_at_origin && !work_area_ok;
    if !work_area_ok {
        let f = failures + 1;
        if f >= 2 {
            (f as i32, (attempts + 1) as i32, 0, CheckActions { reposition, reregister: true })
        } else {
            (f as i32, attempts, 0, CheckActions { reposition, reregister: false })
        }
    } else {
        (0, 0, (stable + 1) as i32, CheckActions { reposition, reregister: false })
    }
}

/// The counters (failures, attempts) after a re-registration that left the
/// work area's top at `work_area_top`: cleared when it is restored, else one
/// failure remains, and after three attempts in a row everything starts over.
pub open spec fn after_reregister_spec(config_height: i32, attempts: i32, work_area_top: i32) -> (
    i32,
    i32,
) {
    if work_area_top == config_height {
        (0, 0)
    } else if attempts >= 3 {
        (0, 0)
    } else {
        (1, attempts)
    }
}

impl PositionMonitor {
    /// The monitor's invariant: fewer than two failures between checks, at
    /// most two attempts in a row, stable cycles counted from zero.
    pub open spec fn wf(self) -> bool {
        &&& 0 <= self.failures <= 1
        &&& 0 <= self.re_register_attempts <= 2
        &&& 0 <= self.stable_cycles
    }

    /// A monitor for a bar of the given height, with all counters at zero.
    pub fn new(config_height: i32) -> (m: PositionMonitor)
        ensures
            m.wf(),
            m.config_height == config_height,
            m.failures == 0,
            m.re_register_attempts == 0,
            m.stable_cycles == 0,
    {
        PositionMonitor { config_height, failures: 0, re_register_attempts: 0, stable_cycles: 0 }
    }

    /// One check: whether the window was found at (0, 0), and the top of the
    /// work area. The window is moved back when both are off; a lost work area
    /// counts a failure, and the second failure in a row asks for a
    /// re-registration; a kept work area clears the failures and counts a
    /// stable cycle.
    pub fn check(&mut self, window_at_origin: bool, work_area_top: i32) -> (act: CheckActions)
        requires
            old(self).wf(),
            old(self).stable_cycles < i32::MAX,
        ensures
            final(self).config_height == old(self).config_height,
            (final(self).failures, final(self).re_register_attempts, final(self).stable_cycles, act)
                == check_spec(old(self).config_height, old(self).failures,
                old(self).re_register_attempts, old(self).stable_cycles, window_at_origin,
                work_area_top),
            act.reregister ==> final(self).failures == 2 && 1 <= final(self).re_register_attempts <= 3,
            !act.reregister ==> final(self).wf(),
    {
        let work_area_ok = work_area_top == self.config_height;
        let needs_reposition = !window_at_origin && !work_area_ok;
        let mut reregister = false;
        if needs_reposition {
            self.stable_cycles = 0;
        }
        if !work_area_ok {
            self.failures = self.failures + 1;
            self.stable_cycles = 0;
            if self.failures >= 2 {
                self.re_register_attempts = self.re_register_attempts + 1;
                reregister = true;
            }
        } else {
            self.stable_cycles = self.stable_cycles + 1;
            self.failures = 0;
            self.re_register_attempts = 0;
        }
        CheckActions { reposition: needs_reposition, reregister }
    }

    /// Takes the work area's top measured after a re-registration.
    pub fn after_reregister(&mut self, work_area_top: i32)
        requires
            old(self).failures == 2,
            1 <= old(self).re_register_attempts <= 3,
            0 <= old(self).stable_cycles,
        ensures
            final(self).wf(),
            final(self).config_height == old(self).config_height,
            final(self).stable_cycles == old(self).stable_cycles,
            (final(self).failures, final(self).re_register_attempts) == after_reregister_spec(
                old(self).config_height, old(self).re_register_attempts, work_area_top),
    {
        if work_area_top == self.config_height {
            self.failures = 0;
            self.re_register_attempts = 0;
        } else {
            self.failures = 1;
            if self.re_register_attempts >= 3 {
                self.re_register_attempts = 0;
                self.failures = 0;
            }
        }
    }

    /// How long to sleep before the next check.
    pub fn sleep_ms(&self) -> (ms: u64)
        ensures
            ms == (if self.stable_cycles >= 10 { LONG_SLEEP_MS } else { SHORT_SLEEP_MS }),
    {
        if self.stable_cycles >= 10 {
            LONG_SLEEP_MS
        } else {
            SHORT_SLEEP_MS
        }
    }
}

} // verus!
