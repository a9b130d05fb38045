//! Power notifications: decoding the power-setting broadcasts and folding
//! them into the battery state the bar shows.
use vstd::prelude::*;

verus! {

/// GUID_ACDC_POWER_SOURCE: which power source the machine runs on.
pub const GUID_ACDC_POWER_SOURCE: u128 = 0x5D3E9A59_E9D5_4B00_A6BD_FF34FF516548u128;

/// GUID_BATTERY_PERCENTAGE_REMAINING: the remaining battery charge.
pub const GUID_BATTERY_PERCENTAGE_REMAINING: u128 = 0xA7AD8041_B45A_4CAE_87A3_EECBB468A9E1u128;

/// At or below this percentage a battery that does not charge is low.
pub const LOW_PERCENTAGE: u8 = 15;

/// Where the machine draws its power from: AC, battery, or a short-term (UPS) battery.
#[derive(PartialEq, Eq, Structural, Clone, Copy, Debug)]
pub enum PowerSource {
    Ac,
    Dc,
    Hot,
}

/// A decoded power notification.
#[derive(PartialEq, Eq, Structural, Clone, Copy, Debug)]
pub enum PowerEvent {
    PowerSource(PowerSource),
    BatteryPercentage(u8),
}

/// Battery level in percent with its charging and low flags.
#[derive(PartialEq, Eq, Structural, Clone, Copy, Debug)]
pub struct BatteryStatusInfo {
    pub percentage: u8,
    pub is_charging: bool,
    pub is_low: bool,
}

/// The numeric code of a power source in the broadcast (0 AC, 1 DC, 2 short-term DC).
pub fn power_source_code(source: PowerSource) -> (code: u32)
    ensures
        code == (match source {
            PowerSource::Ac => 0u32,
            PowerSource::Dc => 1u32,
            PowerSource::Hot => 2u32,
        }),
{
    match source {
        PowerSource::Ac => 0,
        PowerSource::Dc => 1,
        PowerSource::Hot => 2,
    }
}

/// The event a power-setting broadcast carries: the power source (an unknown
/// code counts as battery power) or the low byte of the remaining percentage;
/// `None` for any other setting.
pub open spec fn decode_spec(setting: u128, data: u32) -> Option<PowerEvent> {
    if setting == GUID_ACDC_POWER_SOURCE {
        Some(PowerEvent::PowerSource(
            if data == 0 {
                PowerSource::Ac
            } else if data == 2 {
                PowerSource::Hot
            } else {
                PowerSource::Dc
            },
        ))
    } else if setting == GUID_BATTERY_PERCENTAGE_REMAINING {
        Some(PowerEvent::BatteryPercentage((data % 256) as u8))
    } else {
        None
    }
}

/// Decodes a power-setting broadcast (its setting GUID and data word).
pub fn decode_power_setting(setting: u128, data: u32) -> (ev: Option<PowerEvent>)
    ensures
        ev == decode_spec(setting, data),
{
    if setting == GUID_ACDC_POWER_SOURCE {
        let source = match data {
            0 => PowerSource::Ac,
            1 => PowerSource::Dc,
            2 => PowerSource::Hot,
            _ => PowerSource::Dc,
        };
        Some(PowerEvent::PowerSource(source))
    } else if setting == GUID_BATTERY_PERCENTAGE_REMAINING {
        let percentage = (data & 0xFF) as u8;
        assert(data & 0xFF == data % 256) by (bit_vector);
        Some(PowerEvent::BatteryPercentage(percentage))
    } else {
        None
    }
}

/// The status reported for a power source (none known yet) and a percentage:
/// charging exactly on AC power, low at or below 15% when not charging.
pub open spec fn status_spec(source: Option<PowerSource>, percentage: u8) -> BatteryStatusInfo {
    let charging = source == Some(PowerSource::Ac);
    BatteryStatusInfo {
        percentage: percentage,
        is_charging: charging,
        is_low: percentage <= LOW_PERCENTAGE && !charging,
    }
}

/// The monitor after one event: the event's power source or percentage
/// replaces the one remembered.
pub open spec fn monitor_step(m: BatteryMonitor, event: PowerEvent) -> BatteryMonitor {
    match event {
        PowerEvent::PowerSource(s) => BatteryMonitor {
            current_power_source: Some(s),
            current_percentage: m.current_percentage,
        },
        PowerEvent::BatteryPercentage(p) => BatteryMonitor {
            current_power_source: m.current_power_source,
            current_percentage: p,
        },
    }
}

/// The monitor after a sequence of events, in order.
pub open spec fn monitor_after(m: BatteryMonitor, events: Seq<PowerEvent>) -> BatteryMonitor
    decreases events.len(),
{
    if events.len() == 0 {
        m
    } else {
        monitor_step(monitor_after(m, events.drop_last()), events.last())
    }
}

/// The power source of the latest source event, if any.
pub open spec fn latest_source(events: Seq<PowerEvent>) -> Option<PowerSource>
    decreases events.len(),
{
    if events.len() == 0 {
        None
    } else {
        match events.last() {
            PowerEvent::PowerSource(s) => Some(s),
            PowerEvent::BatteryPercentage(_) => latest_source(events.drop_last()),
        }
    }
}

/// The percentage of the latest percentage event, 100 when there is none.
pub open spec fn latest_percentage(events: Seq<PowerEvent>) -> u8
    decreases events.len(),
{
    if events.len() == 0 {
        100
    } else {
        match events.last() {
            PowerEvent::BatteryPercentage(p) => p,
            PowerEvent::PowerSource(_) => latest_percentage(events.drop_last()),
        }
    }
}

/// The listener of power notifications: the last power source and battery
/// percentage received (100% until a percentage arrives).
pub struct BatteryMonitor {
    pub current_power_source: Option<PowerSource>,
    pub current_percentage: u8,
}

impl BatteryMonitor {
    /// A monitor that has received nothing yet.
    pub open spec fn fresh() -> BatteryMonitor {
        BatteryMonitor { current_power_source: None, current_percentage: 100 }
    }

    /// A monitor that has received nothing yet.
    pub fn new() -> (m: BatteryMonitor)
        ensures
            m == BatteryMonitor::fresh(),
            m.current_power_source is None,
            m.current_percentage == 100,
    {
        BatteryMonitor { current_power_source: None, current_percentage: 100 }
    }

    /// Takes one event into account and returns the status to report.
    pub fn on_event(&mut self, event: PowerEvent) -> (status: BatteryStatusInfo)
        ensures
            match event {
                PowerEvent::PowerSource(s) => final(self).current_power_source == Some(s)
                    && final(self).current_percentage == old(self).current_percentage,
                PowerEvent::BatteryPercentage(p) => final(self).current_percentage == p
                    && final(self).current_power_source == old(self).current_power_source,
            },
            *final(self) == monitor_step(*old(self), event),
            status == status_spec(final(self).current_power_source, final(self).current_percentage),
    {
        match event {
            PowerEvent::PowerSource(source) => {
                self.current_power_source = Some(source);
            },
            PowerEvent::BatteryPercentage(pct) => {
                self.current_percentage = pct;
            },
        }
        let is_charging = match self.current_power_source {
            Some(PowerSource::Ac) => true,
            _ => false,
        };
        let is_low = self.current_percentage <= LOW_PERCENTAGE && !is_charging;
        BatteryStatusInfo { percentage: self.current_percentage, is_charging, is_low }
    }
}

/// Whatever power notifications arrive, the monitor reports the power source
/// of the latest source notification (none before the first) and the
/// percentage of the latest percentage notification (100 before the first):
/// charging exactly on AC power, low at or below 15% when not charging.
pub proof fn law_monitor_reports_latest(events: Seq<PowerEvent>)
    ensures
        monitor_after(BatteryMonitor::fresh(), events) == (BatteryMonitor {
            current_power_source: latest_source(events),
            current_percentage: latest_percentage(events),
        }),
        ({
            let m = monitor_after(BatteryMonitor::fresh(), events);
            status_spec(m.current_power_source, m.current_percentage) == status_spec(
                latest_source(events),
                latest_percentage(events),
            )
        }),
    decreases events.len(),
{
    if events.len() > 0 {
        law_monitor_reports_latest(events.drop_last());
    }
}

} // verus!
