//! Battery widget: turns UPower readings into what the bar shows, and
//! decides when to warn about a low battery and when to withdraw the warning.
pub mod data;
pub mod types;

use vstd::prelude::*;

use crate::app::notification::{self, PushOutcome, ToastQueue, SEVERITY_WARNING};
use crate::text::{push_signed_decimal, signed_decimal, to_owned_string};
use types::BatteryStatusInfo;

verus! {

/// At or below this level a discharging battery is low.
pub const LOW_THRESHOLD: i32 = 20;

/// The level shown: the reading clamped to 0..=100.
pub open spec fn clamp_level(level: i32) -> i32 {
    if level < 0 {
        0
    } else if level > 100 {
        100
    } else {
        level
    }
}

/// Whether the battery charges: the AC adapter's "Online" flag when an adapter
/// was found, else the battery's own UPower state (1 charging, 4 fully charged).
pub open spec fn is_charging(state: u32, ac_online: Option<bool>) -> bool {
    match ac_online {
        Some(online) => online,
        None => state == 1 || state == 4,
    }
}

/// The label of a level, such as "57%".
pub open spec fn percent_label(level: i32) -> Seq<char> {
    signed_decimal(level as int) + seq!['%']
}

/// The reading the bar shows for a UPower level (the percentage truncated to
/// an integer), battery state and, when an AC adapter exists, its online flag.
pub open spec fn status_of(level: i32, state: u32, ac_online: Option<bool>) -> (i32, bool, bool) {
    let charging = is_charging(state, ac_online);
    (clamp_level(level), charging, !charging && level <= LOW_THRESHOLD)
}

/// Builds the battery reading from the UPower level (the percentage truncated
/// to an integer), the UPower battery state, and the AC adapter's online flag
/// when an adapter was found.
pub fn battery_status(level: i32, state: u32, ac_online: Option<bool>) -> (info: BatteryStatusInfo)
    ensures
        info.percentage@ == percent_label(level),
        info.level == status_of(level, state, ac_online).0,
        info.charging == status_of(level, state, ac_online).1,
        info.low == status_of(level, state, ac_online).2,
{
    let from_state = state == 1 || state == 4;
    let charging = match ac_online {
        Some(online) => online,
        None => from_state,
    };
    let low = !charging && level <= LOW_THRESHOLD;
    let mut percentage = String::new();
    push_signed_decimal(&mut percentage, level as i64);
    crate::text::push_char(&mut percentage, '%');
    let clamped = if level < 0 {
        0
    } else if level > 100 {
        100
    } else {
        level
    };
    BatteryStatusInfo { percentage, level: clamped, charging, low }
}

/// The reading used when the battery could not be read at startup.
pub fn unknown_status() -> (info: BatteryStatusInfo)
    ensures
        info.percentage@ == seq!['0', '%'],
        info.level == 0,
        !info.charging,
        !info.low,
{
    let mut percentage = String::new();
    crate::text::push_char(&mut percentage, '0');
    crate::text::push_char(&mut percentage, '%');
    BatteryStatusInfo { percentage, level: 0, charging: false, low: false }
}

/// What the battery widget does after a reading.
pub struct BatteryActions {
    /// Show the reading on the bar.
    pub push_ui: bool,
    /// Warn about a low battery at this level.
    pub notify_low: Option<i32>,
    /// Withdraw the toasts tagged "battery" (the charger was plugged in).
    pub dismiss_battery_toasts: bool,
}

/// The battery widget's memory: the last reading shown, and whether the
/// current low-battery episode was already warned about.
pub struct BatteryTracker {
    pub last: BatteryStatusInfo,
    pub notified_low: bool,
}

/// The warning a reading gives after `t`: only a new reading that is low
/// while the current episode was not warned about yet.
pub open spec fn reading_warning(t: BatteryTracker, c: BatteryStatusInfo) -> Option<i32> {
    if c.same(t.last) {
        None
    } else if c.low && !t.notified_low {
        Some(c.level)
    } else {
        None
    }
}

/// The tracker after a reading: unchanged by a repeated reading, else the
/// reading becomes the last one and its low state the episode's.
pub open spec fn tracker_after(t: BatteryTracker, c: BatteryStatusInfo) -> BatteryTracker {
    if c.same(t.last) {
        t
    } else {
        BatteryTracker { last: c, notified_low: c.low }
    }
}

/// The tracker after a change signal with the reading taken after it
/// (`None` when the battery could not be read, which changes nothing).
pub open spec fn tracker_on(t: BatteryTracker, r: Option<BatteryStatusInfo>) -> BatteryTracker {
    match r {
        Some(c) => tracker_after(t, c),
        None => t,
    }
}

/// The warning given for a change signal with the reading taken after it.
pub open spec fn warning_on(t: BatteryTracker, r: Option<BatteryStatusInfo>) -> Option<i32> {
    match r {
        Some(c) => reading_warning(t, c),
        None => None,
    }
}

/// Whether a change signal withdraws the low-battery toasts: its reading is
/// new and charges while the last one did not.
pub open spec fn dismissal_on(t: BatteryTracker, r: Option<BatteryStatusInfo>) -> bool {
    match r {
        Some(c) => !c.same(t.last) && c.charging && !t.last.charging,
        None => false,
    }
}

/// Whether a change signal puts a reading on the bar: it is new.
pub open spec fn shown_on(t: BatteryTracker, r: Option<BatteryStatusInfo>) -> bool {
    match r {
        Some(c) => !c.same(t.last),
        None => false,
    }
}

/// The tracker after a sequence of change signals, in order.
pub open spec fn tracker_after_all(t: BatteryTracker, rs: Seq<Option<BatteryStatusInfo>>) -> BatteryTracker
    decreases rs.len(),
{
    if rs.len() == 0 {
        t
    } else {
        tracker_on(tracker_after_all(t, rs.drop_last()), rs.last())
    }
}

impl BatteryTracker {
    /// The episode was warned about exactly when the last reading is low.
    pub open spec fn wf(self) -> bool {
        self.notified_low == self.last.low
    }

    /// Starts from the first reading (or the unknown reading when none could be
    /// taken): it is shown, and warned about when already low.
    pub fn start(initial: Option<BatteryStatusInfo>) -> (res: (BatteryTracker, BatteryActions))
        ensures
            initial matches Some(i) ==> res.0.last == i,
            res.0.wf(),
            initial is None ==> res.0.last.percentage@ == seq!['0', '%'] && res.0.last.level == 0
                && !res.0.last.charging && !res.0.last.low,
            res.0.notified_low == res.0.last.low,
            res.1.push_ui,
            res.1.notify_low == (if res.0.last.low { Some(res.0.last.level) } else { None::<i32> }),
            !res.1.dismiss_battery_toasts,
    {
        let last = match initial {
            Some(info) => info,
            None => unknown_status(),
        };
        let low = last.low;
        let level = last.level;
        let actions = BatteryActions {
            push_ui: true,
            notify_low: if low { Some(level) } else { None },
            dismiss_battery_toasts: false,
        };
        (BatteryTracker { last, notified_low: low }, actions)
    }

    /// Handles one UPower change signal with the reading taken after it
    /// (`None` when the battery could not be read). A reading equal to the last
    /// one changes nothing. Otherwise it becomes the last reading and is shown;
    /// plugging the charger in withdraws the low-battery toasts; entering a low
    /// episode warns once, and leaving it re-arms the warning.
    pub fn on_reading(&mut self, current: Option<BatteryStatusInfo>) -> (act: BatteryActions)
        ensures
            old(self).wf() ==> final(self).wf(),
            *final(self) == tracker_on(*old(self), current),
            act.notify_low == warning_on(*old(self), current),
            act.dismiss_battery_toasts == dismissal_on(*old(self), current),
            act.push_ui == shown_on(*old(self), current),
            current matches Some(c) ==> *final(self) == tracker_after(*old(self), c)
                && act.notify_low == reading_warning(*old(self), c),
            match current {
                None => *final(self) == *old(self) && !act.push_ui && act.notify_low is None
                    && !act.dismiss_battery_toasts,
                Some(c) => if c.same(old(self).last) {
                    *final(self) == *old(self) && !act.push_ui && act.notify_low is None
                        && !act.dismiss_battery_toasts
                } else {
                    &&& final(self).last == c
                    &&& act.push_ui
                    &&& act.dismiss_battery_toasts == (c.charging && !old(self).last.charging)
                    &&& final(self).notified_low == c.low
                    &&& act.notify_low == (if c.low && !old(self).notified_low {
                        Some(c.level)
                    } else {
                        None::<i32>
                    })
                },
            },
    {
        match current {
            None => BatteryActions { push_ui: false, notify_low: None, dismiss_battery_toasts: false },
            Some(c) => {
                if c.equals(&self.last) {
                    BatteryActions { push_ui: false, notify_low: None, dismiss_battery_toasts: false }
                } else {
                    let dismiss = c.charging != self.last.charging && c.charging;
                    self.last = c;
                    let mut notify: Option<i32> = None;
                    if self.last.low {
                        if !self.notified_low {
                            self.notified_low = true;
                            notify = Some(self.last.level);
                        }
                    } else {
                        self.notified_low = false;
                    }
                    BatteryActions { push_ui: true, notify_low: notify, dismiss_battery_toasts: dismiss }
                }
            },
        }
    }
}

/// The text of the low-battery warning: "Te queda {level}% de batería".
pub open spec fn low_battery_message(level: i32) -> Seq<char> {
    "Te queda "@ + signed_decimal(level as int) + "% de batería"@
}

/// Shows the low-battery warning toast: titled "Batería baja", with icon
/// "battery_alert", warning severity, 5 seconds, tagged "battery".
pub fn notify_low_battery(queue: &mut ToastQueue, level: i32) -> (out: PushOutcome)
    requires
        old(queue).wf(),
        old(queue).last_id() < i32::MAX,
    ensures
        final(queue).wf(),
        out.id == old(queue).last_id() + 1,
        out.duration_ms == 5000,
        exists|t: notification::ToastData|
            #![trigger notification::with_id(t, out.id)]
            notification::requested_toast(t, "Batería baja"@, low_battery_message(level),
                "battery_alert"@, SEVERITY_WARNING, 5000, "battery"@)
            && final(queue).toasts() == notification::bounded_push(old(queue).toasts(),
                notification::with_id(t, out.id)),
{
    let mut message = to_owned_string("Te queda ");
    push_signed_decimal(&mut message, level as i64);
    message.append("% de batería");
    notification::push(queue, "Batería baja", message.as_str(), "battery_alert",
        SEVERITY_WARNING, 5000, "battery")
}

/// A low episode is warned about once: after a low reading, a further low
/// reading gives no warning.
pub proof fn law_low_warning_once(t: BatteryTracker, c1: BatteryStatusInfo, c2: BatteryStatusInfo)
    requires
        t.wf(),
        c1.low,
        c2.low,
    ensures
        reading_warning(tracker_after(t, c1), c2) is None,
{
}

/// Entering a low episode warns: a low reading after a reading that was not
/// low gives the warning with its level.
pub proof fn law_low_episode_warns(t: BatteryTracker, c: BatteryStatusInfo)
    requires
        t.wf(),
        !t.last.low,
        c.low,
    ensures
        reading_warning(t, c) == Some(c.level),
{
}

/// Leaving a low episode re-arms the warning: after a new reading that is
/// not low, the next low reading warns again.
pub proof fn law_warning_rearmed(t: BatteryTracker, c1: BatteryStatusInfo, c2: BatteryStatusInfo)
    requires
        t.wf(),
        !c1.low,
        !c1.same(t.last),
        c2.low,
    ensures
        reading_warning(tracker_after(t, c1), c2) == Some(c2.level),
{
}

proof fn lemma_tracker_wf_all(t: BatteryTracker, rs: Seq<Option<BatteryStatusInfo>>)
    requires
        t.wf(),
    ensures
        tracker_after_all(t, rs).wf(),
    decreases rs.len(),
{
    if rs.len() > 0 {
        lemma_tracker_wf_all(t, rs.drop_last());
    }
}

/// Over any run of change signals, from a tracker that has started: before
/// each signal, the episode was warned about exactly when the last reading
/// shown is low; the signal warns exactly when its reading is low and the
/// last reading shown is not (once per low episode), withdraws the
/// low-battery toasts exactly when its reading charges and the last one shown
/// does not, and a reading equal to the last one shown changes nothing and
/// shows nothing.
pub proof fn law_battery_readings(t: BatteryTracker, rs: Seq<Option<BatteryStatusInfo>>)
    requires
        t.wf(),
    ensures
        tracker_after_all(t, rs).wf(),
        forall|k: int|
            0 <= k < rs.len() ==> {
                let tk = #[trigger] tracker_after_all(t, rs.take(k));
                &&& tk.wf()
                &&& warning_on(tk, rs[k]) == (if rs[k] matches Some(c) && c.low && !tk.last.low {
                    Some(rs[k]->Some_0.level)
                } else {
                    None::<i32>
                })
                &&& dismissal_on(tk, rs[k]) == (rs[k] matches Some(c) && c.charging && !tk.last.charging)
                &&& (rs[k] matches Some(c) && c.same(tk.last)) ==> (tracker_on(tk, rs[k]) == tk
                    && !shown_on(tk, rs[k]))
            },
{
    lemma_tracker_wf_all(t, rs);
    assert forall|k: int| 0 <= k < rs.len() implies {
        let tk = #[trigger] tracker_after_all(t, rs.take(k));
        &&& tk.wf()
        &&& warning_on(tk, rs[k]) == (if rs[k] matches Some(c) && c.low && !tk.last.low {
            Some(rs[k]->Some_0.level)
        } else {
            None::<i32>
        })
        &&& dismissal_on(tk, rs[k]) == (rs[k] matches Some(c) && c.charging && !tk.last.charging)
        &&& (rs[k] matches Some(c) && c.same(tk.last)) ==> (tracker_on(tk, rs[k]) == tk
            && !shown_on(tk, rs[k]))
    } by {
        lemma_tracker_wf_all(t, rs.take(k));
    }
}

} // verus!
