use barrita::app::battery::types::BatteryStatusInfo;
use barrita::app::battery::{battery_status, notify_low_battery, unknown_status, BatteryTracker};
use barrita::app::notification::{dismiss_tagged, push, ToastData, ToastQueue, MAX_TOASTS};
use barrita::config::{
    config_dir_from, config_path_in, get_music_icon_style, get_workspaces_style, init_app,
    init_styles, join, join_bytes, parse_hex_color, Color, Config,
};
use barrita::platform::app_bar::{AppBar, Rect, ABE_BOTTOM, ABE_TOP};
use barrita::platform::config::{AppBarEdge, StatusBarConfig};
use barrita::platform::position_monitor::PositionMonitor;
use barrita::platform::power::{
    decode_power_setting, BatteryMonitor, PowerEvent, PowerSource, GUID_ACDC_POWER_SOURCE,
    GUID_BATTERY_PERCENTAGE_REMAINING,
};
use barrita::vault::application::{
    desktop_entry_extracter, get_desktop_id, get_exec_command, PathPart,
};
use barrita::vault::{AppData, AppSelector};

fn toast(tag: &str) -> ToastData {
    ToastData {
        id: 0,
        title: "t".to_string(),
        message: "m".to_string(),
        icon: "i".to_string(),
        severity: 0,
        duration_ms: 0,
        tag: tag.to_string(),
    }
}

#[test]
fn toast_queue_keeps_five_newest() {
    let mut q = ToastQueue::new();
    let mut evicted = Vec::new();
    for k in 0..7 {
        let out = q.push_toast(toast(if k % 2 == 0 { "a" } else { "b" }));
        assert_eq!(out.id, k + 1);
        assert_eq!(out.duration_ms, 5000);
        if let Some(e) = out.evicted {
            evicted.push(e);
        }
    }
    assert_eq!(q.row_count(), MAX_TOASTS);
    assert_eq!(evicted, vec![1, 2]);
    assert!(!q.dismiss_tagged("a"));
    assert_eq!(q.row_count(), 2);
    assert!(!q.remove_toast(4));
    assert!(q.remove_toast(6));
    assert_eq!(q.row_count(), 0);
}

#[test]
fn push_and_dismiss_helpers() {
    let mut q = ToastQueue::new();
    let out = push(&mut q, "T", "M", "icon", 1, 1200, "net");
    assert_eq!((out.id, out.duration_ms, out.evicted), (1, 1200, None));
    let out = notify_low_battery(&mut q, 12);
    assert_eq!(out.id, 2);
    assert!(!dismiss_tagged(&mut q, "battery"));
    assert!(dismiss_tagged(&mut q, "net"));
}

#[test]
fn battery_readings_and_warnings() {
    let info = battery_status(57, 2, None);
    assert_eq!(info.percentage, "57%");
    assert!(!info.charging && !info.low);
    let low = battery_status(15, 2, None);
    assert!(low.low);
    let charging = battery_status(150, 2, Some(true));
    assert_eq!(charging.level, 100);
    assert!(charging.charging && !charging.low);
    assert_eq!(battery_status(-3, 1, None).level, 0);
    let u = unknown_status();
    assert_eq!(u.percentage, "0%");

    let (mut t, acts) = BatteryTracker::start(Some(battery_status(50, 2, None)));
    assert!(acts.push_ui);
    assert_eq!(acts.notify_low, None);
    let a = t.on_reading(Some(battery_status(18, 2, None)));
    assert_eq!(a.notify_low, Some(18));
    let a = t.on_reading(Some(battery_status(17, 2, None)));
    assert_eq!(a.notify_low, None);
    let a = t.on_reading(Some(battery_status(17, 2, None)));
    assert!(!a.push_ui);
    let a = t.on_reading(Some(battery_status(17, 1, None)));
    assert!(a.dismiss_battery_toasts);
    let a = t.on_reading(Some(battery_status(16, 2, None)));
    assert_eq!(a.notify_low, Some(16));
    let a = t.on_reading(None);
    assert!(!a.push_ui);
    let same = BatteryStatusInfo { percentage: "16%".to_string(), level: 16, charging: false, low: true };
    assert!(same.equals(&t.last));
}

#[test]
fn power_events() {
    assert_eq!(decode_power_setting(GUID_ACDC_POWER_SOURCE, 0), Some(PowerEvent::PowerSource(PowerSource::Ac)));
    assert_eq!(decode_power_setting(GUID_ACDC_POWER_SOURCE, 7), Some(PowerEvent::PowerSource(PowerSource::Dc)));
    assert_eq!(decode_power_setting(GUID_BATTERY_PERCENTAGE_REMAINING, 0x1_0A), Some(PowerEvent::BatteryPercentage(10)));
    assert_eq!(decode_power_setting(1, 0), None);
    let mut m = BatteryMonitor::new();
    let s = m.on_event(PowerEvent::BatteryPercentage(12));
    assert!(s.is_low && !s.is_charging);
    let s = m.on_event(PowerEvent::PowerSource(PowerSource::Ac));
    assert!(s.is_charging && !s.is_low);
    assert_eq!(s.percentage, 12);
}

#[test]
fn position_monitor_reregisters_after_two_failures() {
    let mut m = PositionMonitor::new(34);
    let a = m.check(false, 0);
    assert!(a.reposition && !a.reregister);
    let a = m.check(true, 0);
    assert!(!a.reposition && a.reregister);
    m.after_reregister(0);
    assert_eq!((m.failures, m.re_register_attempts), (1, 1));
    let a = m.check(true, 34);
    assert!(!a.reregister);
    assert_eq!((m.failures, m.re_register_attempts, m.stable_cycles), (0, 0, 1));
}

#[test]
fn app_bar_requests() {
    let mut bar = AppBar::new();
    assert_eq!(bar.height(), 34);
    assert!(bar.position_request(1366, 768).is_none());
    let req = bar.register(42, AppBarEdge::Bottom, 30);
    assert_eq!(req.edge, ABE_BOTTOM);
    assert!(bar.confirm_registration(true));
    let pos = bar.position_request(1366, 768).unwrap();
    assert_eq!(pos.rc, Rect { left: 0, top: 738, right: 1366, bottom: 768 });
    assert!(bar.unregister().is_some());
    assert!(bar.unregister().is_none());
    assert_eq!(AppBarEdge::Top.to_abe(), ABE_TOP);
    let cfg = StatusBarConfig::default();
    assert_eq!(cfg.height, 34);
}

#[test]
fn config_colors_and_paths() {
    assert_eq!(parse_hex_color("#ff8000"), Color { red: 255, green: 128, blue: 0, alpha: 255 });
    assert_eq!(parse_hex_color("1e1f1bf6"), Color { red: 30, green: 31, blue: 27, alpha: 246 });
    assert_eq!(join("/a/", "b"), "/a/b");
    assert_eq!(join("/a", "/b"), "/b");
    assert_eq!(config_dir_from(Some(b"/home/u/.config")), b"/home/u/.config/barrita".to_vec());
    assert_eq!(config_dir_from(None), b"./barrita".to_vec());
    assert_eq!(config_path_in(b"/c"), b"/c/config.toml".to_vec());
    assert_eq!(config_dir_from(Some(b"/home/\xffu/")), b"/home/\xffu/barrita".to_vec());
    assert_eq!(join_bytes(b"/a", b"/b"), b"/b".to_vec());
    assert_eq!(join_bytes(b"", b"b"), b"b".to_vec());
    let cfg = Config::default();
    let ws = get_workspaces_style(&cfg);
    assert_eq!(ws.border_radius, Some(14));
    assert_eq!(get_music_icon_style(&cfg).album_border_radius, Some(4));
    let _ = get_music_icon_style(&cfg);
    let styles = init_styles(&cfg);
    let _ = styles;
    let init = init_app(&cfg, 1920, 1080);
    assert_eq!(init.workspace_total, cfg.workspaces.total_workspaces);
}

#[test]
fn desktop_entries_and_ids() {
    assert_eq!(get_exec_command("firefox %u"), "firefox");
    assert_eq!(get_exec_command("\"app\" --x 100%%"), "app --x 100%");
    let parts = vec![
        PathPart::Other,
        PathPart::Normal("usr".to_string()),
        PathPart::Normal("applications".to_string()),
        PathPart::Normal("kde".to_string()),
        PathPart::Normal("kate.desktop".to_string()),
    ];
    assert_eq!(get_desktop_id(&parts), "kde-kate.desktop");
    let lines: Vec<String> = [
        "[Desktop Entry]",
        "Type=Application",
        "Name=Files",
        "Icon=folder",
        "Exec=nautilus %U",
        "",
        "[Desktop Action new]",
        "Name=New Window",
        "Exec=nautilus --new-window",
    ]
    .iter()
    .map(|s| s.to_string())
    .collect();
    let entries = desktop_entry_extracter(&lines).unwrap();
    assert_eq!(entries.len(), 2);
    assert_eq!(entries[0].name, "Files");
    assert_eq!(entries[0].exec_comm.as_deref(), Some("nautilus"));
    assert_eq!(entries[1].name, "Files - New Window");
    assert!(!entries[1].is_primary);
    let hidden: Vec<String> = ["[Desktop Entry]", "Name=X", "NoDisplay=true"].iter().map(|s| s.to_string()).collect();
    assert!(desktop_entry_extracter(&hidden).is_none());
}

fn app(id: &str, name: &str, primary: bool) -> AppData {
    AppData {
        desktop_file_id: id.to_string(),
        is_primary: primary,
        image_path: None,
        name: name.to_string(),
        exec_comm: None,
    }
}

#[test]
fn selector_lists_and_dedupes() {
    let mut s = AppSelector::new();
    s.add_entries(vec![app("a.desktop", "Alpha", true), app("a.desktop", "Alpha - New", false)]);
    s.add_entries(vec![app("a.desktop", "Other Alpha", true), app("b.desktop", "Beta", true)]);
    assert_eq!(s.get_all().len(), 3);
    let primary: Vec<&str> = s.get_primary().iter().map(|a| a.name.as_str()).collect();
    assert_eq!(primary, vec!["Alpha", "Beta"]);
    let found = s.query_primary("beta", 1);
    assert_eq!(found.len(), 1);
    assert_eq!(found[0].name, "Beta");
}
