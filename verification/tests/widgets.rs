use barrita::app::control_center::{ControlCenterController, ControlCenterTimer, HIDE_DELAY_MS, OPEN_DELAY_MS};
use barrita::app::gif::{kept_frames, GifAnimator};
use barrita::app::media::popup::{PopupAction, PopupController};
use barrita::app::processes::{get_top_process, top_process, ProcessSample};
use barrita::app::time::{clock_label, clock_time_info, date_label, get_time_info};
use barrita::app::tray::{
    address_at, best_icon, build_flat_menu_items, build_raw_item, icon_file_path, needs_named_icon,
    raw_to_image, rgba_to_argb, IconPixmap, MenuEntry,
};
use barrita::app::volume::{
    decrease_volume, get_volume_info, increase_volume, lowered_volume, mute_toggle, raised_volume,
    set_volume, toggle_mute, volume_icon_name, volume_info_for,
};
use barrita::app::workspaces::komorebi::{
    parse_workspace_event, KomorebiEvent, MonitorWorkspaces, WorkspaceInfo, WorkspaceTracker,
};
use barrita::app::workspaces::{
    apply_occupied, fetch_initial_state, parse_i32_str, HyprWorkspace, UpdateScheduler,
    WorkspaceCounts,
};

#[test]
fn clock_label_uses_twelve_hours() {
    assert_eq!(clock_label(0, 5), "12:05 AM");
    assert_eq!(clock_label(9, 30), "9:30 AM");
    assert_eq!(clock_label(12, 0), "12:00 PM");
    assert_eq!(clock_label(23, 59), "11:59 PM");
}

#[test]
fn date_labels_in_both_orders() {
    let info = get_time_info(14, 7, 1, 3, 9);
    assert_eq!(info.time, "2:07 PM");
    assert_eq!(info.date, "Lun 03/09");
    let clock = clock_time_info(14, 7, 1, 3, 9);
    assert_eq!(clock.date, "Lun 09/03");
    assert_eq!(date_label(3, 12, 25), "Mié 12/25");
    assert_eq!(date_label(6, 1, 1), "Sáb 01/01");
    assert_eq!(date_label(0, 7, 4), "Dom 07/04");
}

#[test]
fn volume_icons_by_level() {
    assert_eq!(volume_icon_name(0), "volume_off");
    assert_eq!(volume_icon_name(1), "volume_mute");
    assert_eq!(volume_icon_name(33), "volume_mute");
    assert_eq!(volume_icon_name(34), "volume_down");
    assert_eq!(volume_icon_name(66), "volume_down");
    assert_eq!(volume_icon_name(67), "volume_up");
    let v = volume_info_for(0);
    assert!(v.muted);
    assert_eq!(v.icon, "volume_off");
    let v = volume_info_for(80);
    assert!(!v.muted);
    assert_eq!(v.volume, 80);
}

#[test]
fn volume_steps_and_defaults() {
    assert_eq!(raised_volume(50), 60);
    assert_eq!(raised_volume(95), 100);
    assert_eq!(lowered_volume(5), 0);
    assert_eq!(lowered_volume(45), 35);
    assert_eq!(mute_toggle(30), (0, true));
    assert_eq!(mute_toggle(0), (50, false));
    let v = get_volume_info().unwrap();
    assert_eq!((v.volume, v.muted, v.icon.as_str()), (50, false, "volume_up"));
    assert_eq!(increase_volume(), Ok(60));
    assert_eq!(decrease_volume(), Ok(40));
    assert_eq!(set_volume(70), Ok(()));
    assert_eq!(toggle_mute(), Ok(false));
}

#[test]
fn top_process_picks_first_busiest() {
    let p = get_top_process();
    assert_eq!(p.top_process, "N/A");
    assert_eq!(p.cpu_usage, 0);
    let samples = vec![
        ProcessSample { name: "a".to_string(), load_key: 5, cpu_percent: 5 },
        ProcessSample { name: "firefox\0\0".to_string(), load_key: 9, cpu_percent: 12 },
        ProcessSample { name: "b".to_string(), load_key: 9, cpu_percent: 12 },
    ];
    let p = top_process(&samples);
    assert_eq!(p.top_process, "firefox 12%");
    assert_eq!(p.cpu_usage, 12);
    let p = top_process(&vec![ProcessSample { name: "\0".to_string(), load_key: 1, cpu_percent: 3 }]);
    assert_eq!(p.top_process, "Unknown 3%");
    let p = top_process(&vec![]);
    assert_eq!(p.top_process, "None 0%");
}

#[test]
fn popup_toggles_under_the_bar() {
    let mut c = PopupController::new();
    assert!(!c.visible());
    assert_eq!(c.toggle(Some((10, 0, 36))), PopupAction::Show { x: 10, y: 36 });
    assert!(c.visible());
    assert_eq!(c.toggle(Some((10, 0, 36))), PopupAction::Hide);
    assert!(!c.visible());
    assert_eq!(c.toggle(None), PopupAction::Nothing);
    assert!(!c.visible());
    assert!(!c.hide_popup());
}

fn pixmap(w: i32, h: i32, n: usize) -> IconPixmap {
    IconPixmap { width: w, height: h, pixels: vec![1; n] }
}

#[test]
fn best_icon_is_first_closest_usable() {
    let ps = vec![pixmap(0, 16, 4), pixmap(16, 16, 4), pixmap(24, 24, 4), pixmap(20, 20, 4), pixmap(22, 22, 0)];
    assert_eq!(best_icon(&ps, 22), Some(2));
    let ps = vec![pixmap(20, 20, 4), pixmap(24, 24, 4)];
    assert_eq!(best_icon(&ps, 22), Some(0));
    assert_eq!(best_icon(&vec![pixmap(0, 0, 4)], 22), None);
    assert!(needs_named_icon(&Some(vec![pixmap(0, 0, 4)])));
    assert!(!needs_named_icon(&Some(vec![pixmap(2, 2, 4)])));
}

#[test]
fn pixel_orders_convert() {
    assert_eq!(rgba_to_argb(&vec![1, 2, 3, 4, 5, 6, 7, 8]), vec![4, 1, 2, 3, 8, 5, 6, 7]);
    assert_eq!(raw_to_image(&vec![4, 1, 2, 3], 1, 1), Some(vec![1, 2, 3, 4]));
    assert_eq!(raw_to_image(&vec![4, 1, 2, 3], 2, 1), Some(vec![1, 2, 3, 4, 0, 0, 0, 0]));
    assert_eq!(raw_to_image(&vec![], 1, 1), None);
    assert_eq!(raw_to_image(&vec![1, 2, 3, 4], 0, 1), None);
}

#[test]
fn raw_item_prefers_pixmaps_then_file() {
    let item = build_raw_item(&Some(vec![pixmap(22, 22, 8)]), None, None, Some("tip".to_string()));
    assert_eq!(item.icon_width, 22);
    assert_eq!(item.icon_pixels.len(), 8);
    assert_eq!(item.tooltip, "tip");
    let item = build_raw_item(&None, Some((vec![9; 4], 18, 18)), Some("title".to_string()), Some("tip".to_string()));
    assert_eq!(item.icon_pixels, vec![9; 4]);
    assert_eq!(item.tooltip, "title");
    let item = build_raw_item(&None, None, None, None);
    assert!(item.icon_pixels.is_empty());
    assert_eq!((item.icon_width, item.icon_height), (0, 0));
    assert_eq!(item.tooltip, "");
    assert_eq!(icon_file_path("nm", Some("/themes")), Some("/themes/nm.png".to_string()));
    assert_eq!(icon_file_path("nm", None), None);
}

#[test]
fn menu_keeps_visible_entries() {
    let entries = vec![
        MenuEntry { id: 1, label: Some("Open".to_string()), enabled: true, visible: true, is_separator: false, can_toggle: false, toggled_on: true },
        MenuEntry { id: 2, label: None, enabled: false, visible: false, is_separator: true, can_toggle: false, toggled_on: false },
        MenuEntry { id: 3, label: None, enabled: true, visible: true, is_separator: false, can_toggle: true, toggled_on: true },
    ];
    let flat = build_flat_menu_items(&entries);
    assert_eq!(flat.len(), 2);
    assert_eq!(flat[0].label, "Open");
    assert!(!flat[0].is_checked);
    assert_eq!(flat[1].id, 3);
    assert_eq!(flat[1].label, "");
    assert!(flat[1].is_checked);
    let addrs = vec!["a".to_string(), "b".to_string()];
    assert_eq!(address_at(&addrs, 1), Some("b".to_string()));
    assert_eq!(address_at(&addrs, 2), None);
    assert_eq!(address_at(&addrs, -1), None);
}

#[test]
fn komorebi_events_give_workspace_state() {
    let e = KomorebiEvent {
        event_type: "FocusChange".to_string(),
        monitors: Some(vec![Some(MonitorWorkspaces { focused: 1, containers: vec![2, 0, 1] })]),
    };
    let info = parse_workspace_event(&e).unwrap();
    assert_eq!(info.active_workspace, 2);
    assert_eq!(info.workspace_occupied, vec![true, false, true]);
    let other = KomorebiEvent {
        event_type: "Manage".to_string(),
        monitors: Some(vec![Some(MonitorWorkspaces { focused: 0, containers: vec![1] })]),
    };
    assert!(parse_workspace_event(&other).is_none());
    let none = KomorebiEvent { event_type: "WorkAreaChanged".to_string(), monitors: Some(vec![]) };
    assert!(parse_workspace_event(&none).is_none());
    let mut t = WorkspaceTracker::new();
    assert!(t.observe(&info));
    assert!(!t.observe(&WorkspaceInfo { active_workspace: 2, workspace_occupied: vec![true, false, true] }));
    assert!(t.observe(&WorkspaceInfo { active_workspace: 3, workspace_occupied: vec![true, false, true] }));
}

#[test]
fn parse_i32_follows_from_str() {
    for s in ["0", "17", "+5", "-5", "-2147483648", "2147483647", "", "+", "-", "2147483648", "-2147483649", "1a", " 1"] {
        assert_eq!(parse_i32_str(s), s.parse::<i32>().ok(), "{s}");
    }
}

#[test]
fn hyprland_initial_state_and_events() {
    let ws = vec![
        HyprWorkspace { id: 1, windows: 2, name: "web".to_string() },
        HyprWorkspace { id: 3, windows: 0, name: "3".to_string() },
        HyprWorkspace { id: 9, windows: 4, name: "far".to_string() },
        HyprWorkspace { id: -99, windows: 1, name: "special".to_string() },
    ];
    let s = fetch_initial_state(4, &None, Some(&ws), Some(3));
    assert_eq!(s.counts, vec![0, 2, 0, 0, 0]);
    assert_eq!(s.active, 3);
    assert_eq!(s.labels, vec!["web", "2", "3", "4"]);
    let s2 = fetch_initial_state(2, &Some(vec!["I".to_string(), "II".to_string()]), None, None);
    assert_eq!(s2.labels, vec!["I", "II"]);
    assert_eq!(s2.active, 1);
    assert_eq!(apply_occupied(&s.counts), vec![true, false, false, false]);
    let mut c = WorkspaceCounts::new(s.counts, s.active);
    c.on_window_opened("2");
    c.on_window_opened("name");
    c.on_window_opened("12");
    c.on_window_moved(4);
    c.on_workspace_deleted(1);
    assert_eq!(c.occupied(), vec![false, true, false, true]);
    c.on_workspace_changed(false, 7);
    assert_eq!(c.active(), 3);
    c.on_workspace_changed(true, 2);
    assert_eq!(c.active(), 2);
    let mut sched = UpdateScheduler::new();
    assert!(sched.try_schedule_update());
    assert!(!sched.try_schedule_update());
    sched.finished();
    assert!(sched.try_schedule_update());
}

#[test]
fn control_center_opens_and_closes_with_delays() {
    let mut c = ControlCenterController::new();
    assert_eq!(c.toggle(), ControlCenterTimer::Open(OPEN_DELAY_MS));
    assert!(!c.is_open());
    assert!(c.open_timer_fired());
    c.shown();
    assert!(c.is_open());
    assert_eq!(c.toggle(), ControlCenterTimer::Hide(HIDE_DELAY_MS));
    assert!(!c.is_open());
    assert_eq!(c.toggle(), ControlCenterTimer::Open(16));
    assert!(!c.hide_timer_fired());
    assert!(c.open_timer_fired());
    assert!(!c.open_timer_fired());
}

#[test]
fn gif_frames_cycle_while_playing() {
    assert_eq!(kept_frames(4, 4, &vec![(4, 4), (2, 2), (4, 4)]), vec![0, 2]);
    let mut a = GifAnimator::start_animation(5);
    assert_eq!(a.tick(true), Some(1));
    assert_eq!(a.tick(true), Some(0));
    assert_eq!(a.tick(true), Some(1));
    assert_eq!(a.tick(false), Some(0));
    assert_eq!(a.tick(false), None);
    let mut one = GifAnimator::start_animation(0);
    assert_eq!(one.tick(true), Some(0));
    assert_eq!(one.tick(true), None);
}
