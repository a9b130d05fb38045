use barrita::backend::{enter_serial_after, PointerCrossing};
use barrita::app::battery::types::BatteryStatusInfo;
use barrita::app::battery::BatteryTracker;
use barrita::app::control_center::{ControlCenterController, ControlCenterTimer};
use barrita::app::tray::{
    tray_icon_from_bytes, MenuEntry, TrayAction, TrayEvent, TrayState,
};
use barrita::app::workspaces::{WorkspaceCounts, WorkspaceEvent};
use barrita::input::{get_string, mouse_cursor_to_shape, CursorShape, Key, KeyEvent, KeyInput, KeySym, MouseCursor};
use barrita::platform::media::{MediaEvent, MediaListener, MediaUpdate};
use barrita::platform::power::{BatteryMonitor, PowerEvent, PowerSource};
use barrita::vault::application::{parse_desktop_entries, DesktopFileError};
use barrita::vault::{AppData, AppSelector};

fn strings(v: &[&str]) -> Vec<String> {
    v.iter().map(|s| s.to_string()).collect()
}

fn tray_with(addrs: &[&str]) -> TrayState {
    let mut t = TrayState::new();
    let acts = t.on_event(TrayEvent::Refreshed(strings(addrs)));
    assert!(acts.is_empty());
    t
}

#[test]
fn tray_click_activates_only_listed_items() {
    let mut t = tray_with(&[":1.10/item", ":1.22/item"]);
    let acts = t.on_event(TrayEvent::ItemClicked(1));
    assert_eq!(acts.len(), 1);
    match &acts[0] {
        TrayAction::Activate { address, x, y } => {
            assert_eq!(address, ":1.22/item");
            assert_eq!((*x, *y), (0, 0));
        }
        _ => panic!("expected an activation"),
    }
    assert!(t.on_event(TrayEvent::ItemClicked(2)).is_empty());
    assert!(t.on_event(TrayEvent::ItemClicked(-1)).is_empty());
}

#[test]
fn tray_right_click_shows_popup_and_asks_for_menu() {
    let mut t = tray_with(&["a"]);
    let acts = t.on_event(TrayEvent::RightClicked(0));
    assert_eq!(acts.len(), 2);
    assert!(matches!(acts[0], TrayAction::ShowPopup));
    assert!(matches!(acts[1], TrayAction::ShowMenu(0)));
}

fn entry(id: i32, label: &str, visible: bool) -> MenuEntry {
    MenuEntry {
        id,
        label: Some(label.to_string()),
        enabled: true,
        visible,
        is_separator: false,
        can_toggle: true,
        toggled_on: id == 2,
    }
}

#[test]
fn tray_menu_selection_uses_menu_last_opened() {
    let mut t = tray_with(&["a", "b"]);
    assert!(t.on_event(TrayEvent::MenuItemSelected(7)).is_empty());
    let acts = t.on_event(TrayEvent::MenuOpened {
        index: 1,
        listed: true,
        menu_path: Some("/MenuBar".to_string()),
        entries: Some(vec![entry(1, "Open", true), entry(2, "Hidden", false), entry(3, "Quit", true)]),
    });
    assert_eq!(acts.len(), 2);
    match &acts[0] {
        TrayAction::SetPopupItems(items) => {
            let labels: Vec<&str> = items.iter().map(|i| i.label.as_str()).collect();
            assert_eq!(labels, vec!["Open", "Quit"]);
            assert!(!items[0].is_checked);
        }
        _ => panic!("expected popup items"),
    }
    match &acts[1] {
        TrayAction::AboutToShow { address, menu_path } => {
            assert_eq!(address, "b");
            assert_eq!(menu_path, "/MenuBar");
        }
        _ => panic!("expected about-to-show"),
    }
    let acts = t.on_event(TrayEvent::MenuItemSelected(3));
    assert_eq!(acts.len(), 2);
    match &acts[0] {
        TrayAction::ActivateMenuItem { address, menu_path, submenu_id } => {
            assert_eq!(address, "b");
            assert_eq!(menu_path, "/MenuBar");
            assert_eq!(*submenu_id, 3);
        }
        _ => panic!("expected a menu activation"),
    }
    assert!(matches!(acts[1], TrayAction::HidePopup));
}

#[test]
fn tray_menu_without_path_or_item() {
    let mut t = tray_with(&["a"]);
    let acts = t.on_event(TrayEvent::MenuOpened { index: 0, listed: true, menu_path: None, entries: None });
    assert_eq!(acts.len(), 1);
    assert!(matches!(&acts[0], TrayAction::SetPopupItems(items) if items.is_empty()));
    let acts = t.on_event(TrayEvent::MenuOpened { index: 3, listed: true, menu_path: None, entries: None });
    assert!(acts.is_empty());
    let mut u = tray_with(&["a"]);
    let acts = u.on_event(TrayEvent::MenuOpened { index: 0, listed: false, menu_path: None, entries: None });
    assert!(acts.is_empty());
    assert!(u.active_menu.is_none());
    assert!(u.on_event(TrayEvent::MenuItemSelected(1)).is_empty());
}

fn png_bytes(w: u32, h: u32) -> Vec<u8> {
    let mut img = image::RgbaImage::new(w, h);
    for (x, y, p) in img.enumerate_pixels_mut() {
        *p = image::Rgba([x as u8, y as u8, 200, 255]);
    }
    let mut out = std::io::Cursor::new(Vec::new());
    img.write_to(&mut out, image::ImageFormat::Png).unwrap();
    out.into_inner()
}

#[test]
fn tray_icon_from_png_bytes() {
    let (px, w, h) = tray_icon_from_bytes(&png_bytes(18, 18)).unwrap();
    assert_eq!((w, h), (18, 18));
    assert_eq!(px.len(), 18 * 18 * 4);
    // pixel (x = 3, y = 2): RGBA (3, 2, 200, 255) becomes ARGB
    let k = (2 * 18 + 3) * 4;
    assert_eq!(&px[k..k + 4], &[255, 3, 2, 200]);
    let (px, w, h) = tray_icon_from_bytes(&png_bytes(36, 36)).unwrap();
    assert_eq!((w, h, px.len()), (18, 18, 18 * 18 * 4));
    assert!(px.chunks(4).all(|c| c[0] == 255 && c[3] == 200));
    assert!(tray_icon_from_bytes(b"not an image").is_none());
}

fn app(id: &str, name: &str, primary: bool) -> AppData {
    AppData {
        desktop_file_id: id.to_string(),
        is_primary: primary,
        image_path: None,
        name: name.to_string(),
        exec_comm: None,
    }
}

#[test]
fn query_primary_returns_applications_only() {
    let mut s = AppSelector::new();
    s.add_entries(vec![app("x.desktop", "Xeno", true), app("x.desktop", "Foo", false)]);
    s.add_entries(vec![app("f.desktop", "foo", true)]);
    let found = s.query_primary("FOO", 1);
    assert_eq!(found.len(), 1);
    assert!(found[0].is_primary);
    assert_eq!(found[0].name, "foo");
    let all = s.query_all("foo", 1);
    assert_eq!(all.len(), 1);
    assert_eq!(all[0].name, "Foo");
}

#[test]
fn queries_return_at_most_size_entries() {
    let mut s = AppSelector::new();
    s.add_entries(vec![app("a.desktop", "Alpha", true), app("a.desktop", "Alpha - New", false)]);
    s.add_entries(vec![app("b.desktop", "Beta", true)]);
    assert_eq!(s.query_primary("a", 10).len(), 2);
    assert_eq!(s.query_all("a", 10).len(), 3);
    assert_eq!(s.query_all("a", 2).len(), 2);
    assert_eq!(s.query_primary("a", 0).len(), 0);
}

#[test]
fn cursors_map_to_shapes() {
    assert_eq!(mouse_cursor_to_shape(MouseCursor::Pointer), CursorShape::Pointer);
    assert_eq!(mouse_cursor_to_shape(MouseCursor::NwseResize), CursorShape::NwseResize);
    assert_eq!(mouse_cursor_to_shape(MouseCursor::Text), CursorShape::Text);
    assert_eq!(mouse_cursor_to_shape(MouseCursor::Hidden), CursorShape::Default);
}

#[test]
fn key_events_give_keys_or_text() {
    let ev = |keysym: KeySym, utf8: Option<&str>| KeyEvent { keysym, utf8: utf8.map(|s| s.to_string()) };
    assert!(matches!(get_string(ev(KeySym::BackSpace, Some("\u{8}"))), KeyInput::Key(Key::Backspace)));
    assert!(matches!(get_string(ev(KeySym::UpArrow, None)), KeyInput::Key(Key::UpArrow)));
    assert!(matches!(get_string(ev(KeySym::AltR, None)), KeyInput::Key(Key::AltGr)));
    assert!(matches!(get_string(ev(KeySym::Function(12), None)), KeyInput::Key(Key::Function(12))));
    assert!(matches!(get_string(ev(KeySym::Function(25), Some("x"))), KeyInput::Text(t) if t == "x"));
    assert!(matches!(get_string(ev(KeySym::Other, Some("é"))), KeyInput::Text(t) if t == "é"));
    assert!(matches!(get_string(ev(KeySym::Other, None)), KeyInput::Text(t) if t.is_empty()));
}

#[test]
fn monitor_reports_latest_source_and_percentage() {
    let mut m = BatteryMonitor::new();
    let s = m.on_event(PowerEvent::PowerSource(PowerSource::Ac));
    assert_eq!((s.percentage, s.is_charging, s.is_low), (100, true, false));
    let s = m.on_event(PowerEvent::BatteryPercentage(12));
    assert_eq!((s.percentage, s.is_charging, s.is_low), (12, true, false));
    let s = m.on_event(PowerEvent::PowerSource(PowerSource::Hot));
    assert_eq!((s.percentage, s.is_charging, s.is_low), (12, false, true));
    let s = m.on_event(PowerEvent::BatteryPercentage(40));
    assert_eq!((s.percentage, s.is_charging, s.is_low), (40, false, false));
}

fn reading(level: i32, charging: bool) -> BatteryStatusInfo {
    BatteryStatusInfo {
        percentage: format!("{level}%"),
        level,
        charging,
        low: !charging && level <= 20,
    }
}

#[test]
fn battery_warns_once_per_low_episode() {
    let (mut t, first) = BatteryTracker::start(Some(reading(50, false)));
    assert!(first.notify_low.is_none());
    let run = [
        (Some(reading(19, false)), Some(19), false, true),
        (Some(reading(19, false)), None, false, false),
        (Some(reading(18, false)), None, false, true),
        (None, None, false, false),
        (Some(reading(18, true)), None, true, true),
        (Some(reading(17, false)), Some(17), false, true),
    ];
    for (r, warn, dismiss, shown) in run {
        let act = t.on_reading(r);
        assert_eq!(act.notify_low, warn);
        assert_eq!(act.dismiss_battery_toasts, dismiss);
        assert_eq!(act.push_ui, shown);
    }
}

#[test]
fn workspace_events_update_counts_and_active() {
    let mut w = WorkspaceCounts::new(vec![0, 0, 1, 0], 1);
    w.on_event(&WorkspaceEvent::WindowOpened("2".to_string()));
    w.on_event(&WorkspaceEvent::WindowOpened("special:magic".to_string()));
    w.on_event(&WorkspaceEvent::WindowMoved(3));
    w.on_event(&WorkspaceEvent::WindowMoved(9));
    w.on_event(&WorkspaceEvent::WorkspaceChanged { regular: true, id: 3 });
    w.on_event(&WorkspaceEvent::WorkspaceChanged { regular: false, id: -98 });
    assert_eq!(w.occupied(), vec![false, true, true]);
    assert_eq!(w.active(), 3);
    w.on_event(&WorkspaceEvent::WorkspaceDeleted(2));
    assert_eq!(w.occupied(), vec![false, false, true]);
}

#[test]
fn media_events_update_only_on_change() {
    let mut l = MediaListener::new();
    let props = || MediaEvent::PropertiesRead {
        title: "Song".to_string(),
        artist: "Band".to_string(),
        is_playing: false,
        thumbnail: None,
    };
    assert!(matches!(l.on_event(props()), Some(MediaUpdate::MediaInfo { .. })));
    assert_eq!(l.state().status, "paused");
    assert!(l.on_event(props()).is_none());
    assert!(matches!(l.on_event(MediaEvent::PlaybackChanged(true)), Some(MediaUpdate::PlaybackStatus(s)) if s == "playing"));
    assert!(l.on_event(MediaEvent::PlaybackChanged(true)).is_none());
    assert_eq!(l.state().title, "Song");
}

#[test]
fn control_center_opens_only_after_shown() {
    let mut c = ControlCenterController::new();
    assert_eq!(c.toggle(), ControlCenterTimer::Open(16));
    assert!(!c.is_open());
    assert!(!c.hide_timer_fired());
    assert!(c.open_timer_fired());
    c.shown();
    assert!(c.is_open());
    assert_eq!(c.toggle(), ControlCenterTimer::Hide(210));
    assert!(!c.is_open());
    assert!(!c.open_timer_fired());
    assert!(c.hide_timer_fired());
    assert!(!c.hide_timer_fired());
}

#[test]
fn desktop_file_errors_by_case() {
    let lines = |v: &[&str]| strings(v);
    assert_eq!(parse_desktop_entries(&lines(&["Name=A"])).err(), Some(DesktopFileError::MainEntryNotFound));
    assert_eq!(
        parse_desktop_entries(&lines(&["[Desktop Entry]", "Name"])).err(),
        Some(DesktopFileError::MissingEquals)
    );
    assert_eq!(
        parse_desktop_entries(&lines(&["[Desktop Entry]", "Type=Application"])).err(),
        Some(DesktopFileError::MissingName)
    );
    assert_eq!(
        parse_desktop_entries(&lines(&["[Desktop Entry]", "Name=A", "Exec=ab@"])).err(),
        Some(DesktopFileError::BadExec)
    );
    let ok = parse_desktop_entries(&lines(&["[Desktop Entry]", "Name=A", "Exec=a %U"])).unwrap().unwrap();
    assert_eq!(ok.len(), 1);
}

#[test]
fn pointer_crossings_keep_enter_serial() {
    assert_eq!(enter_serial_after(PointerCrossing::Enter(41)), Some(41));
    assert_eq!(enter_serial_after(PointerCrossing::Leave), None);
}

#[test]
fn queries_return_listed_entries() {
    let mut s = AppSelector::new();
    s.add_entries(vec![app("x.desktop", "Xeno", true), app("x.desktop", "Xeno - Open", false)]);
    for r in s.query_primary("xeno", 5) {
        assert!(r.is_primary);
    }
    assert_eq!(s.query_all("xeno", 5).len(), 2);
}
