use barrita::backend::{
    combined_anchor, pointer_button, scaled_size, window_confs, SurfaceChange, SurfaceState, BoardType, LayerAnchor, LayerType, PointerButton,
    WindowConf, BTN_LEFT, BTN_MIDDLE, BTN_RIGHT,
};
use barrita::spell::{LayerConf, SpellLockShell, SpellMultiWinHandler, SpellSkiaWinAdapterDummy};
use std::rc::Rc;

#[test]
fn builder_checks_size() {
    let mut b = WindowConf::builder();
    assert_eq!(b.build().err(), Some("width is either not defined or set to zero".to_string()));
    b.width(10);
    assert_eq!(b.build().err(), Some("height is either not defined or set to zero".to_string()));
    b.height(20).exclusive_zone(5);
    let c = b.build().unwrap();
    assert_eq!((c.width, c.height), (10, 20));
    assert_eq!(c.layer_type, LayerType::Top);
    assert_eq!(c.exclusive_zone, Some(5));
    assert_eq!(c.board_interactivity, BoardType::NoFocus);
}

#[test]
fn bar_windows() {
    let (bar, ctrl, popup) = window_confs().unwrap();
    assert_eq!((bar.width, bar.height), (1366, 36));
    assert_eq!(bar.anchor[0], Some(LayerAnchor { bits: 13 }));
    assert_eq!(bar.exclusive_zone, Some(36));
    assert_eq!((ctrl.width, ctrl.height, ctrl.exclusive_zone), (800, 450, Some(-1)));
    assert_eq!(popup.margin, (36, 0, 0, 4));
    assert_eq!(popup.anchor[0], Some(LayerAnchor { bits: 9 }));
    assert_eq!(LayerAnchor::top().union(LayerAnchor::bottom()).bits, 3);
}

#[test]
fn lock_adapters_handed_out_in_order() {
    let mut h = SpellMultiWinHandler::new_lock(vec![("DP-1".to_string(), (1920, 1080))]);
    let a = SpellSkiaWinAdapterDummy::new(false, 1920, 1080);
    let b = SpellSkiaWinAdapterDummy::new(false, 800, 600);
    assert!(a.draw());
    h.add_adapter(a.clone());
    h.add_adapter(b.clone());
    let mut shell = SpellLockShell::new(h);
    assert!(Rc::ptr_eq(&shell.create_window_adapter(), &a));
    assert!(Rc::ptr_eq(&shell.create_window_adapter(), &b));
    assert_eq!(LayerConf::Lock(1, 2), LayerConf::Lock(1, 2));
}

#[test]
fn anchors_combine_and_buttons_map() {
    assert_eq!(combined_anchor(&[None, None, None, None]), None);
    let a = combined_anchor(&[Some(LayerAnchor::top()), None, Some(LayerAnchor::left()), Some(LayerAnchor::top())]);
    assert_eq!(a, Some(LayerAnchor { bits: 5 }));
    assert_eq!(pointer_button(BTN_LEFT), PointerButton::Left);
    assert_eq!(pointer_button(BTN_RIGHT), PointerButton::Right);
    assert_eq!(pointer_button(BTN_MIDDLE), PointerButton::Other);
    assert_eq!(pointer_button(1), PointerButton::Other);
}

#[test]
fn fractional_scale_sizes() {
    assert_eq!(scaled_size(1366, 36, 120), (1366, 36));
    assert_eq!(scaled_size(1366, 36, 180), (2049, 54));
    assert_eq!(scaled_size(3, 1, 100), (3, 1));
}

#[test]
fn surface_visibility_and_focus() {
    let mut s = SurfaceState::new(BoardType::NoFocus);
    assert!(s.frame(false));
    assert!(!s.frame(false));
    assert!(s.frame(true));
    assert_eq!(s.hide_surface(), SurfaceChange::Detach);
    assert_eq!(s.hide_surface(), SurfaceChange::Unchanged);
    assert!(!s.frame(true));
    assert!(!s.grab_focus());
    assert_eq!(s.toggle(), SurfaceChange::Reconfigure);
    assert!(s.frame(false));
    assert!(s.grab_focus());
    assert!(!s.grab_focus());
    assert!(s.remove_focus());
    assert_eq!(s.show_again(), SurfaceChange::Unchanged);
    assert_eq!(s.toggle(), SurfaceChange::Detach);
}

#[test]
fn builder_sets_every_field() {
    let mut b = WindowConf::builder();
    b.width(5)
        .height(6)
        .anchor_2(LayerAnchor::bottom())
        .anchor_3(LayerAnchor::left())
        .anchor_4(LayerAnchor::right())
        .board_interactivity(BoardType::OnDemand)
        .monitor("eDP-1".to_string())
        .natural_scroll(true)
        .layer_type(LayerType::Overlay);
    let c = b.build().unwrap();
    assert_eq!(c.anchor, [None, Some(LayerAnchor { bits: 2 }), Some(LayerAnchor { bits: 4 }), Some(LayerAnchor { bits: 8 })]);
    assert_eq!(c.board_interactivity, BoardType::OnDemand);
    assert_eq!(c.monitor_name.as_deref(), Some("eDP-1"));
    assert!(c.natural_scroll);
    assert_eq!(c.layer_type, LayerType::Overlay);
}
