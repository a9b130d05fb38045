//! The tray widget: which icon of an item is shown, the pixel conversions,
//! the item's tooltip, its flattened menu, and the item behind a click.
use vstd::prelude::*;

use crate::imaging::{decode_rgba, decoded_rgba, resize_rgba, resized_rgba};
use crate::text::{push_str, to_owned_string};

verus! {

/// One icon image an item offers: its size and ARGB pixels.
pub struct IconPixmap {
    pub width: i32,
    pub height: i32,
    pub pixels: Vec<u8>,
}

/// Whether an icon image is drawable: positive size and some pixels.
pub open spec fn usable(p: IconPixmap) -> bool {
    p.width > 0 && p.height > 0 && p.pixels@.len() > 0
}

/// How far an icon's larger side is from the target size.
pub open spec fn size_gap(p: IconPixmap, target: u32) -> int {
    let side: int = if p.width >= p.height {
        p.width as int
    } else {
        p.height as int
    };
    if side >= target {
        side - target
    } else {
        target - side
    }
}

/// `i` is the first usable icon whose size is closest to the target.
pub open spec fn is_best_icon(ps: Seq<IconPixmap>, target: u32, i: int) -> bool {
    &&& 0 <= i < ps.len()
    &&& usable(ps[i])
    &&& forall|j: int| 0 <= j < ps.len() && usable(ps[j]) ==> size_gap(ps[i], target) <= size_gap(ps[j], target)
    &&& forall|j: int| 0 <= j < i && usable(ps[j]) ==> size_gap(ps[i], target) < size_gap(ps[j], target)
}

fn gap(p: &IconPixmap, target: u32) -> (g: u32)
    requires
        usable(*p),
        target <= i32::MAX,
    ensures
        g == size_gap(*p, target),
{
    let side: i32 = if p.width >= p.height {
        p.width
    } else {
        p.height
    };
    let t: i32 = target as i32;
    if side >= t {
        (side - t) as u32
    } else {
        (t - side) as u32
    }
}

/// The index of the icon to show: of the usable icons, the first whose
/// larger side is closest to `target`; `None` when no icon is usable.
pub fn best_icon(pixmaps: &Vec<IconPixmap>, target: u32) -> (r: Option<usize>)
    requires
        target <= i32::MAX,
    ensures
        match r {
            Some(i) => is_best_icon(pixmaps@, target, i as int),
            None => forall|j: int| 0 <= j < pixmaps@.len() ==> !usable(#[trigger] pixmaps@[j]),
        },
{
    let mut best: Option<usize> = None;
    let mut best_gap: u32 = 0;
    let mut k: usize = 0;
    while k < pixmaps.len()
        invariant
            0 <= k <= pixmaps@.len(),
            target <= i32::MAX,
            match best {
                Some(i) => i < k && usable(pixmaps@[i as int]) && best_gap == size_gap(pixmaps@[i as int], target)
                    && (forall|j: int| 0 <= j < k && usable(pixmaps@[j]) ==> best_gap <= size_gap(pixmaps@[j], target))
                    && (forall|j: int| 0 <= j < i && usable(pixmaps@[j]) ==> best_gap < size_gap(pixmaps@[j], target)),
                None => forall|j: int| 0 <= j < k ==> !usable(#[trigger] pixmaps@[j]),
            },
        decreases pixmaps@.len() - k,
    {
        let p = &pixmaps[k];
        if p.width > 0 && p.height > 0 && p.pixels.len() > 0 {
            let g = gap(p, target);
            match best {
                None => {
                    best = Some(k);
                    best_gap = g;
                },
                Some(_) => {
                    if g < best_gap {
                        best = Some(k);
                        best_gap = g;
                    }
                },
            }
        }
        k = k + 1;
    }
    best
}

/// RGBA pixels reordered to ARGB, four bytes at a time.
pub open spec fn argb_of(raw: Seq<u8>) -> Seq<u8> {
    Seq::new(raw.len(), |i: int| {
        let base = i - i % 4;
        if i % 4 == 0 {
            raw[base + 3]
        } else {
            raw[base + i % 4 - 1]
        }
    })
}

/// Reorders RGBA pixels into the ARGB order that the tray items use.
pub fn rgba_to_argb(raw: &Vec<u8>) -> (argb: Vec<u8>)
    requires
        raw@.len() % 4 == 0,
    ensures
        argb@ == argb_of(raw@),
{
    let mut out: Vec<u8> = Vec::new();
    let mut i: usize = 0;
    while i < raw.len()
        invariant
            raw@.len() % 4 == 0,
            i % 4 == 0,
            0 <= i <= raw@.len(),
            out@ =~= argb_of(raw@).take(i as int),
        decreases raw@.len() - i,
    {
        out.push(raw[i + 3]);
        out.push(raw[i]);
        out.push(raw[i + 1]);
        out.push(raw[i + 2]);
        assert(argb_of(raw@).take(i + 4) =~= argb_of(raw@).take(i as int).push(raw@[i + 3]).push(
            raw@[i as int],
        ).push(raw@[i + 1]).push(raw@[i + 2]));
        i = i + 4;
    }
    assert(argb_of(raw@).take(raw@.len() as int) =~= argb_of(raw@));
    out
}

/// The RGBA image of `width * height` pixels filled from ARGB pixels: pixel
/// `i` comes from the `i`-th group of four bytes when there is one, and is
/// zero otherwise.
pub open spec fn rgba_of(pixels: Seq<u8>, n: int) -> Seq<u8> {
    Seq::new((4 * n) as nat, |i: int| {
        let p = i / 4;
        let c = i % 4;
        if 4 * p + 3 < pixels.len() {
            if c == 3 {
                pixels[4 * p]
            } else {
                pixels[4 * p + c + 1]
            }
        } else {
            0u8
        }
    })
}

/// The RGBA pixels of an item's icon from its ARGB pixels, or `None` (an
/// empty image) when its size is not positive or it has no pixels.
pub fn raw_to_image(pixels: &Vec<u8>, width: i32, height: i32) -> (r: Option<Vec<u8>>)
    requires
        width > 0 && height > 0 && pixels@.len() > 0 ==> 4 * (width * height) <= usize::MAX,
        width > 0 && height > 0 && pixels@.len() > 0 ==> (pixels@.len() % 4 == 0 || pixels@.len() / 4
            >= width * height),
    ensures
        (width <= 0 || height <= 0 || pixels@.len() == 0) <==> r is None,
        r matches Some(img) ==> img@ == rgba_of(pixels@, width * height),
{
    if width <= 0 || height <= 0 || pixels.len() == 0 {
        return None;
    }
    assert(0 <= (width as int) * (height as int)) by (nonlinear_arith)
        requires
            width > 0,
            height > 0,
    ;
    let n: usize = (width as usize) * (height as usize);
    let mut out: Vec<u8> = Vec::new();
    let mut p: usize = 0;
    while p < n
        invariant
            n == width * height,
            4 * n <= usize::MAX,
            pixels@.len() % 4 == 0 || pixels@.len() / 4 >= n,
            0 <= p <= n,
            out@ =~= rgba_of(pixels@, n as int).take(4 * p),
        decreases n - p,
    {
        let base = 4 * p;
        if base + 3 < pixels.len() {
            out.push(pixels[base + 1]);
            out.push(pixels[base + 2]);
            out.push(pixels[base + 3]);
            out.push(pixels[base]);
        } else {
            out.push(0);
            out.push(0);
            out.push(0);
            out.push(0);
        }
        assert(rgba_of(pixels@, n as int).take(4 * p + 4) =~= out@);
        p = p + 1;
    }
    assert(rgba_of(pixels@, n as int).take(4 * n) =~= rgba_of(pixels@, n as int));
    Some(out)
}

/// The path of an item's named icon inside its theme path: "path/name.png".
pub fn icon_file_path(icon_name: &str, icon_theme_path: Option<&str>) -> (r: Option<String>)
    ensures
        match icon_theme_path {
            Some(t) => (r matches Some(p) && p@ == t@ + seq!['/'] + icon_name@ + ".png"@),
            None => r is None,
        },
{
    match icon_theme_path {
        Some(t) => {
            let mut p = to_owned_string(t);
            crate::text::push_char(&mut p, '/');
            push_str(&mut p, icon_name);
            push_str(&mut p, ".png");
            Some(p)
        },
        None => None,
    }
}

/// What the bar shows of one tray item.
pub struct RawItem {
    pub icon_pixels: Vec<u8>,
    pub icon_width: i32,
    pub icon_height: i32,
    pub tooltip: String,
}

/// The text shown when hovering an item: its title, else its tooltip's title, else nothing.
pub open spec fn tooltip_of(title: Option<Seq<char>>, tool_tip_title: Option<Seq<char>>) -> Seq<char> {
    match title {
        Some(t) => t,
        None => match tool_tip_title {
            Some(t) => t,
            None => Seq::empty(),
        },
    }
}

pub open spec fn opt_seq(o: Option<String>) -> Option<Seq<char>> {
    match o {
        Some(s) => Some(s@),
        None => None,
    }
}

/// The item as the bar shows it: the best of its icon images for a 22-pixel
/// slot when it has a usable one, else the icon loaded from its icon name
/// (`loaded`, as ARGB pixels, width and height), else no icon; and its tooltip.
pub fn build_raw_item(
    pixmaps: &Option<Vec<IconPixmap>>,
    loaded: Option<(Vec<u8>, i32, i32)>,
    title: Option<String>,
    tool_tip_title: Option<String>,
) -> (item: RawItem)
    ensures
        item.tooltip@ == tooltip_of(opt_seq(title), opt_seq(tool_tip_title)),
        match pixmaps {
            Some(ps) => (exists|i: int| is_best_icon(ps@, 22, i)) ==> exists|i: int|
                is_best_icon(ps@, 22, i) && item.icon_pixels@ == ps@[i].pixels@ && item.icon_width
                    == ps@[i].width && item.icon_height == ps@[i].height,
            None => true,
        },
        (match pixmaps {
            Some(ps) => forall|j: int| 0 <= j < ps@.len() ==> !usable(#[trigger] ps@[j]),
            None => true,
        }) ==> match loaded {
            Some((px, w, h)) => item.icon_pixels@ == px@ && item.icon_width == w && item.icon_height == h,
            None => item.icon_pixels@.len() == 0 && item.icon_width == 0 && item.icon_height == 0,
        },
{
    let chosen = match pixmaps {
        Some(ps) => match best_icon(ps, 22) {
            Some(i) => Some((ps[i].pixels.clone(), ps[i].width, ps[i].height)),
            None => None,
        },
        None => None,
    };
    let (icon_pixels, icon_width, icon_height) = match chosen {
        Some(c) => c,
        None => match loaded {
            Some(l) => l,
            None => (Vec::new(), 0, 0),
        },
    };
    let tooltip = match title {
        Some(t) => t,
        None => match tool_tip_title {
            Some(t) => t,
            None => String::new(),
        },
    };
    RawItem { icon_pixels, icon_width, icon_height, tooltip }
}

/// Whether the item's icon has to be loaded from its icon name: it offers
/// no usable icon image.
pub fn needs_named_icon(pixmaps: &Option<Vec<IconPixmap>>) -> (r: bool)
    ensures
        r == match pixmaps {
            Some(ps) => forall|j: int| 0 <= j < ps@.len() ==> !usable(#[trigger] ps@[j]),
            None => true,
        },
{
    match pixmaps {
        Some(ps) => best_icon(ps, 22).is_none(),
        None => true,
    }
}

/// One entry of an item's menu as the tray reports it.
pub struct MenuEntry {
    pub id: i32,
    pub label: Option<String>,
    pub enabled: bool,
    pub visible: bool,
    pub is_separator: bool,
    pub can_toggle: bool,
    pub toggled_on: bool,
}

/// One entry of the popup menu.
pub struct FlatMenuItem {
    pub id: i32,
    pub label: String,
    pub enabled: bool,
    pub is_separator: bool,
    pub is_checked: bool,
}

/// The popup entry for a menu entry: its label or nothing, checked when it
/// can be toggled and is on.
pub open spec fn flat_item_matches(f: FlatMenuItem, e: MenuEntry) -> bool {
    &&& f.id == e.id
    &&& f.label@ == match e.label {
        Some(l) => l@,
        None => Seq::empty(),
    }
    &&& f.enabled == e.enabled
    &&& f.is_separator == e.is_separator
    &&& f.is_checked == (e.can_toggle && e.toggled_on)
}

/// The visible entries of a menu, in order.
pub open spec fn visible_entries(es: Seq<MenuEntry>) -> Seq<MenuEntry>
    decreases es.len(),
{
    if es.len() == 0 {
        Seq::empty()
    } else if es.last().visible {
        visible_entries(es.drop_last()).push(es.last())
    } else {
        visible_entries(es.drop_last())
    }
}

/// The popup entries of a menu: one per visible entry, in order.
pub fn build_flat_menu_items(entries: &Vec<MenuEntry>) -> (r: Vec<FlatMenuItem>)
    ensures
        r@.len() == visible_entries(entries@).len(),
        forall|i: int| 0 <= i < r@.len() ==> flat_item_matches(#[trigger] r@[i], visible_entries(entries@)[i]),
{
    let mut out: Vec<FlatMenuItem> = Vec::new();
    let mut k: usize = 0;
    while k < entries.len()
        invariant
            0 <= k <= entries@.len(),
            out@.len() == visible_entries(entries@.take(k as int)).len(),
            forall|i: int| 0 <= i < out@.len() ==> flat_item_matches(
                #[trigger] out@[i],
                visible_entries(entries@.take(k as int))[i],
            ),
        decreases entries@.len() - k,
    {
        assert(entries@.take(k + 1).drop_last() =~= entries@.take(k as int));
        let e = &entries[k];
        if e.visible {
            let label = match &e.label {
                Some(l) => l.clone(),
                None => String::new(),
            };
            out.push(
                FlatMenuItem {
                    id: e.id,
                    label,
                    enabled: e.enabled,
                    is_separator: e.is_separator,
                    is_checked: e.can_toggle && e.toggled_on,
                },
            );
        }
        k = k + 1;
    }
    assert(entries@.take(entries@.len() as int) =~= entries@);
    out
}

/// The address of the item at a clicked index; `None` for a negative or
/// too large index.
pub fn address_at(addresses: &Vec<String>, index: i32) -> (r: Option<String>)
    ensures
        (0 <= index < addresses@.len()) ==> (r matches Some(a) && a@ == addresses@[index as int]@),
        !(0 <= index < addresses@.len()) ==> r is None,
{
    if index >= 0 && (index as usize) < addresses.len() {
        Some(addresses[index as usize].clone())
    } else {
        None
    }
}

/// The side of the icons drawn in the tray.
pub const TRAY_ICON_SIDE: u32 = 18;

/// The pixels of an icon loaded from a file, for the tray: resampled to 18
/// by 18 unless already that size, then reordered to ARGB.
pub open spec fn tray_icon_pixels(width: u32, height: u32, rgba: Seq<u8>) -> Seq<u8> {
    if width != TRAY_ICON_SIDE || height != TRAY_ICON_SIDE {
        argb_of(resized_rgba(width, height, rgba, TRAY_ICON_SIDE, TRAY_ICON_SIDE))
    } else {
        argb_of(rgba)
    }
}

/// The tray icon made from an RGBA image loaded from the item's icon file:
/// its ARGB pixels at 18 by 18.
pub fn icon_from_rgba(width: u32, height: u32, rgba: Vec<u8>) -> (r: (Vec<u8>, i32, i32))
    requires
        4 * width * height <= rgba@.len(),
        width == TRAY_ICON_SIDE && height == TRAY_ICON_SIDE ==> rgba@.len() % 4 == 0,
    ensures
        r.0@ == tray_icon_pixels(width, height, rgba@),
        r.1 == 18,
        r.2 == 18,
{
    let raw = if width != TRAY_ICON_SIDE || height != TRAY_ICON_SIDE {
        resize_rgba(width, height, rgba, TRAY_ICON_SIDE, TRAY_ICON_SIDE)
    } else {
        rgba
    };
    (rgba_to_argb(&raw), 18, 18)
}

/// Makes the tray icon of an item from the bytes of its icon file: decodes
/// them as an image and makes its ARGB pixels at 18 by 18; `None` when the
/// bytes are no image of a supported format.
pub fn tray_icon_from_bytes(bytes: &[u8]) -> (r: Option<(Vec<u8>, i32, i32)>)
    ensures
        match decoded_rgba(bytes@) {
            None => r is None,
            Some((w, h, px)) => r matches Some((p, pw, ph)) && pw == 18 && ph == 18 && p@
                == tray_icon_pixels(w, h, px),
        },
{
    match decode_rgba(bytes) {
        None => None,
        Some((w, h, px)) => {
            proof {
                if w == TRAY_ICON_SIDE && h == TRAY_ICON_SIDE {
                    assert(4 * w * h == 1296) by (nonlinear_arith)
                        requires
                            w == 18,
                            h == 18,
                    ;
                }
            }
            let (p, pw, ph) = icon_from_rgba(w, h, px);
            Some((p, pw, ph))
        },
    }
}

/// What the tray remembers between events: the addresses of its items in
/// the order the bar shows them, and the item and menu path of the menu
/// last opened.
pub struct TrayState {
    pub addresses: Vec<String>,
    pub active_menu: Option<(String, String)>,
}

/// What happens to the tray.
pub enum TrayEvent {
    /// The item at an index was clicked.
    ItemClicked(i32),
    /// The item at an index was right-clicked.
    RightClicked(i32),
    /// An entry of the open popup menu, by its id, was chosen.
    MenuItemSelected(i32),
    /// The items changed; these are their addresses now.
    Refreshed(Vec<String>),
    /// The menu of the item at `index` was fetched: `listed` tells whether the
    /// tray still holds an item at that address, `menu_path` is the item's
    /// menu path and `entries` its menu, where it has them.
    MenuOpened { index: i32, listed: bool, menu_path: Option<String>, entries: Option<Vec<MenuEntry>> },
}

/// What the tray asks to be done.
pub enum TrayAction {
    /// Activate the item at `address`, as a click at (`x`, `y`).
    Activate { address: String, x: i32, y: i32 },
    /// Activate the entry `submenu_id` of the menu at `menu_path` of the item
    /// at `address`.
    ActivateMenuItem { address: String, menu_path: String, submenu_id: i32 },
    /// Show the popup window.
    ShowPopup,
    /// Fetch the menu of the item at this index.
    ShowMenu(i32),
    /// Hide the popup window.
    HidePopup,
    /// Put these entries into the popup menu.
    SetPopupItems(Vec<FlatMenuItem>),
    /// Tell the item that its menu at `menu_path` is about to be shown.
    AboutToShow { address: String, menu_path: String },
}

/// The menu path of an item, the empty path where it has none.
pub open spec fn path_or_empty(p: Option<String>) -> Seq<char> {
    match p {
        Some(s) => s@,
        None => Seq::empty(),
    }
}

/// The entries of a menu, none where there is no menu.
pub open spec fn entries_or_empty(e: Option<Vec<MenuEntry>>) -> Seq<MenuEntry> {
    match e {
        Some(v) => v@,
        None => Seq::empty(),
    }
}

/// Whether `items` are the popup entries of a menu with these entries: one
/// per visible entry, in order.
pub open spec fn popup_items_of(items: Seq<FlatMenuItem>, es: Seq<MenuEntry>) -> bool {
    &&& items.len() == visible_entries(es).len()
    &&& forall|i: int| 0 <= i < items.len() ==> flat_item_matches(#[trigger] items[i], visible_entries(es)[i])
}

/// Whether the active menu is that of the item at `address`, at `path`.
pub open spec fn menu_is(m: Option<(String, String)>, address: Seq<char>, path: Seq<char>) -> bool {
    m matches Some((a, p)) && a@ == address && p@ == path
}

/// The active menu as plain values: the item's address and the menu path.
pub open spec fn menu_view(m: Option<(String, String)>) -> Option<(Seq<char>, Seq<char>)> {
    match m {
        Some((a, p)) => Some((a@, p@)),
        None => None,
    }
}

/// The addresses as plain values.
pub open spec fn address_views(v: Seq<String>) -> Seq<Seq<char>> {
    v.map_values(|a: String| a@)
}

/// The active menu after an event: a fetched menu of an item still listed,
/// at an index that has an item, becomes active; nothing else changes it.
pub open spec fn active_menu_step(
    addresses: Seq<Seq<char>>,
    m: Option<(Seq<char>, Seq<char>)>,
    ev: TrayEvent,
) -> Option<(Seq<char>, Seq<char>)> {
    match ev {
        TrayEvent::MenuOpened { index, listed, menu_path, .. } => if 0 <= index < addresses.len()
            && listed {
            Some((addresses[index as int], path_or_empty(menu_path)))
        } else {
            m
        },
        _ => m,
    }
}

/// The entry activation a popup selection asks for under the active menu:
/// the item's address, the menu path and the entry's id.
pub open spec fn selection_activation(m: Option<(Seq<char>, Seq<char>)>, id: i32) -> Option<
    (Seq<char>, Seq<char>, i32),
> {
    match m {
        Some((a, p)) => Some((a, p, id)),
        None => None,
    }
}

/// The entry activation among actions, if any.
pub open spec fn activation_in(acts: Seq<TrayAction>) -> Option<(Seq<char>, Seq<char>, i32)> {
    if acts.len() > 0 {
        match acts[0] {
            TrayAction::ActivateMenuItem { address, menu_path, submenu_id } => Some(
                (address@, menu_path@, submenu_id),
            ),
            _ => None,
        }
    } else {
        None
    }
}

/// A popup selection acts on the menu opened last: after the menu of the
/// item at a listed index was fetched, choosing entry `id` activates that
/// entry of that menu path of that item, whatever menu was active before.
pub proof fn law_selection_uses_menu_opened_last(
    addresses: Seq<Seq<char>>,
    m: Option<(Seq<char>, Seq<char>)>,
    index: i32,
    menu_path: Option<String>,
    entries: Option<Vec<MenuEntry>>,
    id: i32,
)
    requires
        0 <= index < addresses.len(),
    ensures
        selection_activation(
            active_menu_step(addresses, m, TrayEvent::MenuOpened { index, listed: true, menu_path, entries }),
            id,
        ) == Some((addresses[index as int], path_or_empty(menu_path), id)),
{
}

impl TrayState {
    /// A tray with no items and no menu open.
    pub fn new() -> (s: Self)
        ensures
            s.addresses@.len() == 0,
            s.active_menu is None,
    {
        TrayState { addresses: Vec::new(), active_menu: None }
    }

    /// Handles one event and says what is to be done.
    /// - A click activates the item at that index, as a click at (0, 0),
    ///   when there is one; else nothing happens.
    /// - A right click shows the popup and asks for the item's menu.
    /// - Choosing a popup entry activates it in the menu last opened and hides
    ///   the popup; with no menu opened, nothing happens.
    /// - A refresh replaces the addresses.
    /// - A fetched menu, for an index that has an item still listed, becomes
    ///   the active menu: its visible entries go to the popup, and the item is
    ///   told the menu is about to be shown when its menu path is not empty.
    pub fn on_event(&mut self, ev: TrayEvent) -> (acts: Vec<TrayAction>)
        ensures
            menu_view(final(self).active_menu) == active_menu_step(
                address_views(old(self).addresses@),
                menu_view(old(self).active_menu),
                ev,
            ),
            ev matches TrayEvent::MenuItemSelected(id) ==> activation_in(acts@) == selection_activation(
                menu_view(old(self).active_menu),
                id,
            ),
            match ev {
                TrayEvent::ItemClicked(index) => {
                    &&& *final(self) == *old(self)
                    &&& if 0 <= index < old(self).addresses@.len() {
                        &&& acts@.len() == 1
                        &&& acts@[0] matches TrayAction::Activate { address, x, y }
                        &&& address@ == old(self).addresses@[index as int]@
                        &&& x == 0
                        &&& y == 0
                    } else {
                        acts@.len() == 0
                    }
                },
                TrayEvent::RightClicked(index) => {
                    &&& *final(self) == *old(self)
                    &&& acts@.len() == 2
                    &&& acts@[0] is ShowPopup
                    &&& acts@[1] matches TrayAction::ShowMenu(i) && i == index
                },
                TrayEvent::MenuItemSelected(id) => {
                    &&& *final(self) == *old(self)
                    &&& match old(self).active_menu {
                        Some((a, p)) => {
                            &&& acts@.len() == 2
                            &&& acts@[0] matches TrayAction::ActivateMenuItem {
                                address,
                                menu_path,
                                submenu_id,
                            }
                            &&& address@ == a@
                            &&& menu_path@ == p@
                            &&& submenu_id == id
                            &&& acts@[1] is HidePopup
                        },
                        None => acts@.len() == 0,
                    }
                },
                TrayEvent::Refreshed(addrs) => {
                    &&& final(self).addresses == addrs
                    &&& final(self).active_menu == old(self).active_menu
                    &&& acts@.len() == 0
                },
                TrayEvent::MenuOpened { index, listed, menu_path, entries } => {
                    if 0 <= index < old(self).addresses@.len() && listed {
                        let address = old(self).addresses@[index as int]@;
                        let path = path_or_empty(menu_path);
                        &&& final(self).addresses == old(self).addresses
                        &&& menu_is(final(self).active_menu, address, path)
                        &&& acts@.len() == (if path.len() > 0 { 2int } else { 1int })
                        &&& acts@[0] matches TrayAction::SetPopupItems(items)
                        &&& popup_items_of(items@, entries_or_empty(entries))
                        &&& path.len() > 0 ==> (acts@[1] matches TrayAction::AboutToShow {
                            address: a,
                            menu_path: p,
                        } && a@ == address && p@ == path)
                    } else {
                        &&& *final(self) == *old(self)
                        &&& acts@.len() == 0
                    }
                },
            },
    {
        match ev {
            TrayEvent::ItemClicked(index) => {
                let mut acts: Vec<TrayAction> = Vec::new();
                if let Some(address) = address_at(&self.addresses, index) {
                    acts.push(TrayAction::Activate { address, x: 0, y: 0 });
                }
                acts
            },
            TrayEvent::RightClicked(index) => {
                let mut acts: Vec<TrayAction> = Vec::new();
                acts.push(TrayAction::ShowPopup);
                acts.push(TrayAction::ShowMenu(index));
                acts
            },
            TrayEvent::MenuItemSelected(id) => {
                let mut acts: Vec<TrayAction> = Vec::new();
                match &self.active_menu {
                    Some((a, p)) => {
                        acts.push(
                            TrayAction::ActivateMenuItem {
                                address: a.clone(),
                                menu_path: p.clone(),
                                submenu_id: id,
                            },
                        );
                        acts.push(TrayAction::HidePopup);
                    },
                    None => {},
                }
                acts
            },
            TrayEvent::Refreshed(addrs) => {
                self.addresses = addrs;
                Vec::new()
            },
            TrayEvent::MenuOpened { index, listed, menu_path, entries } => {
                let mut acts: Vec<TrayAction> = Vec::new();
                let found = address_at(&self.addresses, index);
                match found {
                    Some(address) => {
                        if listed {
                            let path = match menu_path {
                                Some(p) => p,
                                None => String::new(),
                            };
                            let items = match entries {
                                Some(es) => build_flat_menu_items(&es),
                                None => Vec::new(),
                            };
                            self.active_menu = Some((address.clone(), path.clone()));
                            acts.push(TrayAction::SetPopupItems(items));
                            if !path.as_str().is_empty() {
                                acts.push(TrayAction::AboutToShow { address, menu_path: path });
                            }
                        }
                    },
                    None => {},
                }
                acts
            },
        }
    }
}

} // verus!
